//! Terminal styling: ANSI colours, badges and menu lines.
use vstd::prelude::*;

use crate::storage::state::{ProtectionMode, RiskLevel};
use crate::text::{concat, join, join_strings, owned, views};

use super::navigation::ResultTone;

verus! {

/// What the terminal can show.
#[derive(Debug, Clone, Copy)]
pub struct StyleProfile {
    pub color: bool,
    pub unicode: bool,
}

/// The tone of a badge.
#[derive(Debug, Clone, Copy, PartialEq, Eq, Structural)]
pub enum Tone {
    Info,
    Success,
    Warning,
    Error,
}

/// `label` wrapped in the ANSI SGR sequence `code` when colour is on; `label` otherwise.
pub open spec fn colored(label: Seq<char>, code: Seq<char>, profile: StyleProfile) -> Seq<char> {
    if profile.color {
        "\u{1b}["@ + code + "m"@ + label + "\u{1b}[0m"@
    } else {
        label
    }
}

pub fn colorize(label: &str, code: &str, profile: StyleProfile) -> (s: String)
    ensures
        s@ == colored(label@, code@, profile),
{
    if profile.color {
        let mut s = owned("\u{1b}[");
        s.append(code);
        s.append("m");
        s.append(label);
        s.append("\u{1b}[0m");
        s
    } else {
        owned(label)
    }
}

/// A title: bold cyan.
pub fn title(label: &str, profile: StyleProfile) -> (s: String)
    ensures
        s@ == colored(label@, "1;36"@, profile),
{
    colorize(label, "1;36", profile)
}

pub open spec fn section_prefix(profile: StyleProfile) -> Seq<char> {
    if profile.unicode {
        "◆"@
    } else {
        "*"@
    }
}

/// A section title: a diamond (or `*`), a space and the label, in bold white.
pub fn section_title(label: &str, profile: StyleProfile) -> (s: String)
    ensures
        s@ == colored(section_prefix(profile) + " "@ + label@, "1;37"@, profile),
{
    let prefix = if profile.unicode {
        "◆"
    } else {
        "*"
    };
    let mut text = concat(prefix, " ");
    text.append(label);
    colorize(text.as_str(), "1;37", profile)
}

/// Emphasis: bold cyan.
pub fn emphasis(label: &str, profile: StyleProfile) -> (s: String)
    ensures
        s@ == colored(label@, "1;36"@, profile),
{
    colorize(label, "1;36", profile)
}

/// An accent: bold blue.
pub fn accent_blue(label: &str, profile: StyleProfile) -> (s: String)
    ensures
        s@ == colored(label@, "1;34"@, profile),
{
    colorize(label, "1;34", profile)
}

/// Muted text: dim white.
pub fn muted(label: &str, profile: StyleProfile) -> (s: String)
    ensures
        s@ == colored(label@, "2;37"@, profile),
{
    colorize(label, "2;37", profile)
}

/// A warning: bold yellow.
pub fn warning(label: &str, profile: StyleProfile) -> (s: String)
    ensures
        s@ == colored(label@, "1;33"@, profile),
{
    colorize(label, "1;33", profile)
}

pub open spec fn tone_code(tone: ResultTone) -> Seq<char> {
    match tone {
        ResultTone::Info => "1;36"@,
        ResultTone::Success => "1;32"@,
        ResultTone::Warning => "1;33"@,
        ResultTone::Error => "1;31"@,
    }
}

/// Text in the colour of a result tone: cyan, green, yellow or red.
pub fn tone_text(label: &str, tone: ResultTone, profile: StyleProfile) -> (s: String)
    ensures
        s@ == colored(label@, tone_code(tone), profile),
{
    let code = match tone {
        ResultTone::Info => "1;36",
        ResultTone::Success => "1;32",
        ResultTone::Warning => "1;33",
        ResultTone::Error => "1;31",
    };
    colorize(label, code, profile)
}

/// Badges side by side, two spaces apart.
pub fn inline_badges(parts: &[String]) -> (s: String)
    ensures
        s@ == join(views(parts@), "  "@),
{
    join_strings(parts, "  ")
}

pub open spec fn badge_icon(tone: Tone, profile: StyleProfile) -> Seq<char> {
    match tone {
        Tone::Info => if profile.unicode { "•"@ } else { "-"@ },
        Tone::Success => if profile.unicode { "✓"@ } else { "+"@ },
        Tone::Warning => if profile.unicode { "▲"@ } else { "!"@ },
        Tone::Error => if profile.unicode { "✕"@ } else { "x"@ },
    }
}

pub open spec fn spec_result_tone(tone: Tone) -> ResultTone {
    match tone {
        Tone::Info => ResultTone::Info,
        Tone::Success => ResultTone::Success,
        Tone::Warning => ResultTone::Warning,
        Tone::Error => ResultTone::Error,
    }
}

/// The result tone of the same name as a badge tone.
pub fn result_tone(tone: Tone) -> (r: ResultTone)
    ensures
        r == spec_result_tone(tone),
{
    match tone {
        Tone::Info => ResultTone::Info,
        Tone::Success => ResultTone::Success,
        Tone::Warning => ResultTone::Warning,
        Tone::Error => ResultTone::Error,
    }
}

/// `icon label: value` in the colour of the tone.
pub fn status_badge(label: &str, value: &str, tone: Tone, profile: StyleProfile) -> (s: String)
    ensures
        s@ == colored(
            badge_icon(tone, profile) + " "@ + label@ + ": "@ + value@,
            tone_code(spec_result_tone(tone)),
            profile,
        ),
{
    let icon = match tone {
        Tone::Info => if profile.unicode { "•" } else { "-" },
        Tone::Success => if profile.unicode { "✓" } else { "+" },
        Tone::Warning => if profile.unicode { "▲" } else { "!" },
        Tone::Error => if profile.unicode { "✕" } else { "x" },
    };
    let mut text = concat(icon, " ");
    text.append(label);
    text.append(": ");
    text.append(value);
    tone_text(text.as_str(), result_tone(tone), profile)
}

pub open spec fn menu_pointer(selected: bool, profile: StyleProfile) -> Seq<char> {
    if selected {
        if profile.unicode { "›"@ } else { ">"@ }
    } else {
        " "@
    }
}

pub open spec fn spec_menu_line(label: Seq<char>, selected: bool, profile: StyleProfile) -> Seq<char> {
    let text = menu_pointer(selected, profile) + " "@ + label;
    if selected {
        colored(text, "1;32"@, profile)
    } else {
        text
    }
}

/// A menu line: a pointer when selected (a space otherwise), a space and the label; the
/// selected line is green.
pub fn menu_line(label: &str, selected: bool, profile: StyleProfile) -> (s: String)
    ensures
        s@ == spec_menu_line(label@, selected, profile),
{
    let pointer = if selected {
        if profile.unicode { "›" } else { ">" }
    } else {
        " "
    };
    let mut text = concat(pointer, " ");
    text.append(label);
    if selected {
        colorize(text.as_str(), "1;32", profile)
    } else {
        text
    }
}

pub open spec fn spec_menu_description(label: Seq<char>, selected: bool, profile: StyleProfile) -> Seq<char> {
    colored((if selected { "    "@ } else { "  "@ }) + label, "2;37"@, profile)
}

/// A muted description under a menu line, indented four spaces when selected and two otherwise.
pub fn menu_description(label: &str, selected: bool, profile: StyleProfile) -> (s: String)
    ensures
        s@ == spec_menu_description(label@, selected, profile),
{
    let prefix = if selected { "    " } else { "  " };
    let text = concat(prefix, label);
    muted(text.as_str(), profile)
}

pub open spec fn spec_tone_for_mode(mode: ProtectionMode) -> Tone {
    match mode {
        ProtectionMode::Inactive => Tone::Info,
        ProtectionMode::Active => Tone::Success,
        ProtectionMode::Degraded => Tone::Error,
        ProtectionMode::Recovering => Tone::Warning,
    }
}

/// Inactive is informative, active a success, degraded an error and recovering a warning.
pub fn tone_for_mode(mode: ProtectionMode) -> (t: Tone)
    ensures
        t == spec_tone_for_mode(mode),
{
    match mode {
        ProtectionMode::Inactive => Tone::Info,
        ProtectionMode::Active => Tone::Success,
        ProtectionMode::Degraded => Tone::Error,
        ProtectionMode::Recovering => Tone::Warning,
    }
}

pub open spec fn spec_tone_for_risk(risk: RiskLevel) -> Tone {
    match risk {
        RiskLevel::Normal => Tone::Success,
        RiskLevel::Warning => Tone::Warning,
        RiskLevel::Critical => Tone::Error,
    }
}

/// Normal risk is a success, a warning a warning and critical risk an error.
pub fn tone_for_risk(risk: RiskLevel) -> (t: Tone)
    ensures
        t == spec_tone_for_risk(risk),
{
    match risk {
        RiskLevel::Normal => Tone::Success,
        RiskLevel::Warning => Tone::Warning,
        RiskLevel::Critical => Tone::Error,
    }
}

pub open spec fn spec_tone_from_result(tone: ResultTone) -> Tone {
    match tone {
        ResultTone::Info => Tone::Info,
        ResultTone::Success => Tone::Success,
        ResultTone::Warning => Tone::Warning,
        ResultTone::Error => Tone::Error,
    }
}

/// The badge tone of the same name as a result tone.
pub fn tone_from_result(tone: ResultTone) -> (t: Tone)
    ensures
        t == spec_tone_from_result(tone),
{
    match tone {
        ResultTone::Info => Tone::Info,
        ResultTone::Success => Tone::Success,
        ResultTone::Warning => Tone::Warning,
        ResultTone::Error => Tone::Error,
    }
}

/// Converting a result tone to a badge tone and back gives the same tone.
pub proof fn lemma_tone_round_trip(tone: ResultTone)
    ensures
        spec_result_tone(spec_tone_from_result(tone)) == tone,
{
}

} // verus!
