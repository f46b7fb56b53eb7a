//! The progress spinner.
use vstd::prelude::*;

use crate::text::concat3;

use super::styles::StyleProfile;

verus! {

pub open spec fn unicode_frames() -> Seq<Seq<char>> {
    seq!["⠋"@, "⠙"@, "⠹"@, "⠸"@, "⠼"@, "⠴"@, "⠦"@, "⠧"@]
}

pub open spec fn ascii_frames() -> Seq<Seq<char>> {
    seq!["-"@, "\\"@, "|"@, "/"@]
}

pub open spec fn spec_frame(step: nat, profile: StyleProfile) -> Seq<char> {
    if profile.unicode {
        unicode_frames()[(step % 8) as int]
    } else {
        ascii_frames()[(step % 4) as int]
    }
}

/// The spinner frame for a step: the eight braille frames in a cycle, or four ASCII ones.
pub fn frame(step: usize, profile: StyleProfile) -> (s: &'static str)
    ensures
        s@ == spec_frame(step as nat, profile),
{
    if profile.unicode {
        match step % 8 {
            0 => "⠋",
            1 => "⠙",
            2 => "⠹",
            3 => "⠸",
            4 => "⠼",
            5 => "⠴",
            6 => "⠦",
            _ => "⠧",
        }
    } else {
        match step % 4 {
            0 => "-",
            1 => "\\",
            2 => "|",
            _ => "/",
        }
    }
}

/// The spinner frame, a space and the label.
pub fn line(label: &str, step: usize, profile: StyleProfile) -> (s: String)
    ensures
        s@ == spec_frame(step as nat, profile) + " "@ + label@,
{
    concat3(frame(step, profile), " ", label)
}

} // verus!
