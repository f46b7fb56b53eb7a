//! Output for a terminal in raw mode.
use vstd::prelude::*;

use crate::cli::InputEvent;
use crate::text::{chars_of, push_char};

verus! {

/// What the terminal supports.
#[derive(Debug, Clone, Copy)]
pub struct TerminalCapabilities {
    pub color: bool,
    pub unicode: bool,
}

/// `s` with every `"\r\n"` replaced by `"\n"`, scanning from the left without overlaps
/// (what `str::replace` does).
pub open spec fn collapse_crlf(s: Seq<char>) -> Seq<char>
    decreases s.len(),
{
    if s.len() == 0 {
        s
    } else if s.len() >= 2 && s[0] == '\r' && s[1] == '\n' {
        seq!['\n'] + collapse_crlf(s.subrange(2, s.len() as int))
    } else {
        seq![s[0]] + collapse_crlf(s.drop_first())
    }
}

/// `s` with every `'\n'` replaced by `"\r\n"`.
pub open spec fn expand_lf(s: Seq<char>) -> Seq<char>
    decreases s.len(),
{
    if s.len() == 0 {
        s
    } else if s[0] == '\n' {
        seq!['\r', '\n'] + expand_lf(s.drop_first())
    } else {
        seq![s[0]] + expand_lf(s.drop_first())
    }
}

pub open spec fn ends_with_crlf(s: Seq<char>) -> bool {
    s.len() >= 2 && s[s.len() - 2] == '\r' && s[s.len() - 1] == '\n'
}

/// Line breaks as a raw terminal needs them: every line ends in `"\r\n"`, the last one too.
pub open spec fn spec_normalize_for_raw_terminal(s: Seq<char>) -> Seq<char> {
    let e = expand_lf(collapse_crlf(s));
    if ends_with_crlf(e) {
        e
    } else {
        e + seq!['\r', '\n']
    }
}

/// Both rewrites in one left-to-right pass.
spec fn crlf_pass(s: Seq<char>) -> Seq<char>
    decreases s.len(),
{
    if s.len() == 0 {
        s
    } else if s.len() >= 2 && s[0] == '\r' && s[1] == '\n' {
        seq!['\r', '\n'] + crlf_pass(s.subrange(2, s.len() as int))
    } else if s[0] == '\n' {
        seq!['\r', '\n'] + crlf_pass(s.drop_first())
    } else {
        seq![s[0]] + crlf_pass(s.drop_first())
    }
}

proof fn lemma_expand_concat(a: Seq<char>, b: Seq<char>)
    ensures
        expand_lf(a + b) == expand_lf(a) + expand_lf(b),
    decreases a.len(),
{
    if a.len() == 0 {
        assert(a + b == b);
    } else {
        assert((a + b).drop_first() == a.drop_first() + b);
        lemma_expand_concat(a.drop_first(), b);
    }
}

proof fn lemma_crlf_pass(s: Seq<char>)
    ensures
        crlf_pass(s) == expand_lf(collapse_crlf(s)),
    decreases s.len(),
{
    if s.len() == 0 {
    } else if s.len() >= 2 && s[0] == '\r' && s[1] == '\n' {
        let rest = s.subrange(2, s.len() as int);
        lemma_crlf_pass(rest);
        lemma_expand_concat(seq!['\n'], collapse_crlf(rest));
        assert(seq!['\n'].drop_first() =~= Seq::<char>::empty());
        reveal_with_fuel(expand_lf, 2);
        assert(expand_lf(seq!['\n']) =~= seq!['\r', '\n']);
    } else {
        let rest = s.drop_first();
        lemma_crlf_pass(rest);
        lemma_expand_concat(seq![s[0]], collapse_crlf(rest));
        assert(seq![s[0]].drop_first() =~= Seq::<char>::empty());
        reveal_with_fuel(expand_lf, 2);
        if s[0] == '\n' {
            assert(expand_lf(seq![s[0]]) =~= seq!['\r', '\n']);
        } else {
            assert(expand_lf(seq![s[0]]) =~= seq![s[0]]);
        }
    }
}

/// Every `'\n'` of `expand_lf(s)` comes right after a `'\r'`.
proof fn lemma_expand_lf_breaks(s: Seq<char>)
    ensures
        forall|i: int| 0 <= i < expand_lf(s).len() && #[trigger] expand_lf(s)[i] == '\n' ==> i > 0 && expand_lf(s)[i - 1] == '\r',
    decreases s.len(),
{
    if s.len() > 0 {
        lemma_expand_lf_breaks(s.drop_first());
        let head = if s[0] == '\n' { seq!['\r', '\n'] } else { seq![s[0]] };
        let t = expand_lf(s.drop_first());
        assert(expand_lf(s) == head + t);
        assert forall|i: int| 0 <= i < expand_lf(s).len() && #[trigger] expand_lf(s)[i] == '\n' implies i > 0 && expand_lf(s)[i - 1] == '\r' by {
            if i >= head.len() {
                let j = i - head.len();
                assert(t[j] == '\n');
                if j == 0 {
                    assert(head[head.len() - 1] != '\n' || head.len() == 2);
                    if head.len() == 1 {
                        assert(head[0] == s[0] && s[0] != '\n');
                        // a lone '\r' before '\n' is the only way; expand_lf never emits a bare '\n' first
                        assert(t[0] != '\n') by {
                            lemma_expand_lf_first(s.drop_first());
                        }
                    }
                }
            }
        }
    }
}

/// `expand_lf` never starts with a bare `'\n'`.
proof fn lemma_expand_lf_first(s: Seq<char>)
    ensures
        expand_lf(s).len() > 0 ==> expand_lf(s)[0] != '\n',
    decreases s.len(),
{
}

/// Rewrites the line breaks of `content` for a terminal in raw mode: `"\r\n"` and `"\n"`
/// both become `"\r\n"`, and the text always ends with one.
pub fn normalize_for_raw_terminal(content: &str) -> (r: String)
    ensures
        r@ == spec_normalize_for_raw_terminal(content@),
        ends_with_crlf(r@),
        forall|i: int| 0 <= i < r@.len() && #[trigger] r@[i] == '\n' ==> i > 0 && r@[i - 1] == '\r',
{
    let v = chars_of(content);
    let n = v.len();
    let mut out = String::new();
    let mut i: usize = 0;
    assert(v@.subrange(0, n as int) =~= v@);
    assert(out@ =~= Seq::<char>::empty());
    while i < n
        invariant
            n == v@.len(),
            v@ == content@,
            i <= n,
            out@ + crlf_pass(v@.subrange(i as int, n as int)) == crlf_pass(v@),
        decreases n - i,
    {
        let ghost rest = v@.subrange(i as int, n as int);
        if v[i] == '\r' && i + 1 < n && v[i + 1] == '\n' {
            push_char(&mut out, '\r');
            push_char(&mut out, '\n');
            assert(rest.subrange(2, rest.len() as int) =~= v@.subrange(i + 2, n as int));
            i += 2;
        } else {
            let c = v[i];
            if c == '\n' {
                push_char(&mut out, '\r');
                push_char(&mut out, '\n');
            } else {
                push_char(&mut out, c);
            }
            assert(rest.drop_first() =~= v@.subrange(i + 1, n as int));
            i += 1;
        }
    }
    proof {
        assert(v@.subrange(n as int, n as int) =~= Seq::<char>::empty());
        assert(out@ =~= crlf_pass(v@));
        lemma_crlf_pass(v@);
        lemma_expand_lf_breaks(collapse_crlf(v@));
    }
    let chars = chars_of(out.as_str());
    let len = chars.len();
    if !(len >= 2 && chars[len - 2] == '\r' && chars[len - 1] == '\n') {
        push_char(&mut out, '\r');
        push_char(&mut out, '\n');
    }
    out
}

/// A key as the terminal reports it, as far as the session reads it.
#[derive(Debug, Clone, Copy, PartialEq, Eq, Structural)]
pub enum TerminalKey {
    Up,
    Down,
    Enter,
    Backspace,
    Esc,
    Char(char),
    /// Any other key.
    Other,
}

/// A key event: the key, whether Control was held, and whether the key went down (a press or
/// a repeat, not a release).
#[derive(Debug, Clone, Copy, PartialEq, Eq, Structural)]
pub struct KeyPress {
    pub key: TerminalKey,
    pub control: bool,
    pub down: bool,
}

pub open spec fn spec_input_for_key(k: KeyPress) -> Option<InputEvent> {
    if !k.down {
        None
    } else {
        match k.key {
            TerminalKey::Up => Some(InputEvent::Up),
            TerminalKey::Down => Some(InputEvent::Down),
            TerminalKey::Enter => Some(InputEvent::Confirm),
            TerminalKey::Backspace => Some(InputEvent::Backspace),
            TerminalKey::Esc => Some(InputEvent::Back),
            TerminalKey::Char(c) => if c == 'q' || c == 'Q' {
                Some(InputEvent::Exit)
            } else if !k.control {
                Some(InputEvent::InsertChar(c))
            } else {
                None
            },
            TerminalKey::Other => None,
        }
    }
}

/// The input a key event gives: arrows move, Enter confirms, Backspace erases, Esc goes back,
/// `q` in either case exits, and another character is typed unless Control is held. Releases,
/// other keys and Control with a character give nothing.
pub fn input_for_key(k: KeyPress) -> (r: Option<InputEvent>)
    ensures
        r == spec_input_for_key(k),
{
    if !k.down {
        return None;
    }
    match k.key {
        TerminalKey::Up => Some(InputEvent::Up),
        TerminalKey::Down => Some(InputEvent::Down),
        TerminalKey::Enter => Some(InputEvent::Confirm),
        TerminalKey::Backspace => Some(InputEvent::Backspace),
        TerminalKey::Esc => Some(InputEvent::Back),
        TerminalKey::Char(c) => if c == 'q' || c == 'Q' {
            Some(InputEvent::Exit)
        } else if !k.control {
            Some(InputEvent::InsertChar(c))
        } else {
            None
        },
        TerminalKey::Other => None,
    }
}

} // verus!
