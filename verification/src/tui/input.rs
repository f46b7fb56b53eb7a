//! Keys and scripted tokens of the earlier English interactive session.
use vstd::prelude::*;

use crate::text::{chars_are, chars_of, concat, split, split_chars, string_from_chars, trim_chars, trim_ws, views};

verus! {

/// What the session reacts to.
#[derive(Debug, Clone, Copy, PartialEq, Eq, Structural)]
pub enum InputEvent {
    Up,
    Down,
    Confirm,
    Back,
    Exit,
}

/// A key as the terminal reports it: the keys the session knows, any character, or another key.
#[derive(Debug, Clone, Copy, PartialEq, Eq, Structural)]
pub enum Key {
    Up,
    Down,
    Enter,
    Esc,
    Backspace,
    Char(char),
    Other,
}

pub open spec fn spec_translate_key(key: Key) -> Option<InputEvent> {
    match key {
        Key::Up => Some(InputEvent::Up),
        Key::Char(c) => if c == 'k' {
            Some(InputEvent::Up)
        } else if c == 'j' {
            Some(InputEvent::Down)
        } else if c == 'q' {
            Some(InputEvent::Exit)
        } else if c == 'y' {
            Some(InputEvent::Confirm)
        } else if c == 'n' {
            Some(InputEvent::Back)
        } else {
            None
        },
        Key::Down => Some(InputEvent::Down),
        Key::Enter => Some(InputEvent::Confirm),
        Key::Esc | Key::Backspace => Some(InputEvent::Back),
        Key::Other => None,
    }
}

/// The event of a key: arrows and `k`/`j` move, Enter and `y` confirm, Esc, Backspace and `n`
/// go back, `q` exits.
pub fn translate_key(key: Key) -> (r: Option<InputEvent>)
    ensures
        r == spec_translate_key(key),
{
    match key {
        Key::Up => Some(InputEvent::Up),
        Key::Down => Some(InputEvent::Down),
        Key::Enter => Some(InputEvent::Confirm),
        Key::Esc | Key::Backspace => Some(InputEvent::Back),
        Key::Char(c) => if c == 'k' {
            Some(InputEvent::Up)
        } else if c == 'j' {
            Some(InputEvent::Down)
        } else if c == 'q' {
            Some(InputEvent::Exit)
        } else if c == 'y' {
            Some(InputEvent::Confirm)
        } else if c == 'n' {
            Some(InputEvent::Back)
        } else {
            None
        },
        Key::Other => None,
    }
}

pub open spec fn spec_token(t: Seq<char>) -> Option<InputEvent> {
    if t == "up"@ {
        Some(InputEvent::Up)
    } else if t == "down"@ {
        Some(InputEvent::Down)
    } else if t == "enter"@ || t == "confirm"@ {
        Some(InputEvent::Confirm)
    } else if t == "back"@ || t == "esc"@ || t == "cancel"@ {
        Some(InputEvent::Back)
    } else if t == "quit"@ || t == "exit"@ || t == "q"@ {
        Some(InputEvent::Exit)
    } else {
        None
    }
}

/// The events of comma-separated tokens, trimmed, empty ones skipped; the first unknown token.
pub open spec fn spec_tokens(ps: Seq<Seq<char>>) -> Result<Seq<InputEvent>, Seq<char>>
    decreases ps.len(),
{
    if ps.len() == 0 {
        Ok(Seq::empty())
    } else {
        let t = trim_ws(ps[0]);
        if t.len() == 0 {
            spec_tokens(ps.drop_first())
        } else {
            match spec_token(t) {
                None => Err(t),
                Some(e) => match spec_tokens(ps.drop_first()) {
                    Ok(es) => Ok(seq![e] + es),
                    Err(x) => Err(x),
                },
            }
        }
    }
}

pub open spec fn unsupported_token(t: Seq<char>) -> Seq<char> {
    "unsupported scripted input token: "@ + t
}

fn token(t: &Vec<char>) -> (r: Option<InputEvent>)
    ensures
        r == spec_token(t@),
{
    if chars_are(t, "up") {
        Some(InputEvent::Up)
    } else if chars_are(t, "down") {
        Some(InputEvent::Down)
    } else if chars_are(t, "enter") || chars_are(t, "confirm") {
        Some(InputEvent::Confirm)
    } else if chars_are(t, "back") || chars_are(t, "esc") || chars_are(t, "cancel") {
        Some(InputEvent::Back)
    } else if chars_are(t, "quit") || chars_are(t, "exit") || chars_are(t, "q") {
        Some(InputEvent::Exit)
    } else {
        None
    }
}

/// Reads a script of comma-separated tokens.
pub fn parse_script(script: &str) -> (r: Result<Vec<InputEvent>, String>)
    ensures
        match spec_tokens(split(script@, ',')) {
            Ok(es) => r matches Ok(v) && v@ == es,
            Err(t) => r matches Err(m) && m@ == unsupported_token(t),
        },
{
    let chars = chars_of(script);
    let pieces = split_chars(&chars, ',');
    let ghost ps = crate::text::char_views(pieces@);
    let mut events: Vec<InputEvent> = Vec::new();
    let mut i: usize = 0;
    assert(ps.subrange(0, ps.len() as int) =~= ps);
    while i < pieces.len()
        invariant
            ps == crate::text::char_views(pieces@),
            ps == split(script@, ','),
            i <= pieces.len(),
            spec_tokens(ps) == (match spec_tokens(ps.subrange(i as int, ps.len() as int)) {
                Ok(es) => Ok::<Seq<InputEvent>, Seq<char>>(events@ + es),
                Err(x) => Err(x),
            }),
        decreases pieces.len() - i,
    {
        let ghost rest = ps.subrange(i as int, ps.len() as int);
        assert(rest[0] == pieces@[i as int]@);
        assert(rest.drop_first() =~= ps.subrange(i + 1, ps.len() as int));
        let t = trim_chars(&pieces[i]);
        if t.len() > 0 {
            match token(&t) {
                None => {
                    return Err(concat("unsupported scripted input token: ", string_from_chars(&t).as_str()));
                },
                Some(e) => {
                    let ghost before = events@;
                    events.push(e);
                    proof {
                        match spec_tokens(ps.subrange(i + 1, ps.len() as int)) {
                            Ok(es) => {
                                assert(before + (seq![e] + es) =~= events@ + es);
                            },
                            Err(x) => {},
                        }
                    }
                },
            }
        }
        i += 1;
    }
    proof {
        assert(ps.subrange(i as int, ps.len() as int) =~= Seq::<Seq<char>>::empty());
        assert(events@ + Seq::<InputEvent>::empty() =~= events@);
    }
    Ok(events)
}

} // verus!
