pub mod commands;
pub mod copy;
pub mod menu_state;
pub mod navigation;
pub mod output;
pub mod spinner;
pub mod styles;
pub mod terminal;
pub mod views;

use vstd::prelude::*;

use crate::text::{char_views, chars_are, chars_of, split, split_chars, string_from_chars, trim_chars, trim_ws, concat};

verus! {

/// One keystroke of the interactive session, or one token of a script.
#[derive(Debug, Clone, PartialEq, Eq)]
pub enum InputEvent {
    Up,
    Down,
    Confirm,
    Back,
    Exit,
    Backspace,
    InsertChar(char),
    InsertText(String),
}

/// The event a script token stands for, in English or Spanish.
pub open spec fn spec_token_event(t: Seq<char>) -> Option<InputEvent> {
    if t == "up"@ || t == "arriba"@ {
        Some(InputEvent::Up)
    } else if t == "down"@ || t == "abajo"@ {
        Some(InputEvent::Down)
    } else if t == "enter"@ || t == "confirm"@ || t == "confirmar"@ || t == "si"@ || t == "sí"@ || t == "s"@ {
        Some(InputEvent::Confirm)
    } else if t == "back"@ || t == "esc"@ || t == "cancel"@ || t == "cancelar"@ || t == "no"@ || t == "b"@ {
        Some(InputEvent::Back)
    } else if t == "quit"@ || t == "exit"@ || t == "q"@ || t == "salir"@ {
        Some(InputEvent::Exit)
    } else {
        None
    }
}

/// The events of the comma-separated pieces: each piece trimmed, empty ones skipped; the
/// first unsupported token, if any.
pub open spec fn parse_pieces(ps: Seq<Seq<char>>) -> Result<Seq<InputEvent>, Seq<char>>
    decreases ps.len(),
{
    if ps.len() == 0 {
        Ok(Seq::empty())
    } else {
        let t = trim_ws(ps[0]);
        if t.len() == 0 {
            parse_pieces(ps.drop_first())
        } else {
            match spec_token_event(t) {
                None => Err(t),
                Some(e) => match parse_pieces(ps.drop_first()) {
                    Ok(es) => Ok(seq![e] + es),
                    Err(x) => Err(x),
                },
            }
        }
    }
}

pub open spec fn prepend_events(acc: Seq<InputEvent>, r: Result<Seq<InputEvent>, Seq<char>>) -> Result<Seq<InputEvent>, Seq<char>> {
    match r {
        Ok(es) => Ok(acc + es),
        Err(x) => Err(x),
    }
}

pub open spec fn unsupported_message(token: Seq<char>) -> Seq<char> {
    "token de entrada no soportado: "@ + token
}

fn token_event(t: &Vec<char>) -> (r: Option<InputEvent>)
    ensures
        r == spec_token_event(t@),
{
    if chars_are(t, "up") || chars_are(t, "arriba") {
        Some(InputEvent::Up)
    } else if chars_are(t, "down") || chars_are(t, "abajo") {
        Some(InputEvent::Down)
    } else if chars_are(t, "enter") || chars_are(t, "confirm") || chars_are(t, "confirmar")
        || chars_are(t, "si") || chars_are(t, "sí") || chars_are(t, "s") {
        Some(InputEvent::Confirm)
    } else if chars_are(t, "back") || chars_are(t, "esc") || chars_are(t, "cancel")
        || chars_are(t, "cancelar") || chars_are(t, "no") || chars_are(t, "b") {
        Some(InputEvent::Back)
    } else if chars_are(t, "quit") || chars_are(t, "exit") || chars_are(t, "q") || chars_are(t, "salir") {
        Some(InputEvent::Exit)
    } else {
        None
    }
}

/// The events of a script such as `down, enter, q`: the tokens between commas, trimmed,
/// empty ones skipped; the first unsupported token is refused with its message.
pub fn parse_script(script: &str) -> (r: Result<Vec<InputEvent>, String>)
    ensures
        match parse_pieces(split(script@, ',')) {
            Ok(es) => r matches Ok(v) && v@ == es,
            Err(t) => r matches Err(m) && m@ == unsupported_message(t),
        },
{
    let chars = chars_of(script);
    let pieces = split_chars(&chars, ',');
    let ghost all = char_views(pieces@);
    let n = pieces.len();
    let mut events: Vec<InputEvent> = Vec::new();
    let mut i: usize = 0;
    proof {
        assert(all.subrange(0, n as int) =~= all);
        match parse_pieces(all) {
            Ok(es) => {
                assert(Seq::<InputEvent>::empty() + es =~= es);
            },
            Err(_) => {},
        }
    }
    while i < n
        invariant
            i <= n,
            n == pieces@.len(),
            all == char_views(pieces@),
            all == split(script@, ','),
            parse_pieces(all) == prepend_events(events@, parse_pieces(all.subrange(i as int, n as int))),
        decreases n - i,
    {
        let ghost rest = all.subrange(i as int, n as int);
        assert(rest[0] == pieces@[i as int]@);
        assert(rest.drop_first() =~= all.subrange(i + 1, n as int));
        let t = trim_chars(&pieces[i]);
        if t.len() != 0 {
            match token_event(&t) {
                None => {
                    let token = string_from_chars(&t);
                    return Err(concat("token de entrada no soportado: ", token.as_str()));
                },
                Some(e) => {
                    let ghost before = events@;
                    events.push(e);
                    proof {
                        match parse_pieces(all.subrange(i + 1, n as int)) {
                            Ok(es) => {
                                assert(before + (seq![e] + es) =~= events@ + es);
                            },
                            Err(_) => {},
                        }
                    }
                },
            }
        }
        i += 1;
    }
    proof {
        assert(all.subrange(n as int, n as int) =~= Seq::<Seq<char>>::empty());
        assert(parse_pieces(Seq::<Seq<char>>::empty()) == Ok::<Seq<InputEvent>, Seq<char>>(Seq::empty()));
        assert(events@ + Seq::<InputEvent>::empty() =~= events@);
    }
    Ok(events)
}

} // verus!
