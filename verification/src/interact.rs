//! The terminal side of the interactor: the options of a question, the key
//! that selects one, and the bytes that a key sends to a running program.
use vstd::prelude::*;

use crate::text::{chars_of, first_index_of, spec_first_index_of, string_of_range};

verus! {

/// The key of option `i` when it names none: the digit `i + 1`.
pub open spec fn spec_digit(i: int) -> char {
    (48 + i + 1) as char
}

/// An option written `k/label` is chosen with key `k` and shown as `label`;
/// any other option (no `/`, or nothing before it) is chosen with the digit
/// of its position, counted from one, and shown whole.
pub open spec fn spec_option(i: int, s: Seq<char>) -> (char, Seq<char>) {
    match spec_first_index_of(s, '/') {
        Some(k) if k > 0 => (s[0], s.subrange(k + 1, s.len() as int)),
        _ => (spec_digit(i), s),
    }
}

/// The keys and labels of a question's options.
/// At most nine options: the digit of a tenth cannot be written, and a
/// question with more is refused.
pub fn confirm_options(opts: &Vec<String>) -> (v: Vec<(char, String)>)
    requires
        opts@.len() <= 9,
    ensures
        v@.len() == opts@.len(),
        forall|i: int|
            0 <= i < opts@.len() ==> (#[trigger] v@[i]).0 == spec_option(i, opts@[i]@).0
                && v@[i].1@ == spec_option(i, opts@[i]@).1,
{
    let mut v: Vec<(char, String)> = Vec::new();
    let mut i: usize = 0;
    while i < opts.len()
        invariant
            i <= opts@.len() <= 9,
            v@.len() == i,
            forall|k: int|
                0 <= k < i ==> (#[trigger] v@[k]).0 == spec_option(k, opts@[k]@).0 && v@[k].1@
                    == spec_option(k, opts@[k]@).1,
        decreases opts@.len() - i,
    {
        let cs = chars_of(opts[i].as_str());
        let digit = ((i + 1) as u8 + 48u8) as char;
        proof {
            assert(digit == spec_digit(i as int));
        }
        let entry = match first_index_of(cs.as_slice(), '/') {
            Some(k) => {
                if k > 0 {
                    proof {
                        crate::text::lemma_first_index_of_bounds(cs@, '/');
                        assert(spec_first_index_of(cs@, '/') == Some(k as int));
                        assert(k < cs@.len());
                        assert(k + 1 <= cs.len());
                    }
                    (cs[0], string_of_range(cs.as_slice(), k + 1, cs.len()))
                } else {
                    (digit, opts[i].clone())
                }
            },
            None => (digit, opts[i].clone()),
        };
        v.push(entry);
        i = i + 1;
    }
    v
}

/// The option that key `c` selects: the last one with that key.
pub open spec fn spec_select(keys: Seq<char>, c: char, n: int) -> Option<int>
    decreases n,
{
    if n <= 0 {
        None
    } else if keys[n - 1] == c {
        Some(n - 1)
    } else {
        spec_select(keys, c, n - 1)
    }
}

/// The keys of a question's options.
pub open spec fn option_keys(opts: Seq<(char, String)>) -> Seq<char> {
    Seq::new(opts.len(), |i: int| opts[i].0)
}

/// The option that key `c` selects, if any.
pub fn select_option(opts: &Vec<(char, String)>, c: char) -> (r: Option<usize>)
    ensures
        r matches Some(i) ==> spec_select(option_keys(opts@), c, opts@.len() as int) == Some(
            i as int,
        ),
        r is None ==> spec_select(option_keys(opts@), c, opts@.len() as int) is None,
{
    let mut n: usize = opts.len();
    while n > 0
        invariant
            n <= opts@.len(),
            spec_select(option_keys(opts@), c, opts@.len() as int) == spec_select(
                option_keys(opts@),
                c,
                n as int,
            ),
        decreases n,
    {
        if opts[n - 1].0 == c {
            return Some(n - 1);
        }
        n = n - 1;
    }
    None
}

/// Modifier keys held with a key.
#[derive(Debug, Clone, Copy, PartialEq, Eq, Structural)]
pub enum Modifiers {
    /// No modifier.
    NoModifier,
    /// Control, alone.
    Control,
    /// Any other combination.
    Other,
}

/// A key.
#[derive(Debug, Clone, Copy, PartialEq, Eq, Structural)]
pub enum KeyCode {
    Char(char),
    Left,
    Right,
    Up,
    Down,
    Backspace,
    Enter,
    Esc,
    /// Any other key.
    Other,
}

/// A terminal event.
#[derive(Debug, Clone, Copy, PartialEq, Eq, Structural)]
pub enum TermEvent {
    Key { code: KeyCode, modifiers: Modifiers },
    Resize { cols: u16, rows: u16 },
    Other,
}

/// What an event does to a program that owns the terminal.
#[derive(Debug, Clone, PartialEq, Eq)]
pub enum AskAction {
    /// Send these bytes to the program.
    Send(Vec<u8>),
    /// Resize the program's window.
    Resize { cols: u16, rows: u16 },
    /// Nothing.
    Ignore,
}

/// The byte a character key sends: its code point cut to eight bits.
pub open spec fn spec_char_byte(c: char) -> u8 {
    ((c as u32) % 256) as u8
}

/// The bytes a key sends (none for keys that are not handled).
pub open spec fn spec_key_bytes(code: KeyCode, modifiers: Modifiers) -> Option<Seq<u8>> {
    match (modifiers, code) {
        (Modifiers::Control, KeyCode::Char('c')) => Some(seq![3u8]),
        (Modifiers::Control, KeyCode::Char('d')) => Some(seq![4u8]),
        (_, KeyCode::Left) => Some(seq![27u8, 91, 68]),
        (_, KeyCode::Right) => Some(seq![27u8, 91, 67]),
        (_, KeyCode::Up) => Some(seq![27u8, 91, 65]),
        (_, KeyCode::Down) => Some(seq![27u8, 91, 66]),
        (_, KeyCode::Char(c)) => Some(seq![spec_char_byte(c)]),
        (_, KeyCode::Backspace) => Some(seq![127u8]),
        (_, KeyCode::Enter) => Some(seq![13u8]),
        (_, KeyCode::Esc) => Some(seq![27u8]),
        _ => None,
    }
}

fn char_byte(c: char) -> (b: u8)
    ensures
        b == spec_char_byte(c),
{
    let u = c as u32;
    let b = (u & 0xff) as u8;
    assert(b == (u % 256) as u8) by (bit_vector)
        requires
            b == (u & 0xff) as u8,
    ;
    b
}

/// What an event does while a program owns the terminal.
pub fn ask_action(ev: TermEvent) -> (a: AskAction)
    ensures
        match ev {
            TermEvent::Key { code, modifiers } => match spec_key_bytes(code, modifiers) {
                Some(bytes) => a matches AskAction::Send(v) && v@ == bytes,
                None => a == AskAction::Ignore,
            },
            TermEvent::Resize { cols, rows } => a == (AskAction::Resize { cols, rows }),
            TermEvent::Other => a == AskAction::Ignore,
        },
{
    match ev {
        TermEvent::Key { code, modifiers } => {
            let bytes: Option<Vec<u8>> = match (modifiers, code) {
                (Modifiers::Control, KeyCode::Char('c')) => Some(vec![3u8]),
                (Modifiers::Control, KeyCode::Char('d')) => Some(vec![4u8]),
                (_, KeyCode::Left) => Some(vec![27u8, 91, 68]),
                (_, KeyCode::Right) => Some(vec![27u8, 91, 67]),
                (_, KeyCode::Up) => Some(vec![27u8, 91, 65]),
                (_, KeyCode::Down) => Some(vec![27u8, 91, 66]),
                (_, KeyCode::Char(c)) => Some(vec![char_byte(c)]),
                (_, KeyCode::Backspace) => Some(vec![127u8]),
                (_, KeyCode::Enter) => Some(vec![13u8]),
                (_, KeyCode::Esc) => Some(vec![27u8]),
                _ => None,
            };
            match bytes {
                Some(v) => {
                    assert(spec_key_bytes(code, modifiers) is Some);
                    assert(v@ =~= spec_key_bytes(code, modifiers).unwrap());
                    AskAction::Send(v)
                },
                None => AskAction::Ignore,
            }
        },
        TermEvent::Resize { cols, rows } => AskAction::Resize { cols, rows },
        TermEvent::Other => AskAction::Ignore,
    }
}

/// The option an event selects while a question waits: only a character key
/// pressed without modifier selects, and only when some option has that key.
pub fn confirm_selection(opts: &Vec<(char, String)>, ev: TermEvent) -> (r: Option<usize>)
    ensures
        match ev {
            TermEvent::Key { code: KeyCode::Char(c), modifiers: Modifiers::NoModifier } => match r {
                Some(i) => spec_select(option_keys(opts@), c, opts@.len() as int) == Some(i as int),
                None => spec_select(option_keys(opts@), c, opts@.len() as int) is None,
            },
            _ => r is None,
        },
{
    match ev {
        TermEvent::Key { code: KeyCode::Char(c), modifiers: Modifiers::NoModifier } => select_option(
            opts,
            c,
        ),
        _ => None,
    }
}

/// Options written without a key are chosen by their position: the digit
/// `i + 1` selects option `i`.
pub proof fn law_digit_selects_position(opts: Seq<Seq<char>>, i: int)
    requires
        opts.len() <= 9,
        0 <= i < opts.len(),
        forall|k: int| 0 <= k < opts.len() ==> spec_first_index_of(#[trigger] opts[k], '/') is None,
    ensures
        spec_select(
            Seq::new(opts.len(), |k: int| spec_option(k, opts[k]).0),
            spec_digit(i),
            opts.len() as int,
        ) == Some(i),
{
    let keys = Seq::new(opts.len(), |k: int| spec_option(k, opts[k]).0);
    assert forall|k: int| 0 <= k < opts.len() implies #[trigger] keys[k] == spec_digit(k) by {}
    lemma_select_digits(keys, i, opts.len() as int);
}

proof fn lemma_select_digits(keys: Seq<char>, i: int, n: int)
    requires
        0 <= i < n <= keys.len(),
        n <= 9,
        forall|k: int| 0 <= k < keys.len() ==> #[trigger] keys[k] == spec_digit(k),
    ensures
        spec_select(keys, spec_digit(i), n) == Some(i),
    decreases n,
{
    if n - 1 != i {
        assert(keys[n - 1] != spec_digit(i)) by {
            assert((48 + (n - 1) + 1) != (48 + i + 1));
        }
        lemma_select_digits(keys, i, n - 1);
    }
}

} // verus!
