//! Reading key combinations such as `Ctrl+Shift+F5` for the global shortcuts.
use crate::text::{lower_of, lowercase, owned, trim_text, trimmed_of, views};
use vstd::prelude::*;

verus! {

/// Modifier keys held with a shortcut.
#[derive(Clone, Copy, Debug, PartialEq, Eq, Structural)]
pub struct Modifiers {
    pub ctrl: bool,
    pub alt: bool,
    pub shift: bool,
    pub meta: bool,
}

/// The main key of a shortcut.
#[derive(Clone, Copy, Debug, PartialEq, Eq, Structural)]
pub enum KeyCode {
    /// A letter key, 0 for A through 25 for Z.
    Letter(u8),
    /// A digit key of the main block.
    Digit(u8),
    /// A function key, 1 for F1 through 12 for F12.
    Function(u8),
    Space,
    Enter,
    Escape,
    Tab,
    Backspace,
    Delete,
}

/// A key combination: modifiers and one main key.
#[derive(Clone, Copy, Debug, PartialEq, Eq, Structural)]
pub struct Shortcut {
    pub modifiers: Modifiers,
    pub key: KeyCode,
}

/// Why a key combination was not understood.
pub enum ShortcutError {
    /// A part names neither a modifier nor a supported key; it is given in
    /// lower case.
    UnsupportedKey(String),
    /// No part names a main key.
    NoKey,
}

impl ShortcutError {
    pub fn message(&self) -> (r: String)
        ensures
            *self is NoKey ==> r@ == "未找到有效的按键"@,
            self matches ShortcutError::UnsupportedKey(k) ==> r@ == "不支持的按键: "@ + k@,
    {
        match self {
            ShortcutError::UnsupportedKey(k) => {
                let mut m = String::from_str("不支持的按键: ");
                m.append(k.as_str());
                m
            },
            ShortcutError::NoKey => String::from_str("未找到有效的按键"),
        }
    }
}

/// What one part of a combination names.
pub enum Part {
    Ctrl,
    Alt,
    Shift,
    Meta,
    Key(KeyCode),
    Unknown,
}

/// The meaning of a part written in lower case.
pub open spec fn part_of(t: Seq<char>) -> Part {
    if t == "ctrl"@ || t == "control"@ {
        Part::Ctrl
    } else if t == "alt"@ {
        Part::Alt
    } else if t == "shift"@ {
        Part::Shift
    } else if t == "meta"@ || t == "cmd"@ || t == "super"@ {
        Part::Meta
    } else if t.len() == 1 && 'a' <= t[0] <= 'z' {
        Part::Key(KeyCode::Letter((t[0] as u32 - 'a' as u32) as u8))
    } else if t.len() == 1 && '0' <= t[0] <= '9' {
        Part::Key(KeyCode::Digit((t[0] as u32 - '0' as u32) as u8))
    } else if t.len() == 2 && t[0] == 'f' && '1' <= t[1] <= '9' {
        Part::Key(KeyCode::Function((t[1] as u32 - '0' as u32) as u8))
    } else if t.len() == 3 && t[0] == 'f' && t[1] == '1' && '0' <= t[2] <= '2' {
        Part::Key(KeyCode::Function((10 + t[2] as u32 - '0' as u32) as u8))
    } else if t == "space"@ {
        Part::Key(KeyCode::Space)
    } else if t == "enter"@ {
        Part::Key(KeyCode::Enter)
    } else if t == "escape"@ {
        Part::Key(KeyCode::Escape)
    } else if t == "tab"@ {
        Part::Key(KeyCode::Tab)
    } else if t == "backspace"@ {
        Part::Key(KeyCode::Backspace)
    } else if t == "delete"@ {
        Part::Key(KeyCode::Delete)
    } else {
        Part::Unknown
    }
}

pub open spec fn no_modifiers() -> Modifiers {
    Modifiers { ctrl: false, alt: false, shift: false, meta: false }
}

/// Reads parts from left to right: modifiers add up, a later key replaces
/// an earlier one, and the first part that names nothing stops the reading
/// with that part.
pub open spec fn read_parts(parts: Seq<Seq<char>>) -> Result<(Modifiers, Option<KeyCode>), Seq<char>>
    decreases parts.len(),
{
    if parts.len() == 0 {
        Ok((no_modifiers(), None))
    } else {
        match read_parts(parts.drop_last()) {
            Err(e) => Err(e),
            Ok((m, k)) => match part_of(parts.last()) {
                Part::Ctrl => Ok((Modifiers { ctrl: true, ..m }, k)),
                Part::Alt => Ok((Modifiers { alt: true, ..m }, k)),
                Part::Shift => Ok((Modifiers { shift: true, ..m }, k)),
                Part::Meta => Ok((Modifiers { meta: true, ..m }, k)),
                Part::Key(c) => Ok((m, Some(c))),
                Part::Unknown => Err(parts.last()),
            },
        }
    }
}

/// The shortcut that lower-case parts describe; the error is the
/// unsupported part, or `None` where no part names a key.
pub open spec fn shortcut_of_parts(parts: Seq<Seq<char>>) -> Result<Shortcut, Option<Seq<char>>> {
    match read_parts(parts) {
        Err(e) => Err(Some(e)),
        Ok((_, None)) => Err(None),
        Ok((m, Some(k))) => Ok(Shortcut { modifiers: m, key: k }),
    }
}

/// The content of a parse result.
pub open spec fn outcome(r: Result<Shortcut, ShortcutError>) -> Result<Shortcut, Option<Seq<char>>> {
    match r {
        Ok(s) => Ok(s),
        Err(ShortcutError::UnsupportedKey(k)) => Err(Some(k@)),
        Err(ShortcutError::NoKey) => Err(None),
    }
}

/// The pieces of a text between `+` signs, empty ones included.
pub open spec fn split_plus(s: Seq<char>) -> Seq<Seq<char>>
    decreases s.len(),
{
    if s.len() == 0 {
        seq![Seq::empty()]
    } else {
        let r = split_plus(s.drop_last());
        if s.last() == '+' {
            r.push(Seq::empty())
        } else {
            r.update(r.len() - 1, r.last().push(s.last()))
        }
    }
}

/// The parts of a combination as they are matched: trimmed and in lower case.
pub open spec fn normalized_parts(s: Seq<char>) -> Seq<Seq<char>> {
    Seq::new(split_plus(s).len(), |i: int| lower_of(trimmed_of(split_plus(s)[i])))
}

/// Splits `s` at every `+`.
fn split_at_plus(s: &str) -> (r: Vec<String>)
    ensures
        views(r@) == split_plus(s@),
{
    let n = s.unicode_len();
    let mut pieces: Vec<String> = Vec::new();
    let mut start: usize = 0;
    let mut i: usize = 0;
    assert(s@.take(0) =~= Seq::<char>::empty());
    assert(split_plus(s@.take(0)) =~= views(pieces@).push(s@.subrange(0, 0)));
    while i < n
        invariant
            n == s@.len(),
            start <= i <= n,
            split_plus(s@.take(i as int)) == views(pieces@).push(s@.subrange(start as int, i as int)),
        decreases n - i,
    {
        let c = s.get_char(i);
        proof {
            assert(s@.take(i + 1).drop_last() == s@.take(i as int));
            assert(s@.take(i + 1).last() == c);
        }
        if c == '+' {
            let ghost before = views(pieces@);
            let ghost from = start;
            pieces.push(String::from_str(s.substring_char(start, i)));
            start = i + 1;
            proof {
                assert(views(pieces@) =~= before.push(s@.subrange(from as int, i as int)));
                assert(s@.subrange(start as int, i + 1) =~= Seq::<char>::empty());
            }
        } else {
            proof {
                assert(s@.subrange(start as int, i + 1) =~= s@.subrange(start as int, i as int).push(c));
                assert(views(pieces@).push(s@.subrange(start as int, i + 1)) =~= views(pieces@).push(
                    s@.subrange(start as int, i as int),
                ).update(views(pieces@).len() as int, s@.subrange(start as int, i + 1)));
            }
        }
        i = i + 1;
    }
    let ghost before = views(pieces@);
    pieces.push(String::from_str(s.substring_char(start, n)));
    assert(s@.take(n as int) == s@);
    assert(views(pieces@) =~= before.push(s@.subrange(start as int, n as int)));
    pieces
}


proof fn lemma_read_parts_error_stays(parts: Seq<Seq<char>>, k: int)
    requires
        0 <= k <= parts.len(),
        read_parts(parts.take(k)) is Err,
    ensures
        read_parts(parts) == read_parts(parts.take(k)),
    decreases parts.len() - k,
{
    if k < parts.len() {
        assert(parts.take(k + 1).drop_last() == parts.take(k));
        lemma_read_parts_error_stays(parts, k + 1);
    } else {
        assert(parts.take(k) == parts);
    }
}

fn digit_value(c: char, zero: char) -> (r: u8)
    requires
        zero <= c,
        c as u32 - zero as u32 <= 25,
    ensures
        r == (c as u32 - zero as u32) as u8,
{
    (c as u32 - zero as u32) as u8
}

/// What a lower-case part names.
pub fn classify_part(t: &String) -> (r: Part)
    ensures
        r == part_of(t@),
{
    let len = t.as_str().unicode_len();
    if *t == owned("ctrl") || *t == owned("control") {
        return Part::Ctrl;
    }
    if *t == owned("alt") {
        return Part::Alt;
    }
    if *t == owned("shift") {
        return Part::Shift;
    }
    if *t == owned("meta") || *t == owned("cmd") || *t == owned("super") {
        return Part::Meta;
    }
    if len == 1 {
        let c = t.as_str().get_char(0);
        if 'a' <= c && c <= 'z' {
            return Part::Key(KeyCode::Letter(digit_value(c, 'a')));
        }
        if '0' <= c && c <= '9' {
            return Part::Key(KeyCode::Digit(digit_value(c, '0')));
        }
    }
    if len == 2 {
        let c0 = t.as_str().get_char(0);
        let c1 = t.as_str().get_char(1);
        if c0 == 'f' && '1' <= c1 && c1 <= '9' {
            return Part::Key(KeyCode::Function(digit_value(c1, '0')));
        }
    }
    if len == 3 {
        let c0 = t.as_str().get_char(0);
        let c1 = t.as_str().get_char(1);
        let c2 = t.as_str().get_char(2);
        if c0 == 'f' && c1 == '1' && '0' <= c2 && c2 <= '2' {
            return Part::Key(KeyCode::Function(10 + digit_value(c2, '0')));
        }
    }
    if *t == owned("space") {
        Part::Key(KeyCode::Space)
    } else if *t == owned("enter") {
        Part::Key(KeyCode::Enter)
    } else if *t == owned("escape") {
        Part::Key(KeyCode::Escape)
    } else if *t == owned("tab") {
        Part::Key(KeyCode::Tab)
    } else if *t == owned("backspace") {
        Part::Key(KeyCode::Backspace)
    } else if *t == owned("delete") {
        Part::Key(KeyCode::Delete)
    } else {
        Part::Unknown
    }
}

/// The shortcut that parts, already trimmed and in lower case, describe.
pub fn parse_shortcut_parts(parts: &Vec<String>) -> (r: Result<Shortcut, ShortcutError>)
    ensures
        outcome(r) == shortcut_of_parts(views(parts@)),
{
    let n = parts.len();
    let ghost all = views(parts@);
    let mut m = Modifiers { ctrl: false, alt: false, shift: false, meta: false };
    let mut key: Option<KeyCode> = None;
    let mut i: usize = 0;
    assert(all.take(0) =~= Seq::<Seq<char>>::empty());
    while i < n
        invariant
            n == parts@.len(),
            all == views(parts@),
            i <= n,
            read_parts(all.take(i as int)) == Ok::<(Modifiers, Option<KeyCode>), Seq<char>>((m, key)),
        decreases n - i,
    {
        proof {
            assert(all.take(i + 1).drop_last() == all.take(i as int));
            assert(all.take(i + 1).last() == parts@[i as int]@);
        }
        match classify_part(&parts[i]) {
            Part::Ctrl => {
                m.ctrl = true;
            },
            Part::Alt => {
                m.alt = true;
            },
            Part::Shift => {
                m.shift = true;
            },
            Part::Meta => {
                m.meta = true;
            },
            Part::Key(c) => {
                key = Some(c);
            },
            Part::Unknown => {
                proof {
                    lemma_read_parts_error_stays(all, i + 1);
                }
                return Err(ShortcutError::UnsupportedKey(parts[i].clone()));
            },
        }
        i = i + 1;
    }
    assert(all.take(n as int) == all);
    match key {
        Some(k) => Ok(Shortcut { modifiers: m, key: k }),
        None => Err(ShortcutError::NoKey),
    }
}

/// Reads a key combination such as `Ctrl+Shift+F5`: the text is split at
/// every `+`, and each part is trimmed, put in lower case and read.
pub fn parse_shortcut(shortcut_str: &str) -> (r: Result<Shortcut, ShortcutError>)
    ensures
        outcome(r) == shortcut_of_parts(normalized_parts(shortcut_str@)),
{
    let pieces = split_at_plus(shortcut_str);
    let n = pieces.len();
    let ghost raw = split_plus(shortcut_str@);
    let mut parts: Vec<String> = Vec::new();
    let mut i: usize = 0;
    while i < n
        invariant
            n == pieces@.len(),
            raw == views(pieces@),
            raw == split_plus(shortcut_str@),
            i <= n,
            views(parts@) == normalized_parts(shortcut_str@).take(i as int),
        decreases n - i,
    {
        let trimmed = trim_text(pieces[i].as_str());
        let lower = lowercase(trimmed.as_str());
        let ghost before = views(parts@);
        parts.push(lower);
        proof {
            assert(raw[i as int] == pieces@[i as int]@);
            assert(normalized_parts(shortcut_str@)[i as int] == lower_of(trimmed_of(raw[i as int])));
            assert(views(parts@) =~= before.push(lower_of(trimmed_of(raw[i as int]))));
        }
        assert(views(parts@) =~= normalized_parts(shortcut_str@).take(i + 1));
        i = i + 1;
    }
    assert(normalized_parts(shortcut_str@).take(n as int) =~= normalized_parts(shortcut_str@));
    parse_shortcut_parts(&parts)
}

} // verus!
