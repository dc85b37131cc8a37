use vstd::prelude::*;
use vstd::string::*;

use crate::paths::views;
use crate::text::{blank, concat, is_blank, text_eq, trim, trimmed};

verus! {

/// The ASCII upper-case form of `c`; other characters stay.
pub open spec fn ascii_upper(c: char) -> char {
    if 'a' <= c && c <= 'z' {
        ((c as u8) - 32) as char
    } else {
        c
    }
}

pub open spec fn upper_text(s: Seq<char>) -> Seq<char> {
    s.map_values(|c: char| ascii_upper(c))
}

/// Relies on `str::to_ascii_uppercase`: each of `a`..`z` becomes its upper-case
/// letter, every other character stays.
#[verifier::external_body]
fn to_upper(s: &str) -> (r: String)
    ensures
        r@ == upper_text(s@),
{
    s.to_ascii_uppercase()
}

pub open spec fn is_digit(c: char) -> bool {
    '0' <= c && c <= '9'
}

pub open spec fn is_ascii_alnum(c: char) -> bool {
    ('a' <= c && c <= 'z') || ('A' <= c && c <= 'Z') || is_digit(c)
}

pub open spec fn all_digits(s: Seq<char>) -> bool {
    forall|i: int| 0 <= i < s.len() ==> is_digit(#[trigger] s[i])
}

/// The number that a string of decimal digits spells.
pub open spec fn digits_value(s: Seq<char>) -> nat
    decreases s.len(),
{
    if s.len() == 0 {
        0
    } else {
        digits_value(s.drop_last()) * 10 + ((s.last() as u32) - ('0' as u32)) as nat
    }
}

/// The digits of an unsigned decimal numeral, as `u32`'s `FromStr` reads it:
/// an optional `+`, then at least one digit.
pub open spec fn numeral_digits(s: Seq<char>) -> Option<Seq<char>> {
    let d = if s.len() > 0 && s[0] == '+' {
        s.drop_first()
    } else {
        s
    };
    if d.len() > 0 && all_digits(d) {
        Some(d)
    } else {
        None
    }
}

/// The number of a function key name `F1` .. `F24`, without its `F`.
pub open spec fn function_key_number(rest: Seq<char>) -> Option<nat> {
    match numeral_digits(rest) {
        Some(d) => if 1 <= digits_value(d) <= 24 {
            Some(digits_value(d))
        } else {
            None
        },
        None => None,
    }
}

/// The virtual-key code of an upper-case key name.
pub open spec fn vk_of(t: Seq<char>) -> Option<u32> {
    if t.len() == 1 && is_ascii_alnum(t[0]) {
        Some(t[0] as u32)
    } else if t.len() > 0 && t[0] == 'F' && function_key_number(t.drop_first()) is Some {
        Some((0x70 + function_key_number(t.drop_first())->0 - 1) as u32)
    } else if t == "SPACE"@ {
        Some(0x20)
    } else if t == "TAB"@ {
        Some(0x09)
    } else if t == "ENTER"@ || t == "RETURN"@ {
        Some(0x0D)
    } else if t == "ESC"@ || t == "ESCAPE"@ {
        Some(0x1B)
    } else if t == "UP"@ {
        Some(0x26)
    } else if t == "DOWN"@ {
        Some(0x28)
    } else if t == "LEFT"@ {
        Some(0x25)
    } else if t == "RIGHT"@ {
        Some(0x27)
    } else {
        None
    }
}

/// Reads the number after an `F`, capped at 100: `Some` only for a numeral.
fn function_key(rest: &str) -> (r: Option<u32>)
    ensures
        match r {
            Some(v) => numeral_digits(rest@) is Some && v == (if digits_value(
                numeral_digits(rest@)->0,
            ) < 100 {
                digits_value(numeral_digits(rest@)->0)
            } else {
                100
            }),
            None => numeral_digits(rest@) is None,
        },
{
    let n = rest.unicode_len();
    let mut i: usize = 0;
    if n > 0 && rest.get_char(0) == '+' {
        i = 1;
    }
    let ghost d = if rest@.len() > 0 && rest@[0] == '+' {
        rest@.drop_first()
    } else {
        rest@
    };
    let start = i;
    assert(d =~= rest@.subrange(start as int, n as int));
    if start == n {
        return None;
    }
    let mut v: u32 = 0;
    while i < n
        invariant
            n == rest@.len(),
            start <= i <= n,
            d =~= rest@.subrange(start as int, n as int),
            d == (if rest@.len() > 0 && rest@[0] == '+' {
                rest@.drop_first()
            } else {
                rest@
            }),
            d.len() > 0,
            all_digits(rest@.subrange(start as int, i as int)),
            v == (if digits_value(rest@.subrange(start as int, i as int)) < 100 {
                digits_value(rest@.subrange(start as int, i as int))
            } else {
                100
            }),
        decreases n - i,
    {
        let c = rest.get_char(i);
        if !('0' <= c && c <= '9') {
            assert(d[i - start] == c);
            assert(!is_digit(d[i - start]));
            assert(!all_digits(d));
            return None;
        }
        let ghost before = rest@.subrange(start as int, i as int);
        let ghost after = rest@.subrange(start as int, i + 1);
        assert(after.drop_last() =~= before);
        assert(after.last() == c);
        let dv = (c as u32) - ('0' as u32);
        let w = v * 10 + dv;
        v = if w < 100 {
            w
        } else {
            100
        };
        i = i + 1;
    }
    assert(rest@.subrange(start as int, n as int) =~= d);
    Some(v)
}

/// The virtual-key code of an upper-case key name: a letter or digit, `F1`
/// to `F24`, or one of the named keys.
pub fn parse_vk(token_upper: &str) -> (r: Option<u32>)
    ensures
        r == vk_of(token_upper@),
{
    let n = token_upper.unicode_len();
    if n == 1 {
        let c = token_upper.get_char(0);
        if ('a' <= c && c <= 'z') || ('A' <= c && c <= 'Z') || ('0' <= c && c <= '9') {
            return Some(c as u32);
        }
    }
    if n > 0 && token_upper.get_char(0) == 'F' {
        let rest = token_upper.substring_char(1, n);
        assert(rest@ =~= token_upper@.drop_first());
        if let Some(v) = function_key(rest) {
            if 1 <= v && v <= 24 {
                return Some(0x70 + (v - 1));
            }
        }
    }
    if text_eq(token_upper, "SPACE") {
        Some(0x20)
    } else if text_eq(token_upper, "TAB") {
        Some(0x09)
    } else if text_eq(token_upper, "ENTER") || text_eq(token_upper, "RETURN") {
        Some(0x0D)
    } else if text_eq(token_upper, "ESC") || text_eq(token_upper, "ESCAPE") {
        Some(0x1B)
    } else if text_eq(token_upper, "UP") {
        Some(0x26)
    } else if text_eq(token_upper, "DOWN") {
        Some(0x28)
    } else if text_eq(token_upper, "LEFT") {
        Some(0x25)
    } else if text_eq(token_upper, "RIGHT") {
        Some(0x27)
    } else {
        None
    }
}

/// A parsed global shortcut: modifier flags, key code and display label.
#[derive(Debug, Clone, PartialEq, Eq)]
pub struct HotkeySpec {
    pub modifiers: u32,
    pub vk: u32,
    pub label: String,
}

/// Why a shortcut text was refused.
#[derive(Debug, Clone, PartialEq, Eq)]
pub enum HotkeyError {
    /// The text is blank.
    Empty,
    /// The text holds only separators.
    Invalid,
    /// A second key after the first; the part is given.
    MultipleKeys(String),
    /// A part that names no key.
    InvalidKey(String),
    /// Modifiers without a key.
    MissingKey,
    /// A key without a modifier.
    NoModifier,
}

/// The refusal reasons as the contracts speak of them.
pub enum HotkeyFault {
    Empty,
    Invalid,
    MultipleKeys(Seq<char>),
    InvalidKey(Seq<char>),
    MissingKey,
    NoModifier,
}

pub open spec fn fault_of(e: HotkeyError) -> HotkeyFault {
    match e {
        HotkeyError::Empty => HotkeyFault::Empty,
        HotkeyError::Invalid => HotkeyFault::Invalid,
        HotkeyError::MultipleKeys(p) => HotkeyFault::MultipleKeys(p@),
        HotkeyError::InvalidKey(p) => HotkeyFault::InvalidKey(p@),
        HotkeyError::MissingKey => HotkeyFault::MissingKey,
        HotkeyError::NoModifier => HotkeyFault::NoModifier,
    }
}

/// Windows' `MOD_ALT`, `MOD_CONTROL`, `MOD_SHIFT`, `MOD_WIN` and `MOD_NOREPEAT`.
pub const MOD_ALT: u32 = 0x0001;

pub const MOD_CONTROL: u32 = 0x0002;

pub const MOD_SHIFT: u32 = 0x0004;

pub const MOD_WIN: u32 = 0x0008;

pub const MOD_NOREPEAT: u32 = 0x4000;

/// The texts between the `+` signs of `s`, empty ones included.
pub open spec fn pieces(s: Seq<char>) -> Seq<Seq<char>>
    decreases s.len(),
{
    if s.len() == 0 {
        seq![Seq::<char>::empty()]
    } else {
        let p = pieces(s.drop_last());
        if s.last() == '+' {
            p.push(Seq::empty())
        } else {
            p.update(p.len() - 1, p.last().push(s.last()))
        }
    }
}

/// The trimmed pieces that are not blank, in order.
pub open spec fn clean(ps: Seq<Seq<char>>) -> Seq<Seq<char>>
    decreases ps.len(),
{
    if ps.len() == 0 {
        Seq::empty()
    } else {
        let c = clean(ps.drop_last());
        if blank(ps.last()) {
            c
        } else {
            c.push(trimmed(ps.last()))
        }
    }
}

/// What has been read of a shortcut so far.
pub struct HotkeyAcc {
    pub mods: u32,
    pub vk: Option<u32>,
    pub labels: Seq<Seq<char>>,
}

pub open spec fn with_label(ls: Seq<Seq<char>>, l: Seq<char>) -> Seq<Seq<char>> {
    if ls.contains(l) {
        ls
    } else {
        ls.push(l)
    }
}

/// Reads one part: a modifier adds its flag and label once; the one key sets
/// the code and adds its upper-case name.
pub open spec fn apply_part(a: HotkeyAcc, part: Seq<char>) -> Result<HotkeyAcc, HotkeyFault> {
    let p = upper_text(part);
    if p == "CTRL"@ || p == "CONTROL"@ {
        Ok(HotkeyAcc { mods: a.mods | MOD_CONTROL, vk: a.vk, labels: with_label(a.labels, "Ctrl"@) })
    } else if p == "SHIFT"@ {
        Ok(HotkeyAcc { mods: a.mods | MOD_SHIFT, vk: a.vk, labels: with_label(a.labels, "Shift"@) })
    } else if p == "ALT"@ {
        Ok(HotkeyAcc { mods: a.mods | MOD_ALT, vk: a.vk, labels: with_label(a.labels, "Alt"@) })
    } else if p == "WIN"@ || p == "META"@ || p == "CMD"@ || p == "SUPER"@ {
        Ok(HotkeyAcc { mods: a.mods | MOD_WIN, vk: a.vk, labels: with_label(a.labels, "Win"@) })
    } else if a.vk is Some {
        Err(HotkeyFault::MultipleKeys(part))
    } else {
        match vk_of(p) {
            Some(k) => Ok(HotkeyAcc { mods: a.mods, vk: Some(k), labels: a.labels.push(p) }),
            None => Err(HotkeyFault::InvalidKey(part)),
        }
    }
}

/// Reads the parts in order, stopping at the first refusal.
pub open spec fn fold_parts(ps: Seq<Seq<char>>) -> Result<HotkeyAcc, HotkeyFault>
    decreases ps.len(),
{
    if ps.len() == 0 {
        Ok(HotkeyAcc { mods: MOD_NOREPEAT, vk: None, labels: Seq::empty() })
    } else {
        match fold_parts(ps.drop_last()) {
            Ok(a) => apply_part(a, ps.last()),
            Err(f) => Err(f),
        }
    }
}

/// The labels joined by `+`.
pub open spec fn join_plus(ls: Seq<Seq<char>>) -> Seq<char>
    decreases ls.len(),
{
    if ls.len() == 0 {
        Seq::empty()
    } else if ls.len() == 1 {
        ls[0]
    } else {
        join_plus(ls.drop_last()) + "+"@ + ls.last()
    }
}

/// What a shortcut text means: its modifier flags, key code and label.
pub open spec fn shortcut_meaning(s: Seq<char>) -> Result<(u32, u32, Seq<char>), HotkeyFault> {
    if blank(s) {
        Err(HotkeyFault::Empty)
    } else {
        let ps = clean(pieces(trimmed(s)));
        if ps.len() == 0 {
            Err(HotkeyFault::Invalid)
        } else {
            match fold_parts(ps) {
                Err(f) => Err(f),
                Ok(a) => if a.vk is None {
                    Err(HotkeyFault::MissingKey)
                } else if a.mods == MOD_NOREPEAT {
                    Err(HotkeyFault::NoModifier)
                } else {
                    Ok((a.mods, a.vk->0, join_plus(a.labels)))
                },
            }
        }
    }
}

/// Once reading the parts has failed, later parts change nothing.
proof fn lemma_fold_stops(ps: Seq<Seq<char>>, k: int)
    requires
        0 <= k <= ps.len(),
        fold_parts(ps.subrange(0, k)) is Err,
    ensures
        fold_parts(ps) == fold_parts(ps.subrange(0, k)),
    decreases ps.len() - k,
{
    if k < ps.len() {
        assert(ps.subrange(0, k + 1).drop_last() =~= ps.subrange(0, k));
        lemma_fold_stops(ps, k + 1);
    } else {
        assert(ps.subrange(0, k) =~= ps);
    }
}

/// The trimmed, non-blank parts between the `+` signs of `raw`.
fn split_parts(raw: &str) -> (r: Vec<String>)
    ensures
        views(r@) == clean(pieces(raw@)),
{
    let n = raw.unicode_len();
    let mut parts: Vec<String> = Vec::new();
    let mut start: usize = 0;
    let mut i: usize = 0;
    let ghost mut done: Seq<Seq<char>> = Seq::empty();
    assert(raw@.subrange(0, 0) =~= Seq::<char>::empty());
    assert(pieces(raw@.subrange(0, 0)) =~= done.push(raw@.subrange(0, 0)));
    while i < n
        invariant
            n == raw@.len(),
            start <= i <= n,
            pieces(raw@.subrange(0, i as int)) == done.push(raw@.subrange(start as int, i as int)),
            clean(done) == views(parts@),
        decreases n - i,
    {
        let c = raw.get_char(i);
        let ghost seg = raw@.subrange(start as int, i as int);
        assert(raw@.subrange(0, i + 1).drop_last() =~= raw@.subrange(0, i as int));
        assert(raw@.subrange(0, i + 1).last() == c);
        if c == '+' {
            let piece = trim(raw.substring_char(start, i));
            let ghost before = done;
            proof {
                done = done.push(seg);
                assert(done.drop_last() =~= before);
            }
            if piece.unicode_len() > 0 {
                parts.push(piece.to_owned());
                assert(views(parts@) =~= clean(before).push(trimmed(seg)));
            } else {
                assert(views(parts@) =~= clean(before));
            }
            start = i + 1;
            i = i + 1;
            assert(raw@.subrange(start as int, i as int) =~= Seq::<char>::empty());
        } else {
            assert(seg.push(c) =~= raw@.subrange(start as int, i + 1));
            i = i + 1;
        }
    }
    let piece = trim(raw.substring_char(start, n));
    let ghost seg = raw@.subrange(start as int, n as int);
    let ghost all = done.push(seg);
    assert(raw@.subrange(0, n as int) =~= raw@);
    assert(all.drop_last() =~= done);
    if piece.unicode_len() > 0 {
        parts.push(piece.to_owned());
        assert(views(parts@) =~= clean(done).push(trimmed(seg)));
    } else {
        assert(views(parts@) =~= clean(done));
    }
    parts
}

/// Whether `l` is among `labels`.
fn has_label(labels: &Vec<String>, l: &str) -> (r: bool)
    ensures
        r == views(labels@).contains(l@),
{
    let mut i: usize = 0;
    while i < labels.len()
        invariant
            i <= labels@.len(),
            forall|j: int| 0 <= j < i ==> labels@[j]@ != l@,
        decreases labels@.len() - i,
    {
        if text_eq(labels[i].as_str(), l) {
            assert(views(labels@)[i as int] == l@);
            return true;
        }
        i = i + 1;
    }
    assert(!views(labels@).contains(l@)) by {
        if views(labels@).contains(l@) {
            let j = choose|j: int| 0 <= j < views(labels@).len() && views(labels@)[j] == l@;
            assert(labels@[j]@ == l@);
        }
    }
    false
}

/// Adds the modifier label `l` unless it is there.
fn add_label(labels: &mut Vec<String>, l: &str)
    ensures
        views(final(labels)@) == with_label(views(old(labels)@), l@),
{
    if !has_label(labels, l) {
        labels.push(l.to_owned());
        assert(views(labels@) =~= views(old(labels)@).push(l@));
    }
}

/// The labels joined by `+`.
fn join_labels(labels: &Vec<String>) -> (r: String)
    ensures
        r@ == join_plus(views(labels@)),
{
    let mut out = String::new();
    let mut i: usize = 0;
    while i < labels.len()
        invariant
            i <= labels@.len(),
            out@ == join_plus(views(labels@).subrange(0, i as int)),
        decreases labels@.len() - i,
    {
        let ghost before = views(labels@).subrange(0, i as int);
        let ghost after = views(labels@).subrange(0, i + 1);
        assert(after.drop_last() =~= before);
        if i == 0 {
            out = labels[i].clone();
        } else {
            let with_plus = concat(out.as_str(), "+");
            out = concat(with_plus.as_str(), labels[i].as_str());
        }
        i = i + 1;
    }
    assert(views(labels@).subrange(0, labels@.len() as int) =~= views(labels@));
    out
}

/// Parses a shortcut such as `Ctrl+Shift+S`: `+`-separated parts, any number
/// of modifiers (`Ctrl`/`Control`, `Shift`, `Alt`, `Win`/`Meta`/`Cmd`/`Super`,
/// any case) and exactly one key.
pub fn parse_hotkey_shortcut(shortcut: &str) -> (r: Result<HotkeySpec, HotkeyError>)
    ensures
        match r {
            Ok(h) => shortcut_meaning(shortcut@) == Ok::<(u32, u32, Seq<char>), HotkeyFault>(
                (h.modifiers, h.vk, h.label@),
            ),
            Err(e) => shortcut_meaning(shortcut@) == Err::<(u32, u32, Seq<char>), HotkeyFault>(
                fault_of(e),
            ),
        },
{
    if is_blank(shortcut) {
        return Err(HotkeyError::Empty);
    }
    let raw = trim(shortcut);
    let parts = split_parts(raw);
    if parts.len() == 0 {
        return Err(HotkeyError::Invalid);
    }
    let ghost ps = views(parts@);
    let mut modifiers: u32 = MOD_NOREPEAT;
    let mut vk: Option<u32> = None;
    let mut labels: Vec<String> = Vec::new();
    let mut k: usize = 0;
    assert(ps.subrange(0, 0) =~= Seq::<Seq<char>>::empty());
    assert(views(labels@) =~= Seq::<Seq<char>>::empty());
    while k < parts.len()
        invariant
            ps == views(parts@),
            ps == clean(pieces(trimmed(shortcut@))),
            !blank(shortcut@),
            ps.len() > 0,
            k <= parts@.len(),
            fold_parts(ps.subrange(0, k as int)) == Ok::<HotkeyAcc, HotkeyFault>(
                HotkeyAcc { mods: modifiers, vk, labels: views(labels@) },
            ),
        decreases parts@.len() - k,
    {
        let ghost pre = ps.subrange(0, k as int);
        let ghost post = ps.subrange(0, k + 1);
        assert(post.drop_last() =~= pre);
        assert(post.last() == parts@[k as int]@);
        let part = parts[k].as_str();
        let p = to_upper(part);
        let pu = p.as_str();
        if text_eq(pu, "CTRL") || text_eq(pu, "CONTROL") {
            modifiers = modifiers | MOD_CONTROL;
            add_label(&mut labels, "Ctrl");
        } else if text_eq(pu, "SHIFT") {
            modifiers = modifiers | MOD_SHIFT;
            add_label(&mut labels, "Shift");
        } else if text_eq(pu, "ALT") {
            modifiers = modifiers | MOD_ALT;
            add_label(&mut labels, "Alt");
        } else if text_eq(pu, "WIN") || text_eq(pu, "META") || text_eq(pu, "CMD") || text_eq(
            pu,
            "SUPER",
        ) {
            modifiers = modifiers | MOD_WIN;
            add_label(&mut labels, "Win");
        } else {
            if vk.is_some() {
                proof {
                    let acc = HotkeyAcc { mods: modifiers, vk, labels: views(labels@) };
                    assert(fold_parts(post) == apply_part(acc, part@));
                    assert(apply_part(acc, part@) == Err::<HotkeyAcc, HotkeyFault>(
                        HotkeyFault::MultipleKeys(part@),
                    ));
                    lemma_fold_stops(ps, k + 1);
                }
                return Err(HotkeyError::MultipleKeys(part.to_owned()));
            }
            match parse_vk(pu) {
                Some(code) => {
                    vk = Some(code);
                    let ghost before = views(labels@);
                    labels.push(p);
                    assert(views(labels@) =~= before.push(upper_text(part@)));
                },
                None => {
                    proof {
                        lemma_fold_stops(ps, k + 1);
                    }
                    return Err(HotkeyError::InvalidKey(part.to_owned()));
                },
            }
        }
        k = k + 1;
    }
    assert(ps.subrange(0, parts@.len() as int) =~= ps);
    let key = match vk {
        Some(code) => code,
        None => {
            return Err(HotkeyError::MissingKey);
        },
    };
    if modifiers == MOD_NOREPEAT {
        return Err(HotkeyError::NoModifier);
    }
    Ok(HotkeySpec { modifiers, vk: key, label: join_labels(&labels) })
}

} // verus!
