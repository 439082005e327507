//! Uncommitted platform text and its UTF-16 ranges. Platforms count UTF-16
//! units; the text is held as characters, and every range given by a platform
//! is clamped to whole characters, split surrogate pairs included.
use vstd::prelude::*;
use crate::text::{chars_of, string_of};

verus! {

/// The UTF-16 units of one character.
pub open spec fn units(c: char) -> nat {
    if c as u32 >= 0x1_0000 {
        2
    } else {
        1
    }
}

/// The UTF-16 units of a text.
pub open spec fn utf16_len(s: Seq<char>) -> nat
    decreases s.len(),
{
    if s.len() == 0 {
        0
    } else {
        utf16_len(s.drop_last()) + units(s.last())
    }
}

/// How many characters end at or before an offset.
pub open spec fn chars_within(s: Seq<char>, offset: int) -> nat
    decreases s.len(),
{
    if s.len() == 0 || offset < units(s[0]) {
        0
    } else {
        1 + chars_within(s.subrange(1, s.len() as int), offset - units(s[0]))
    }
}

/// How many characters begin before an offset.
pub open spec fn chars_touched(s: Seq<char>, offset: int) -> nat
    decreases s.len(),
{
    if s.len() == 0 || offset <= 0 {
        0
    } else {
        1 + chars_touched(s.subrange(1, s.len() as int), offset - units(s[0]))
    }
}

/// A run of characters.
#[derive(Debug, Clone, Copy, PartialEq, Eq, Structural)]
pub struct Span {
    pub start: usize,
    pub end: usize,
}

/// The smallest run of whole characters that covers a range of units; an
/// empty range stays empty, before the character it splits.
pub open spec fn covering(s: Seq<char>, start: int, end: int) -> (nat, nat) {
    let first = chars_within(s, start);
    if start >= end {
        (first, first)
    } else {
        (first, chars_touched(s, end))
    }
}

fn char_units(c: char) -> (r: usize)
    ensures
        r == units(c),
{
    if c as u32 >= 0x1_0000 {
        2
    } else {
        1
    }
}

fn count_within(text: &[char], offset: usize) -> (r: usize)
    ensures
        r == chars_within(text@, offset as int),
        r <= text@.len(),
{
    let mut n: usize = 0;
    let mut left: usize = offset;
    proof {
        assert(text@.subrange(0, text@.len() as int) =~= text@);
    }
    while n < text.len() && left >= char_units(text[n])
        invariant
            n <= text@.len(),
            chars_within(text@, offset as int) == n + chars_within(
                text@.subrange(n as int, text@.len() as int),
                left as int,
            ),
        decreases text@.len() - n,
    {
        proof {
            let rest = text@.subrange(n as int, text@.len() as int);
            assert(rest.subrange(1, rest.len() as int) =~= text@.subrange(
                n + 1,
                text@.len() as int,
            ));
        }
        left -= char_units(text[n]);
        n += 1;
    }
    n
}

fn count_touched(text: &[char], offset: usize) -> (r: usize)
    ensures
        r == chars_touched(text@, offset as int),
        r <= text@.len(),
{
    let mut n: usize = 0;
    let mut left: usize = offset;
    proof {
        assert(text@.subrange(0, text@.len() as int) =~= text@);
    }
    while n < text.len() && left > 0
        invariant
            n <= text@.len(),
            chars_touched(text@, offset as int) == n + chars_touched(
                text@.subrange(n as int, text@.len() as int),
                left as int,
            ),
        decreases text@.len() - n,
    {
        let size: usize = char_units(text[n]);
        proof {
            let rest = text@.subrange(n as int, text@.len() as int);
            assert(rest.subrange(1, rest.len() as int) =~= text@.subrange(
                n + 1,
                text@.len() as int,
            ));
            if left < size {
                let later = text@.subrange(n + 1, text@.len() as int);
                assert(chars_touched(later, left - size) == 0);
                assert(chars_touched(later, 0) == 0);
            }
        }
        left = if left >= size {
            left - size
        } else {
            0
        };
        n += 1;
    }
    n
}

/// Clamps a platform range to whole characters.
pub fn utf16_to_chars(text: &[char], start: usize, end: usize) -> (r: Span)
    ensures
        (r.start as nat, r.end as nat) == covering(text@, start as int, end as int),
        r.start <= r.end <= text@.len(),
{
    let first: usize = count_within(text, start);
    if start >= end {
        return Span { start: first, end: first };
    }
    let last: usize = count_touched(text, end);
    proof {
        within_is_touched(text@, start as int, end as int);
    }
    Span { start: first, end: last }
}

/// The units before a character.
pub open spec fn units_before(s: Seq<char>, n: int) -> nat {
    utf16_len(s.take(n))
}

fn units_upto(text: &[char], n: usize) -> (r: usize)
    requires
        n <= text@.len(),
        utf16_len(text@) <= usize::MAX,
    ensures
        r == units_before(text@, n as int),
{
    let mut total: usize = 0;
    let mut i: usize = 0;
    proof {
        assert(text@.take(0) =~= Seq::<char>::empty());
    }
    while i < n
        invariant
            i <= n <= text@.len(),
            utf16_len(text@) <= usize::MAX,
            total == units_before(text@, i as int),
        decreases n - i,
    {
        proof {
            let front = text@.take(i + 1);
            assert(front.drop_last() =~= text@.take(i as int));
            units_grow(text@, i + 1, text@.len() as int);
            assert(text@.take(text@.len() as int) =~= text@);
        }
        total += char_units(text[i]);
        i += 1;
    }
    total
}

/// Longer prefixes hold at least as many units.
proof fn units_grow(s: Seq<char>, a: int, b: int)
    requires
        0 <= a <= b <= s.len(),
    ensures
        units_before(s, a) <= units_before(s, b),
    decreases b - a,
{
    if a < b {
        units_grow(s, a, b - 1);
        let front = s.take(b);
        assert(front.drop_last() =~= s.take(b - 1));
    }
}

/// Units counted from the front.
proof fn units_from_front(s: Seq<char>)
    requires
        s.len() > 0,
    ensures
        utf16_len(s) == units(s[0]) + utf16_len(s.subrange(1, s.len() as int)),
    decreases s.len(),
{
    let rest = s.subrange(1, s.len() as int);
    if s.len() > 1 {
        units_from_front(s.drop_last());
        assert(s.drop_last().subrange(1, s.len() - 1) =~= rest.drop_last());
    } else {
        assert(s.drop_last() =~= Seq::<char>::empty());
        assert(rest =~= Seq::<char>::empty());
    }
}

/// Characters that end by an offset begin before any later one.
proof fn within_is_touched(s: Seq<char>, a: int, b: int)
    requires
        a <= b,
    ensures
        chars_within(s, a) <= chars_touched(s, b),
    decreases s.len(),
{
    if s.len() > 0 && a >= units(s[0]) {
        within_is_touched(s.subrange(1, s.len() as int), a - units(s[0]), b - units(s[0]));
    }
}

/// An offset between two characters names exactly that place, from both
/// sides.
pub proof fn boundaries_are_exact(s: Seq<char>, n: int)
    requires
        0 <= n <= s.len(),
    ensures
        chars_within(s, units_before(s, n) as int) == n,
        chars_touched(s, units_before(s, n) as int) == n,
    decreases n,
{
    let front = s.take(n);
    if n == 0 {
        assert(front =~= Seq::<char>::empty());
    } else {
        let rest = s.subrange(1, s.len() as int);
        units_from_front(front);
        assert(front.subrange(1, n) =~= rest.take(n - 1));
        boundaries_are_exact(rest, n - 1);
    }
}

/// A run of characters given in units comes back as that run.
pub proof fn ranges_round_trip(s: Seq<char>, start: int, end: int)
    requires
        0 <= start <= end <= s.len(),
    ensures
        covering(s, units_before(s, start) as int, units_before(s, end) as int) == (
            start as nat,
            end as nat,
        ),
{
    boundaries_are_exact(s, start);
    boundaries_are_exact(s, end);
    units_grow(s, start, end);
    if start < end && units_before(s, start) == units_before(s, end) {
        boundaries_are_exact(s, start);
        assert(chars_within(s, units_before(s, end) as int) == end);
    }
}

/// Only uncommitted platform text lives here.
pub struct TerminalComposition {
    pub text: Vec<char>,
    pub selection: Span,
}

/// What a composition holds.
#[verifier::ext_equal]
pub struct Preedit {
    pub text: Seq<char>,
    pub start: nat,
    pub end: nat,
}

impl View for TerminalComposition {
    type V = Preedit;

    open spec fn view(&self) -> Preedit {
        Preedit {
            text: self.text@,
            start: self.selection.start as nat,
            end: self.selection.end as nat,
        }
    }
}

impl Preedit {
    /// Nothing is being composed.
    pub open spec fn none() -> Preedit {
        Preedit { text: Seq::empty(), start: 0, end: 0 }
    }

    /// The text with a range of units replaced, all of it by default, and the
    /// selection inside the new piece, behind it by default.
    pub open spec fn replaced(
        self,
        range: Option<(int, int)>,
        text: Seq<char>,
        selection: Option<(int, int)>,
    ) -> Preedit {
        let (from, to) = match range {
            Some(range) => covering(self.text, range.0, range.1),
            None => (0nat, self.text.len()),
        };
        let (start, end) = match selection {
            Some(range) => covering(text, range.0, range.1),
            None => (text.len(), text.len()),
        };
        Preedit {
            text: self.text.subrange(0, from as int) + text + self.text.subrange(
                to as int,
                self.text.len() as int,
            ),
            start: from + start,
            end: from + end,
        }
    }
}

/// The two ends of an optional platform range.
pub open spec fn unit_range(range: Option<Span>) -> Option<(int, int)> {
    match range {
        Some(range) => Some((range.start as int, range.end as int)),
        None => None,
    }
}

impl TerminalComposition {
    /// The selection lies in the text.
    pub open spec fn wf(&self) -> bool {
        self.selection.start <= self.selection.end <= self.text@.len()
    }

    pub fn new() -> (r: Self)
        ensures
            r.wf(),
            r@ == Preedit::none(),
    {
        TerminalComposition { text: Vec::new(), selection: Span { start: 0, end: 0 } }
    }

    pub fn clear(&mut self)
        ensures
            final(self).wf(),
            final(self)@ == Preedit::none(),
    {
        self.text.clear();
        self.selection = Span { start: 0, end: 0 };
    }

    /// Replaces a range and selects inside the new piece.
    pub fn replace(&mut self, range: Option<Span>, text: &str, selection: Option<Span>)
        requires
            old(self).wf(),
            old(self).text@.len() + text@.len() <= usize::MAX,
        ensures
            final(self).wf(),
            final(self)@ == old(self)@.replaced(
                unit_range(range),
                text@,
                unit_range(selection),
            ),
    {
        let piece: Vec<char> = chars_of(text);
        let target: Span = match range {
            Some(range) => utf16_to_chars(self.text.as_slice(), range.start, range.end),
            None => Span { start: 0, end: self.text.len() },
        };
        let selected: Span = match selection {
            Some(range) => utf16_to_chars(piece.as_slice(), range.start, range.end),
            None => Span { start: piece.len(), end: piece.len() },
        };
        let ghost before = self.text@;
        let mut tail: Vec<char> = self.text.split_off(target.end);
        self.text.truncate(target.start);
        let mut piece: Vec<char> = piece;
        proof {
            assert(self.text@ =~= before.subrange(0, target.start as int));
            assert(tail@ =~= before.subrange(target.end as int, before.len() as int));
        }
        self.text.append(&mut piece);
        self.text.append(&mut tail);
        self.selection = Span {
            start: target.start + selected.start,
            end: target.start + selected.end,
        };
    }

    /// The text of a platform range, and the range it really covers in units.
    pub fn text_for_range(&self, start: usize, end: usize) -> (r: (String, Span))
        requires
            utf16_len(self.text@) <= usize::MAX,
        ensures
            ({
                let (from, to) = covering(self.text@, start as int, end as int);
                &&& r.0@ == self.text@.subrange(from as int, to as int)
                &&& r.1.start == units_before(self.text@, from as int)
                &&& r.1.end == units_before(self.text@, to as int)
            }),
    {
        let run: Span = utf16_to_chars(self.text.as_slice(), start, end);
        let actual: Span = Span {
            start: units_upto(self.text.as_slice(), run.start),
            end: units_upto(self.text.as_slice(), run.end),
        };
        (string_of(self.text.as_slice(), run.start, run.end), actual)
    }

    /// The selection in units.
    pub fn selected_units(&self) -> (r: Span)
        requires
            self.wf(),
            utf16_len(self.text@) <= usize::MAX,
        ensures
            r.start == units_before(self.text@, self@.start as int),
            r.end == units_before(self.text@, self@.end as int),
    {
        Span {
            start: units_upto(self.text.as_slice(), self.selection.start),
            end: units_upto(self.text.as_slice(), self.selection.end),
        }
    }

    /// The whole text's length in units.
    pub fn length_units(&self) -> (r: usize)
        requires
            utf16_len(self.text@) <= usize::MAX,
        ensures
            r == utf16_len(self.text@),
    {
        proof {
            assert(self.text@.take(self.text@.len() as int) =~= self.text@);
        }
        units_upto(self.text.as_slice(), self.text.len())
    }

    /// Selects a platform range.
    pub fn select(&mut self, start: usize, end: usize)
        ensures
            final(self).wf(),
            final(self).text@ == old(self).text@,
            (final(self)@.start, final(self)@.end) == covering(
                old(self).text@,
                start as int,
                end as int,
            ),
    {
        self.selection = utf16_to_chars(self.text.as_slice(), start, end);
    }

    /// The composed text.
    pub fn committed(&self) -> (r: String)
        ensures
            r@ == self.text@,
    {
        let out: String = string_of(self.text.as_slice(), 0, self.text.len());
        proof {
            assert(self.text@.subrange(0, self.text@.len() as int) =~= self.text@);
        }
        out
    }
}

} // verus!
