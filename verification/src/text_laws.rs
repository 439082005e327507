//! What holds of texts and numbers however they are cut, trimmed or written.
use vstd::prelude::*;
use crate::codec::{frame_bytes, pcm16_bytes};
use crate::composition::{chars_touched, chars_within, covering, units_before, Preedit};
use crate::text::{
    ascii_lower, decimal_text, digit, first_chars, line_break, meaningful_line, one_line_of,
    same_ignoring_ascii_case, signed_text, trim_end, trim_start, trimmed, white_space,
};

verus! {

/// No printing ASCII character is white space; the blank and the controls that
/// move the cursor are.
pub proof fn printing_characters_are_not_blank(c: char)
    ensures
        0x21 <= c as u32 <= 0x7e ==> !white_space(c),
        c == ' ' || c == '\t' || c == '\n' || c == '\r' || c == '\u{a0}' || c == '\u{3000}'
            ==> white_space(c),
        white_space(c) ==> c as u32 <= 0x3000,
        (c as u32) < 0x9 || 0xe <= c as u32 <= 0x1f ==> !white_space(c),
{
}

/// What is left of a text trimmed in front: white space before it, and none at
/// its beginning.
proof fn trim_start_cuts_blanks(s: Seq<char>) -> (at: int)
    ensures
        0 <= at <= s.len(),
        trim_start(s) == s.subrange(at, s.len() as int),
        forall|i: int| 0 <= i < at ==> white_space(#[trigger] s[i]),
        at < s.len() ==> !white_space(s[at]),
    decreases s.len(),
{
    if s.len() > 0 && white_space(s[0]) {
        let rest = s.subrange(1, s.len() as int);
        let at = trim_start_cuts_blanks(rest);
        assert(rest.subrange(at, rest.len() as int) =~= s.subrange(at + 1, s.len() as int));
        assert forall|i: int| 0 <= i < at + 1 implies white_space(#[trigger] s[i]) by {
            if i > 0 {
                assert(rest[i - 1] == s[i]);
            }
        }
        at + 1
    } else {
        assert(s.subrange(0, s.len() as int) =~= s);
        0
    }
}

proof fn trim_end_cuts_blanks(s: Seq<char>) -> (at: int)
    ensures
        0 <= at <= s.len(),
        trim_end(s) == s.subrange(0, at),
        forall|i: int| at <= i < s.len() ==> white_space(#[trigger] s[i]),
        at > 0 ==> !white_space(s[at - 1]),
    decreases s.len(),
{
    if s.len() > 0 && white_space(s[s.len() - 1]) {
        let rest = s.subrange(0, s.len() - 1);
        let at = trim_end_cuts_blanks(rest);
        assert(rest.subrange(0, at) =~= s.subrange(0, at));
        assert forall|i: int| at <= i < s.len() implies white_space(#[trigger] s[i]) by {
            if i < s.len() - 1 {
                assert(rest[i] == s[i]);
            }
        }
        at
    } else {
        assert(s.subrange(0, s.len() as int) =~= s);
        s.len() as int
    }
}

/// Trimming cuts white space at both ends and nothing else: what is left is a
/// run of the text, all around it is blank, and it neither begins nor ends
/// blank.
pub proof fn trimming_cuts_only_blanks(s: Seq<char>) -> (cut: (int, int))
    ensures
        0 <= cut.0 <= cut.1 <= s.len(),
        trimmed(s) == s.subrange(cut.0, cut.1),
        forall|i: int|
            0 <= i < cut.0 || cut.1 <= i < s.len() ==> white_space(#[trigger] s[i]),
        cut.0 < cut.1 ==> !white_space(s[cut.0]) && !white_space(s[cut.1 - 1]),
{
    let from = trim_start_cuts_blanks(s);
    let middle = trim_start(s);
    let len = trim_end_cuts_blanks(middle);
    assert(middle.subrange(0, len) =~= s.subrange(from, from + len));
    assert forall|i: int|
        0 <= i < from || from + len <= i < s.len() implies white_space(#[trigger] s[i]) by {
        if i >= from + len {
            assert(middle[i - from] == s[i]);
        }
    }
    if len > 0 {
        assert(middle[0] == s[from]);
        assert(middle[len - 1] == s[from + len - 1]);
    }
    (from, from + len)
}

/// A text that holds more than white space is not empty once trimmed, and one
/// of white space alone is.
pub proof fn a_trimmed_text_is_empty_only_where_blank(s: Seq<char>)
    ensures
        trimmed(s).len() == 0 <==> (forall|i: int| 0 <= i < s.len() ==> white_space(#[trigger] s[i])),
{
    let cut = trimming_cuts_only_blanks(s);
    if trimmed(s).len() > 0 {
        assert(!white_space(s[cut.0]));
    }
}

/// Trimming twice trims no more.
pub proof fn trimming_is_settled(s: Seq<char>)
    ensures
        trimmed(trimmed(s)) == trimmed(s),
{
    let cut = trimming_cuts_only_blanks(s);
    let once = trimmed(s);
    let again = trimming_cuts_only_blanks(once);
    if once.len() > 0 {
        assert(once[0] == s[cut.0]);
        assert(once[once.len() - 1] == s[cut.1 - 1]);
        assert(again.0 == 0) by {
            if again.0 > 0 {
                assert(white_space(once[0]));
            }
        }
        assert(again.1 == once.len()) by {
            if again.1 < once.len() {
                assert(white_space(once[once.len() - 1]));
            }
        }
    }
    assert(trimmed(once) =~= once);
}

/// The number a run of decimal digits stands for.
pub open spec fn number_of(s: Seq<char>) -> int
    decreases s.len(),
{
    if s.len() == 0 {
        0
    } else {
        10 * number_of(s.drop_last()) + (s.last() as int - '0' as int)
    }
}

/// A number written in digits reads back as that number, in digits alone and
/// without a leading zero.
pub proof fn digits_read_back(n: nat)
    ensures
        number_of(decimal_text(n)) == n,
        decimal_text(n).len() > 0,
        n > 0 ==> decimal_text(n)[0] != '0',
        n == 0 ==> decimal_text(n).len() == 1,
        forall|i: int|
            0 <= i < decimal_text(n).len() ==> '0' <= #[trigger] decimal_text(n)[i] <= '9',
    decreases n,
{
    if n < 10 {
        assert(seq![digit(n)].drop_last() =~= Seq::<char>::empty());
        reveal_with_fuel(number_of, 2);
    } else {
        digits_read_back(n / 10);
        let front = decimal_text(n / 10);
        assert(front.push(digit(n % 10)).drop_last() =~= front);
    }
}

/// A signed number is its digits, behind a minus sign exactly where it is
/// negative.
pub proof fn a_minus_sign_means_negative(n: int)
    ensures
        n >= 0 ==> number_of(signed_text(n)) == n && signed_text(n)[0] != '-',
        n < 0 ==> signed_text(n)[0] == '-' && number_of(
            signed_text(n).subrange(1, signed_text(n).len() as int),
        ) == -n,
{
    if n < 0 {
        digits_read_back((-n) as nat);
        assert(signed_text(n).subrange(1, signed_text(n).len() as int) =~= decimal_text(
            (-n) as nat,
        ));
    } else {
        digits_read_back(n as nat);
    }
}

/// Lower case changes capital letters alone, each to its small letter.
pub proof fn lower_case_changes_capitals_alone(c: char)
    ensures
        ascii_lower('A') == 'a',
        ascii_lower('Z') == 'z',
        'A' <= c <= 'Z' ==> ascii_lower(c) as int - 'a' as int == c as int - 'A' as int,
        !('A' <= c <= 'Z') ==> ascii_lower(c) == c,
        same_ignoring_ascii_case(seq!['A'], seq!['a']),
{
}

/// A cut text is the beginning of the text, as long as the limit allows.
pub proof fn a_cut_keeps_the_beginning(s: Seq<char>, limit: nat)
    ensures
        first_chars(s, limit).is_prefix_of(s),
        first_chars(s, limit).len() <= limit,
        first_chars(s, limit).len() == limit || first_chars(s, limit) == s,
{
}

proof fn a_line_break_is_the_first(s: Seq<char>, from: int)
    requires
        0 <= from <= s.len(),
    ensures
        from <= line_break(s, from) <= s.len(),
        line_break(s, from) < s.len() ==> s[line_break(s, from)] == '\n',
        forall|i: int| from <= i < line_break(s, from) ==> #[trigger] s[i] != '\n',
    decreases s.len() - from,
{
    if from < s.len() && s[from] != '\n' {
        a_line_break_is_the_first(s, from + 1);
    }
}

/// A line of a text: what lies between two breaks, or a break and an end.
pub open spec fn is_line(s: Seq<char>, from: int, to: int) -> bool {
    &&& 0 <= from <= to <= s.len()
    &&& from == 0 || s[from - 1] == '\n'
    &&& to == s.len() || s[to] == '\n'
    &&& forall|i: int| from <= i < to ==> #[trigger] s[i] != '\n'
}

/// The line taken of a text is the first that is not blank, trimmed: all
/// before it is blank, and none is taken exactly where all of the text is.
pub proof fn the_first_line_that_says_something(s: Seq<char>) -> (line: (int, int))
    ensures
        meaningful_line(s) is None <==> (forall|i: int|
            0 <= i < s.len() ==> white_space(#[trigger] s[i])),
        meaningful_line(s) is Some ==> {
            &&& is_line(s, line.0, line.1)
            &&& meaningful_line(s) == Some(trimmed(s.subrange(line.0, line.1)))
            &&& trimmed(s.subrange(line.0, line.1)).len() > 0
            &&& forall|i: int| 0 <= i < line.0 ==> white_space(#[trigger] s[i])
        },
        one_line_of(s) == (if meaningful_line(s) is Some {
            meaningful_line(s)->0
        } else {
            Seq::empty()
        }),
    decreases s.len(),
{
    a_line_break_is_the_first(s, 0);
    let end = line_break(s, 0);
    let first = s.subrange(0, end);
    a_trimmed_text_is_empty_only_where_blank(first);
    if trimmed(first).len() > 0 {
        assert(exists|i: int| 0 <= i < first.len() && !white_space(#[trigger] first[i]));
        let at = choose|i: int| 0 <= i < first.len() && !white_space(#[trigger] first[i]);
        assert(s[at] == first[at]);
        (0, end)
    } else if end < s.len() {
        let rest = s.subrange(end + 1, s.len() as int);
        let found = the_first_line_that_says_something(rest);
        assert forall|i: int| 0 <= i <= end implies white_space(#[trigger] s[i]) by {
            if i < end {
                assert(first[i] == s[i]);
            }
        }
        assert forall|i: int| 0 <= i < rest.len() implies rest[i] == #[trigger] s[i + end + 1] by {}
        let line = (found.0 + end + 1, found.1 + end + 1);
        if meaningful_line(s) is Some {
            assert(rest.subrange(found.0, found.1) =~= s.subrange(line.0, line.1));
            if found.0 > 0 {
                assert(rest[found.0 - 1] == s[line.0 - 1]);
            }
            if found.1 < rest.len() {
                assert(rest[found.1] == s[line.1]);
            }
            assert forall|i: int| line.0 <= i < line.1 implies #[trigger] s[i] != '\n' by {
                assert(rest[i - end - 1] == s[i]);
            }
            assert forall|i: int| 0 <= i < line.0 implies white_space(#[trigger] s[i]) by {
                if i > end {
                    assert(rest[i - end - 1] == s[i]);
                }
            }
            let at = choose|i: int| 0 <= i < rest.len() && !white_space(#[trigger] rest[i]);
            assert(s[at + end + 1] == rest[at]);
        } else {
            assert forall|i: int| 0 <= i < s.len() implies white_space(#[trigger] s[i]) by {
                if i > end {
                    assert(rest[i - end - 1] == s[i]);
                }
            }
        }
        line
    } else {
        assert(first =~= s);
        (0, 0)
    }
}

/// Each sample becomes two bytes, the low one first, that give it back.
pub proof fn samples_read_back(samples: Seq<i16>, i: int)
    requires
        0 <= i < samples.len(),
    ensures
        pcm16_bytes(samples).len() == 2 * samples.len(),
        ({
            let bits = pcm16_bytes(samples)[2 * i] + 256 * pcm16_bytes(samples)[2 * i + 1];
            samples[i] == if bits >= 0x8000 {
                bits - 0x1_0000
            } else {
                bits
            }
        }),
    decreases samples.len(),
{
    let front = samples.subrange(0, samples.len() - 1);
    samples_are_paired(samples);
    samples_are_paired(front);
    if i < samples.len() - 1 {
        samples_read_back(front, i);
        assert(front[i] == samples[i]);
    }
}

proof fn samples_are_paired(samples: Seq<i16>)
    ensures
        pcm16_bytes(samples).len() == 2 * samples.len(),
    decreases samples.len(),
{
    if samples.len() > 0 {
        samples_are_paired(samples.subrange(0, samples.len() - 1));
    }
}

/// A frame's padded reading wins over its unpadded one, and a frame that reads
/// neither way holds nothing.
pub proof fn a_frame_is_read_padded_first(padded: Seq<u8>, unpadded: Seq<u8>, other: Option<Seq<u8>>)
    ensures
        frame_bytes(Some(padded), other) == padded,
        frame_bytes(None, Some(unpadded)) == unpadded,
        frame_bytes(None, None).len() == 0,
{
}

/// The characters that end by an offset are those and no more: it lies at or
/// behind the last of them, and before the end of the next.
pub proof fn characters_within_an_offset(s: Seq<char>, offset: int)
    requires
        offset >= 0,
    ensures
        ({
            let n = chars_within(s, offset) as int;
            &&& 0 <= n <= s.len()
            &&& units_before(s, n) <= offset
            &&& n < s.len() ==> offset < units_before(s, n + 1)
        }),
    decreases s.len(),
{
    reveal_with_fuel(crate::composition::utf16_len, 2);
    assert(s.take(0) =~= Seq::<char>::empty());
    if s.len() > 0 {
        assert(s.take(1).drop_last() =~= Seq::<char>::empty());
        let first = crate::composition::units(s[0]);
        assert(units_before(s, 1) == first);
        if offset >= first {
            let rest = s.subrange(1, s.len() as int);
            characters_within_an_offset(rest, offset - first);
            let n = chars_within(rest, offset - first) as int;
            units_shift(s, n);
            if n < rest.len() {
                units_shift(s, n + 1);
            }
        }
    }
}

/// The characters that begin before an offset are those and no more.
pub proof fn characters_touched_by_an_offset(s: Seq<char>, offset: int)
    requires
        offset >= 0,
    ensures
        ({
            let n = chars_touched(s, offset) as int;
            &&& 0 <= n <= s.len()
            &&& n > 0 ==> units_before(s, n - 1) < offset
            &&& n < s.len() ==> offset <= units_before(s, n)
        }),
    decreases s.len(),
{
    reveal_with_fuel(crate::composition::utf16_len, 2);
    assert(s.take(0) =~= Seq::<char>::empty());
    if s.len() > 0 && offset > 0 {
        assert(s.take(1).drop_last() =~= Seq::<char>::empty());
        let first = crate::composition::units(s[0]);
        let rest = s.subrange(1, s.len() as int);
        if offset - first >= 0 {
            characters_touched_by_an_offset(rest, offset - first);
            let n = chars_touched(rest, offset - first) as int;
            if n > 0 {
                units_shift(s, n - 1);
            }
            if n <= rest.len() {
                units_shift(s, n);
            }
        }
        assert(units_before(s, 1) == first);
    }
}

/// Units before a character, counted behind the first one.
proof fn units_shift(s: Seq<char>, n: int)
    requires
        s.len() > 0,
        0 <= n < s.len(),
    ensures
        units_before(s, n + 1) == crate::composition::units(s[0]) + units_before(
            s.subrange(1, s.len() as int),
            n,
        ),
    decreases n,
{
    let rest = s.subrange(1, s.len() as int);
    reveal_with_fuel(crate::composition::utf16_len, 2);
    if n == 0 {
        assert(s.take(1).drop_last() =~= Seq::<char>::empty());
        assert(rest.take(0) =~= Seq::<char>::empty());
    } else {
        units_shift(s, n - 1);
        assert(s.take(n + 1).drop_last() =~= s.take(n));
        assert(rest.take(n).drop_last() =~= rest.take(n - 1));
        assert(s.take(n + 1).last() == rest.take(n).last());
    }
}

/// A character outside the basic plane counts two units, any other one.
pub proof fn a_surrogate_pair_counts_two(c: char)
    ensures
        crate::composition::units(c) == (if c as u32 > 0xffff {
            2nat
        } else {
            1nat
        }),
{
}

/// A range of units becomes the least run of whole characters that covers it:
/// it begins at or before the range and ends at or behind it, and one
/// character less on either side would not do. An empty range stays empty.
pub proof fn a_range_is_covered_by_whole_characters(s: Seq<char>, start: int, end: int)
    requires
        0 <= start,
    ensures
        ({
            let (from, to) = covering(s, start, end);
            &&& start >= end ==> from == to
            &&& 0 <= from <= to <= s.len()
            &&& units_before(s, from as int) <= start
            &&& from < s.len() ==> start < units_before(s, from as int + 1)
            &&& start < end && to < s.len() ==> end <= units_before(s, to as int)
            &&& start < end && to > 0 ==> units_before(s, to - 1) < end
        }),
{
    characters_within_an_offset(s, start);
    if start < end {
        characters_touched_by_an_offset(s, end);
        let from = chars_within(s, start) as int;
        let to = chars_touched(s, end) as int;
        if to < from {
            units_grow_on(s, to, from);
        }
    }
}

proof fn units_grow_on(s: Seq<char>, a: int, b: int)
    requires
        0 <= a < b <= s.len(),
    ensures
        units_before(s, a) < units_before(s, b),
    decreases b - a,
{
    assert(s.take(b).drop_last() =~= s.take(b - 1));
    if a < b - 1 {
        units_grow_on(s, a, b - 1);
    }
}

/// New text takes the place of the range, what was before it and behind it
/// stays, and the selection lies in the new text: behind it where none is
/// asked for.
pub proof fn a_composition_replaces_its_range(
    preedit: Preedit,
    range: Option<(int, int)>,
    text: Seq<char>,
    selection: Option<(int, int)>,
)
    requires
        range matches Some(r) ==> 0 <= r.0,
        selection matches Some(r) ==> 0 <= r.0,
    ensures
        ({
            let after = preedit.replaced(range, text, selection);
            let (from, to) = match range {
                Some(r) => covering(preedit.text, r.0, r.1),
                None => (0nat, preedit.text.len()),
            };
            &&& after.text.len() == preedit.text.len() - (to - from) + text.len()
            &&& forall|i: int| 0 <= i < from ==> #[trigger] after.text[i] == preedit.text[i]
            &&& after.text.subrange(from as int, from as int + text.len()) == text
            &&& after.text.subrange(from as int + text.len(), after.text.len() as int)
                == preedit.text.subrange(to as int, preedit.text.len() as int)
            &&& from <= after.start <= after.end <= from + text.len()
            &&& selection is None ==> after.start == from + text.len() && after.end
                == after.start
            &&& selection matches Some(r) ==> (
                (after.start - from) as nat,
                (after.end - from) as nat,
            ) == covering(text, r.0, r.1)
        }),
        preedit.replaced(None, text, selection).text == text,
{
    if let Some(r) = range {
        a_range_is_covered_by_whole_characters(preedit.text, r.0, r.1);
    }
    if let Some(r) = selection {
        a_range_is_covered_by_whole_characters(text, r.0, r.1);
    }
    let after = preedit.replaced(range, text, selection);
    let (from, to) = match range {
        Some(r) => covering(preedit.text, r.0, r.1),
        None => (0nat, preedit.text.len()),
    };
    assert(after.text.subrange(from as int, from as int + text.len()) =~= text);
    assert(after.text.subrange(from as int + text.len(), after.text.len() as int)
        =~= preedit.text.subrange(to as int, preedit.text.len() as int));
    assert(preedit.replaced(None, text, selection).text =~= text);
}

} // verus!
