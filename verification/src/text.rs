//! Text helpers: whitespace, prefixes, lines and decimal numbers, over the
//! characters of a string.
use vstd::prelude::*;

verus! {

/// `String::push` appends one character to the end of the string.
pub assume_specification[ std::string::String::push ](s: &mut std::string::String, c: char)
    ensures
        final(s)@ == old(s)@.push(c),
;

/// Unicode's `White_Space` property.
pub open spec fn white_space(c: char) -> bool {
    let p = c as u32;
    ||| 0x9 <= p <= 0xd
    ||| p == 0x20
    ||| p == 0x85
    ||| p == 0xa0
    ||| p == 0x1680
    ||| 0x2000 <= p <= 0x200a
    ||| p == 0x2028
    ||| p == 0x2029
    ||| p == 0x202f
    ||| p == 0x205f
    ||| p == 0x3000
}

/// The text without its leading white space.
pub open spec fn trim_start(s: Seq<char>) -> Seq<char>
    decreases s.len(),
{
    if s.len() > 0 && white_space(s[0]) {
        trim_start(s.subrange(1, s.len() as int))
    } else {
        s
    }
}

/// The text without its trailing white space.
pub open spec fn trim_end(s: Seq<char>) -> Seq<char>
    decreases s.len(),
{
    if s.len() > 0 && white_space(s[s.len() - 1]) {
        trim_end(s.subrange(0, s.len() - 1))
    } else {
        s
    }
}

/// The text without leading and trailing white space.
pub open spec fn trimmed(s: Seq<char>) -> Seq<char> {
    trim_end(trim_start(s))
}

/// The decimal digits of a number, without leading zeros.
pub open spec fn decimal_text(n: nat) -> Seq<char>
    decreases n,
{
    if n < 10 {
        seq![digit(n)]
    } else {
        decimal_text(n / 10).push(digit(n % 10))
    }
}

/// The character of one decimal digit.
pub open spec fn digit(d: nat) -> char {
    (('0' as int) + d) as char
}

/// The decimal digits of an integer, behind a minus sign where it is negative.
pub open spec fn signed_text(n: int) -> Seq<char> {
    if n < 0 {
        seq!['-'] + decimal_text((-n) as nat)
    } else {
        decimal_text(n as nat)
    }
}

/// One ASCII letter in lower case; any other character as it is.
pub open spec fn ascii_lower(c: char) -> char {
    if 'A' <= c <= 'Z' {
        ((c as int) + 32) as char
    } else {
        c
    }
}

/// Equal up to the case of ASCII letters.
pub open spec fn same_ignoring_ascii_case(a: Seq<char>, b: Seq<char>) -> bool {
    &&& a.len() == b.len()
    &&& forall|i: int| 0 <= i < a.len() ==> ascii_lower(#[trigger] a[i]) == ascii_lower(b[i])
}

/// At most the first `limit` characters.
pub open spec fn first_chars(s: Seq<char>, limit: nat) -> Seq<char> {
    if s.len() <= limit {
        s
    } else {
        s.subrange(0, limit as int)
    }
}

/// The position of the first line break at or after `from`, or the length.
pub open spec fn line_break(s: Seq<char>, from: int) -> int
    decreases s.len() - from,
{
    if from < 0 || from >= s.len() {
        s.len() as int
    } else if s[from] == '\n' {
        from
    } else {
        line_break(s, from + 1)
    }
}

/// The first line that holds more than white space, without the white space
/// around it, or `None` where every line is blank.
pub open spec fn meaningful_line(s: Seq<char>) -> Option<Seq<char>>
    decreases s.len(),
{
    let end = line_break(s, 0);
    if 0 <= end <= s.len() {
        let line = trimmed(s.subrange(0, end));
        if line.len() > 0 {
            Some(line)
        } else if end < s.len() {
            meaningful_line(s.subrange(end + 1, s.len() as int))
        } else {
            None
        }
    } else {
        None
    }
}

/// A text in one line: its first meaningful line, or nothing.
pub open spec fn one_line_of(s: Seq<char>) -> Seq<char> {
    match meaningful_line(s) {
        Some(line) => line,
        None => Seq::empty(),
    }
}

/// The characters of a text.
pub fn chars_of(s: &str) -> (r: Vec<char>)
    ensures
        r@ == s@,
{
    let mut out: Vec<char> = Vec::new();
    for c in it: s.chars()
        invariant
            it.seq() == s@,
            out@ == s@.take(it.index() as int),
    {
        proof {
            assert(s@.take(it.index() + 1) =~= s@.take(it.index() as int).push(c));
        }
        out.push(c);
    }
    proof {
        assert(s@.take(s@.len() as int) =~= s@);
    }
    out
}

/// The text made of a run of characters.
pub fn string_of(chars: &[char], from: usize, to: usize) -> (r: String)
    requires
        from <= to <= chars@.len(),
    ensures
        r@ == chars@.subrange(from as int, to as int),
{
    let mut out: String = String::new();
    let mut i: usize = from;
    while i < to
        invariant
            from <= i <= to <= chars@.len(),
            out@ == chars@.subrange(from as int, i as int),
        decreases to - i,
    {
        out.push(chars[i]);
        i += 1;
        proof {
            assert(chars@.subrange(from as int, i as int) =~= chars@.subrange(
                from as int,
                i - 1,
            ).push(chars@[i - 1]));
        }
    }
    out
}

/// Whether two texts hold the same characters.
pub fn same_text(a: &str, b: &str) -> (r: bool)
    ensures
        r == (a@ == b@),
{
    a.to_owned() == b.to_owned()
}

/// Whether an optional text is there and equal to another.
pub fn is_text(a: &Option<String>, b: &str) -> (r: bool)
    ensures
        r == (a is Some && a->0@ == b@),
{
    match a {
        Some(value) => same_text(value.as_str(), b),
        None => false,
    }
}

/// Whether two optional texts are both absent or equal.
pub fn same_option(a: &Option<String>, b: &Option<String>) -> (r: bool)
    ensures
        r == (a.deep_view() == b.deep_view()),
{
    match (a, b) {
        (Some(x), Some(y)) => *x == *y,
        (None, None) => true,
        _ => false,
    }
}

/// A copy of an optional text.
pub fn copy_option(a: &Option<String>) -> (r: Option<String>)
    ensures
        r.deep_view() == a.deep_view(),
        r == *a,
{
    match a {
        Some(value) => Some(value.clone()),
        None => None,
    }
}

/// Whether a character is white space.
pub fn is_white_space(c: char) -> (r: bool)
    ensures
        r == white_space(c),
{
    let p: u32 = c as u32;
    (0x9 <= p && p <= 0xd) || p == 0x20 || p == 0x85 || p == 0xa0 || p == 0x1680 || (0x2000 <= p
        && p <= 0x200a) || p == 0x2028 || p == 0x2029 || p == 0x202f || p == 0x205f || p == 0x3000
}

/// The bounds of a run of characters without the white space around it.
pub fn trim_range(chars: &[char], from: usize, to: usize) -> (r: (usize, usize))
    requires
        from <= to <= chars@.len(),
    ensures
        from <= r.0 <= r.1 <= to,
        chars@.subrange(r.0 as int, r.1 as int) == trimmed(
            chars@.subrange(from as int, to as int),
        ),
{
    let ghost whole = chars@.subrange(from as int, to as int);
    let mut start: usize = from;
    while start < to && is_white_space(chars[start])
        invariant
            from <= start <= to <= chars@.len(),
            whole == chars@.subrange(from as int, to as int),
            trim_start(whole) == trim_start(chars@.subrange(start as int, to as int)),
        decreases to - start,
    {
        proof {
            let rest = chars@.subrange(start as int, to as int);
            assert(rest.subrange(1, rest.len() as int) =~= chars@.subrange(start + 1, to as int));
        }
        start += 1;
    }
    proof {
        let rest = chars@.subrange(start as int, to as int);
        assert(trim_start(rest) == rest);
    }
    let mut end: usize = to;
    while end > start && is_white_space(chars[end - 1])
        invariant
            from <= start <= end <= to <= chars@.len(),
            trimmed(whole) == trim_end(chars@.subrange(start as int, end as int)),
        decreases end - start,
    {
        proof {
            let rest = chars@.subrange(start as int, end as int);
            assert(rest.subrange(0, rest.len() - 1) =~= chars@.subrange(start as int, end - 1));
        }
        end -= 1;
    }
    (start, end)
}

/// The text without leading and trailing white space.
pub fn trim(s: &str) -> (r: String)
    ensures
        r@ == trimmed(s@),
{
    let chars: Vec<char> = chars_of(s);
    proof {
        assert(chars@.subrange(0, chars@.len() as int) =~= s@);
    }
    let bounds: (usize, usize) = trim_range(chars.as_slice(), 0, chars.len());
    string_of(chars.as_slice(), bounds.0, bounds.1)
}

/// Whether a text begins with another.
pub fn starts_with(s: &str, prefix: &str) -> (r: bool)
    ensures
        r == prefix@.is_prefix_of(s@),
{
    let all: Vec<char> = chars_of(s);
    let head: Vec<char> = chars_of(prefix);
    if head.len() > all.len() {
        return false;
    }
    let mut i: usize = 0;
    while i < head.len()
        invariant
            i <= head@.len() <= all@.len(),
            head@ == prefix@,
            all@ == s@,
            forall|k: int| 0 <= k < i ==> head@[k] == all@[k],
        decreases head@.len() - i,
    {
        if head[i] != all[i] {
            proof {
                assert(prefix@[i as int] != s@.subrange(0, prefix@.len() as int)[i as int]);
            }
            return false;
        }
        i += 1;
    }
    proof {
        assert(prefix@ =~= s@.subrange(0, prefix@.len() as int));
    }
    true
}

/// What follows the first `skip` characters.
pub fn rest_after(s: &str, skip: usize) -> (r: String)
    requires
        skip <= s@.len(),
    ensures
        r@ == s@.subrange(skip as int, s@.len() as int),
{
    let chars: Vec<char> = chars_of(s);
    string_of(chars.as_slice(), skip, chars.len())
}

/// At most the first `limit` characters.
pub fn take_chars(s: &str, limit: usize) -> (r: String)
    ensures
        r@ == first_chars(s@, limit as nat),
{
    let chars: Vec<char> = chars_of(s);
    let end: usize = if chars.len() <= limit {
        chars.len()
    } else {
        limit
    };
    let out: String = string_of(chars.as_slice(), 0, end);
    proof {
        assert(s@.subrange(0, s@.len() as int) =~= s@);
    }
    out
}

/// One ASCII letter in lower case.
fn lower(c: char) -> (r: char)
    ensures
        r == ascii_lower(c),
{
    if 'A' <= c && c <= 'Z' {
        let code: u8 = c as u8;
        (code + 32) as char
    } else {
        c
    }
}

/// Whether two texts are equal up to the case of ASCII letters.
pub fn eq_ignore_ascii_case(a: &str, b: &str) -> (r: bool)
    ensures
        r == same_ignoring_ascii_case(a@, b@),
{
    let left: Vec<char> = chars_of(a);
    let right: Vec<char> = chars_of(b);
    if left.len() != right.len() {
        return false;
    }
    let mut i: usize = 0;
    while i < left.len()
        invariant
            i <= left@.len() == right@.len(),
            left@ == a@,
            right@ == b@,
            forall|k: int| 0 <= k < i ==> ascii_lower(#[trigger] left@[k]) == ascii_lower(right@[k]),
        decreases left@.len() - i,
    {
        if lower(left[i]) != lower(right[i]) {
            proof {
                assert(ascii_lower(a@[i as int]) != ascii_lower(b@[i as int]));
            }
            return false;
        }
        i += 1;
    }
    true
}

/// Appends the decimal digits of a number.
pub fn push_decimal(out: &mut String, n: u64)
    ensures
        final(out)@ == old(out)@ + decimal_text(n as nat),
    decreases n,
{
    if n >= 10 {
        push_decimal(out, n / 10);
    }
    let low: u8 = (n % 10) as u8;
    let c: char = (48u8 + low) as char;
    out.push(c);
    proof {
        assert(old(out)@ + decimal_text(n as nat) =~= out@);
    }
}

/// The decimal digits of a number.
pub fn decimal(n: u64) -> (r: String)
    ensures
        r@ == decimal_text(n as nat),
{
    let mut out: String = String::new();
    push_decimal(&mut out, n);
    proof {
        assert(Seq::<char>::empty() + decimal_text(n as nat) =~= decimal_text(n as nat));
    }
    out
}

/// The decimal digits of an integer, behind a minus sign where it is negative.
pub fn signed_decimal(n: i64) -> (r: String)
    ensures
        r@ == signed_text(n as int),
{
    if n >= 0 {
        return decimal(n as u64);
    }
    let mut out: String = String::new();
    out.push('-');
    let size: u64 = if n == i64::MIN {
        0x8000_0000_0000_0000u64
    } else {
        (-n) as u64
    };
    push_decimal(&mut out, size);
    proof {
        assert(Seq::<char>::empty().push('-') =~= seq!['-']);
    }
    out
}

/// The first line that holds more than white space, trimmed.
pub fn first_meaningful_line(s: &str) -> (r: Option<String>)
    ensures
        r.deep_view() == meaningful_line(s@),
{
    let chars: Vec<char> = chars_of(s);
    let mut from: usize = 0;
    proof {
        assert(chars@.subrange(0, chars@.len() as int) =~= s@);
    }
    loop
        invariant
            from <= chars@.len(),
            chars@ == s@,
            meaningful_line(s@) == meaningful_line(
                chars@.subrange(from as int, chars@.len() as int),
            ),
        decreases chars@.len() - from,
    {
        let ghost rest = chars@.subrange(from as int, chars@.len() as int);
        let mut end: usize = from;
        while end < chars.len() && chars[end] != '\n'
            invariant
                from <= end <= chars@.len(),
                rest == chars@.subrange(from as int, chars@.len() as int),
                line_break(rest, 0) == line_break(rest, end - from),
            decreases chars@.len() - end,
        {
            assert(rest[end - from] == chars@[end as int]);
            end += 1;
        }
        proof {
            if end < chars@.len() {
                assert(rest[end - from] == chars@[end as int]);
            }
            assert(line_break(rest, 0) == end - from);
            assert(rest.subrange(0, end - from) =~= chars@.subrange(from as int, end as int));
        }
        let bounds: (usize, usize) = trim_range(chars.as_slice(), from, end);
        if bounds.0 < bounds.1 {
            return Some(string_of(chars.as_slice(), bounds.0, bounds.1));
        }
        if end == chars.len() {
            return None;
        }
        proof {
            assert(rest.subrange(end - from + 1, rest.len() as int) =~= chars@.subrange(
                end + 1,
                chars@.len() as int,
            ));
        }
        from = end + 1;
    }
}

/// A text in one line: its first meaningful line, or nothing.
pub fn single_line(s: &str) -> (r: String)
    ensures
        r@ == one_line_of(s@),
{
    match first_meaningful_line(s) {
        Some(line) => line,
        None => String::new(),
    }
}

/// The two texts one after the other.
pub fn join2(a: &str, b: &str) -> (r: String)
    ensures
        r@ == a@ + b@,
{
    let mut out: String = a.to_owned();
    out.append(b);
    out
}

/// The three texts one after the other.
pub fn join3(a: &str, b: &str, c: &str) -> (r: String)
    ensures
        r@ == a@ + b@ + c@,
{
    let mut out: String = join2(a, b);
    out.append(c);
    out
}

} // verus!
