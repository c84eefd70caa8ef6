//! Reading values out of short texts: the piece before a comma, white space
//! trimmed from both ends, and unsigned decimal numbers.
use vstd::prelude::*;

verus! {

/// Index of the first comma of `s`, or its length if it has none.
pub open spec fn comma_index(s: Seq<char>) -> int
    decreases s.len(),
{
    if s.len() == 0 {
        0
    } else if s[0] == ',' {
        0
    } else {
        1 + comma_index(s.skip(1))
    }
}

/// The characters that Unicode calls white space.
pub open spec fn is_white(c: char) -> bool {
    let u = c as u32;
    (0x09 <= u <= 0x0D) || u == 0x20 || u == 0x85 || u == 0xA0 || u == 0x1680 || (0x2000 <= u <= 0x200A)
        || u == 0x2028 || u == 0x2029 || u == 0x202F || u == 0x205F || u == 0x3000
}

/// `s` without its leading white space.
pub open spec fn trim_start(s: Seq<char>) -> Seq<char>
    decreases s.len(),
{
    if s.len() > 0 && is_white(s[0]) {
        trim_start(s.skip(1))
    } else {
        s
    }
}

/// `s` without its trailing white space.
pub open spec fn trim_end(s: Seq<char>) -> Seq<char>
    decreases s.len(),
{
    if s.len() > 0 && is_white(s.last()) {
        trim_end(s.drop_last())
    } else {
        s
    }
}

/// `s` without white space at either end.
pub open spec fn trim(s: Seq<char>) -> Seq<char> {
    trim_end(trim_start(s))
}

/// An ASCII decimal digit.
pub open spec fn is_digit(c: char) -> bool {
    48 <= (c as u32) <= 57
}

/// Every character of `s` is a decimal digit.
pub open spec fn all_digits(s: Seq<char>) -> bool {
    forall|i: int| 0 <= i < s.len() ==> is_digit(#[trigger] s[i])
}

/// The number that the decimal digits `s` write.
pub open spec fn digits_value(s: Seq<char>) -> nat
    decreases s.len(),
{
    if s.len() == 0 {
        0
    } else {
        digits_value(s.drop_last()) * 10 + ((s.last() as u32) - 48) as nat
    }
}

/// `s` without a leading `+`.
pub open spec fn unsigned_digits(s: Seq<char>) -> Seq<char> {
    if s.len() > 0 && s[0] == '+' {
        s.skip(1)
    } else {
        s
    }
}

/// The unsigned 32-bit number that `s` writes: an optional `+`, then one or
/// more decimal digits, of value at most `u32::MAX`.
pub open spec fn parse_u32(s: Seq<char>) -> Option<u32> {
    let d = unsigned_digits(s);
    if d.len() > 0 && all_digits(d) && digits_value(d) <= u32::MAX {
        Some(digits_value(d) as u32)
    } else {
        None
    }
}

proof fn lemma_digits_value_prefix(d: Seq<char>, k: int)
    requires
        0 <= k <= d.len(),
        all_digits(d),
    ensures
        digits_value(d) >= digits_value(d.take(k)),
    decreases d.len() - k,
{
    if k < d.len() {
        lemma_digits_value_prefix(d, k + 1);
        assert(d.take(k + 1).drop_last() =~= d.take(k));
        assert(is_digit(d[k]));
    } else {
        assert(d.take(k) =~= d);
    }
}

/// Index of the first comma of `s` at or after `from`, or the length of `s`.
pub fn find_comma(s: &str, from: usize) -> (r: usize)
    requires
        from <= s@.len(),
    ensures
        r == from + comma_index(s@.skip(from as int)),
        from <= r <= s@.len(),
        r < s@.len() ==> s@[r as int] == ',',
{
    let len = s.unicode_len();
    let mut i = from;
    while i < len
        invariant
            len == s@.len(),
            from <= i <= len,
            from + comma_index(s@.skip(from as int)) == i + comma_index(s@.skip(i as int)),
        decreases len - i,
    {
        if s.get_char(i) == ',' {
            return i;
        }
        assert(s@.skip(i as int).skip(1) =~= s@.skip(i as int + 1));
        i = i + 1;
    }
    assert(s@.skip(len as int).len() == 0);
    i
}

/// Whether `c` is white space.
pub fn is_white_char(c: char) -> (r: bool)
    ensures
        r == is_white(c),
{
    let u = c as u32;
    (0x09 <= u && u <= 0x0D) || u == 0x20 || u == 0x85 || u == 0xA0 || u == 0x1680 || (0x2000 <= u && u
        <= 0x200A) || u == 0x2028 || u == 0x2029 || u == 0x202F || u == 0x205F || u == 0x3000
}

/// `s` without white space at either end.
pub fn trim_text(s: &str) -> (r: &str)
    ensures
        r@ == trim(s@),
{
    let len = s.unicode_len();
    let mut i: usize = 0;
    assert(s@.skip(0) =~= s@);
    while i < len && is_white_char(s.get_char(i))
        invariant
            len == s@.len(),
            i <= len,
            trim_start(s@) == trim_start(s@.skip(i as int)),
        decreases len - i,
    {
        assert(s@.skip(i as int).skip(1) =~= s@.skip(i as int + 1));
        i = i + 1;
    }
    assert(trim_start(s@.skip(i as int)) == s@.skip(i as int));
    let mut j: usize = len;
    assert(s@.skip(i as int) =~= s@.subrange(i as int, j as int));
    while j > i && is_white_char(s.get_char(j - 1))
        invariant
            len == s@.len(),
            i <= j <= len,
            trim(s@) == trim_end(s@.subrange(i as int, j as int)),
        decreases j,
    {
        assert(s@.subrange(i as int, j as int).drop_last() =~= s@.subrange(i as int, j as int - 1));
        j = j - 1;
    }
    s.substring_char(i, j)
}

/// The unsigned 32-bit number that `s` writes, if it writes one.
pub fn parse_u32_text(s: &str) -> (r: Option<u32>)
    ensures
        r == parse_u32(s@),
{
    let len = s.unicode_len();
    let start: usize = if len > 0 && s.get_char(0) == '+' {
        1
    } else {
        0
    };
    let ghost d = unsigned_digits(s@);
    assert(d =~= s@.skip(start as int));
    if start >= len {
        return None;
    }
    let mut value: u64 = 0;
    let mut i: usize = start;
    while i < len
        invariant
            len == s@.len(),
            start < len,
            start <= i <= len,
            d == s@.skip(start as int),
            d == unsigned_digits(s@),
            all_digits(d.take(i - start)),
            value == digits_value(d.take(i - start)),
            value <= u32::MAX,
        decreases len - i,
    {
        let c = s.get_char(i);
        let k = i - start;
        assert(d[k as int] == c);
        if !((c as u32) >= 48 && (c as u32) <= 57) {
            assert(!is_digit(d[k as int]));
            assert(!all_digits(d));
            assert(parse_u32(s@) is None);
            return None;
        }
        assert(d.take(k + 1).drop_last() =~= d.take(k as int));
        assert(d.take(k + 1).last() == c);
        let v: u64 = value * 10 + ((c as u32) - 48) as u64;
        assert(all_digits(d.take(k + 1)));
        assert(digits_value(d.take(k + 1)) == v);
        if v > u32::MAX as u64 {
            proof {
                if all_digits(d) {
                    lemma_digits_value_prefix(d, k + 1);
                }
            }
            assert(parse_u32(s@) is None);
            return None;
        }
        value = v;
        i = i + 1;
    }
    assert(d.take(len - start) =~= d);
    Some(value as u32)
}

/// The author part of an `"authors, year"` text: all before the first comma.
pub open spec fn authors_of(s: Seq<char>) -> Seq<char> {
    s.take(comma_index(s))
}

/// The year part of an `"authors, year"` text: what lies between the first
/// comma and the next one (or the end), if there is a first comma.
pub open spec fn year_text_of(s: Seq<char>) -> Option<Seq<char>> {
    let c = comma_index(s);
    if c < s.len() {
        let rest = s.skip(c + 1);
        Some(rest.take(comma_index(rest)))
    } else {
        None
    }
}

/// The year of an `"authors, year"` text, if its year part, trimmed, is a number.
pub open spec fn year_of(s: Seq<char>) -> Option<u32> {
    match year_text_of(s) {
        Some(t) => parse_u32(trim(t)),
        None => None,
    }
}

/// The author part of an `"authors, year"` text.
pub fn authors_text(s: &str) -> (r: String)
    ensures
        r@ == authors_of(s@),
{
    assert(s@.skip(0) =~= s@);
    let c = find_comma(s, 0);
    s.substring_char(0, c).to_string()
}

/// The year of an `"authors, year"` text, if it has one.
pub fn year_value(s: &str) -> (r: Option<u32>)
    ensures
        r == year_of(s@),
{
    assert(s@.skip(0) =~= s@);
    let len = s.unicode_len();
    let c1 = find_comma(s, 0);
    if c1 >= len {
        return None;
    }
    let c2 = find_comma(s, c1 + 1);
    let piece = s.substring_char(c1 + 1, c2);
    assert(piece@ =~= s@.skip(c1 + 1).take(comma_index(s@.skip(c1 + 1))));
    let t = trim_text(piece);
    parse_u32_text(t)
}

} // verus!
