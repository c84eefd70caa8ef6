//! Text building blocks of query strings: decimal numbers, zero padding,
//! joined lists, and lists of named values without repeats.
use vstd::prelude::*;

verus! {

/// The decimal digit `d` (0 to 9) as a character.
pub open spec fn digit_char(d: int) -> char {
    if d == 0 {
        '0'
    } else if d == 1 {
        '1'
    } else if d == 2 {
        '2'
    } else if d == 3 {
        '3'
    } else if d == 4 {
        '4'
    } else if d == 5 {
        '5'
    } else if d == 6 {
        '6'
    } else if d == 7 {
        '7'
    } else if d == 8 {
        '8'
    } else {
        '9'
    }
}

/// `n` written in decimal, without leading zeros.
pub open spec fn decimal(n: nat) -> Seq<char>
    decreases n,
{
    if n < 10 {
        seq![digit_char(n as int)]
    } else {
        decimal(n / 10) + seq![digit_char((n % 10) as int)]
    }
}

/// `s` with zeros put in front until it is `width` characters long.
pub open spec fn zero_pad(s: Seq<char>, width: nat) -> Seq<char> {
    if s.len() >= width {
        s
    } else {
        Seq::new((width - s.len()) as nat, |_i: int| '0') + s
    }
}

/// The parts, with `sep` between each two.
pub open spec fn join(parts: Seq<Seq<char>>, sep: Seq<char>) -> Seq<char>
    decreases parts.len(),
{
    if parts.len() == 0 {
        Seq::empty()
    } else if parts.len() == 1 {
        parts[0]
    } else {
        join(parts.drop_last(), sep) + sep + parts.last()
    }
}

/// `s` without repeats: each value where it first occurs.
pub open spec fn dedup<T>(s: Seq<T>) -> Seq<T>
    decreases s.len(),
{
    if s.len() == 0 {
        Seq::empty()
    } else {
        let d = dedup(s.drop_last());
        if d.contains(s.last()) {
            d
        } else {
            d.push(s.last())
        }
    }
}

/// Joining one more part.
pub proof fn lemma_join_push(parts: Seq<Seq<char>>, sep: Seq<char>, p: Seq<char>)
    ensures
        join(parts.push(p), sep) == if parts.len() == 0 {
            p
        } else {
            join(parts, sep) + sep + p
        },
{
    assert(parts.push(p).drop_last() =~= parts);
}

fn digit_str(d: u64) -> (r: &'static str)
    requires
        d < 10,
    ensures
        r@ == seq![digit_char(d as int)],
{
    proof {
        reveal_strlit("0");
        reveal_strlit("1");
        reveal_strlit("2");
        reveal_strlit("3");
        reveal_strlit("4");
        reveal_strlit("5");
        reveal_strlit("6");
        reveal_strlit("7");
        reveal_strlit("8");
        reveal_strlit("9");
    }
    if d == 0 {
        "0"
    } else if d == 1 {
        "1"
    } else if d == 2 {
        "2"
    } else if d == 3 {
        "3"
    } else if d == 4 {
        "4"
    } else if d == 5 {
        "5"
    } else if d == 6 {
        "6"
    } else if d == 7 {
        "7"
    } else if d == 8 {
        "8"
    } else {
        "9"
    }
}

/// `n` written in decimal.
pub fn decimal_string(n: u64) -> (r: String)
    ensures
        r@ == decimal(n as nat),
    decreases n,
{
    if n < 10 {
        String::from_str(digit_str(n))
    } else {
        let mut s = decimal_string(n / 10);
        s.append(digit_str(n % 10));
        s
    }
}

/// `n` written in decimal with at least `width` digits.
pub fn zero_padded(n: u64, width: usize) -> (r: String)
    ensures
        r@ == zero_pad(decimal(n as nat), width as nat),
{
    let digits = decimal_string(n);
    let len = digits.as_str().unicode_len();
    let mut out = String::new();
    if len < width {
        let mut i: usize = 0;
        while i < width - len
            invariant
                len < width,
                i <= width - len,
                out@ =~= Seq::new(i as nat, |_i: int| '0'),
            decreases width - len - i,
        {
            out.append("0");
            proof {
                reveal_strlit("0");
            }
            i = i + 1;
        }
    }
    out.append(digits.as_str());
    assert(out@ =~= zero_pad(decimal(n as nat), width as nat));
    out
}

/// The strings of `parts`, with `sep` between each two.
pub fn join_strings(parts: &Vec<String>, sep: &str) -> (r: String)
    ensures
        r@ == join(parts@.map_values(|p: String| p@), sep@),
{
    let ghost views = parts@.map_values(|p: String| p@);
    let mut out = String::new();
    let mut i: usize = 0;
    while i < parts.len()
        invariant
            i <= parts.len(),
            views == parts@.map_values(|p: String| p@),
            out@ == join(views.take(i as int), sep@),
        decreases parts.len() - i,
    {
        proof {
            assert(views.take(i as int + 1) =~= views.take(i as int).push(views[i as int]));
            lemma_join_push(views.take(i as int), sep@, views[i as int]);
        }
        if i > 0 {
            out.append(sep);
        }
        out.append(parts[i].as_str());
        i = i + 1;
    }
    assert(views.take(parts.len() as int) =~= views);
    out
}

/// A value that a query string names by a fixed word.
pub trait QueryValue: Copy + Sized {
    /// The word for this value.
    spec fn spec_name(self) -> Seq<char>;

    /// The word for this value.
    fn name(self) -> (r: &'static str)
        ensures
            r@ == self.spec_name();

    /// Whether the two values are the same.
    fn same(self, other: Self) -> (r: bool)
        ensures
            r == (self == other);
}

/// The words for the values of `s`, without repeats, separated by commas.
pub open spec fn merged<T: QueryValue>(s: Seq<T>) -> Seq<char> {
    join(dedup(s).map_values(|x: T| x.spec_name()), ","@)
}

/// Whether `x` is one of `values`.
pub fn contains_value<T: QueryValue>(values: &Vec<T>, x: T) -> (r: bool)
    ensures
        r == values@.contains(x),
{
    let mut j: usize = 0;
    while j < values.len()
        invariant
            j <= values.len(),
            forall|k: int| 0 <= k < j ==> values@[k] != x,
        decreases values.len() - j,
    {
        if values[j].same(x) {
            return true;
        }
        j = j + 1;
    }
    false
}

/// The words for `values`, each once, in order of first occurrence,
/// separated by commas.
pub fn merge_values<T: QueryValue>(values: &Vec<T>) -> (r: String)
    ensures
        r@ == merged(values@),
{
    let mut seen: Vec<T> = Vec::new();
    let mut out = String::new();
    let mut i: usize = 0;
    while i < values.len()
        invariant
            i <= values.len(),
            seen@ == dedup(values@.take(i as int)),
            out@ == join(seen@.map_values(|x: T| x.spec_name()), ","@),
        decreases values.len() - i,
    {
        let x = values[i];
        proof {
            assert(values@.take(i as int + 1).drop_last() =~= values@.take(i as int));
            assert(values@.take(i as int + 1).last() == x);
        }
        if !contains_value(&seen, x) {
            proof {
                assert(seen@.push(x).map_values(|y: T| y.spec_name()) =~= seen@.map_values(
                    |y: T| y.spec_name(),
                ).push(x.spec_name()));
                lemma_join_push(seen@.map_values(|y: T| y.spec_name()), ","@, x.spec_name());
                reveal_strlit(",");
            }
            if seen.len() > 0 {
                out.append(",");
            }
            out.append(x.name());
            seen.push(x);
        }
        i = i + 1;
    }
    assert(values@.take(values.len() as int) =~= values@);
    out
}

} // verus!
