//! Pieces of the query strings of the search endpoints, and the optional
//! lists that parameter builders grow.
use vstd::prelude::*;
use crate::date::{Date, date_text};
use crate::error::Error;
use crate::text::{QueryValue, decimal, decimal_string, join, join_strings, merge_values, merged};

verus! {

/// The optional list `o`, as a sequence.
pub open spec fn opt_seq<T>(o: Option<Vec<T>>) -> Option<Seq<T>> {
    match o {
        Some(v) => Some(v@),
        None => None,
    }
}

/// The optional list of strings `o`, as a sequence of texts.
pub open spec fn opt_texts(o: Option<Vec<String>>) -> Option<Seq<Seq<char>>> {
    match o {
        Some(v) => Some(v@.map_values(|s: String| s@)),
        None => None,
    }
}

/// The optional string `o`, as a text.
pub open spec fn opt_text(o: Option<String>) -> Option<Seq<char>> {
    match o {
        Some(s) => Some(s@),
        None => None,
    }
}

/// The optional number `o`, as a natural number.
pub open spec fn opt_nat(o: Option<u64>) -> Option<nat> {
    match o {
        Some(n) => Some(n as nat),
        None => None,
    }
}

/// `o` with `x` added at its end; an absent list becomes `[x]`.
pub open spec fn pushed<T>(o: Option<Seq<T>>, x: T) -> Option<Seq<T>> {
    match o {
        Some(s) => Some(s.push(x)),
        None => Some(seq![x]),
    }
}

/// Add `x` at the end of the optional list `o`, making the list if absent.
pub fn push_value<T>(o: &mut Option<Vec<T>>, x: T)
    ensures
        opt_seq(*final(o)) == pushed(opt_seq(*old(o)), x),
{
    match o {
        Some(v) => {
            v.push(x);
        },
        None => {
            let mut v = Vec::new();
            v.push(x);
            *o = Some(v);
        },
    }
}

/// Add a copy of `x` at the end of the optional list `o`, making the list if
/// absent.
pub fn push_text(o: &mut Option<Vec<String>>, x: &str)
    ensures
        opt_texts(*final(o)) == pushed(opt_texts(*old(o)), x@),
{
    let s = x.to_string();
    match o {
        Some(v) => {
            let ghost old_v = v@;
            v.push(s);
            assert(v@.map_values(|t: String| t@) =~= old_v.map_values(|t: String| t@).push(x@));
        },
        None => {
            let mut v = Vec::new();
            v.push(s);
            assert(v@.map_values(|t: String| t@) =~= seq![x@]);
            *o = Some(v);
        },
    }
}

/// `key` and the words for the values of a non-empty list.
pub open spec fn list_part<T: QueryValue>(key: Seq<char>, o: Option<Seq<T>>) -> Seq<char> {
    match o {
        Some(s) => if s.len() > 0 {
            key + merged(s)
        } else {
            Seq::empty()
        },
        None => Seq::empty(),
    }
}

/// `key` when the flag is set.
pub open spec fn flag_part(key: Seq<char>, o: Option<bool>) -> Seq<char> {
    if o == Some(true) {
        key
    } else {
        Seq::empty()
    }
}

/// `key` and the number, when there is one.
pub open spec fn number_part(key: Seq<char>, o: Option<nat>) -> Seq<char> {
    match o {
        Some(n) => key + decimal(n),
        None => Seq::empty(),
    }
}

/// `key` and the text, when there is one.
pub open spec fn text_part(key: Seq<char>, o: Option<Seq<char>>) -> Seq<char> {
    match o {
        Some(t) => key + t,
        None => Seq::empty(),
    }
}

/// The `year` filter: one year, a range, or a range open at one end.
pub open spec fn year_part(o: Option<(Option<u32>, Option<u32>)>) -> Seq<char> {
    match o {
        Some((Some(start), Some(end))) => if start == end {
            "&year="@ + decimal(start as nat)
        } else {
            "&year="@ + decimal(start as nat) + "-"@ + decimal(end as nat)
        },
        Some((Some(start), None)) => "&year="@ + decimal(start as nat) + "-"@,
        Some((None, Some(end))) => "&year=-"@ + decimal(end as nat),
        _ => Seq::empty(),
    }
}

/// The `publicationDate` filter: a range of dates, maybe open at one end.
pub open spec fn date_part(o: Option<(Option<Date>, Option<Date>)>) -> Seq<char> {
    match o {
        Some((Some(start), Some(end))) => "&publicationDate="@ + date_text(start) + ":"@ + date_text(end),
        Some((Some(start), None)) => "&publicationDate="@ + date_text(start) + ":"@,
        Some((None, Some(end))) => "&publicationDate=:"@ + date_text(end),
        _ => Seq::empty(),
    }
}

/// The `venue` filter: the venues, separated by commas.
pub open spec fn venue_part(o: Option<Seq<Seq<char>>>) -> Seq<char> {
    match o {
        Some(s) => if s.len() > 0 {
            "&venue="@ + join(s, ","@)
        } else {
            Seq::empty()
        },
        None => Seq::empty(),
    }
}

/// Append `key` and the words for the values of `o`, if it has any.
pub fn append_list_part<T: QueryValue>(q: &mut String, key: &str, o: &Option<Vec<T>>)
    ensures
        final(q)@ == old(q)@ + list_part(key@, opt_seq(*o)),
{
    match o {
        Some(v) => {
            if v.len() > 0 {
                q.append(key);
                let words = merge_values(v);
                q.append(words.as_str());
            } else {
                assert(q@ =~= q@ + Seq::<char>::empty());
            }
        },
        None => {
            assert(q@ =~= q@ + Seq::<char>::empty());
        },
    }
}

/// Append `key` if the flag is set.
pub fn append_flag_part(q: &mut String, key: &str, o: Option<bool>)
    ensures
        final(q)@ == old(q)@ + flag_part(key@, o),
{
    match o {
        Some(true) => {
            q.append(key);
        },
        _ => {
            assert(q@ =~= q@ + Seq::<char>::empty());
        },
    }
}

/// Append `key` and the number, if there is one.
pub fn append_number_part(q: &mut String, key: &str, o: Option<u64>)
    ensures
        final(q)@ == old(q)@ + number_part(key@, opt_nat(o)),
{
    match o {
        Some(n) => {
            q.append(key);
            let digits = decimal_string(n);
            q.append(digits.as_str());
        },
        None => {
            assert(q@ =~= q@ + Seq::<char>::empty());
        },
    }
}

/// Append `key` and the text, if there is one.
pub fn append_text_part(q: &mut String, key: &str, o: &Option<String>)
    ensures
        final(q)@ == old(q)@ + text_part(key@, opt_text(*o)),
{
    match o {
        Some(t) => {
            q.append(key);
            q.append(t.as_str());
        },
        None => {
            assert(q@ =~= q@ + Seq::<char>::empty());
        },
    }
}

/// Append the `year` filter, if there is one.
pub fn append_year_part(q: &mut String, o: Option<(Option<u32>, Option<u32>)>)
    ensures
        final(q)@ == old(q)@ + year_part(o),
{
    proof {
        reveal_strlit("-");
    }
    match o {
        Some((Some(start), Some(end))) => {
            q.append("&year=");
            let s = decimal_string(start as u64);
            q.append(s.as_str());
            if start != end {
                q.append("-");
                let e = decimal_string(end as u64);
                q.append(e.as_str());
            }
        },
        Some((Some(start), None)) => {
            q.append("&year=");
            let s = decimal_string(start as u64);
            q.append(s.as_str());
            q.append("-");
        },
        Some((None, Some(end))) => {
            q.append("&year=-");
            let e = decimal_string(end as u64);
            q.append(e.as_str());
        },
        _ => {
            assert(q@ =~= q@ + Seq::<char>::empty());
        },
    }
}

/// Append the `publicationDate` filter, if there is one.
pub fn append_date_part(q: &mut String, o: &Option<(Option<Date>, Option<Date>)>)
    ensures
        final(q)@ == old(q)@ + date_part(*o),
{
    proof {
        reveal_strlit(":");
    }
    match o {
        Some((Some(start), Some(end))) => {
            q.append("&publicationDate=");
            let s = start.to_query_text();
            q.append(s.as_str());
            q.append(":");
            let e = end.to_query_text();
            q.append(e.as_str());
        },
        Some((Some(start), None)) => {
            q.append("&publicationDate=");
            let s = start.to_query_text();
            q.append(s.as_str());
            q.append(":");
        },
        Some((None, Some(end))) => {
            q.append("&publicationDate=:");
            let e = end.to_query_text();
            q.append(e.as_str());
        },
        _ => {
            assert(q@ =~= q@ + Seq::<char>::empty());
        },
    }
}

/// Append the `venue` filter, if there are venues.
pub fn append_venue_part(q: &mut String, o: &Option<Vec<String>>)
    ensures
        final(q)@ == old(q)@ + venue_part(opt_texts(*o)),
{
    match o {
        Some(v) => {
            if v.len() > 0 {
                q.append("&venue=");
                let venues = join_strings(v, ",");
                q.append(venues.as_str());
            } else {
                assert(q@ =~= q@ + Seq::<char>::empty());
            }
        },
        None => {
            assert(q@ =~= q@ + Seq::<char>::empty());
        },
    }
}

/// The optional number `o`, as a natural number.
pub open spec fn nat_of_u32(o: Option<u32>) -> Option<nat> {
    match o {
        Some(n) => Some(n as nat),
        None => None,
    }
}

/// The optional number `o`, as a natural number.
pub open spec fn nat_of_u8(o: Option<u8>) -> Option<nat> {
    match o {
        Some(n) => Some(n as nat),
        None => None,
    }
}

/// `o` as a 64-bit number.
pub fn widen_u32(o: Option<u32>) -> (r: Option<u64>)
    ensures
        opt_nat(r) == nat_of_u32(o),
{
    match o {
        Some(n) => Some(n as u64),
        None => None,
    }
}

/// `o` as a 64-bit number.
pub fn widen_u8(o: Option<u8>) -> (r: Option<u64>)
    ensures
        opt_nat(r) == nat_of_u8(o),
{
    match o {
        Some(n) => Some(n as u64),
        None => None,
    }
}

/// The range `o` with its start set to `x`.
pub open spec fn with_start<T>(o: Option<(Option<T>, Option<T>)>, x: T) -> Option<(Option<T>, Option<T>)> {
    match o {
        Some((_, end)) => Some((Some(x), end)),
        None => Some((Some(x), None)),
    }
}

/// The range `o` with its end set to `x`.
pub open spec fn with_end<T>(o: Option<(Option<T>, Option<T>)>, x: T) -> Option<(Option<T>, Option<T>)> {
    match o {
        Some((start, _)) => Some((start, Some(x))),
        None => Some((None, Some(x))),
    }
}

/// Set the start of the range `o` to `x`, keeping its end.
pub fn set_start<T: Copy>(o: &mut Option<(Option<T>, Option<T>)>, x: T)
    ensures
        *final(o) == with_start(*old(o), x),
{
    let end = match *o {
        Some((_, end)) => end,
        None => None,
    };
    *o = Some((Some(x), end));
}

/// Set the end of the range `o` to `x`, keeping its start.
pub fn set_end<T: Copy>(o: &mut Option<(Option<T>, Option<T>)>, x: T)
    ensures
        *final(o) == with_end(*old(o), x),
{
    let start = match *o {
        Some((start, _)) => start,
        None => None,
    };
    *o = Some((start, Some(x)));
}

/// A copy of the optional list `o`.
pub fn copy_values<T: Copy>(o: &Option<Vec<T>>) -> (r: Option<Vec<T>>)
    ensures
        opt_seq(r) == opt_seq(*o),
{
    match o {
        Some(v) => {
            let mut out: Vec<T> = Vec::new();
            let mut i: usize = 0;
            while i < v.len()
                invariant
                    i <= v.len(),
                    out@ == v@.take(i as int),
                decreases v.len() - i,
            {
                out.push(v[i]);
                proof {
                    assert(v@.take(i as int + 1) =~= v@.take(i as int).push(v@[i as int]));
                }
                i = i + 1;
            }
            assert(v@.take(v.len() as int) =~= v@);
            Some(out)
        },
        None => None,
    }
}

/// A copy of the optional list of strings `o`.
pub fn copy_texts(o: &Option<Vec<String>>) -> (r: Option<Vec<String>>)
    ensures
        opt_texts(r) == opt_texts(*o),
{
    match o {
        Some(v) => {
            let mut out: Vec<String> = Vec::new();
            let mut i: usize = 0;
            while i < v.len()
                invariant
                    i <= v.len(),
                    out@.map_values(|s: String| s@) == v@.take(i as int).map_values(|s: String| s@),
                decreases v.len() - i,
            {
                let s = v[i].clone();
                let ghost before = out@;
                out.push(s);
                proof {
                    assert(out@.map_values(|t: String| t@) =~= before.map_values(|t: String| t@).push(s@));
                    assert(v@.take(i as int + 1).map_values(|t: String| t@) =~= v@.take(i as int).map_values(
                        |t: String| t@,
                    ).push(v@[i as int]@));
                }
                i = i + 1;
            }
            assert(v@.take(v.len() as int) =~= v@);
            Some(out)
        },
        None => None,
    }
}

/// A copy of the optional string `o`.
pub fn copy_text(o: &Option<String>) -> (r: Option<String>)
    ensures
        opt_text(r) == opt_text(*o),
{
    match o {
        Some(s) => Some(s.clone()),
        None => None,
    }
}

/// The year range does not start after it ends.
pub open spec fn years_in_order(o: Option<(Option<u32>, Option<u32>)>) -> bool {
    match o {
        Some((Some(start), Some(end))) => start <= end,
        _ => true,
    }
}

/// Every date of the range exists.
pub open spec fn dates_exist(o: Option<(Option<Date>, Option<Date>)>) -> bool {
    match o {
        Some((start, end)) => (start matches Some(d) ==> d.spec_is_valid()) && (end matches Some(d)
            ==> d.spec_is_valid()),
        None => true,
    }
}

/// Whether the year range does not start after it ends.
pub fn check_years_in_order(o: Option<(Option<u32>, Option<u32>)>) -> (r: bool)
    ensures
        r == years_in_order(o),
{
    match o {
        Some((Some(start), Some(end))) => start <= end,
        _ => true,
    }
}

/// Whether every date of the range exists.
pub fn check_dates_exist(o: &Option<(Option<Date>, Option<Date>)>) -> (r: bool)
    ensures
        r == dates_exist(*o),
{
    match o {
        Some((start, end)) => {
            let start_ok = match start {
                Some(d) => d.is_valid(),
                None => true,
            };
            let end_ok = match end {
                Some(d) => d.is_valid(),
                None => true,
            };
            start_ok && end_ok
        },
        None => true,
    }
}

/// Message of the error for a year range that starts after it ends.
pub open spec fn year_order_message() -> Seq<char> {
    "start year must be less than or equal to end year"@
}

/// Message of the error for a date that does not exist.
pub open spec fn invalid_date_message() -> Seq<char> {
    "date does not exist"@
}

/// The error for a year range that starts after it ends.
pub fn year_order_error() -> (r: Error)
    ensures
        r matches Error::InvalidParameter(m) && m@ == year_order_message(),
{
    Error::InvalidParameter("start year must be less than or equal to end year".to_string())
}

/// The error for a date that does not exist.
pub fn invalid_date_error() -> (r: Error)
    ensures
        r matches Error::InvalidParameter(m) && m@ == invalid_date_message(),
{
    Error::InvalidParameter("date does not exist".to_string())
}

/// Address of the Semantic Scholar graph API.
pub open spec fn graph_api_base() -> Seq<char> {
    "https://api.semanticscholar.org/graph/v1"@
}

/// Address of `path` under the Semantic Scholar graph API.
pub fn graph_api_url(path: &str) -> (r: String)
    ensures
        r@ == graph_api_base() + path@,
{
    let mut u = String::from_str("https://api.semanticscholar.org/graph/v1");
    u.append(path);
    u
}

} // verus!
