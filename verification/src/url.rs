//! Construction of the URL that a call goes to: the caller's URL, followed by
//! the query parameters in percent-encoded form.

use vstd::prelude::*;
use vstd::string::*;
use vstd::utf8::encode_utf8;
use vstd::std_specs::iter::IteratorSpec;

verus! {

/// The bytes that percent-encoding leaves as they are: the ASCII letters and
/// digits, and `-`, `.`, `_`, `~`.
pub open spec fn is_unreserved(b: u8) -> bool {
    ||| 0x30 <= b <= 0x39
    ||| 0x41 <= b <= 0x5a
    ||| 0x61 <= b <= 0x7a
    ||| b == 0x2d
    ||| b == 0x2e
    ||| b == 0x5f
    ||| b == 0x7e
}

/// The upper-case hexadecimal digit for `d`, which is below sixteen.
pub open spec fn hex_upper(d: u8) -> char
    recommends
        d < 16,
{
    if d < 10 {
        (0x30 + d) as char
    } else {
        (0x41 + d - 10) as char
    }
}

/// One byte in percent-encoded form: itself where it is unreserved, else `%`
/// and its two hexadecimal digits.
pub open spec fn escaped_byte(b: u8) -> Seq<char> {
    if is_unreserved(b) {
        seq![b as char]
    } else {
        seq!['%', hex_upper(b / 16), hex_upper(b % 16)]
    }
}

/// A byte string in percent-encoded form.
pub open spec fn escaped_bytes(bytes: Seq<u8>) -> Seq<char>
    decreases bytes.len(),
{
    if bytes.len() == 0 {
        seq![]
    } else {
        escaped_byte(bytes[0]) + escaped_bytes(bytes.drop_first())
    }
}

/// A string in percent-encoded form: that of its UTF-8 bytes.
pub open spec fn percent_encoded(s: Seq<char>) -> Seq<char> {
    escaped_bytes(encode_utf8(s))
}

/// One query parameter as it stands in a URL: key, `=`, value, both encoded.
pub open spec fn query_pair(pair: (Seq<char>, Seq<char>)) -> Seq<char> {
    percent_encoded(pair.0).push('=') + percent_encoded(pair.1)
}

/// The query string of a list of parameters: the pairs in the order given,
/// with `&` between them.
pub open spec fn query_string(params: Seq<(Seq<char>, Seq<char>)>) -> Seq<char>
    decreases params.len(),
{
    if params.len() == 0 {
        seq![]
    } else if params.len() == 1 {
        query_pair(params[0])
    } else {
        query_string(params.drop_last()).push('&') + query_pair(params.last())
    }
}

/// Whether a URL already has a query component, which is so where it holds a
/// question mark.
pub open spec fn has_query(url: Seq<char>) -> bool {
    url.contains('?')
}

/// The URL that a call goes to. Without parameters it is the caller's URL as
/// it stands. Else the query string follows it, behind `&` where the URL has a
/// query component already and behind `?` where it has none.
pub open spec fn full_url(url: Seq<char>, params: Seq<(Seq<char>, Seq<char>)>) -> Seq<char> {
    if params.len() == 0 {
        url
    } else {
        url.push(if has_query(url) { '&' } else { '?' }) + query_string(params)
    }
}

/// The parameters of a list as pairs of character sequences.
pub open spec fn pairs_of(params: Seq<(String, String)>) -> Seq<(Seq<char>, Seq<char>)> {
    Seq::new(params.len(), |i: int| (params[i].0@, params[i].1@))
}

/// Calls `urlencoding::encode`, which is not proved here. It is taken to go
/// through the UTF-8 bytes of the string, to keep each ASCII letter and digit
/// and each of `-`, `.`, `_`, `~`, and to write every other byte as `%` and
/// two upper-case hexadecimal digits.
#[verifier::external_body]
pub(crate) fn encode_component(s: &str) -> (r: String)
    ensures
        r@ == percent_encoded(s@),
{
    urlencoding::encode(s).into_owned()
}

/// Tells whether a URL already has a query component.
pub fn contains_query(url: &str) -> (b: bool)
    ensures
        b == has_query(url@),
{
    broadcast use {vstd::string::axiom_spec_iter, vstd::string::next_postcondition};

    let mut rest = url.chars();
    let ghost mut seen: int = 0;
    loop
        invariant
            0 <= seen <= url@.len(),
            rest.remaining() == url@.skip(seen),
            rest.obeys_prophetic_iter_laws(),
            forall|j: int| 0 <= j < seen ==> url@[j] != '?',
        decreases url@.len() - seen,
    {
        match rest.next() {
            None => {
                return false;
            },
            Some(c) => {
                assert(c == url@[seen]);
                if c == '?' {
                    return true;
                }
                proof {
                    assert(url@.skip(seen).drop_first() == url@.skip(seen + 1));
                    seen = seen + 1;
                }
            },
        }
    }
}

/// Appends the query string of `params` to `out`.
pub fn push_query(out: &mut String, params: &Vec<(String, String)>)
    ensures
        final(out)@ == old(out)@ + query_string(pairs_of(params@)),
{
    let ghost pairs = pairs_of(params@);
    let mut i: usize = 0;
    while i < params.len()
        invariant
            0 <= i <= params.len(),
            pairs == pairs_of(params@),
            out@ == old(out)@ + query_string(pairs.take(i as int)),
        decreases params.len() - i,
    {
        if i > 0 {
            out.push('&');
        }
        let key = encode_component(params[i].0.as_str());
        let value = encode_component(params[i].1.as_str());
        out.append(key.as_str());
        out.push('=');
        out.append(value.as_str());
        proof {
            let next = pairs.take(i as int + 1);
            assert(next.drop_last() == pairs.take(i as int));
            assert(next.last() == pairs[i as int]);
            assert(out@ == old(out)@ + query_string(next));
        }
        i = i + 1;
    }
    proof {
        assert(pairs.take(i as int) == pairs);
    }
}

/// Builds the URL that a call goes to from the caller's URL and the query
/// parameters, whose order is kept.
pub fn build_url(url: &str, params: &Vec<(String, String)>) -> (full: String)
    ensures
        full@ == full_url(url@, pairs_of(params@)),
{
    let mut full = url.to_owned();
    if params.len() > 0 {
        if contains_query(url) {
            full.push('&');
        } else {
            full.push('?');
        }
        push_query(&mut full, params);
    }
    full
}

} // verus!
