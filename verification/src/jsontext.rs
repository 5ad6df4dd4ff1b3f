//! Reading and writing the small JSON texts the runtime exchanges.
//!
//! The chat endpoint answers with a JSON object, and the one thing the
//! forwarder needs from it is a single string field.  The reader here
//! does not parse the whole object: it takes the first occurrence of the
//! quoted key, expects a colon and a JSON string after it (whitespace
//! allowed), and unescapes the simple backslash escapes.  A field whose
//! value is not such a string, an unterminated string, and an escape
//! outside the simple ones all count as "no value".

use vstd::prelude::*;
use crate::textscan::match_at;

verus! {

/// JSON whitespace: space, tab, line feed, carriage return.
pub open spec fn is_ws(b: u8) -> bool {
    b == 32 || b == 9 || b == 10 || b == 13
}

/// The byte denoted by a backslash followed by `b`, for the simple
/// escapes; `None` for anything else (including unicode escapes).
pub open spec fn simple_unescape(b: u8) -> Option<u8> {
    if b == 34 {
        Some(34)
    } else if b == 92 {
        Some(92)
    } else if b == 47 {
        Some(47)
    } else if b == 110 {
        Some(10)
    } else if b == 116 {
        Some(9)
    } else if b == 114 {
        Some(13)
    } else if b == 98 {
        Some(8)
    } else if b == 102 {
        Some(12)
    } else {
        None
    }
}

/// The first position at or after `i` where `pat` occurs in `hay`.
pub open spec fn find_from(hay: Seq<u8>, pat: Seq<u8>, i: int) -> Option<int>
    decreases hay.len() - i,
{
    if i < 0 || i + pat.len() > hay.len() {
        None
    } else if match_at(hay, pat, i) {
        Some(i)
    } else {
        find_from(hay, pat, i + 1)
    }
}

/// The first index at or after `i` whose byte is not JSON whitespace
/// (the length of `s` when only whitespace is left).
pub open spec fn skip_ws(s: Seq<u8>, i: int) -> int
    decreases s.len() - i,
{
    if 0 <= i < s.len() && is_ws(s[i]) {
        skip_ws(s, i + 1)
    } else {
        i
    }
}

/// The content of the JSON string whose opening quote stands just before
/// `i`, with the index after its closing quote; `None` when the string
/// is unterminated or uses an escape outside the simple ones.
pub open spec fn string_body_from(s: Seq<u8>, i: int) -> Option<(Seq<u8>, int)>
    decreases s.len() - i,
{
    if i < 0 || i >= s.len() {
        None
    } else if s[i] == 34 {
        Some((Seq::empty(), i + 1))
    } else if s[i] == 92 {
        if i + 1 < s.len() {
            match simple_unescape(s[i + 1]) {
                Some(c) => match string_body_from(s, i + 2) {
                    Some(r) => Some((seq![c] + r.0, r.1)),
                    None => None,
                },
                None => None,
            }
        } else {
            None
        }
    } else {
        match string_body_from(s, i + 1) {
            Some(r) => Some((seq![s[i]] + r.0, r.1)),
            None => None,
        }
    }
}

/// A key as it stands in the body: wrapped in quotes.
pub open spec fn quoted(key: Seq<u8>) -> Seq<u8> {
    seq![34u8] + key + seq![34u8]
}

/// The value of the first string field named `key` in `body`: after the
/// first occurrence of the quoted key come an optional run of
/// whitespace, a colon, optional whitespace, and a JSON string; its
/// unescaped content is the value.  Anything else yields `None`.
pub open spec fn field_value(body: Seq<u8>, key: Seq<u8>) -> Option<Seq<u8>> {
    match find_from(body, quoted(key), 0) {
        None => None,
        Some(i) => {
            let j = skip_ws(body, i + quoted(key).len());
            if j < body.len() && body[j] == 58 {
                let k = skip_ws(body, j + 1);
                if k < body.len() && body[k] == 34 {
                    match string_body_from(body, k + 1) {
                        Some(r) => Some(r.0),
                        None => None,
                    }
                } else {
                    None
                }
            } else {
                None
            }
        },
    }
}

/// How one byte stands inside a JSON string being written: the quote,
/// the backslash, and the common control bytes get their escapes; every
/// other byte stands as itself.
pub open spec fn escape_byte(b: u8) -> Seq<u8> {
    if b == 34 {
        seq![92u8, 34u8]
    } else if b == 92 {
        seq![92u8, 92u8]
    } else if b == 10 {
        seq![92u8, 110u8]
    } else if b == 13 {
        seq![92u8, 114u8]
    } else if b == 9 {
        seq![92u8, 116u8]
    } else {
        seq![b]
    }
}

/// A text as it stands inside a JSON string being written: each byte
/// replaced by its escape.
pub open spec fn escape_text(s: Seq<u8>) -> Seq<u8>
    decreases s.len(),
{
    if s.len() == 0 {
        Seq::empty()
    } else {
        escape_text(s.drop_last()) + escape_byte(s.last())
    }
}

/// Append the escaped form of `s` to `out`.
pub fn push_escaped(out: &mut Vec<u8>, s: &[u8])
    ensures
        final(out)@ == old(out)@ + escape_text(s@),
{
    let n: usize = s.len();
    let mut i: usize = 0;
    while i < n
        invariant
            n == s@.len(),
            i <= n,
            out@ == old(out)@ + escape_text(s@.subrange(0, i as int)),
        decreases n - i,
    {
        let b = s[i];
        if b == 34 {
            out.push(92);
            out.push(34);
        } else if b == 92 {
            out.push(92);
            out.push(92);
        } else if b == 10 {
            out.push(92);
            out.push(110);
        } else if b == 13 {
            out.push(92);
            out.push(114);
        } else if b == 9 {
            out.push(92);
            out.push(116);
        } else {
            out.push(b);
        }
        proof {
            let pre = s@.subrange(0, i as int);
            let post = s@.subrange(0, i + 1);
            assert(post.drop_last() =~= pre);
            assert(post.last() == s@[i as int]);
            assert(out@ =~= old(out)@ + escape_text(post));
        }
        i += 1;
    }
    proof {
        assert(s@.subrange(0, s@.len() as int) =~= s@);
    }
}

fn simple_unescape_exec(b: u8) -> (r: Option<u8>)
    ensures
        r == simple_unescape(b),
{
    if b == 34 {
        Some(34)
    } else if b == 92 {
        Some(92)
    } else if b == 47 {
        Some(47)
    } else if b == 110 {
        Some(10)
    } else if b == 116 {
        Some(9)
    } else if b == 114 {
        Some(13)
    } else if b == 98 {
        Some(8)
    } else if b == 102 {
        Some(12)
    } else {
        None
    }
}

fn find_from_exec(hay: &[u8], pat: &[u8], i: usize) -> (r: Option<usize>)
    requires
        i <= hay@.len(),
    ensures
        match r {
            Some(x) => {
                &&& find_from(hay@, pat@, i as int) == Some(x as int)
                &&& match_at(hay@, pat@, x as int)
                &&& i <= x
            },
            None => find_from(hay@, pat@, i as int) is None,
        },
    decreases hay@.len() - i,
{
    let hn: usize = hay.len();
    if pat.len() > hn - i {
        None
    } else if crate::textscan::match_at_exec(hay, pat, i) {
        Some(i)
    } else {
        find_from_exec(hay, pat, i + 1)
    }
}

fn skip_ws_exec(s: &[u8], i: usize) -> (r: usize)
    requires
        i <= s@.len(),
    ensures
        r == skip_ws(s@, i as int),
        i <= r <= s@.len(),
    decreases s@.len() - i,
{
    let n: usize = s.len();
    if i < n {
        let b = s[i];
        if b == 32 || b == 9 || b == 10 || b == 13 {
            return skip_ws_exec(s, i + 1);
        }
    }
    i
}

fn string_body_exec(s: &[u8], i: usize) -> (r: Option<(Vec<u8>, usize)>)
    requires
        i <= s@.len(),
    ensures
        match r {
            Some(p) => string_body_from(s@, i as int) == Some((p.0@, p.1 as int)),
            None => string_body_from(s@, i as int) is None,
        },
    decreases s@.len() - i,
{
    let n: usize = s.len();
    if i >= n {
        return None;
    }
    let b = s[i];
    if b == 34 {
        let v: Vec<u8> = Vec::new();
        return Some((v, i + 1));
    }
    if b == 92 {
        if i + 1 < n {
            let e = s[i + 1];
            match simple_unescape_exec(e) {
                Some(c) => match string_body_exec(s, i + 2) {
                    Some((mut v, j)) => {
                        v.insert(0, c);
                        assert(v@ =~= seq![c] + string_body_from(s@, i + 2)->Some_0.0);
                        Some((v, j))
                    },
                    None => None,
                },
                None => None,
            }
        } else {
            None
        }
    } else {
        match string_body_exec(s, i + 1) {
            Some((mut v, j)) => {
                v.insert(0, b);
                assert(v@ =~= seq![b] + string_body_from(s@, i + 1)->Some_0.0);
                Some((v, j))
            },
            None => None,
        }
    }
}

/// Extract the value of the first string field named `key` in `body`.
pub fn extract_string_field(body: &[u8], key: &[u8]) -> (r: Option<Vec<u8>>)
    ensures
        match r {
            Some(v) => field_value(body@, key@) == Some(v@),
            None => field_value(body@, key@) is None,
        },
{
    let mut pat: Vec<u8> = Vec::new();
    pat.push(34);
    pat.extend_from_slice(key);
    pat.push(34);
    assert(pat@ =~= quoted(key@));
    let bn: usize = body.len();
    match find_from_exec(body, &pat, 0) {
        None => None,
        Some(i) => {
            let j = skip_ws_exec(body, i + pat.len());
            if j < body.len() && body[j] == 58 {
                let k = skip_ws_exec(body, j + 1);
                if k < body.len() && body[k] == 34 {
                    match string_body_exec(body, k + 1) {
                        Some((v, _end)) => Some(v),
                        None => None,
                    }
                } else {
                    None
                }
            } else {
                None
            }
        },
    }
}

} // verus!
