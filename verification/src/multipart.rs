//! Extraction of the `file` form field's bytes from a multipart/form-data
//! body, given the boundary: delimiter lines are located, each part's
//! headers are searched for the `name="file"` disposition, and that
//! part's content runs to the next delimiter. Fully verified against a
//! recursive specification of the same scan.

use vstd::prelude::*;
use crate::scan::{copy_range, find_bytes, lemma_find_spec, spec_find};

verus! {

/// The bytes of a line break.
pub open spec fn spec_crlf() -> Seq<u8> {
    seq![13u8, 10u8]
}

/// The two dashes before a boundary.
pub open spec fn spec_dashes() -> Seq<u8> {
    seq![45u8, 45u8]
}

/// The bytes of the disposition token `name="file"`.
pub open spec fn spec_file_token() -> Seq<u8> {
    seq![110u8, 97u8, 109u8, 101u8, 61u8, 34u8, 102u8, 105u8, 108u8, 101u8, 34u8]
}

/// Whether a byte is a letter or a digit: a token occurrence preceded by
/// such a byte sits inside a longer word (as in `filename="file"`) and is
/// not the name attribute itself.
pub open spec fn spec_is_word_byte(b: u8) -> bool {
    (48 <= b <= 57) || (65 <= b <= 90) || (97 <= b <= 122)
}

/// Whether the headers before `he` hold the `name="file"` attribute at a
/// token boundary: some occurrence of the token at or after `from`,
/// before `he`, whose preceding byte is no letter or digit.
pub open spec fn spec_has_file_token(body: Seq<u8>, from: int, he: int) -> bool
    decreases body.len() - from + 1,
{
    match spec_find(body, spec_file_token(), from) {
        None => false,
        Some(q) => if q >= he || q > body.len() {
            false
        } else if q >= 1 && !spec_is_word_byte(body[q - 1]) {
            true
        } else if q + 1 <= from {
            false
        } else {
            spec_has_file_token(body, q + 1, he)
        },
    }
}

/// The content range of the part named `file`, scanning at or after
/// `from`: after each delimiter line, the headers run to the first blank
/// line; a part whose headers hold the `name="file"` attribute at a token
/// boundary yields the content up to the next delimiter; any other part
/// is skipped; a missing delimiter, a final or malformed delimiter line,
/// or headers or content that never end yield nothing.
pub open spec fn spec_mp_file(body: Seq<u8>, delim: Seq<u8>, from: int) -> Option<(int, int)>
    decreases body.len() - from + 1,
{
    match spec_find(body, delim, from) {
        None => None,
        Some(p) => {
            let hs = p + delim.len() + 2;
            if hs > body.len() || body.subrange(p + delim.len(), hs) != spec_crlf() {
                None
            } else {
                match spec_find(body, spec_crlf() + spec_crlf(), hs) {
                    None => None,
                    Some(he) => {
                        let cs = he + 4;
                        let named = spec_has_file_token(body, hs, he);
                        if named {
                            match spec_find(body, spec_crlf() + delim, cs) {
                                None => None,
                                Some(ce) => Some((cs, ce)),
                            }
                        } else {
                            if p + delim.len() <= from {
                                None
                            } else {
                                spec_mp_file(body, delim, p + delim.len())
                            }
                        }
                    },
                }
            }
        },
    }
}

/// Whether a byte is a letter or a digit.
fn is_word_byte(b: u8) -> (r: bool)
    ensures
        r == spec_is_word_byte(b),
{
    (48 <= b && b <= 57) || (65 <= b && b <= 90) || (97 <= b && b <= 122)
}

/// Scans the headers for the `name="file"` attribute at a token boundary,
/// mirroring `spec_has_file_token`.
fn has_file_token(body: &Vec<u8>, ftoken: &Vec<u8>, from: usize, he: usize) -> (r: bool)
    requires
        ftoken@ == spec_file_token(),
        1 <= from <= body@.len(),
    ensures
        r == spec_has_file_token(body@, from as int, he as int),
    decreases body@.len() - from,
{
    match find_bytes(body, ftoken, from) {
        None => false,
        Some(q) => {
            proof {
                lemma_find_spec(body@, ftoken@, from as int);
            }
            if q >= he {
                false
            } else if !is_word_byte(body[q - 1]) {
                true
            } else {
                has_file_token(body, ftoken, q + 1, he)
            }
        },
    }
}

/// Scans for the `file` part's content range, mirroring `spec_mp_file`.
fn mp_file_from(
    body: &Vec<u8>,
    delim: &Vec<u8>,
    crlfcrlf: &Vec<u8>,
    ftoken: &Vec<u8>,
    crlfdelim: &Vec<u8>,
    from: usize,
) -> (r: Option<(usize, usize)>)
    requires
        delim@.len() >= 3,
        crlfcrlf@ == spec_crlf() + spec_crlf(),
        ftoken@ == spec_file_token(),
        crlfdelim@ == spec_crlf() + delim@,
        from <= body@.len(),
    ensures
        match spec_mp_file(body@, delim@, from as int) {
            Some((cs, ce)) => r matches Some(p) && p.0 == cs && p.1 == ce && 0 <= cs <= ce
                <= body@.len(),
            None => r is None,
        },
    decreases body@.len() - from,
{
    let total: usize = body.len();
    let dlen: usize = delim.len();
    let p = match find_bytes(body, delim, from) {
        None => {
            return None;
        },
        Some(p) => p,
    };
    proof {
        lemma_find_spec(body@, delim@, from as int);
    }
    if total - (p + dlen) < 2 {
        return None;
    }
    let hs: usize = p + dlen + 2;
    if !(body[p + dlen] == 13 && body[p + dlen + 1] == 10) {
        proof {
            assert(body@.subrange(p + dlen, hs as int) != spec_crlf()) by {
                assert(body@.subrange(p + dlen, hs as int)[0] == body@[p + dlen]);
                assert(body@.subrange(p + dlen, hs as int)[1] == body@[p + dlen + 1]);
                assert(spec_crlf()[0] == 13u8 && spec_crlf()[1] == 10u8);
            }
        }
        return None;
    }
    proof {
        assert(body@.subrange(p + dlen, hs as int) =~= spec_crlf());
    }
    let he = match find_bytes(body, crlfcrlf, hs) {
        None => {
            return None;
        },
        Some(he) => he,
    };
    proof {
        lemma_find_spec(body@, crlfcrlf@, hs as int);
    }
    let cs: usize = he + 4;
    let named: bool = has_file_token(body, ftoken, hs, he);
    if named {
        match find_bytes(body, crlfdelim, cs) {
            None => None,
            Some(ce) => {
                proof {
                    lemma_find_spec(body@, crlfdelim@, cs as int);
                }
                Some((cs, ce))
            },
        }
    } else {
        mp_file_from(body, delim, crlfcrlf, ftoken, crlfdelim, p + dlen)
    }
}

/// Extracts the bytes of the form field named `file` from a multipart
/// body with the given boundary.
pub fn multipart_file(body: &Vec<u8>, boundary: &Vec<u8>) -> (r: Option<Vec<u8>>)
    requires
        boundary@.len() >= 1,
    ensures
        match spec_mp_file(body@, spec_dashes() + boundary@, 0) {
            Some((cs, ce)) => r matches Some(v) && v@ == body@.subrange(cs, ce),
            None => r is None,
        },
{
    let mut delim: Vec<u8> = Vec::new();
    delim.push(45);
    delim.push(45);
    delim.extend_from_slice(boundary.as_slice());
    proof {
        assert(delim@ =~= spec_dashes() + boundary@);
    }
    let mut crlfcrlf: Vec<u8> = Vec::new();
    crlfcrlf.push(13);
    crlfcrlf.push(10);
    crlfcrlf.push(13);
    crlfcrlf.push(10);
    proof {
        assert(crlfcrlf@ =~= spec_crlf() + spec_crlf());
    }
    let mut ftoken: Vec<u8> = Vec::new();
    ftoken.push(110);
    ftoken.push(97);
    ftoken.push(109);
    ftoken.push(101);
    ftoken.push(61);
    ftoken.push(34);
    ftoken.push(102);
    ftoken.push(105);
    ftoken.push(108);
    ftoken.push(101);
    ftoken.push(34);
    proof {
        assert(ftoken@ =~= spec_file_token());
    }
    let mut crlfdelim: Vec<u8> = Vec::new();
    crlfdelim.push(13);
    crlfdelim.push(10);
    crlfdelim.extend_from_slice(delim.as_slice());
    proof {
        assert(crlfdelim@ =~= spec_crlf() + delim@);
    }
    match mp_file_from(body, &delim, &crlfcrlf, &ftoken, &crlfdelim, 0) {
        Some((cs, ce)) => Some(copy_range(body, cs, ce)),
        None => None,
    }
}

} // verus!
