//! Byte strings at the C boundary: NUL checks, UTF-8 decoding and the
//! fall-backs that apply when a C string is missing or not UTF-8.

use vstd::prelude::*;
use vstd::utf8::*;
use vstd::string::StringSliceAdditionalSpecFns;

use crate::error::ChatError;

verus! {

/// `std::str::from_utf8`: the slice is accepted exactly when it is valid
/// UTF-8, and the string handed back has the slice as its bytes.
#[verifier::external_body]
fn str_from_utf8(bytes: &[u8]) -> (res: Option<&str>)
    ensures
        res is Some <==> valid_utf8(bytes@),
        res matches Some(s) ==> s.spec_bytes() == bytes@,
{
    std::str::from_utf8(bytes).ok()
}

/// The characters that a byte string stands for, if it is valid UTF-8.
pub open spec fn utf8_text(bytes: Seq<u8>) -> Option<Seq<char>> {
    if valid_utf8(bytes) {
        Some(decode_utf8(bytes))
    } else {
        None
    }
}

/// A C string read back as text: a missing string or one that is not UTF-8
/// becomes the empty text.
pub open spec fn text_or_empty(raw: Option<Seq<u8>>) -> Seq<char> {
    text_or(raw, Seq::empty())
}

/// A C string read back as text, with `fallback` for a missing string or
/// one that is not UTF-8.
pub open spec fn text_or(raw: Option<Seq<u8>>, fallback: Seq<char>) -> Seq<char> {
    match raw {
        Some(b) => match utf8_text(b) {
            Some(t) => t,
            None => fallback,
        },
        None => fallback,
    }
}

/// An optional C string read back as optional text: a missing string or one
/// that is not UTF-8 gives `None`.
pub open spec fn text_or_none(raw: Option<Seq<u8>>) -> Option<Seq<char>> {
    match raw {
        Some(b) => utf8_text(b),
        None => None,
    }
}

/// The bytes held by an optional byte buffer.
pub open spec fn opt_bytes(o: Option<Vec<u8>>) -> Option<Seq<u8>> {
    match o {
        Some(v) => Some(v@),
        None => None,
    }
}

/// The characters held by an optional string.
pub open spec fn opt_chars(o: Option<String>) -> Option<Seq<char>> {
    match o {
        Some(s) => Some(s@),
        None => None,
    }
}

/// The UTF-8 bytes of optional text.
pub open spec fn opt_utf8(o: Option<Seq<char>>) -> Option<Seq<u8>> {
    match o {
        Some(s) => Some(encode_utf8(s)),
        None => None,
    }
}

/// Offset of the first NUL byte, if any.
pub open spec fn nul_index(b: Seq<u8>) -> Option<nat>
    decreases b.len(),
{
    if b.len() == 0 {
        None
    } else if b[0] == 0 {
        Some(0)
    } else {
        match nul_index(b.drop_first()) {
            Some(i) => Some(i + 1),
            None => None,
        }
    }
}

/// The error that a list of strings, turned into C strings one after the
/// other, stops at: the first string holding a NUL byte, at its first NUL.
pub open spec fn first_nul(strings: Seq<Seq<u8>>) -> Option<nat>
    decreases strings.len(),
{
    if strings.len() == 0 {
        None
    } else {
        match nul_index(strings[0]) {
            Some(p) => Some(p),
            None => first_nul(strings.drop_first()),
        }
    }
}

/// An optional string as a list of zero or one strings.
pub open spec fn opt_seq(o: Option<Seq<u8>>) -> Seq<Seq<u8>> {
    match o {
        Some(s) => seq![s],
        None => Seq::empty(),
    }
}

/// The outcome of turning a string into a C string, by its first NUL.
pub open spec fn nul_outcome<T>(res: Result<T, ChatError>, nul: Option<nat>) -> bool {
    match res {
        Ok(_) => nul is None,
        Err(e) => nul matches Some(p) && e == (ChatError::NulByte { position: p as usize }),
    }
}

proof fn lemma_nul_index_scan(b: Seq<u8>, i: int)
    requires
        0 <= i <= b.len(),
        forall|j: int| 0 <= j < i ==> b[j] != 0,
    ensures
        i < b.len() && b[i] == 0 ==> nul_index(b) == Some(i as nat),
        i == b.len() ==> nul_index(b) is None,
    decreases i,
{
    if i > 0 {
        lemma_nul_index_scan(b.drop_first(), i - 1);
    } else if b.len() > 0 {
    }
}

/// `nul_index` is below the length and points at a NUL byte.
pub proof fn lemma_nul_index_bounds(b: Seq<u8>)
    ensures
        nul_index(b) matches Some(p) ==> p < b.len() && b[p as int] == 0,
    decreases b.len(),
{
    if b.len() > 0 {
        lemma_nul_index_bounds(b.drop_first());
    }
}

/// Scanning two lists one after the other stops where scanning their
/// concatenation does.
pub proof fn lemma_first_nul_append(a: Seq<Seq<u8>>, b: Seq<Seq<u8>>)
    ensures
        first_nul(a + b) == (match first_nul(a) {
            Some(p) => Some(p),
            None => first_nul(b),
        }),
    decreases a.len(),
{
    if a.len() > 0 {
        assert((a + b).drop_first() =~= a.drop_first() + b);
        lemma_first_nul_append(a.drop_first(), b);
    } else {
        assert(a + b =~= b);
    }
}

/// A single string stops where its first NUL byte is.
pub proof fn lemma_first_nul_single(b: Seq<u8>)
    ensures
        first_nul(seq![b]) == nul_index(b),
{
    reveal_with_fuel(first_nul, 2);
    assert(seq![b].drop_first() =~= Seq::<Seq<u8>>::empty());
}

/// Flattening one more list of strings appends it.
pub proof fn lemma_flatten_take_step(lists: Seq<Seq<Seq<u8>>>, i: int)
    requires
        0 <= i < lists.len(),
    ensures
        lists.take(i + 1).flatten() =~= lists.take(i).flatten() + lists[i],
{
    assert(lists.take(i + 1) =~= lists.take(i).push(lists[i]));
    lists.take(i).lemma_flatten_push(lists[i]);
}

/// Scanning a flattened list of lists, of which the first `i` hold no NUL
/// byte, stops where list `i` or the lists after it stop.
pub proof fn lemma_first_nul_flatten_at(lists: Seq<Seq<Seq<u8>>>, i: int)
    requires
        0 <= i < lists.len(),
        first_nul(lists.take(i).flatten()) is None,
    ensures
        first_nul(lists.flatten()) == (match first_nul(lists[i]) {
            Some(p) => Some(p),
            None => first_nul(lists.skip(i + 1).flatten()),
        }),
{
    assert(lists =~= lists.take(i + 1) + lists.skip(i + 1));
    vstd::seq_lib::lemma_flatten_concat(lists.take(i + 1), lists.skip(i + 1));
    lemma_flatten_take_step(lists, i);
    lemma_first_nul_append(lists.take(i).flatten() + lists[i], lists.skip(i + 1).flatten());
    lemma_first_nul_append(lists.take(i).flatten(), lists[i]);
}

/// The bytes of a string as a C string: the UTF-8 bytes, or the position of
/// the first NUL byte when there is one.
pub fn c_bytes(s: &str) -> (res: Result<Vec<u8>, ChatError>)
    ensures
        nul_outcome(res, nul_index(s.spec_bytes())),
        res matches Ok(v) ==> v@ == s.spec_bytes(),
{
    let b = s.as_bytes();
    let mut i: usize = 0;
    while i < b.len()
        invariant
            b@ == s.spec_bytes(),
            i <= b@.len(),
            forall|j: int| 0 <= j < i ==> b@[j] != 0,
        decreases b@.len() - i,
    {
        if b[i] == 0 {
            proof {
                lemma_nul_index_scan(b@, i as int);
            }
            return Err(ChatError::NulByte { position: i });
        }
        i = i + 1;
    }
    proof {
        lemma_nul_index_scan(b@, i as int);
    }
    Ok(vstd::slice::slice_to_vec(b))
}

/// An optional string as an optional C string (see `c_bytes`).
pub fn c_bytes_opt(s: &Option<String>) -> (res: Result<Option<Vec<u8>>, ChatError>)
    ensures
        nul_outcome(res, first_nul(opt_seq(opt_utf8(opt_chars(*s))))),
        res matches Ok(v) ==> opt_bytes(v) == opt_utf8(opt_chars(*s)),
{
    match s {
        Some(t) => {
            proof {
                lemma_first_nul_single(encode_utf8(t@));
            }
            match c_bytes(t.as_str()) {
                Ok(v) => Ok(Some(v)),
                Err(e) => Err(e),
            }
        },
        None => Ok(None),
    }
}

/// The UTF-8 bytes of an optional string slice.
pub open spec fn opt_str_bytes(o: Option<&str>) -> Option<Seq<u8>> {
    match o {
        Some(s) => Some(s.spec_bytes()),
        None => None,
    }
}

/// An optional string slice as an optional C string (see `c_bytes`).
pub fn c_bytes_opt_str(s: Option<&str>) -> (res: Result<Option<Vec<u8>>, ChatError>)
    ensures
        nul_outcome(res, first_nul(opt_seq(opt_str_bytes(s)))),
        res matches Ok(v) ==> opt_bytes(v) == opt_str_bytes(s),
{
    match s {
        Some(t) => {
            proof {
                lemma_first_nul_single(t.spec_bytes());
            }
            match c_bytes(t) {
                Ok(v) => Ok(Some(v)),
                Err(e) => Err(e),
            }
        },
        None => Ok(None),
    }
}

/// Decodes bytes as UTF-8; `None` when they are not valid UTF-8.
pub fn decode_bytes(bytes: &[u8]) -> (res: Option<String>)
    ensures
        opt_chars(res) == utf8_text(bytes@),
{
    broadcast use encode_utf8_decode_utf8;

    match str_from_utf8(bytes) {
        Some(s) => {
            let out = s.to_owned();
            Some(out)
        },
        None => None,
    }
}

/// A C string read back as text, `fallback` when it is missing or not UTF-8.
pub fn c_text_or(raw: &Option<Vec<u8>>, fallback: &str) -> (res: String)
    ensures
        res@ == text_or(opt_bytes(*raw), fallback@),
{
    match raw {
        Some(b) => match decode_bytes(b.as_slice()) {
            Some(t) => t,
            None => fallback.to_owned(),
        },
        None => fallback.to_owned(),
    }
}

/// A C string read back as text, empty when it is missing or not UTF-8.
pub fn c_text_or_empty(raw: &Option<Vec<u8>>) -> (res: String)
    ensures
        res@ == text_or_empty(opt_bytes(*raw)),
{
    match raw {
        Some(b) => match decode_bytes(b.as_slice()) {
            Some(t) => t,
            None => String::new(),
        },
        None => String::new(),
    }
}

/// An optional C string read back as optional text: `None` when it is
/// missing or not UTF-8.
pub fn c_text_or_none(raw: &Option<Vec<u8>>) -> (res: Option<String>)
    ensures
        opt_chars(res) == text_or_none(opt_bytes(*raw)),
{
    match raw {
        Some(b) => decode_bytes(b.as_slice()),
        None => None,
    }
}

} // verus!
