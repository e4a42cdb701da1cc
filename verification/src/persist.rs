//! The persisted form of the application state.
//!
//! The record stored across restarts holds the label alone, as the bytes
//! `label:` followed by the label's UTF-8. The value is left out on
//! purpose: a reloaded state always starts at `DEFAULT_VALUE`. Decoding is
//! total: bytes without the `label:` prefix, or with ill-formed UTF-8
//! after it, fall back to the default state rather than fail.

use vstd::prelude::*;
use vstd::string::StringSliceAdditionalSpecFns;
use vstd::utf8::{decode_utf8, encode_utf8, encode_utf8_decode_utf8, valid_utf8};

use crate::app::{default_view, AppView, TemplateApp, DEFAULT_VALUE};

verus! {

/// Length of the `label:` prefix in bytes.
pub const PREFIX_LEN: usize = 6;

/// The bytes of the `label:` prefix.
pub open spec fn prefix_bytes() -> Seq<u8> {
    seq![108u8, 97u8, 98u8, 101u8, 108u8, 58u8]
}

/// The persisted form of a state whose label is `label`: the prefix
/// followed by the label's UTF-8 bytes.
pub open spec fn spec_encode(label: Seq<char>) -> Seq<u8> {
    prefix_bytes() + encode_utf8(label)
}

/// The state that reloading the bytes `b` yields: the encoded label with
/// the default value where `b` is well formed, the default state for
/// every other input.
pub open spec fn spec_decode(b: Seq<u8>) -> AppView {
    if b.len() >= PREFIX_LEN && b.subrange(0, PREFIX_LEN as int) == prefix_bytes()
        && valid_utf8(b.skip(PREFIX_LEN as int)) {
        AppView { label: decode_utf8(b.skip(PREFIX_LEN as int)), value: DEFAULT_VALUE as int }
    } else {
        default_view()
    }
}

/// Relies on std's `String::from_utf8`: it returns `Ok` exactly when the
/// bytes are valid UTF-8, and the string it returns holds those very
/// bytes.
#[verifier::external_body]
fn string_from_utf8(bytes: Vec<u8>) -> (r: Option<String>)
    ensures
        r is Some <==> valid_utf8(bytes@),
        r matches Some(s) ==> encode_utf8(s@) == bytes@,
{
    String::from_utf8(bytes).ok()
}

/// The `label:` prefix as a byte vector.
fn prefix_vec() -> (r: Vec<u8>)
    ensures
        r@ == prefix_bytes(),
{
    let mut r: Vec<u8> = Vec::new();
    r.push(108u8);
    r.push(97u8);
    r.push(98u8);
    r.push(101u8);
    r.push(108u8);
    r.push(58u8);
    proof {
        assert(r@ =~= prefix_bytes());
    }
    r
}

/// Whether `bytes` starts with the `label:` prefix.
fn has_prefix(bytes: &Vec<u8>) -> (r: bool)
    ensures
        r == (bytes@.len() >= PREFIX_LEN && bytes@.subrange(0, PREFIX_LEN as int)
            == prefix_bytes()),
{
    if bytes.len() < PREFIX_LEN {
        return false;
    }
    let p = prefix_vec();
    let mut j: usize = 0;
    while j < PREFIX_LEN
        invariant
            j <= PREFIX_LEN,
            bytes@.len() >= PREFIX_LEN,
            p@ == prefix_bytes(),
            forall|k: int| 0 <= k < j ==> bytes@[k] == prefix_bytes()[k],
        decreases PREFIX_LEN - j,
    {
        if bytes[j] != p[j] {
            proof {
                assert(bytes@.subrange(0, PREFIX_LEN as int)[j as int] == bytes@[j as int]);
            }
            return false;
        }
        j += 1;
    }
    proof {
        assert(bytes@.subrange(0, PREFIX_LEN as int) =~= prefix_bytes());
    }
    true
}

impl TemplateApp {
    /// The bytes written to storage on shutdown: the encoded label. The
    /// value is not part of the record.
    pub fn persist(&self) -> (r: Vec<u8>)
        ensures
            r@ == spec_encode(self@.label),
    {
        let mut out = prefix_vec();
        let bytes: &[u8] = self.label().as_str().as_bytes();
        proof {
            assert(out@ =~= prefix_bytes() + bytes@.subrange(0, 0));
        }
        let mut i: usize = 0;
        while i < bytes.len()
            invariant
                i <= bytes@.len(),
                bytes@ == encode_utf8(self@.label),
                out@ == prefix_bytes() + bytes@.subrange(0, i as int),
            decreases bytes@.len() - i,
        {
            let b = bytes[i];
            out.push(b);
            proof {
                assert((prefix_bytes() + bytes@.subrange(0, i as int)).push(bytes@[i as int])
                    =~= prefix_bytes() + bytes@.subrange(0, i as int + 1));
            }
            i += 1;
        }
        proof {
            assert(bytes@.subrange(0, bytes@.len() as int) =~= bytes@);
        }
        out
    }

    /// Rebuild a state from persisted bytes. Well-formed bytes yield
    /// their label with the default value; anything else yields the
    /// default state. This never fails.
    pub fn decode(bytes: &Vec<u8>) -> (r: TemplateApp)
        ensures
            r@ == spec_decode(bytes@),
    {
        if !has_prefix(bytes) {
            return TemplateApp::default();
        }
        let mut rest: Vec<u8> = Vec::new();
        let mut i: usize = PREFIX_LEN;
        while i < bytes.len()
            invariant
                PREFIX_LEN <= i <= bytes@.len(),
                rest@ == bytes@.subrange(PREFIX_LEN as int, i as int),
            decreases bytes@.len() - i,
        {
            let b = bytes[i];
            rest.push(b);
            proof {
                assert(bytes@.subrange(PREFIX_LEN as int, i as int).push(bytes@[i as int])
                    =~= bytes@.subrange(PREFIX_LEN as int, i as int + 1));
            }
            i += 1;
        }
        proof {
            assert(rest@ =~= bytes@.skip(PREFIX_LEN as int));
        }
        match string_from_utf8(rest) {
            Some(label) => {
                proof {
                    encode_utf8_decode_utf8(label@);
                }
                TemplateApp::from_parts(label, DEFAULT_VALUE)
            },
            None => TemplateApp::default(),
        }
    }

    /// Rebuild the state at startup: from the persisted bytes where any
    /// were stored, from the defaults where none were.
    pub fn new(persisted: Option<&Vec<u8>>) -> (r: TemplateApp)
        ensures
            persisted matches Some(bytes) ==> r@ == spec_decode(bytes@),
            persisted is None ==> r@ == default_view(),
    {
        match persisted {
            Some(bytes) => TemplateApp::decode(bytes),
            None => TemplateApp::default(),
        }
    }
}

/// Persisting a state and reloading it keeps the label exactly and resets
/// the value to the default, whatever the value was.
pub proof fn lemma_persist_round_trip(s: AppView)
    ensures
        spec_decode(spec_encode(s.label)) == (AppView {
            label: s.label,
            value: DEFAULT_VALUE as int,
        }),
{
    let b = spec_encode(s.label);
    assert(b.subrange(0, PREFIX_LEN as int) =~= prefix_bytes());
    assert(b.skip(PREFIX_LEN as int) =~= encode_utf8(s.label));
    vstd::utf8::encode_utf8_valid_utf8(s.label);
    encode_utf8_decode_utf8(s.label);
}

/// Reloading never fails and never keeps a persisted value: whatever the
/// bytes hold, the reloaded value is the default.
pub proof fn lemma_reload_value_defaults(b: Seq<u8>)
    ensures
        spec_decode(b).value == DEFAULT_VALUE as int,
{
}

} // verus!
