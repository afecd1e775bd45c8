//! Fungible-asset identifiers and small byte-vector helpers.
//!
//! An asset identifier is an uppercase alphanumeric ticker of 3 to 10 bytes,
//! a dash, and a 6-byte lowercase alphanumeric suffix (for example
//! `WEGLD-abc123`). The native base asset's bare name has no dashed suffix
//! and is shorter than any valid identifier, so it can never pass the check
//! and be escrowed by mistake.

use vstd::prelude::*;

verus! {

/// Shortest ticker accepted in an asset identifier.
pub const MIN_TICKER_LEN: usize = 3;

/// Longest ticker accepted in an asset identifier.
pub const MAX_TICKER_LEN: usize = 10;

/// Length of the random suffix that follows the dash.
pub const ASSET_SUFFIX_LEN: usize = 6;

/// ASCII code of 'A'.
pub const UPPER_A: u8 = 65;

/// ASCII code of 'Z'.
pub const UPPER_Z: u8 = 90;

/// ASCII code of 'a'.
pub const LOWER_A: u8 = 97;

/// ASCII code of 'z'.
pub const LOWER_Z: u8 = 122;

/// ASCII code of '0'.
pub const DIGIT_0: u8 = 48;

/// ASCII code of '9'.
pub const DIGIT_9: u8 = 57;

/// ASCII code of '-'.
pub const DASH: u8 = 45;

/// A byte allowed in the ticker: an uppercase ASCII letter or a digit.
pub open spec fn is_ticker_byte(b: u8) -> bool {
    (UPPER_A <= b && b <= UPPER_Z) || (DIGIT_0 <= b && b <= DIGIT_9)
}

/// A byte allowed in the suffix: a lowercase ASCII letter or a digit.
pub open spec fn is_suffix_byte(b: u8) -> bool {
    (LOWER_A <= b && b <= LOWER_Z) || (DIGIT_0 <= b && b <= DIGIT_9)
}

/// A valid fungible-asset identifier: ticker, dash, suffix.
pub open spec fn valid_asset_id(s: Seq<u8>) -> bool {
    let ticker_len = s.len() - (ASSET_SUFFIX_LEN + 1);
    &&& MIN_TICKER_LEN + ASSET_SUFFIX_LEN + 1 <= s.len()
    &&& s.len() <= MAX_TICKER_LEN + ASSET_SUFFIX_LEN + 1
    &&& forall|i: int| 0 <= i < ticker_len ==> is_ticker_byte(#[trigger] s[i])
    &&& s[ticker_len] == DASH
    &&& forall|i: int| ticker_len < i < s.len() ==> is_suffix_byte(#[trigger] s[i])
}

/// Decides [`valid_asset_id`] on a byte vector.
pub fn is_valid_asset_id(s: &Vec<u8>) -> (r: bool)
    ensures
        r == valid_asset_id(s@),
{
    let n = s.len();
    if n < MIN_TICKER_LEN + ASSET_SUFFIX_LEN + 1 || n > MAX_TICKER_LEN + ASSET_SUFFIX_LEN + 1 {
        return false;
    }
    let ticker_len = n - (ASSET_SUFFIX_LEN + 1);
    let mut i: usize = 0;
    while i < ticker_len
        invariant
            i <= ticker_len,
            ticker_len == s@.len() - (ASSET_SUFFIX_LEN + 1),
            MIN_TICKER_LEN + ASSET_SUFFIX_LEN + 1 <= s@.len(),
            s@.len() <= MAX_TICKER_LEN + ASSET_SUFFIX_LEN + 1,
            forall|j: int| 0 <= j < i ==> is_ticker_byte(#[trigger] s@[j]),
        decreases ticker_len - i,
    {
        let b = s[i];
        if !((UPPER_A <= b && b <= UPPER_Z) || (DIGIT_0 <= b && b <= DIGIT_9)) {
            return false;
        }
        i += 1;
    }
    if s[ticker_len] != DASH {
        return false;
    }
    let mut j: usize = ticker_len + 1;
    while j < n
        invariant
            ticker_len + 1 <= j <= n,
            n == s@.len(),
            ticker_len == s@.len() - (ASSET_SUFFIX_LEN + 1),
            MIN_TICKER_LEN + ASSET_SUFFIX_LEN + 1 <= s@.len(),
            s@.len() <= MAX_TICKER_LEN + ASSET_SUFFIX_LEN + 1,
            forall|k: int| 0 <= k < ticker_len ==> is_ticker_byte(#[trigger] s@[k]),
            s@[ticker_len as int] == DASH,
            forall|k: int| ticker_len < k < j ==> is_suffix_byte(#[trigger] s@[k]),
        decreases n - j,
    {
        let b = s[j];
        if !((LOWER_A <= b && b <= LOWER_Z) || (DIGIT_0 <= b && b <= DIGIT_9)) {
            return false;
        }
        j += 1;
    }
    true
}

/// Whether two byte vectors hold the same bytes.
pub fn bytes_eq(a: &Vec<u8>, b: &Vec<u8>) -> (r: bool)
    ensures
        r == (a@ == b@),
{
    if a.len() != b.len() {
        return false;
    }
    let mut i: usize = 0;
    while i < a.len()
        invariant
            a@.len() == b@.len(),
            i <= a@.len(),
            forall|j: int| 0 <= j < i ==> a@[j] == b@[j],
        decreases a@.len() - i,
    {
        if a[i] != b[i] {
            return false;
        }
        i += 1;
    }
    proof {
        assert(a@ =~= b@);
    }
    true
}

/// A fresh byte vector holding the same bytes.
pub fn copy_bytes(v: &Vec<u8>) -> (r: Vec<u8>)
    ensures
        r@ == v@,
{
    let mut r: Vec<u8> = Vec::new();
    let mut i: usize = 0;
    while i < v.len()
        invariant
            i <= v@.len(),
            r@ == v@.subrange(0, i as int),
        decreases v@.len() - i,
    {
        r.push(v[i]);
        proof {
            assert(r@ =~= v@.subrange(0, i + 1));
        }
        i += 1;
    }
    proof {
        assert(r@ =~= v@);
    }
    r
}

} // verus!
