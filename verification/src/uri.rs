//! Token id extraction from an asset URI of the shape `.../<digits>.json`.
//!
//! The numeric segment between the final `/` and the literal `.json` is the
//! token id. URIs come right-padded from the metadata module, so the end of
//! the segment is the first occurrence of `.json`, not the end of the
//! buffer.

use vstd::prelude::*;

use crate::error::DustBridgingError;

verus! {

/// ASCII decimal digit.
pub open spec fn is_digit(b: u8) -> bool {
    48 <= b <= 57
}

/// Every byte of `s` is a decimal digit.
pub open spec fn all_digits(s: Seq<u8>) -> bool {
    forall|k: int| 0 <= k < s.len() ==> is_digit(#[trigger] s[k])
}

/// The number the digit string `s` denotes, most significant digit first.
pub open spec fn digits_val(s: Seq<u8>) -> int
    recommends
        all_digits(s),
    decreases s.len(),
{
    if s.len() == 0 {
        0
    } else {
        digits_val(s.drop_last()) * 10 + (s.last() - 48)
    }
}

/// The position of the last `/` strictly before index `i`, if any.
pub open spec fn last_slash_before(s: Seq<u8>, i: int) -> Option<int>
    recommends
        i <= s.len(),
    decreases i,
{
    if i <= 0 {
        None
    } else if s[i - 1] == 47 {
        Some(i - 1)
    } else {
        last_slash_before(s, i - 1)
    }
}

/// The position of the last `/` in `s`, if any.
pub open spec fn last_slash(s: Seq<u8>) -> Option<int> {
    last_slash_before(s, s.len() as int)
}

/// Whether the five bytes of `.json` stand at index `i` of `s`.
pub open spec fn json_at(s: Seq<u8>, i: int) -> bool {
    &&& i + 5 <= s.len()
    &&& s[i] == 46
    &&& s[i + 1] == 106
    &&& s[i + 2] == 115
    &&& s[i + 3] == 111
    &&& s[i + 4] == 110
}

/// The first index at or after `i` where `.json` stands, if any.
pub open spec fn first_json_from(s: Seq<u8>, i: int) -> Option<int>
    recommends
        0 <= i,
    decreases s.len() - i,
{
    if i + 5 > s.len() {
        None
    } else if json_at(s, i) {
        Some(i)
    } else {
        first_json_from(s, i + 1)
    }
}

/// What token id extraction yields on `uri`: the digits between the last
/// `/` and the first `.json` read as a `u16`. `MalformedUri` when either
/// landmark is missing or `.json` begins before the segment does;
/// `UnparsableTokenId` when the segment is empty, not all digits, or too
/// large for a `u16`.
pub open spec fn spec_extract_token_id(uri: Seq<u8>) -> Result<u16, DustBridgingError> {
    match last_slash(uri) {
        None => Err(DustBridgingError::MalformedUri),
        Some(sl) => match first_json_from(uri, 0) {
            None => Err(DustBridgingError::MalformedUri),
            Some(j) => if j < sl + 1 {
                Err(DustBridgingError::MalformedUri)
            } else {
                let seg = uri.subrange(sl + 1, j);
                if seg.len() == 0 || !all_digits(seg) || digits_val(seg) > u16::MAX {
                    Err(DustBridgingError::UnparsableTokenId)
                } else {
                    Ok(digits_val(seg) as u16)
                }
            },
        },
    }
}

/// A digit string denotes a nonnegative number.
proof fn lemma_digits_val_nonneg(s: Seq<u8>)
    requires
        all_digits(s),
    ensures
        digits_val(s) >= 0,
    decreases s.len(),
{
    if s.len() > 0 {
        assert(all_digits(s.drop_last()));
        lemma_digits_val_nonneg(s.drop_last());
    }
}

/// Extending a digit string never shrinks the number it denotes.
proof fn lemma_digits_val_monotone(s: Seq<u8>, i: int, j: int)
    requires
        all_digits(s.take(j)),
        0 <= i <= j <= s.len(),
    ensures
        digits_val(s.take(i)) <= digits_val(s.take(j)),
    decreases j - i,
{
    if i < j {
        let t = s.take(j);
        assert(t.drop_last() =~= s.take(j - 1));
        assert(all_digits(s.take(j - 1)));
        lemma_digits_val_monotone(s, i, j - 1);
        lemma_digits_val_nonneg(t.drop_last());
    }
}

/// Extracts the token id from `uri`, or says how the URI fails to carry
/// one.
#[verifier::loop_isolation(false)]
pub fn extract_token_id(uri: &[u8]) -> (r: Result<u16, DustBridgingError>)
    ensures
        r == spec_extract_token_id(uri@),
{
    let n = uri.len();
    if n < 5 {
        return Err(DustBridgingError::MalformedUri);
    }
    // find the last '/'
    let mut i: usize = n;
    let mut slash: Option<usize> = None;
    while i > 0 && slash.is_none()
        invariant
            i <= n,
            n == uri@.len(),
            match slash {
                None => last_slash(uri@) == last_slash_before(uri@, i as int),
                Some(sl) => sl < n && last_slash(uri@) == Some(sl as int),
            },
        decreases i,
    {
        if uri[i - 1] == 47 {
            slash = Some(i - 1);
        }
        i -= 1;
    }
    let sl = match slash {
        None => {
            return Err(DustBridgingError::MalformedUri);
        },
        Some(sl) => sl,
    };
    // find the first ".json"
    let mut j: usize = 0;
    let mut json: Option<usize> = None;
    while j <= n - 5 && json.is_none()
        invariant
            j <= n - 4,
            5 <= n == uri@.len(),
            match json {
                None => first_json_from(uri@, 0) == first_json_from(uri@, j as int),
                Some(p) => p + 5 <= n && first_json_from(uri@, 0) == Some(p as int),
            },
        decreases n - j,
    {
        if uri[j] == 46 && uri[j + 1] == 106 && uri[j + 2] == 115 && uri[j + 3] == 111 && uri[j
            + 4] == 110 {
            json = Some(j);
        }
        j += 1;
    }
    let jp = match json {
        None => {
            return Err(DustBridgingError::MalformedUri);
        },
        Some(p) => p,
    };
    if jp < sl + 1 {
        return Err(DustBridgingError::MalformedUri);
    }
    // parse the digits in uri[sl + 1 .. jp]
    let start = sl + 1;
    let ghost seg = uri@.subrange(start as int, jp as int);
    if start == jp {
        return Err(DustBridgingError::UnparsableTokenId);
    }
    let mut acc: u32 = 0;
    let mut k: usize = start;
    while k < jp
        invariant
            start <= k <= jp <= n,
            n == uri@.len(),
            seg == uri@.subrange(start as int, jp as int),
            acc <= u16::MAX,
            all_digits(seg.take(k - start)),
            acc == digits_val(seg.take(k - start)),
        decreases jp - k,
    {
        let b = uri[k];
        proof {
            assert(seg.take(k - start + 1).drop_last() =~= seg.take(k - start));
            assert(seg.take(k - start + 1).last() == uri@[k as int]);
        }
        if b < 48 || b > 57 {
            proof {
                assert(seg[k - start] == uri@[k as int]);
                assert(!all_digits(seg));
            }
            return Err(DustBridgingError::UnparsableTokenId);
        }
        let d = (b - 48) as u32;
        let next = acc * 10 + d;
        if next > u16::MAX as u32 {
            proof {
                assert(all_digits(seg.take(k - start + 1)));
                assert(digits_val(seg.take(k - start + 1)) == acc * 10 + d);
                if all_digits(seg) {
                    assert(seg.take(seg.len() as int) =~= seg);
                    lemma_digits_val_monotone(seg, k - start + 1, seg.len() as int);
                    assert(digits_val(seg) > u16::MAX);
                }
            }
            return Err(DustBridgingError::UnparsableTokenId);
        }
        acc = next;
        k += 1;
    }
    proof {
        assert(seg.take(seg.len() as int) =~= seg);
    }
    Ok(acc as u16)
}

} // verus!
