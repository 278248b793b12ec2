use vstd::prelude::*;

use crate::cache::NodeCache;
use crate::error::Error;
use crate::node::NodeId;

verus! {

/// The lowercase hexadecimal MD5 digest of a byte sequence, as the digest
/// library computes it: a function of the bytes alone.
pub uninterp spec fn md5_hex_of(data: Seq<u8>) -> Seq<char>;

/// Relies on crypto's Md5 through the Digest trait (input, result_str):
/// the MD5 digest of `data`, rendered as lowercase hexadecimal text.
#[verifier::external_body]
pub fn md5_hex(data: &[u8]) -> (r: String)
    ensures
        r@ == md5_hex_of(data@),
{
    let mut md5 = crypto::md5::Md5::new();
    crypto::digest::Digest::input(&mut md5, data);
    crypto::digest::Digest::result_str(&mut md5)
}

/// A character folded to lowercase over the ASCII letters, as a code
/// point.
pub open spec fn fold_char(c: char) -> u32 {
    if 'A' <= c <= 'Z' {
        ((c as u32) + 32) as u32
    } else {
        c as u32
    }
}

/// A string folded to lowercase over the ASCII letters.
pub open spec fn fold_seq(s: Seq<char>) -> Seq<u32> {
    s.map_values(|c: char| fold_char(c))
}

/// ASCII-case-insensitive equality of two strings, as used to compare
/// hexadecimal digests.
pub fn ascii_eq_ignore_case(a: &str, b: &str) -> (r: bool)
    ensures
        r == (fold_seq(a@) == fold_seq(b@)),
{
    let alen = a.unicode_len();
    let blen = b.unicode_len();
    if alen != blen {
        proof {
            assert(fold_seq(a@).len() == a@.len());
            assert(fold_seq(b@).len() == b@.len());
        }
        return false;
    }
    let mut i: usize = 0;
    while i < alen
        invariant
            alen == a@.len(),
            alen == b@.len(),
            i <= alen,
            forall|j: int| 0 <= j < i ==> fold_seq(a@)[j] == fold_seq(b@)[j],
        decreases alen - i,
    {
        let ca = a.get_char(i);
        let cb = b.get_char(i);
        let fa: u32 = if 'A' <= ca && ca <= 'Z' {
            (ca as u32) + 32
        } else {
            ca as u32
        };
        let fb: u32 = if 'A' <= cb && cb <= 'Z' {
            (cb as u32) + 32
        } else {
            cb as u32
        };
        if fa != fb {
            proof {
                assert(fold_seq(a@)[i as int] == fold_char(a@[i as int]));
                assert(fold_seq(b@)[i as int] == fold_char(b@[i as int]));
            }
            return false;
        }
        i = i + 1;
        proof {
            assert(fold_seq(a@)[i - 1] == fold_char(a@[i - 1]));
            assert(fold_seq(b@)[i - 1] == fold_char(b@[i - 1]));
        }
    }
    proof {
        assert(fold_seq(a@) =~= fold_seq(b@));
    }
    true
}

/// The integrity decision after an upload. The server echoes the digest it
/// computed for the stored content; only when it matches the digest of the
/// bytes that were sent (case-insensitively) is the new node cached and
/// returned. A mismatch caches nothing and surfaces as a recoverable
/// integrity error carrying both digests, so the caller can delete the
/// corrupt remote node before giving up.
pub fn accept_upload(
    cache: &mut NodeCache,
    parent: &NodeId,
    name: &String,
    id: NodeId,
    reported_md5: String,
    expected_md5: &String,
) -> (r: Result<NodeId, Error>)
    ensures
        fold_seq(reported_md5@) == fold_seq(expected_md5@) ==> {
            &&& r matches Ok(rid) && rid@ == id@
            &&& final(cache)@.len() == old(cache)@.len() + 1
            &&& final(cache)@.drop_last() == old(cache)@
            &&& final(cache)@.last().parent@ == parent@
            &&& final(cache)@.last().name@ == name@
            &&& final(cache)@.last().child@ == id@
        },
        fold_seq(reported_md5@) != fold_seq(expected_md5@) ==> {
            &&& r matches Err(Error::IntegrityError { expected, reported }) && expected@
                == expected_md5@ && reported@ == reported_md5@
            &&& final(cache)@ == old(cache)@
        },
{
    if ascii_eq_ignore_case(reported_md5.as_str(), expected_md5.as_str()) {
        cache.put(parent, name, &id);
        Ok(id)
    } else {
        Err(
            Error::IntegrityError {
                expected: expected_md5.clone(),
                reported: reported_md5,
            },
        )
    }
}

} // verus!
