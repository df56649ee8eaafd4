//! Identities of postings: the hash of a posting's address, written in
//! hexadecimal.

use std::collections::hash_map::DefaultHasher;
use std::hash::Hash;
use std::hash::Hasher;
use vstd::prelude::*;
use vstd::std_specs::hash::DefaultHasherAdditionalSpecFns;

use crate::numeral::hex;
use crate::numeral::lemma_hex_injective;
use crate::numeral::to_hex;

verus! {

/// The writes by which a string slice feeds a hasher (`<str as Hash>::hash`).
pub uninterp spec fn hashed_writes(text: Seq<char>) -> Seq<Seq<u8>>;

/// Feeds `text` to `hasher` by `<str as Hash>::hash`. The writes that this adds
/// to the hasher's state depend on the text alone.
#[verifier::external_body]
fn feed_text(hasher: &mut DefaultHasher, text: &str)
    ensures
        final(hasher)@ == old(hasher)@ + hashed_writes(text@),
{
    text.hash(hasher)
}

/// The 64-bit hash of an address: what a fresh `DefaultHasher` arrives at
/// after it was fed the text.
pub open spec fn digest(url: Seq<char>) -> u64 {
    DefaultHasher::spec_finish(hashed_writes(url))
}

/// The identity of the posting at `url`.
pub open spec fn job_id(url: Seq<char>) -> Seq<char> {
    hex(digest(url) as nat)
}

/// The identity of a posting: the hash of its address in hexadecimal. The same
/// address always gives the same identity.
pub fn generate_job_id(url: &str) -> (id: String)
    ensures
        id@ == job_id(url@),
{
    let mut hasher = DefaultHasher::new();
    feed_text(&mut hasher, url);
    to_hex(hasher.finish())
}

/// Two addresses get the same identity exactly when their hashes agree: the
/// identity is a function of the address, and no two hashes share a writing.
pub proof fn lemma_job_id_follows_digest(a: Seq<char>, b: Seq<char>)
    ensures
        a == b ==> job_id(a) == job_id(b),
        job_id(a) == job_id(b) <==> digest(a) == digest(b),
{
    if job_id(a) == job_id(b) {
        lemma_hex_injective(digest(a) as nat, digest(b) as nat);
    }
}

} // verus!
