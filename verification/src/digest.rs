//! The content digest that decides whether a node has changed since its
//! last successful registration.  The digest folds a node's id, address,
//! port and metadata into one 64-bit value; metadata pairs are combined
//! with a wrapping sum, so the digest does not depend on the order the
//! pairs are listed in.

use vstd::prelude::*;
use vstd::seq_lib::commutative_foldr;
use vstd::seq_lib::lemma_fold_right_permutation;
use vstd::string::StrSliceExecFns;
use crate::text::str_bytes;
use crate::types::Node;

verus! {

/// Initial state of the byte fold.
pub const DIGEST_SEED: u64 = 0xcbf29ce484222325;

/// Multiplier applied after each absorbed value.
pub const DIGEST_PRIME: u64 = 0x100000001b3;

/// A value no wire byte can take, absorbed between fields so that
/// adjacent fields cannot run into each other.
pub const FIELD_MARK: u64 = 0xff;

/// One absorption step.
pub open spec fn mix(h: u64, x: u64) -> u64 {
    (h ^ x).wrapping_mul(DIGEST_PRIME)
}

/// The fold state after absorbing the given bytes, one at a time.
pub open spec fn digest_bytes(h: u64, bs: Seq<u8>) -> u64
    decreases bs.len(),
{
    if bs.len() == 0 {
        h
    } else {
        digest_bytes(mix(h, bs[0] as u64), bs.drop_first())
    }
}

/// The fold state after absorbing a string's wire bytes.
pub open spec fn digest_str(h: u64, s: Seq<char>) -> u64 {
    digest_bytes(h, str_bytes(s))
}

/// The digest of one metadata pair: key bytes, a mark, value bytes.
#[verifier::opaque]
pub open spec fn pair_digest(p: (String, String)) -> u64 {
    digest_str(mix(digest_str(DIGEST_SEED, p.0@), FIELD_MARK), p.1@)
}

/// The combined digest of a metadata list: the wrapping sum of its pair
/// digests, so any order of the same pairs gives the same value.
pub open spec fn meta_digest(m: Seq<(String, String)>) -> u64
    decreases m.len(),
{
    if m.len() == 0 {
        0u64
    } else {
        meta_digest(m.drop_first()).wrapping_add(pair_digest(m[0]))
    }
}

/// The metadata fold step, as a function value handed to `fold_right`.
pub open spec fn meta_step() -> spec_fn((String, String), u64) -> u64 {
    |p: (String, String), acc: u64| acc.wrapping_add(pair_digest(p))
}

/// The metadata digest is the right fold of the step function.
pub proof fn lemma_meta_digest_fold(m: Seq<(String, String)>)
    ensures
        meta_digest(m) == m.fold_right(meta_step(), 0u64),
    decreases m.len(),
{
    let f = meta_step();
    if m.len() == 0 {
    } else {
        lemma_meta_digest_fold(m.drop_first());
        m.lemma_fold_right_alt(f, 0u64);
        m.drop_first().lemma_fold_right_alt(f, 0u64);
        assert(m.subrange(1, m.len() as int) =~= m.drop_first());
        assert(m.fold_right_alt(f, 0u64) == f(m[0], m.drop_first().fold_right_alt(f, 0u64)));
        assert(f(m[0], m.drop_first().fold_right(f, 0u64)) == m.drop_first().fold_right(
            f,
            0u64,
        ).wrapping_add(pair_digest(m[0])));
    }
}

/// The content digest of a node: id, address, port and metadata.
pub open spec fn node_digest(n: Node) -> u64 {
    let h1 = digest_str(DIGEST_SEED, n.id@);
    let h2 = digest_str(mix(h1, FIELD_MARK), n.address@);
    let h3 = mix(mix(h2, FIELD_MARK), n.port as u64);
    mix(h3, meta_digest(n.metadata@))
}

/// Absorbs a string's bytes into the fold state.
fn absorb_str(h: u64, s: &str) -> (r: u64)
    ensures
        r == digest_str(h, s@),
{
    let bs = s.as_bytes_vec();
    let n = bs.len();
    let mut acc = h;
    let mut i: usize = 0;
    proof {
        assert(bs@.skip(0) =~= bs@);
    }
    while i < n
        invariant
            n == bs.len(),
            i <= n,
            bs@ == str_bytes(s@),
            digest_bytes(h, bs@) == digest_bytes(acc, bs@.skip(i as int)),
        decreases n - i,
    {
        proof {
            assert(bs@.skip(i as int).len() > 0);
            assert(bs@.skip(i as int)[0] == bs@[i as int]);
            assert(bs@.skip(i as int).drop_first() =~= bs@.skip(i + 1));
        }
        acc = (acc ^ (bs[i] as u64)).wrapping_mul(DIGEST_PRIME);
        i += 1;
    }
    proof {
        assert(bs@.skip(n as int) =~= Seq::<u8>::empty());
    }
    acc
}

/// The digest of one metadata pair.
fn pair_digest_exec(p: &(String, String)) -> (r: u64)
    ensures
        r == pair_digest(*p),
{
    proof {
        reveal(pair_digest);
    }
    let h = absorb_str(DIGEST_SEED, p.0.as_str());
    let h = (h ^ FIELD_MARK).wrapping_mul(DIGEST_PRIME);
    absorb_str(h, p.1.as_str())
}

/// The combined digest of a metadata list.
#[verifier::rlimit(50)]
fn meta_digest_exec(m: &Vec<(String, String)>) -> (r: u64)
    ensures
        r == meta_digest(m@),
{
    let mut acc: u64 = 0;
    let mut i: usize = m.len();
    while i > 0
        invariant
            i <= m.len(),
            acc == meta_digest(m@.skip(i as int)),
        decreases i,
    {
        i -= 1;
        let d = pair_digest_exec(&m[i]);
        acc = acc.wrapping_add(d);
        proof {
            let s = m@.skip(i as int);
            assert(s.len() > 0);
            assert(s[0] == m@[i as int]);
            assert(s.drop_first() =~= m@.skip(i + 1));
        }
    }
    proof {
        assert(m@.skip(0) =~= m@);
    }
    acc
}

impl Node {
    /// The content digest of this node.
    pub fn content_hash(&self) -> (r: u64)
        ensures
            r == node_digest(*self),
    {
        let h1 = absorb_str(DIGEST_SEED, self.id.as_str());
        let h2 = absorb_str((h1 ^ FIELD_MARK).wrapping_mul(DIGEST_PRIME), self.address.as_str());
        let pb: u64 = #[verifier::truncate] (self.port as u64);
        let h3 = ((h2 ^ FIELD_MARK).wrapping_mul(DIGEST_PRIME) ^ pb).wrapping_mul(DIGEST_PRIME);
        let md = meta_digest_exec(&self.metadata);
        (h3 ^ md).wrapping_mul(DIGEST_PRIME)
    }
}

/// Listing the same metadata pairs in another order leaves the combined
/// metadata digest unchanged.
pub proof fn lemma_meta_digest_order_independent(m1: Seq<(String, String)>, m2: Seq<(String, String)>)
    requires
        m1.to_multiset() == m2.to_multiset(),
    ensures
        meta_digest(m1) == meta_digest(m2),
{
    let f = meta_step();
    assert(commutative_foldr(f)) by {
        assert forall|x: (String, String), y: (String, String), v: u64| #[trigger] f(x, f(y, v)) == f(
            y,
            f(x, v),
        ) by {
            assert(f(x, f(y, v)) == v.wrapping_add(pair_digest(y)).wrapping_add(pair_digest(x)));
            assert(f(y, f(x, v)) == v.wrapping_add(pair_digest(x)).wrapping_add(pair_digest(y)));
        }
    }
    lemma_meta_digest_fold(m1);
    lemma_meta_digest_fold(m2);
    lemma_fold_right_permutation(m1, m2, f, 0u64);
}

/// A node whose id, address and port agree with another's, and whose
/// metadata holds the same pairs in any order, has the same content
/// digest.
pub proof fn lemma_node_digest_order_independent(n1: Node, n2: Node)
    requires
        n1.id@ == n2.id@,
        n1.address@ == n2.address@,
        n1.port == n2.port,
        n1.metadata@.to_multiset() == n2.metadata@.to_multiset(),
    ensures
        node_digest(n1) == node_digest(n2),
{
    lemma_meta_digest_order_independent(n1.metadata@, n2.metadata@);
}

} // verus!
