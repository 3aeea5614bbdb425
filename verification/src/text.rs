//! String helpers the registry core is built on: equality and
//! lexicographic order of strings through their wire bytes, and the
//! slash-to-dash sanitizing used when a name becomes a key segment.

use vstd::prelude::*;
use vstd::string::StrSliceExecFns;
use vstd::utf8::encode_utf8;
use vstd::utf8::encode_utf8_decode_utf8;

verus! {

/// The bytes a string is stored and compared as.
pub open spec fn str_bytes(s: Seq<char>) -> Seq<u8> {
    encode_utf8(s)
}

/// Two strings with the same bytes are the same string.
pub proof fn lemma_str_bytes_injective(a: Seq<char>, b: Seq<char>)
    requires
        str_bytes(a) == str_bytes(b),
    ensures
        a == b,
{
    encode_utf8_decode_utf8(a);
    encode_utf8_decode_utf8(b);
}

/// String equality, decided byte by byte.
pub fn str_eq(a: &str, b: &str) -> (r: bool)
    ensures
        r == (a@ == b@),
{
    let ab = a.as_bytes_vec();
    let bb = b.as_bytes_vec();
    if ab.len() != bb.len() {
        return false;
    }
    let n = ab.len();
    let mut i: usize = 0;
    while i < n
        invariant
            n == ab.len() == bb.len(),
            i <= n,
            ab@ == str_bytes(a@),
            bb@ == str_bytes(b@),
            forall|j: int| 0 <= j < i ==> ab@[j] == bb@[j],
        decreases n - i,
    {
        if ab[i] != bb[i] {
            return false;
        }
        i += 1;
    }
    proof {
        assert(ab@ =~= bb@);
        lemma_str_bytes_injective(a@, b@);
    }
    true
}

/// Strict lexicographic order on byte sequences: a proper prefix comes
/// first, otherwise the first differing byte decides.
pub open spec fn lex_lt(a: Seq<u8>, b: Seq<u8>) -> bool
    decreases a.len() + b.len(),
{
    if b.len() == 0 {
        false
    } else if a.len() == 0 {
        true
    } else if a[0] < b[0] {
        true
    } else if a[0] > b[0] {
        false
    } else {
        lex_lt(a.drop_first(), b.drop_first())
    }
}

/// How the order is decided once the first `i` bytes are known equal:
/// the next byte decides, and a sequence that runs out first comes first.
pub proof fn lemma_lex_lt_from_prefix(a: Seq<u8>, b: Seq<u8>, i: int)
    requires
        0 <= i <= a.len(),
        i <= b.len(),
        forall|j: int| 0 <= j < i ==> a[j] == b[j],
    ensures
        i < a.len() && i < b.len() && a[i] < b[i] ==> lex_lt(a, b),
        i < a.len() && i < b.len() && a[i] > b[i] ==> !lex_lt(a, b),
        i == a.len() && i < b.len() ==> lex_lt(a, b),
        i == b.len() ==> !lex_lt(a, b),
    decreases i,
{
    if i == 0 {
    } else {
        assert(a[0] == b[0]);
        lemma_lex_lt_from_prefix(a.drop_first(), b.drop_first(), i - 1);
    }
}

/// The order is transitive.
pub proof fn lemma_lex_lt_transitive(a: Seq<u8>, b: Seq<u8>, c: Seq<u8>)
    requires
        lex_lt(a, b),
        lex_lt(b, c),
    ensures
        lex_lt(a, c),
    decreases a.len() + b.len() + c.len(),
{
    if a.len() == 0 || b.len() == 0 || c.len() == 0 {
    } else {
        if a[0] == b[0] && b[0] == c[0] {
            lemma_lex_lt_transitive(a.drop_first(), b.drop_first(), c.drop_first());
        }
    }
}

/// The order is total: two sequences neither of which comes before the
/// other are equal.
pub proof fn lemma_lex_lt_connected(a: Seq<u8>, b: Seq<u8>)
    requires
        !lex_lt(a, b),
        !lex_lt(b, a),
    ensures
        a == b,
    decreases a.len() + b.len(),
{
    if a.len() == 0 && b.len() == 0 {
        assert(a =~= b);
    } else if a.len() == 0 || b.len() == 0 {
    } else {
        lemma_lex_lt_connected(a.drop_first(), b.drop_first());
        assert(a =~= seq![a[0]] + a.drop_first());
        assert(b =~= seq![b[0]] + b.drop_first());
    }
}

/// Nothing comes before itself.
pub proof fn lemma_lex_lt_irreflexive(a: Seq<u8>)
    ensures
        !lex_lt(a, a),
    decreases a.len(),
{
    if a.len() > 0 {
        lemma_lex_lt_irreflexive(a.drop_first());
    }
}

/// Byte-wise "comes strictly before" on strings.
pub fn str_lt(a: &str, b: &str) -> (r: bool)
    ensures
        r == lex_lt(str_bytes(a@), str_bytes(b@)),
{
    let ab = a.as_bytes_vec();
    let bb = b.as_bytes_vec();
    let n = if ab.len() < bb.len() {
        ab.len()
    } else {
        bb.len()
    };
    let mut i: usize = 0;
    while i < n
        invariant
            n <= ab.len(),
            n <= bb.len(),
            n == ab.len() || n == bb.len(),
            i <= n,
            ab@ == str_bytes(a@),
            bb@ == str_bytes(b@),
            forall|j: int| 0 <= j < i ==> ab@[j] == bb@[j],
        decreases n - i,
    {
        if ab[i] < bb[i] {
            proof {
                lemma_lex_lt_from_prefix(ab@, bb@, i as int);
            }
            return true;
        }
        if ab[i] > bb[i] {
            proof {
                lemma_lex_lt_from_prefix(ab@, bb@, i as int);
            }
            return false;
        }
        i += 1;
    }
    proof {
        lemma_lex_lt_from_prefix(ab@, bb@, n as int);
    }
    ab.len() < bb.len()
}

/// A name sanitized for use as a key segment: every slash becomes a dash.
pub open spec fn spec_sanitized(s: Seq<char>) -> Seq<char> {
    s.map_values(
        |c: char|
            if c == '/' {
                '-'
            } else {
                c
            },
    )
}

/// Replaces every `/` with `-`.
pub fn sanitize(s: &str) -> (r: String)
    ensures
        r@ == spec_sanitized(s@),
{
    let n = s.unicode_len();
    let mut out = String::new();
    let mut i: usize = 0;
    while i < n
        invariant
            n == s@.len(),
            i <= n,
            out@ == spec_sanitized(s@).take(i as int),
        decreases n - i,
    {
        let c = s.get_char(i);
        proof {
            assert(spec_sanitized(s@).len() == s@.len());
            assert(spec_sanitized(s@)[i as int] == (if s@[i as int] == '/' {
                '-'
            } else {
                s@[i as int]
            }));
            assert(spec_sanitized(s@).take(i + 1) =~= spec_sanitized(s@).take(i as int) + seq![
                spec_sanitized(s@)[i as int],
            ]);
        }
        if c == '/' {
            out.append("-");
            proof {
                reveal_strlit("-");
                assert("-"@ =~= seq!['-']);
            }
        } else {
            let piece = s.substring_char(i, i + 1);
            out.append(piece);
            proof {
                assert(piece@ =~= seq![s@[i as int]]);
            }
        }
        i += 1;
    }
    proof {
        assert(spec_sanitized(s@).take(n as int) =~= spec_sanitized(s@));
    }
    out
}

} // verus!
