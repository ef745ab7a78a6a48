//! The order in which account keys stand in a roster.
//!
//! An account is known by its broker and its name together. Each of the two
//! is filed in its UTF-8 form and ordered byte by byte, a proper prefix
//! first; a pair is ordered by the broker, then by the name. Two pairs have
//! the same key exactly when broker and name are the same.

use vstd::prelude::*;
use vstd::string::StringSliceAdditionalSpecFns;
use vstd::utf8::{encode_utf8, encode_utf8_decode_utf8};

verus! {

/// How one key stands to another.
#[derive(Debug, Clone, Copy, PartialEq, Eq, Structural)]
pub enum KeyOrder {
    Before,
    Same,
    After,
}

/// The key under which an account name is filed.
pub open spec fn key_of(account: Seq<char>) -> Seq<u8> {
    encode_utf8(account)
}

/// `a` stands strictly before `b`: at the first place where they differ `a`
/// holds the smaller byte, or `a` ends there and `b` goes on.
pub open spec fn precedes(a: Seq<u8>, b: Seq<u8>) -> bool
    decreases a.len(),
{
    if a.len() == 0 {
        b.len() > 0
    } else if b.len() == 0 {
        false
    } else if a[0] == b[0] {
        precedes(a.drop_first(), b.drop_first())
    } else {
        a[0] < b[0]
    }
}

/// Two keys that agree on their first `n` bytes are ordered as their rests are.
pub proof fn lemma_common_prefix(a: Seq<u8>, b: Seq<u8>, n: int)
    requires
        0 <= n <= a.len(),
        n <= b.len(),
        forall|j: int| 0 <= j < n ==> a[j] == b[j],
    ensures
        precedes(a, b) == precedes(a.skip(n), b.skip(n)),
    decreases n,
{
    if n == 0 {
        assert(a.skip(0) =~= a);
        assert(b.skip(0) =~= b);
    } else {
        let ra = a.drop_first();
        let rb = b.drop_first();
        assert forall|j: int| 0 <= j < n - 1 implies ra[j] == rb[j] by {
            assert(ra[j] == a[j + 1]);
            assert(rb[j] == b[j + 1]);
        }
        lemma_common_prefix(ra, rb, n - 1);
        assert(ra.skip(n - 1) =~= a.skip(n));
        assert(rb.skip(n - 1) =~= b.skip(n));
    }
}

/// No key stands before itself.
pub proof fn lemma_precedes_irreflexive(a: Seq<u8>)
    ensures
        !precedes(a, a),
    decreases a.len(),
{
    if a.len() > 0 {
        lemma_precedes_irreflexive(a.drop_first());
    }
}

/// The order is transitive.
pub proof fn lemma_precedes_transitive(a: Seq<u8>, b: Seq<u8>, c: Seq<u8>)
    requires
        precedes(a, b),
        precedes(b, c),
    ensures
        precedes(a, c),
    decreases a.len(),
{
    if a.len() > 0 && b.len() > 0 && c.len() > 0 && a[0] == b[0] && b[0] == c[0] {
        lemma_precedes_transitive(a.drop_first(), b.drop_first(), c.drop_first());
    }
}

/// Distinct account names have distinct keys.
pub proof fn lemma_key_of_injective(s: Seq<char>, t: Seq<char>)
    ensures
        key_of(s) == key_of(t) <==> s == t,
{
    encode_utf8_decode_utf8(s);
    encode_utf8_decode_utf8(t);
}

/// The key of an account: that of its broker, then that of its name.
pub open spec fn pair_key(broker_id: Seq<char>, account: Seq<char>) -> (Seq<u8>, Seq<u8>) {
    (key_of(broker_id), key_of(account))
}

/// `a` stands strictly before `b`: by the broker, and under one broker by
/// the name.
pub open spec fn pair_precedes(a: (Seq<u8>, Seq<u8>), b: (Seq<u8>, Seq<u8>)) -> bool {
    precedes(a.0, b.0) || (a.0 == b.0 && precedes(a.1, b.1))
}

/// No pair stands before itself.
pub proof fn lemma_pair_precedes_irreflexive(a: (Seq<u8>, Seq<u8>))
    ensures
        !pair_precedes(a, a),
{
    lemma_precedes_irreflexive(a.0);
    lemma_precedes_irreflexive(a.1);
}

/// The order of pairs is transitive.
pub proof fn lemma_pair_precedes_transitive(
    a: (Seq<u8>, Seq<u8>),
    b: (Seq<u8>, Seq<u8>),
    c: (Seq<u8>, Seq<u8>),
)
    requires
        pair_precedes(a, b),
        pair_precedes(b, c),
    ensures
        pair_precedes(a, c),
{
    if precedes(a.0, b.0) && precedes(b.0, c.0) {
        lemma_precedes_transitive(a.0, b.0, c.0);
    } else if a.0 == b.0 && b.0 == c.0 {
        lemma_precedes_transitive(a.1, b.1, c.1);
    }
}

/// Distinct accounts have distinct keys, and one account has one key.
pub proof fn lemma_pair_key_injective(
    broker_a: Seq<char>,
    account_a: Seq<char>,
    broker_b: Seq<char>,
    account_b: Seq<char>,
)
    ensures
        pair_key(broker_a, account_a) == pair_key(broker_b, account_b) <==> (broker_a, account_a)
            == (broker_b, account_b),
{
    lemma_key_of_injective(broker_a, broker_b);
    lemma_key_of_injective(account_a, account_b);
}

/// Compares two keys byte by byte.
pub fn compare(a: &[u8], b: &[u8]) -> (r: KeyOrder)
    ensures
        r == KeyOrder::Before <==> precedes(a@, b@),
        r == KeyOrder::Same <==> a@ == b@,
        r == KeyOrder::After <==> precedes(b@, a@),
{
    let n: usize = if a.len() < b.len() {
        a.len()
    } else {
        b.len()
    };
    let mut i: usize = 0;
    while i < n
        invariant
            i <= n,
            n <= a@.len(),
            n <= b@.len(),
            forall|j: int| 0 <= j < i ==> a@[j] == b@[j],
        decreases n - i,
    {
        if a[i] != b[i] {
            proof {
                lemma_common_prefix(a@, b@, i as int);
                lemma_common_prefix(b@, a@, i as int);
                assert(a@.skip(i as int)[0] == a@[i as int]);
                assert(b@.skip(i as int)[0] == b@[i as int]);
            }
            if a[i] < b[i] {
                return KeyOrder::Before;
            } else {
                return KeyOrder::After;
            }
        }
        i += 1;
    }
    proof {
        lemma_common_prefix(a@, b@, n as int);
        lemma_common_prefix(b@, a@, n as int);
        if a@.len() == b@.len() {
            assert(a@ =~= b@);
            lemma_precedes_irreflexive(a@);
        }
    }
    if a.len() < b.len() {
        KeyOrder::Before
    } else if b.len() < a.len() {
        KeyOrder::After
    } else {
        KeyOrder::Same
    }
}

/// Compares two pairs: by their first parts, and where these are equal by
/// their second parts.
pub fn compare_pair(a0: &[u8], a1: &[u8], b0: &[u8], b1: &[u8]) -> (r: KeyOrder)
    ensures
        r == KeyOrder::Before <==> pair_precedes((a0@, a1@), (b0@, b1@)),
        r == KeyOrder::Same <==> (a0@, a1@) == (b0@, b1@),
        r == KeyOrder::After <==> pair_precedes((b0@, b1@), (a0@, a1@)),
{
    match compare(a0, b0) {
        KeyOrder::Same => compare(a1, b1),
        first => first,
    }
}

/// Whether two texts are the same, character for character.
pub fn same_text(a: &str, b: &str) -> (r: bool)
    ensures
        r == (a@ == b@),
{
    proof {
        lemma_key_of_injective(a@, b@);
    }
    match compare(a.as_bytes(), b.as_bytes()) {
        KeyOrder::Same => true,
        _ => false,
    }
}

} // verus!
