//! Request ids, their equality and their order.

use std::cmp::Ordering;
use vstd::prelude::*;
use vstd::std_specs::cmp::{PartialEqSpecImpl, PartialOrdSpecImpl};
use vstd::string::StringSliceAdditionalSpecFns;
use vstd::utf8::{encode_utf8, encode_utf8_decode_utf8};

verus! {

/// A raw JSON-RPC request id: a number or a string.
///
/// Ids are compared by tag, then by value: every number comes before every
/// string, numbers are in numeric order, and strings in the lexicographic
/// order of their UTF-8 bytes.
#[derive(Clone, Debug, Hash, Eq, Ord)]
pub enum JrpcId {
    Number(i64),
    String(String),
}

/// What a `JrpcId` stands for.
pub enum JrpcIdView {
    Number(i64),
    String(Seq<char>),
}

impl View for JrpcId {
    type V = JrpcIdView;

    open spec fn view(&self) -> JrpcIdView {
        match self {
            JrpcId::Number(n) => JrpcIdView::Number(*n),
            JrpcId::String(s) => JrpcIdView::String(s@),
        }
    }
}

/// The lexicographic order of two byte strings.
pub open spec fn lexicographic(a: Seq<u8>, b: Seq<u8>) -> Ordering
    decreases a.len(),
{
    if a.len() == 0 {
        if b.len() == 0 {
            Ordering::Equal
        } else {
            Ordering::Less
        }
    } else if b.len() == 0 {
        Ordering::Greater
    } else if a[0] < b[0] {
        Ordering::Less
    } else if a[0] > b[0] {
        Ordering::Greater
    } else {
        lexicographic(a.skip(1), b.skip(1))
    }
}

/// The order of two ids: by tag, then by value.
pub open spec fn id_order(a: JrpcIdView, b: JrpcIdView) -> Ordering {
    match (a, b) {
        (JrpcIdView::Number(x), JrpcIdView::Number(y)) => if x < y {
            Ordering::Less
        } else if x == y {
            Ordering::Equal
        } else {
            Ordering::Greater
        },
        (JrpcIdView::Number(_), JrpcIdView::String(_)) => Ordering::Less,
        (JrpcIdView::String(_), JrpcIdView::Number(_)) => Ordering::Greater,
        (JrpcIdView::String(s), JrpcIdView::String(t)) => lexicographic(
            encode_utf8(s),
            encode_utf8(t),
        ),
    }
}

/// Byte strings that the order holds equal are equal.
pub proof fn lemma_lexicographic_equal(a: Seq<u8>, b: Seq<u8>)
    ensures
        lexicographic(a, b) == Ordering::Equal <==> a == b,
    decreases a.len(),
{
    if a.len() > 0 && b.len() > 0 {
        lemma_lexicographic_equal(a.skip(1), b.skip(1));
        if a.skip(1) == b.skip(1) && a[0] == b[0] {
            assert(a =~= seq![a[0]] + a.skip(1));
            assert(b =~= seq![b[0]] + b.skip(1));
        }
        if a == b {
            assert(a.skip(1) == b.skip(1));
        }
    } else if a.len() == 0 && b.len() == 0 {
        assert(a =~= b);
    }
}

/// Swapping the sides of a comparison of byte strings reverses its result.
pub proof fn lemma_lexicographic_reverses(a: Seq<u8>, b: Seq<u8>)
    ensures
        lexicographic(a, b) == Ordering::Less <==> lexicographic(b, a) == Ordering::Greater,
    decreases a.len(),
{
    if a.len() > 0 && b.len() > 0 && a[0] == b[0] {
        lemma_lexicographic_reverses(a.skip(1), b.skip(1));
    }
}

/// The order holds two ids equal exactly if they are the same id.
pub proof fn law_order_agrees_with_equality(a: JrpcIdView, b: JrpcIdView)
    ensures
        id_order(a, b) == Ordering::Equal <==> a == b,
{
    match (a, b) {
        (JrpcIdView::String(s), JrpcIdView::String(t)) => {
            lemma_lexicographic_equal(encode_utf8(s), encode_utf8(t));
            encode_utf8_decode_utf8(s);
            encode_utf8_decode_utf8(t);
        },
        _ => {},
    }
}

/// One id comes before another exactly if the other comes after it.
pub proof fn law_order_is_antisymmetric(a: JrpcIdView, b: JrpcIdView)
    ensures
        id_order(a, b) == Ordering::Less <==> id_order(b, a) == Ordering::Greater,
{
    match (a, b) {
        (JrpcIdView::String(s), JrpcIdView::String(t)) => {
            lemma_lexicographic_reverses(encode_utf8(s), encode_utf8(t));
        },
        _ => {},
    }
}

/// Whether `a` and `b` agree before the place `i` and part there: one of
/// them ends, or their bytes differ.
pub open spec fn part_at(a: Seq<u8>, b: Seq<u8>, i: int) -> bool {
    &&& 0 <= i <= a.len()
    &&& i <= b.len()
    &&& forall|j: int| 0 <= j < i ==> a[j] == b[j]
    &&& i == a.len() || i == b.len() || a[i] != b[i]
}

/// The place of an index.
pub open spec fn place(i: usize) -> int {
    i as int
}

/// The place where two byte strings part.
fn parting(a: &[u8], b: &[u8]) -> (i: usize)
    ensures
        part_at(a@, b@, place(i)),
{
    let mut i: usize = 0;
    while i < a.len() && i < b.len() && a[i] == b[i]
        invariant
            i <= a@.len(),
            i <= b@.len(),
            forall|j: int| 0 <= j < i ==> a@[j] == b@[j],
        decreases a@.len() - i,
    {
        i += 1;
    }
    i
}

/// Byte strings that agree before a place are in the order of what follows
/// from that place on.
pub proof fn lemma_lexicographic_skips(a: Seq<u8>, b: Seq<u8>, i: int)
    requires
        0 <= i <= a.len(),
        i <= b.len(),
        forall|j: int| 0 <= j < i ==> a[j] == b[j],
    ensures
        lexicographic(a, b) == lexicographic(a.skip(i), b.skip(i)),
    decreases i,
{
    if i == 0 {
        assert(a.skip(0) =~= a);
        assert(b.skip(0) =~= b);
    } else {
        lemma_lexicographic_skips(a, b, i - 1);
        assert(a.skip(i - 1)[0] == a[i - 1]);
        assert(b.skip(i - 1)[0] == b[i - 1]);
        assert(a.skip(i - 1).skip(1) =~= a.skip(i));
        assert(b.skip(i - 1).skip(1) =~= b.skip(i));
    }
}

/// Compares two byte strings lexicographically.
fn compare_bytes(a: &[u8], b: &[u8]) -> (o: Ordering)
    ensures
        o == lexicographic(a@, b@),
{
    let i = parting(a, b);
    proof {
        lemma_lexicographic_skips(a@, b@, place(i));
        if place(i) < a@.len() {
            assert(a@.skip(place(i))[0] == a@[place(i)]);
        }
        if place(i) < b@.len() {
            assert(b@.skip(place(i))[0] == b@[place(i)]);
        }
    }
    if i < a.len() && i < b.len() {
        if a[i] < b[i] {
            Ordering::Less
        } else {
            Ordering::Greater
        }
    } else if i < b.len() {
        Ordering::Less
    } else if i < a.len() {
        Ordering::Greater
    } else {
        Ordering::Equal
    }
}

impl PartialEq for JrpcId {
    fn eq(&self, other: &JrpcId) -> (equal: bool) {
        match (self, other) {
            (JrpcId::Number(a), JrpcId::Number(b)) => *a == *b,
            (JrpcId::String(a), JrpcId::String(b)) => *a == *b,
            _ => false,
        }
    }
}

impl PartialEqSpecImpl for JrpcId {
    open spec fn obeys_eq_spec() -> bool {
        true
    }

    open spec fn eq_spec(&self, other: &JrpcId) -> bool {
        self@ == other@
    }
}

impl PartialOrd for JrpcId {
    fn partial_cmp(&self, other: &JrpcId) -> (o: Option<Ordering>) {
        match (self, other) {
            (JrpcId::Number(a), JrpcId::Number(b)) => {
                if *a < *b {
                    Some(Ordering::Less)
                } else if *a == *b {
                    Some(Ordering::Equal)
                } else {
                    Some(Ordering::Greater)
                }
            },
            (JrpcId::Number(_), JrpcId::String(_)) => Some(Ordering::Less),
            (JrpcId::String(_), JrpcId::Number(_)) => Some(Ordering::Greater),
            (JrpcId::String(a), JrpcId::String(b)) => Some(
                compare_bytes(a.as_str().as_bytes(), b.as_str().as_bytes()),
            ),
        }
    }
}

impl PartialOrdSpecImpl for JrpcId {
    open spec fn obeys_partial_cmp_spec() -> bool {
        true
    }

    open spec fn partial_cmp_spec(&self, other: &JrpcId) -> Option<Ordering> {
        Some(id_order(self@, other@))
    }
}

} // verus!
