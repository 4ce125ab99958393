//! Correlation identifiers and the counter that hands them out.

use vstd::arithmetic::div_mod::{lemma_add_mod_noop_right, lemma_small_mod};
use vstd::prelude::*;

verus! {

/// The number that links a method call to its response.
pub type CorrelationId = u64;

/// How many distinct correlation identifiers exist.
pub open spec fn id_space() -> nat {
    0x1_0000_0000_0000_0000
}

/// A wrapping counter: each allocation hands out the current value and moves
/// on by one, going from the largest identifier back to zero.
pub struct IdAllocator {
    next: u64,
}

impl View for IdAllocator {
    type V = u64;

    /// The identifier that the next allocation hands out.
    closed spec fn view(&self) -> u64 {
        self.next
    }
}

impl IdAllocator {
    /// The identifier handed out by the allocation that follows `k` earlier
    /// ones, counted from a counter that stands at `start`.
    pub open spec fn id_after(start: u64, k: nat) -> u64 {
        ((start + k) % (id_space() as int)) as u64
    }

    /// A counter that starts at zero.
    pub fn new() -> (alloc: IdAllocator)
        ensures
            alloc@ == 0,
    {
        IdAllocator { next: 0 }
    }

    /// A counter that stands at `next`.
    pub fn starting_at(next: CorrelationId) -> (alloc: IdAllocator)
        ensures
            alloc@ == next,
    {
        IdAllocator { next }
    }

    /// Hands out the current identifier and advances the counter, wrapping to
    /// zero after the largest value.
    pub fn next_id(&mut self) -> (id: CorrelationId)
        ensures
            id == old(self)@,
            final(self)@ == Self::id_after(old(self)@, 1),
    {
        let id: u64 = self.next;
        self.next = id.wrapping_add(1);
        id
    }
}

/// A counter that has moved on by `a` allocations and then by `b` stands
/// where one stands that has moved on by `a + b`.
pub proof fn lemma_id_after_add(start: u64, a: nat, b: nat)
    ensures
        IdAllocator::id_after(IdAllocator::id_after(start, a), b) == IdAllocator::id_after(
            start,
            a + b,
        ),
        IdAllocator::id_after(start, 0) == start,
{
    let m = id_space() as int;
    lemma_add_mod_noop_right(b as int, start + a, m);
    lemma_small_mod(start as nat, m as nat);
}

/// Two allocations from one counter that are fewer than 2^64 allocations
/// apart hand out different identifiers.
pub proof fn lemma_ids_distinct(start: u64, i: nat, j: nat)
    requires
        i < j,
        j - i < id_space(),
    ensures
        IdAllocator::id_after(start, i) != IdAllocator::id_after(start, j),
{
}

/// The identifiers that `count` calls of [`IdAllocator::next_id`] in a row
/// return, the first of them on a counter that stands at `start`.
pub open spec fn successive_ids(start: u64, count: nat) -> Seq<u64>
    decreases count,
{
    if count == 0 {
        Seq::empty()
    } else {
        seq![start] + successive_ids(IdAllocator::id_after(start, 1), (count - 1) as nat)
    }
}

/// The call that follows `k` earlier ones returns the identifier
/// `id_after(start, k)`.
pub proof fn lemma_successive_ids(start: u64, count: nat)
    ensures
        successive_ids(start, count).len() == count,
        forall|k: int|
            0 <= k < count ==> #[trigger] successive_ids(start, count)[k] == IdAllocator::id_after(
                start,
                k as nat,
            ),
    decreases count,
{
    if count > 0 {
        lemma_successive_ids(IdAllocator::id_after(start, 1), (count - 1) as nat);
    }
}

/// However the callers of one counter take turns, as long as there are no
/// more than 2^64 allocations in all, no identifier is handed out twice.
pub proof fn lemma_allocations_pairwise_distinct(start: u64, count: nat)
    requires
        count <= id_space(),
    ensures
        successive_ids(start, count).no_duplicates(),
{
    lemma_successive_ids(start, count);
}

/// The identifier that a response carries. Requests of this client always
/// carry a number; a server may answer with anything JSON-RPC allows.
#[derive(Clone, Debug, PartialEq, Eq)]
pub enum Id {
    Null,
    Num(u64),
    Str(String),
}

/// The mathematical value of an [`Id`].
pub enum IdView {
    Null,
    Num(u64),
    Str(Seq<char>),
}

impl View for Id {
    type V = IdView;

    open spec fn view(&self) -> IdView {
        match *self {
            Id::Null => IdView::Null,
            Id::Num(n) => IdView::Num(n),
            Id::Str(s) => IdView::Str(s@),
        }
    }
}

impl Id {
    /// The number this identifier holds, if it holds one.
    pub fn as_number(&self) -> (n: Option<u64>)
        ensures
            n == match self@ {
                IdView::Num(v) => Some(v),
                _ => None,
            },
    {
        match self {
            Id::Num(v) => Some(*v),
            _ => None,
        }
    }
}

} // verus!
