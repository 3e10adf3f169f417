use vstd::prelude::*;

verus! {

/// Issues identifiers shared by every kind of entity: each call hands out the
/// current counter value and advances the counter by one.
pub struct IdGenerator {
    next: u64,
}

impl IdGenerator {
    /// The value that the next call of `next_id` returns.
    pub closed spec fn peek(&self) -> u64 {
        self.next
    }

    /// A generator that has not issued anything yet starts at zero.
    pub fn new() -> (r: IdGenerator)
        ensures
            r.peek() == 0,
    {
        IdGenerator { next: 0 }
    }

    /// A generator that continues from a saved position.
    pub fn resume(next: u64) -> (r: IdGenerator)
        ensures
            r.peek() == next,
    {
        IdGenerator { next }
    }

    /// The value that the next call of `next_id` hands out.
    pub fn upcoming(&self) -> (r: u64)
        ensures
            r == self.peek(),
    {
        self.next
    }

    /// Whether another identifier can still be issued without exhausting the counter.
    pub open spec fn can_issue(&self) -> bool {
        self.peek() < u64::MAX
    }

    pub fn has_capacity(&self) -> (r: bool)
        ensures
            r == self.can_issue(),
    {
        self.next < u64::MAX
    }

    pub fn next_id(&mut self) -> (r: u64)
        requires
            old(self).can_issue(),
        ensures
            r == old(self).peek(),
            final(self).peek() == old(self).peek() + 1,
    {
        let r = self.next;
        self.next = self.next + 1;
        r
    }
}

/// Identifiers come out strictly increasing: of two calls of `next_id`, the
/// later one (started from a generator at least as far advanced as the one the
/// earlier call left behind) returns the larger value, so no value repeats.
pub proof fn lemma_ids_increase(
    first_before: IdGenerator,
    first_after: IdGenerator,
    a: u64,
    second_before: IdGenerator,
    second_after: IdGenerator,
    b: u64,
)
    requires
        a == first_before.peek(),
        first_after.peek() == first_before.peek() + 1,
        b == second_before.peek(),
        second_after.peek() == second_before.peek() + 1,
        first_after.peek() <= second_before.peek(),
    ensures
        a < b,
        a != b,
{
}

/// Each step either leaves the generator where it was or issues one identifier.
/// Every operation's contract gives one of the two.
pub open spec fn steps_issue_at_most_one(gens: Seq<IdGenerator>) -> bool {
    forall|k: int| 0 <= k < gens.len() - 1 ==> #[trigger] gens[k + 1].peek() == gens[k].peek()
        || gens[k + 1].peek() == gens[k].peek() + 1
}

/// Along any run of operations the generator never moves back.
pub proof fn lemma_generator_monotone(gens: Seq<IdGenerator>, a: int, b: int)
    requires
        steps_issue_at_most_one(gens),
        0 <= a <= b < gens.len(),
    ensures
        gens[a].peek() <= gens[b].peek(),
    decreases b - a,
{
    if a < b {
        lemma_generator_monotone(gens, a, b - 1);
        let k = b - 1;
        assert(gens[k + 1].peek() == gens[k].peek() || gens[k + 1].peek() == gens[k].peek() + 1);
    }
}

/// Over any run of operations, whatever kind of record asks for them, the
/// identifiers issued come out strictly increasing and so pairwise distinct:
/// the one issued at step `a` is below the one issued at any later step `b`.
pub proof fn lemma_issued_ids_increase(gens: Seq<IdGenerator>, a: int, b: int)
    requires
        steps_issue_at_most_one(gens),
        0 <= a < b < gens.len() - 1,
        gens[a + 1].peek() == gens[a].peek() + 1,
        gens[b + 1].peek() == gens[b].peek() + 1,
    ensures
        gens[a].peek() < gens[b].peek(),
{
    lemma_generator_monotone(gens, a + 1, b);
}

} // verus!
