//! The retry queue: the entities whose text could not be laid out yet because
//! a font was still loading.
//!
//! The queue lives in the engine's own hash set, `bevy::utils::HashSet`,
//! which is `hashbrown::HashSet` with the aHash hasher. The verifier cannot
//! look inside that set, so its contents are given a name,
//! [`queued_entities`], and each call into the set goes through one small
//! function whose contract is taken on trust from the set's source.

use bevy::utils::HashSet;
use vstd::prelude::*;

verus! {

/// The entities waiting for a new layout attempt, held by their 64-bit ids.
///
/// Trusted: the body of this type is hidden from the verifier, because the
/// set's type cannot be declared to it (the set's allocator parameter is
/// bound by a trait that the verifier does not know). All that is known of a
/// queue is what [`queued_entities`] says it holds.
#[verifier::external_body]
pub struct RetryQueue {
    entities: HashSet<u64>,
}

/// The ids that a queue holds: the elements of its hash set.
pub uninterp spec fn queued_entities(queue: RetryQueue) -> Set<u64>;

impl View for RetryQueue {
    type V = Set<u64>;

    open spec fn view(&self) -> Set<u64> {
        queued_entities(*self)
    }
}

/// Trusted: `HashSet::default`, which makes a set without elements.
#[verifier::external_body]
fn set_empty() -> (queue: RetryQueue)
    ensures
        queued_entities(queue) == Set::<u64>::empty(),
{
    RetryQueue { entities: HashSet::default() }
}

/// Trusted: `HashSet::contains`, which returns `true` if the set contains
/// the value.
#[verifier::external_body]
fn set_contains(queue: &RetryQueue, entity: u64) -> (found: bool)
    ensures
        found == queued_entities(*queue).contains(entity),
{
    queue.entities.contains(&entity)
}

/// Trusted: `HashSet::insert`, which adds the value to the set and returns
/// `true` if the set did not have it before, `false` if it did.
#[verifier::external_body]
fn set_insert(queue: &mut RetryQueue, entity: u64) -> (fresh: bool)
    ensures
        queued_entities(*final(queue)) == queued_entities(*old(queue)).insert(entity),
        fresh == !queued_entities(*old(queue)).contains(entity),
{
    queue.entities.insert(entity)
}

/// Trusted: `HashSet::remove`, which removes the value from the set and
/// returns whether it was present.
#[verifier::external_body]
fn set_remove(queue: &mut RetryQueue, entity: u64) -> (found: bool)
    ensures
        queued_entities(*final(queue)) == queued_entities(*old(queue)).remove(entity),
        found == queued_entities(*old(queue)).contains(entity),
{
    queue.entities.remove(&entity)
}

impl RetryQueue {
    /// A queue in which no entity waits.
    pub fn new() -> (queue: Self)
        ensures
            queue@ == Set::<u64>::empty(),
    {
        set_empty()
    }

    /// Whether the entity waits for a new attempt.
    pub fn contains(&self, entity: u64) -> (found: bool)
        ensures
            found == self@.contains(entity),
    {
        set_contains(self, entity)
    }

    /// Puts the entity into the queue. An entity waits at most once.
    pub(crate) fn defer(&mut self, entity: u64)
        ensures
            final(self)@ == old(self)@.insert(entity),
    {
        let _ = set_insert(self, entity);
    }

    /// Takes the entity out of the queue, if it waits there.
    pub(crate) fn release(&mut self, entity: u64)
        ensures
            final(self)@ == old(self)@.remove(entity),
    {
        let _ = set_remove(self, entity);
    }
}

impl Default for RetryQueue {
    fn default() -> (queue: Self)
        ensures
            queue@ == Set::<u64>::empty(),
    {
        RetryQueue::new()
    }
}

} // verus!
