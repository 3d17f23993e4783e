//! The lifetime rules of a managed object, as a state machine over its
//! reference count.
//!
//! An object is live while its count is at least one. An acquire adds one, a
//! release takes one away, and the release that finds the count at one
//! destroys the object. Nothing leads back from the destroyed state.

use vstd::prelude::*;

verus! {

/// What a release tells its caller to do with the object's storage.
#[derive(Clone, Copy, Debug, PartialEq, Eq, Structural)]
pub enum Disposal {
    /// Other holders remain: leave the object alone.
    Keep,
    /// That was the last reference: reclaim the storage now.
    Destroy,
}

/// The count after an acquire that found it at `prev`.
pub open spec fn count_after_acquire(prev: nat) -> nat {
    prev + 1
}

/// The count after a release that found it at `prev`.
pub open spec fn count_after_release(prev: nat) -> nat
    recommends
        prev >= 1,
{
    (prev - 1) as nat
}

/// What a release that found the count at `prev` does to the storage.
pub open spec fn disposal_after_release(prev: nat) -> Disposal {
    if prev == 1 {
        Disposal::Destroy
    } else {
        Disposal::Keep
    }
}

/// The value an acquire returns, given the count it found. A count that is
/// already at its largest wraps to zero, as the counter itself does.
pub fn acquired(prev: u32) -> (count: u32)
    ensures
        prev < u32::MAX ==> count == count_after_acquire(prev as nat),
        prev == u32::MAX ==> count == 0,
{
    if prev == u32::MAX {
        0
    } else {
        prev + 1
    }
}

/// The value a release returns and what it does to the storage, given the
/// count it found. Only the release that finds the count at one destroys
/// the object. A release that finds the count at zero breaks the protocol:
/// the counter wraps, and the storage is left alone.
pub fn released(prev: u32) -> (outcome: (u32, Disposal))
    ensures
        prev >= 1 ==> outcome.0 == count_after_release(prev as nat),
        prev >= 1 ==> outcome.1 == disposal_after_release(prev as nat),
        prev == 0 ==> outcome == (u32::MAX, Disposal::Keep),
        outcome.1 == Disposal::Destroy <==> outcome.0 == 0,
        outcome.1 == Disposal::Destroy <==> prev == 1,
{
    if prev == 1 {
        (0, Disposal::Destroy)
    } else if prev == 0 {
        (u32::MAX, Disposal::Keep)
    } else {
        (prev - 1, Disposal::Keep)
    }
}

/// One lifetime operation on an object.
pub enum Op {
    /// A holder takes one more reference.
    Acquire,
    /// A holder gives one reference back.
    Release,
}

/// Where an object is in its life.
pub enum Lifetime {
    /// Reachable, with this many references held.
    Live { count: nat },
    /// Reclaimed. Nothing may touch the object any more.
    Destroyed,
}

/// One step of an object's life. A destroyed object stays destroyed.
pub open spec fn step(state: Lifetime, op: Op) -> Lifetime {
    match state {
        Lifetime::Destroyed => Lifetime::Destroyed,
        Lifetime::Live { count } => match op {
            Op::Acquire => Lifetime::Live { count: count_after_acquire(count) },
            Op::Release => if disposal_after_release(count) == Disposal::Destroy {
                Lifetime::Destroyed
            } else {
                Lifetime::Live { count: count_after_release(count) }
            },
        },
    }
}

/// The state after the operations of `ops` in order.
pub open spec fn run(state: Lifetime, ops: Seq<Op>) -> Lifetime
    decreases ops.len(),
{
    if ops.len() == 0 {
        state
    } else {
        step(run(state, ops.drop_last()), ops.last())
    }
}

/// Every operation of `ops` finds the object live with a count of at least
/// one: none touches it after its destruction, and no release finds the
/// count at zero.
pub open spec fn never_touches_dead(state: Lifetime, ops: Seq<Op>) -> bool {
    forall|k: int|
        0 <= k < ops.len() ==> match #[trigger] run(state, ops.take(k)) {
            Lifetime::Live { count } => count >= 1,
            Lifetime::Destroyed => false,
        }
}

/// How often the operations of `ops` reclaim the object's storage.
pub open spec fn destructions(state: Lifetime, ops: Seq<Op>) -> nat
    decreases ops.len(),
{
    if ops.len() == 0 {
        0
    } else {
        let before = run(state, ops.drop_last());
        let now: nat = if before is Live && step(before, ops.last()) is Destroyed {
            1
        } else {
            0
        };
        destructions(state, ops.drop_last()) + now
    }
}

/// The number of acquires in `ops`.
pub open spec fn acquires(ops: Seq<Op>) -> nat
    decreases ops.len(),
{
    if ops.len() == 0 {
        0
    } else {
        acquires(ops.drop_last()) + if ops.last() == Op::Acquire {
            1nat
        } else {
            0nat
        }
    }
}

/// The number of releases in `ops`.
pub open spec fn releases(ops: Seq<Op>) -> nat
    decreases ops.len(),
{
    if ops.len() == 0 {
        0
    } else {
        releases(ops.drop_last()) + if ops.last() == Op::Release {
            1nat
        } else {
            0nat
        }
    }
}

/// The references that the holders of an object still have after `ops`, if
/// they had `initial` before.
pub open spec fn outstanding(initial: nat, ops: Seq<Op>) -> int {
    initial + acquires(ops) - releases(ops)
}

/// The holders keep to the protocol: whoever acquires or releases holds a
/// reference at that moment, so before each operation of `ops` at least one
/// reference is outstanding.
pub open spec fn held_throughout(initial: nat, ops: Seq<Op>) -> bool {
    forall|k: int| 0 <= k < ops.len() ==> #[trigger] outstanding(initial, ops.take(k)) >= 1
}

/// Every release in `ops` gives back a reference that an earlier acquire in
/// `ops` took, as when each of several threads acquires once and later
/// releases once, in any interleaving.
pub open spec fn paired(ops: Seq<Op>) -> bool {
    forall|k: int| 0 <= k <= ops.len() ==> #[trigger] releases(ops.take(k)) <= acquires(ops.take(k))
}

/// Nothing leads out of the destroyed state, and a destroyed object is not
/// reclaimed again.
pub proof fn lemma_destroyed_is_terminal(ops: Seq<Op>)
    ensures
        run(Lifetime::Destroyed, ops) == Lifetime::Destroyed,
        destructions(Lifetime::Destroyed, ops) == 0,
    decreases ops.len(),
{
    if ops.len() > 0 {
        lemma_destroyed_is_terminal(ops.drop_last());
    }
}

/// Holders that keep to the protocol through all of `ops` kept to it up to
/// the last operation, and held a reference when they made it.
pub proof fn lemma_held_before_last(initial: nat, ops: Seq<Op>)
    requires
        held_throughout(initial, ops),
        ops.len() > 0,
    ensures
        held_throughout(initial, ops.drop_last()),
        outstanding(initial, ops.drop_last()) >= 1,
{
    let front = ops.drop_last();
    assert(front == ops.take(ops.len() - 1));
    assert forall|k: int| 0 <= k < front.len() implies #[trigger] outstanding(
        initial,
        front.take(k),
    ) >= 1 by {
        assert(front.take(k) == ops.take(k));
    }
}

/// Where the holders keep to the protocol, the object's count is at every
/// moment the number of references outstanding. The object is destroyed when
/// the last of them is given back, and at no other time.
pub proof fn lemma_count_follows_holders(initial: nat, ops: Seq<Op>)
    requires
        initial >= 1,
        held_throughout(initial, ops),
    ensures
        outstanding(initial, ops) >= 0,
        outstanding(initial, ops) >= 1 ==> run(Lifetime::Live { count: initial }, ops)
            == (Lifetime::Live { count: outstanding(initial, ops) as nat }),
        outstanding(initial, ops) == 0 ==> run(Lifetime::Live { count: initial }, ops)
            == Lifetime::Destroyed,
        destructions(Lifetime::Live { count: initial }, ops) == if outstanding(initial, ops) == 0 {
            1nat
        } else {
            0nat
        },
        never_touches_dead(Lifetime::Live { count: initial }, ops),
    decreases ops.len(),
{
    let start = Lifetime::Live { count: initial };
    if ops.len() == 0 {
    } else {
        let front = ops.drop_last();
        lemma_held_before_last(initial, ops);
        lemma_count_follows_holders(initial, front);
        assert forall|k: int| 0 <= k < ops.len() implies match #[trigger] run(start, ops.take(k)) {
            Lifetime::Live { count } => count >= 1,
            Lifetime::Destroyed => false,
        } by {
            if k < front.len() {
                assert(front.take(k) == ops.take(k));
            } else {
                assert(ops.take(k) == front);
            }
        }
    }
}

/// A full life: once every reference ever held has been given back, the
/// object has been destroyed exactly once, by the last release, and no
/// operation found it dead or its count at zero.
pub proof fn lemma_destroyed_exactly_once(initial: nat, ops: Seq<Op>)
    requires
        initial >= 1,
        held_throughout(initial, ops),
        releases(ops) == initial + acquires(ops),
    ensures
        run(Lifetime::Live { count: initial }, ops) == Lifetime::Destroyed,
        destructions(Lifetime::Live { count: initial }, ops) == 1,
        never_touches_dead(Lifetime::Live { count: initial }, ops),
        ops.len() > 0 && ops.last() == Op::Release,
        run(Lifetime::Live { count: initial }, ops.drop_last()) == (Lifetime::Live { count: 1 }),
{
    lemma_count_follows_holders(initial, ops);
    assert(ops.len() > 0);
    lemma_held_before_last(initial, ops);
    lemma_count_follows_holders(initial, ops.drop_last());
}

/// Acquires and releases that pair up leave the count where it was: after
/// any interleaving in which each release follows an acquire of its own,
/// and there are as many of one as of the other, the object is live with
/// the count it had before, and was never destroyed on the way.
pub proof fn lemma_paired_ops_restore_count(initial: nat, ops: Seq<Op>)
    requires
        initial >= 1,
        paired(ops),
        acquires(ops) == releases(ops),
    ensures
        held_throughout(initial, ops),
        run(Lifetime::Live { count: initial }, ops) == (Lifetime::Live { count: initial }),
        destructions(Lifetime::Live { count: initial }, ops) == 0,
        never_touches_dead(Lifetime::Live { count: initial }, ops),
{
    assert forall|k: int| 0 <= k < ops.len() implies #[trigger] outstanding(initial, ops.take(k))
        >= 1 by {
        assert(releases(ops.take(k)) <= acquires(ops.take(k)));
    }
    lemma_count_follows_holders(initial, ops);
}

} // verus!
