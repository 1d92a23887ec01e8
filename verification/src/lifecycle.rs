//! The lifecycle rules of a shared session handle.
//!
//! One native session is shared by any number of facade references.  The
//! decisions that matter — when the native destroy call may fire, and
//! that it fires at most once over the whole life of the session — are a
//! small state machine over two numbers: how many references share the
//! handle, and whether the handle has been retired.  The model here is
//! the specification of that machine; the lemmas prove its safety
//! properties over every possible sequence of events.

use vstd::prelude::*;

verus! {

/// An event in the life of a shared session handle.
#[derive(Clone, Copy, Debug, PartialEq, Eq, Structural)]
pub enum LifecycleEvent {
    /// A new reference to the session was created.
    CloneRef,
    /// A reference went out of use without asking for destruction.
    DropRef,
    /// A reference explicitly requested destruction, consuming itself.
    Destroy,
}

/// The abstract state of a shared session handle: how many references
/// share it, and whether the native handle has been retired.
pub struct LifecycleModel {
    /// Number of live references to the session.
    pub sharers: nat,
    /// Whether the native handle has been destroyed (or its destruction
    /// attempted and given up on).
    pub retired: bool,
}

impl LifecycleModel {
    /// The state of a freshly created session: one reference, not retired.
    pub open spec fn initial() -> LifecycleModel {
        LifecycleModel { sharers: 1, retired: false }
    }

    /// Whether handling `e` in this state fires the native destroy call.
    ///
    /// An explicit destroy fires unless the handle is already retired; a
    /// plain drop fires only when it takes the last reference of a
    /// not-yet-retired handle (the implicit teardown path).
    pub open spec fn fires(self, e: LifecycleEvent) -> bool {
        match e {
            LifecycleEvent::CloneRef => false,
            LifecycleEvent::DropRef => self.sharers == 1 && !self.retired,
            LifecycleEvent::Destroy => !self.retired,
        }
    }

    /// The state after handling `e`.  Destruction, once fired or refused,
    /// leaves the handle retired forever; no event un-retires it.
    pub open spec fn step(self, e: LifecycleEvent) -> LifecycleModel {
        match e {
            LifecycleEvent::CloneRef => LifecycleModel {
                sharers: self.sharers + 1,
                retired: self.retired,
            },
            LifecycleEvent::DropRef => LifecycleModel {
                sharers: if self.sharers > 0 {
                    (self.sharers - 1) as nat
                } else {
                    0
                },
                retired: self.retired || self.fires(LifecycleEvent::DropRef),
            },
            LifecycleEvent::Destroy => LifecycleModel {
                sharers: if self.sharers > 0 {
                    (self.sharers - 1) as nat
                } else {
                    0
                },
                retired: true,
            },
        }
    }
}

/// The state after handling every event of `es` in order, from `m`.
pub open spec fn run(m: LifecycleModel, es: Seq<LifecycleEvent>) -> LifecycleModel
    decreases es.len(),
{
    if es.len() == 0 {
        m
    } else {
        run(m.step(es.first()), es.drop_first())
    }
}

/// How many events of `es` fire the native destroy call, starting from `m`.
pub open spec fn fire_count(m: LifecycleModel, es: Seq<LifecycleEvent>) -> nat
    decreases es.len(),
{
    if es.len() == 0 {
        0
    } else {
        (if m.fires(es.first()) {
            1nat
        } else {
            0nat
        }) + fire_count(m.step(es.first()), es.drop_first())
    }
}

/// How many events of `es` are `e`.
pub open spec fn count_event(es: Seq<LifecycleEvent>, e: LifecycleEvent) -> nat
    decreases es.len(),
{
    if es.len() == 0 {
        0
    } else {
        (if es.first() == e {
            1nat
        } else {
            0nat
        }) + count_event(es.drop_first(), e)
    }
}

/// A retired handle stays retired through any sequence of events.
pub proof fn lemma_retired_is_permanent(m: LifecycleModel, es: Seq<LifecycleEvent>)
    requires
        m.retired,
    ensures
        run(m, es).retired,
    decreases es.len(),
{
    if es.len() > 0 {
        lemma_retired_is_permanent(m.step(es.first()), es.drop_first());
    }
}

/// The native destroy call fires exactly when the run retires a handle
/// that was not retired before, and therefore never more than once.
pub proof fn lemma_fire_count_formula(m: LifecycleModel, es: Seq<LifecycleEvent>)
    ensures
        fire_count(m, es) == (if !m.retired && run(m, es).retired {
            1nat
        } else {
            0nat
        }),
    decreases es.len(),
{
    if es.len() > 0 {
        let m1 = m.step(es.first());
        lemma_fire_count_formula(m1, es.drop_first());
        if m1.retired {
            lemma_retired_is_permanent(m1, es.drop_first());
        }
    }
}

/// Single destruction: over any sequence of events, a session starting in
/// the initial state fires the native destroy call at most once, and a
/// session already retired never fires it again.
pub proof fn lemma_single_destruction(m: LifecycleModel, es: Seq<LifecycleEvent>)
    ensures
        fire_count(m, es) <= 1,
        m.retired ==> fire_count(m, es) == 0,
{
    lemma_fire_count_formula(m, es);
}

/// Running a sequence extended by one event is running the sequence and
/// then handling the event.
pub proof fn lemma_run_snoc(m: LifecycleModel, es: Seq<LifecycleEvent>, e: LifecycleEvent)
    ensures
        run(m, es.push(e)) == run(m, es).step(e),
        fire_count(m, es.push(e)) == fire_count(m, es) + (if run(m, es).fires(e) {
            1nat
        } else {
            0nat
        }),
    decreases es.len(),
{
    assert(es.push(e).len() == es.len() + 1);
    if es.len() == 0 {
        assert(es.push(e).first() == e);
        assert(es.push(e).drop_first() =~= Seq::<LifecycleEvent>::empty());
        assert(run(m, es.push(e)) == run(m.step(e), es.push(e).drop_first()));
        assert(run(m, es) == m);
        assert(fire_count(m, es.push(e)) == (if m.fires(e) {
            1nat
        } else {
            0nat
        }) + fire_count(m.step(e), es.push(e).drop_first()));
        assert(fire_count(m.step(e), es.push(e).drop_first()) == 0);
        assert(fire_count(m, es) == 0);
    } else {
        assert(es.push(e).first() == es.first());
        assert(es.push(e).drop_first() =~= es.drop_first().push(e));
        assert(run(m, es.push(e)) == run(m.step(es.first()), es.drop_first().push(e)));
        assert(fire_count(m, es.push(e)) == (if m.fires(es.first()) {
            1nat
        } else {
            0nat
        }) + fire_count(m.step(es.first()), es.drop_first().push(e)));
        assert(fire_count(m, es) == (if m.fires(es.first()) {
            1nat
        } else {
            0nat
        }) + fire_count(m.step(es.first()), es.drop_first()));
        assert(run(m, es) == run(m.step(es.first()), es.drop_first()));
        lemma_run_snoc(m.step(es.first()), es.drop_first(), e);
    }
}

/// Counting events in a sequence extended by one event.
pub proof fn lemma_count_event_snoc(es: Seq<LifecycleEvent>, e: LifecycleEvent, k: LifecycleEvent)
    ensures
        count_event(es.push(e), k) == count_event(es, k) + (if e == k {
            1nat
        } else {
            0nat
        }),
    decreases es.len(),
{
    assert(es.push(e).len() == es.len() + 1);
    if es.len() == 0 {
        assert(es.push(e).first() == e);
        assert(es.push(e).drop_first() =~= Seq::<LifecycleEvent>::empty());
        assert(count_event(es.push(e), k) == (if e == k {
            1nat
        } else {
            0nat
        }) + count_event(es.push(e).drop_first(), k));
        assert(count_event(es.push(e).drop_first(), k) == 0);
        assert(count_event(es, k) == 0);
    } else {
        assert(es.push(e).first() == es.first());
        assert(es.push(e).drop_first() =~= es.drop_first().push(e));
        assert(count_event(es.push(e), k) == (if es.first() == k {
            1nat
        } else {
            0nat
        }) + count_event(es.drop_first().push(e), k));
        assert(count_event(es, k) == (if es.first() == k {
            1nat
        } else {
            0nat
        }) + count_event(es.drop_first(), k));
        lemma_count_event_snoc(es.drop_first(), e, k);
    }
}

/// While any reference remains, the session stays alive: if no reference
/// ever asked for explicit destruction and the references dropped so far
/// never outnumber the ones created (the original counts as one), the
/// handle is not retired, no teardown has fired, and exactly the
/// remaining references share it.  In particular a clone is fully
/// operable after the original is dropped.
pub proof fn lemma_clone_keeps_session_alive(es: Seq<LifecycleEvent>)
    requires
        count_event(es, LifecycleEvent::Destroy) == 0,
        forall|i: int|
            0 <= i <= es.len() ==> count_event(
                #[trigger] es.take(i),
                LifecycleEvent::DropRef,
            ) <= count_event(es.take(i), LifecycleEvent::CloneRef),
    ensures
        !run(LifecycleModel::initial(), es).retired,
        run(LifecycleModel::initial(), es).sharers == 1 + count_event(
            es,
            LifecycleEvent::CloneRef,
        ) - count_event(es, LifecycleEvent::DropRef),
        fire_count(LifecycleModel::initial(), es) == 0,
    decreases es.len(),
{
    if es.len() > 0 {
        let es0 = es.drop_last();
        let e = es.last();
        assert(es0.push(e) =~= es);
        lemma_count_event_snoc(es0, e, LifecycleEvent::Destroy);
        lemma_count_event_snoc(es0, e, LifecycleEvent::CloneRef);
        lemma_count_event_snoc(es0, e, LifecycleEvent::DropRef);
        assert forall|i: int| 0 <= i <= es0.len() implies count_event(
            #[trigger] es0.take(i),
            LifecycleEvent::DropRef,
        ) <= count_event(es0.take(i), LifecycleEvent::CloneRef) by {
            assert(es0.take(i) =~= es.take(i));
        }
        lemma_clone_keeps_session_alive(es0);
        lemma_run_snoc(LifecycleModel::initial(), es0, e);
        assert(es.take(es.len() as int) =~= es);
        assert(es.take(es0.len() as int) =~= es0);
    }
}

/// When the last remaining reference is dropped without an explicit
/// destroy, the implicit teardown fires, exactly once, and the handle
/// ends retired with no sharers.
pub proof fn lemma_last_holder_teardown(es: Seq<LifecycleEvent>)
    requires
        count_event(es, LifecycleEvent::Destroy) == 0,
        forall|i: int|
            0 <= i <= es.len() ==> count_event(
                #[trigger] es.take(i),
                LifecycleEvent::DropRef,
            ) <= count_event(es.take(i), LifecycleEvent::CloneRef),
        count_event(es, LifecycleEvent::DropRef) == count_event(es, LifecycleEvent::CloneRef),
    ensures
        run(LifecycleModel::initial(), es.push(LifecycleEvent::DropRef)).retired,
        run(LifecycleModel::initial(), es.push(LifecycleEvent::DropRef)).sharers == 0,
        fire_count(LifecycleModel::initial(), es.push(LifecycleEvent::DropRef)) == 1,
{
    lemma_clone_keeps_session_alive(es);
    lemma_run_snoc(LifecycleModel::initial(), es, LifecycleEvent::DropRef);
}

} // verus!
