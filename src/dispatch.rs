use vstd::prelude::*;

verus! {

/// The slot under which the internal wake handle is registered; it only ever
/// means "shut down".
pub const WAKE_SLOT: u64 = 0xffff_ffff_ffff_ffff;

/// Relies on nix's `Errno::EINTR`: the code of an interrupted call, 4 on Linux.
#[verifier::external_body]
fn errno_interrupted() -> (r: i32)
    ensures
        r == 4,
{
    nix::errno::Errno::EINTR as i32
}

/// Relies on nix's `Errno::EAGAIN`: the code of a call that would block, 11 on Linux.
#[verifier::external_body]
fn errno_again() -> (r: i32)
    ensures
        r == 11,
{
    nix::errno::Errno::EAGAIN as i32
}

/// Relies on nix's `Errno::EBADF`: the code of an invalid descriptor, 9 on Linux.
#[verifier::external_body]
fn errno_bad_descriptor() -> (r: i32)
    ensures
        r == 9,
{
    nix::errno::Errno::EBADF as i32
}

/// A wait that failed with this code is simply made again.
pub open spec fn is_transient(code: i32) -> bool {
    code == 4 || code == 11
}

/// A wait that failed with this code found the multiplexer closed: a deliberate shutdown.
pub open spec fn is_closed_handle(code: i32) -> bool {
    code == 9
}

/// The fired slots whose identifiers are sent, in the order the multiplexer
/// reported them: those before the first wake slot.
pub open spec fn dispatched(fired: Seq<u64>) -> Seq<u64>
    decreases fired.len(),
{
    if fired.len() == 0 {
        fired
    } else if fired[0] == WAKE_SLOT {
        Seq::empty()
    } else {
        seq![fired[0]] + dispatched(fired.drop_first())
    }
}

/// The identifiers reported for one wake of the multiplexer.
pub open spec fn reported<T>(ids: Seq<T>, fired: Seq<u64>) -> Seq<T> {
    dispatched(fired).map_values(|s: u64| ids[s as int])
}

/// What the dispatch loop does after one wait on the multiplexer.
#[derive(Debug)]
pub enum LoopAction {
    /// Send `Ready` for the identifier of each slot, in order; then stop if `stop`.
    Dispatch { slots: Vec<u64>, stop: bool },
    /// Wait again.
    Retry,
    /// Stop without an error.
    Shutdown,
    /// Send a failure with this OS error code, then stop.
    Fail(i32),
}

/// The action owed for the outcome of a wait: the fired slots, or an error code.
pub open spec fn loop_action_for(outcome: Result<Seq<u64>, i32>, a: LoopAction) -> bool {
    match outcome {
        Ok(fired) => match a {
            LoopAction::Dispatch { slots, stop } => slots@ == dispatched(fired) && stop
                == fired.contains(WAKE_SLOT),
            _ => false,
        },
        Err(code) => if is_transient(code) {
            a is Retry
        } else if is_closed_handle(code) {
            a is Shutdown
        } else {
            a == LoopAction::Fail(code)
        },
    }
}

proof fn lemma_dispatched_step(fired: Seq<u64>, i: int)
    requires
        0 <= i < fired.len(),
    ensures
        fired[i] == WAKE_SLOT ==> dispatched(fired.subrange(i, fired.len() as int)) == Seq::<u64>::empty(),
        fired[i] != WAKE_SLOT ==> dispatched(fired.subrange(i, fired.len() as int)) == seq![fired[i]]
            + dispatched(fired.subrange(i + 1, fired.len() as int)),
{
    let rest = fired.subrange(i, fired.len() as int);
    assert(rest.drop_first() =~= fired.subrange(i + 1, fired.len() as int));
}

/// When the wake slot is not among the fired slots, every fired handle is
/// reported once, in the order the multiplexer gave, and nothing else is.
pub proof fn lemma_dispatch_without_wake(fired: Seq<u64>)
    requires
        !fired.contains(WAKE_SLOT),
    ensures
        dispatched(fired) == fired,
    decreases fired.len(),
{
    if fired.len() > 0 {
        assert(fired[0] != WAKE_SLOT) by {
            if fired[0] == WAKE_SLOT {
                assert(fired.contains(WAKE_SLOT));
            }
        }
        assert(!fired.drop_first().contains(WAKE_SLOT)) by {
            if fired.drop_first().contains(WAKE_SLOT) {
                let j = choose|j: int| 0 <= j < fired.drop_first().len() && fired.drop_first()[j] == WAKE_SLOT;
                assert(fired[j + 1] == WAKE_SLOT);
            }
        }
        lemma_dispatch_without_wake(fired.drop_first());
        assert(seq![fired[0]] + fired.drop_first() =~= fired);
    }
}

/// When a single registered handle fires, exactly its identifier is reported.
pub proof fn lemma_single_handle_fires<T>(ids: Seq<T>, slot: u64)
    requires
        ids.len() < WAKE_SLOT,
        slot < ids.len(),
    ensures
        reported(ids, seq![slot]) == seq![ids[slot as int]],
{
    assert(seq![slot].drop_first() =~= Seq::<u64>::empty());
    assert(dispatched(Seq::<u64>::empty()) == Seq::<u64>::empty());
    assert(dispatched(seq![slot]) =~= seq![slot]);
    assert(reported(ids, seq![slot]) =~= seq![ids[slot as int]]);
}

/// The wake slot is never reported as a handle: what is dispatched is the run
/// of fired slots before it, and when it fired that run stops short of it.
pub proof fn lemma_wake_ends_dispatch(fired: Seq<u64>)
    ensures
        !dispatched(fired).contains(WAKE_SLOT),
        dispatched(fired).len() <= fired.len(),
        dispatched(fired) == fired.subrange(0, dispatched(fired).len() as int),
        fired.contains(WAKE_SLOT) ==> dispatched(fired).len() < fired.len()
            && fired[dispatched(fired).len() as int] == WAKE_SLOT,
    decreases fired.len(),
{
    if fired.len() > 0 {
        let rest = fired.drop_first();
        lemma_wake_ends_dispatch(rest);
        if fired[0] != WAKE_SLOT {
            let d = dispatched(fired);
            assert(d == seq![fired[0]] + dispatched(rest));
            assert(d =~= fired.subrange(0, d.len() as int));
            assert(!d.contains(WAKE_SLOT)) by {
                if d.contains(WAKE_SLOT) {
                    let j = choose|j: int| 0 <= j < d.len() && d[j] == WAKE_SLOT;
                    assert(j > 0);
                    assert(dispatched(rest)[j - 1] == WAKE_SLOT);
                }
            }
            if fired.contains(WAKE_SLOT) {
                let j = choose|j: int| 0 <= j < fired.len() && fired[j] == WAKE_SLOT;
                assert(j > 0);
                assert(rest[j - 1] == WAKE_SLOT);
                assert(rest.contains(WAKE_SLOT));
            }
        } else {
            assert(dispatched(fired) =~= fired.subrange(0, 0));
        }
    } else {
        assert(fired.subrange(0, 0) =~= fired);
    }
}

/// The identifiers of a thread engine's handles, by slot.
pub struct SlotTable<T> {
    ids: Vec<T>,
}

impl<T> SlotTable<T> {
    pub closed spec fn view(&self) -> Seq<T> {
        self.ids@
    }

    /// Handle `i` of `ids` is registered under slot `i`; the wake slot stays free.
    pub fn new(ids: Vec<T>) -> (r: SlotTable<T>)
        requires
            ids@.len() < WAKE_SLOT,
        ensures
            r@ == ids@,
    {
        SlotTable { ids }
    }

    pub fn len(&self) -> (r: usize)
        ensures
            r == self@.len(),
    {
        self.ids.len()
    }

    /// The identifier registered under a slot.
    pub fn id(&self, slot: u64) -> (r: &T)
        requires
            slot < self@.len(),
        ensures
            *r == self@[slot as int],
    {
        assert(slot < self.ids.len());
        &self.ids[slot as usize]
    }

    /// The slots to dispatch from one wake, and whether the wake slot fired.
    fn dispatch_slots(&self, fired: &Vec<u64>) -> (r: (Vec<u64>, bool))
        requires
            forall|j: int|
                0 <= j < fired@.len() ==> fired@[j] == WAKE_SLOT || fired@[j] < self@.len(),
        ensures
            r.0@ == dispatched(fired@),
            r.1 == fired@.contains(WAKE_SLOT),
            forall|j: int| 0 <= j < r.0@.len() ==> r.0@[j] < self@.len(),
    {
        let mut slots: Vec<u64> = Vec::new();
        let mut i: usize = 0;
        assert(fired@.subrange(0, fired@.len() as int) =~= fired@);
        assert(slots@ + dispatched(fired@) =~= dispatched(fired@));
        while i < fired.len()
            invariant
                i <= fired@.len(),
                forall|j: int| 0 <= j < i ==> fired@[j] != WAKE_SLOT,
                dispatched(fired@) == slots@ + dispatched(
                    fired@.subrange(i as int, fired@.len() as int),
                ),
                forall|j: int| 0 <= j < slots@.len() ==> slots@[j] < self@.len(),
                forall|j: int|
                    0 <= j < fired@.len() ==> fired@[j] == WAKE_SLOT || fired@[j]
                        < self@.len(),
            decreases fired@.len() - i,
        {
            proof {
                lemma_dispatched_step(fired@, i as int);
            }
            if fired[i] == WAKE_SLOT {
                assert(slots@ + Seq::<u64>::empty() =~= slots@);
                assert(slots@ == dispatched(fired@));
                assert(fired@.contains(WAKE_SLOT)) by {
                    assert(fired@[i as int] == WAKE_SLOT);
                }
                return (slots, true);
            }
            let ghost before = slots@;
            slots.push(fired[i]);
            assert(before + (seq![fired@[i as int]] + dispatched(
                fired@.subrange(i + 1, fired@.len() as int),
            )) =~= slots@ + dispatched(fired@.subrange(i + 1, fired@.len() as int)));
            i = i + 1;
        }
        assert(fired@.subrange(i as int, fired@.len() as int) =~= Seq::<u64>::empty());
        assert(slots@ + Seq::<u64>::empty() =~= slots@);
        assert(!fired@.contains(WAKE_SLOT));
        (slots, false)
    }

    /// Decides what the dispatch loop does after a wait, given the fired slots
    /// or the error code of a failed wait.
    pub fn next_action(&self, outcome: Result<Vec<u64>, i32>) -> (r: LoopAction)
        requires
            outcome is Ok ==> forall|j: int|
                0 <= j < outcome->Ok_0@.len() ==> outcome->Ok_0@[j] == WAKE_SLOT
                    || outcome->Ok_0@[j] < self@.len(),
        ensures
            loop_action_for(
                match outcome {
                    Ok(f) => Ok(f@),
                    Err(c) => Err(c),
                },
                r,
            ),
            r is Dispatch ==> forall|j: int|
                0 <= j < r->slots@.len() ==> r->slots@[j] < self@.len(),
    {
        match outcome {
            Ok(fired) => {
                let (slots, stop) = self.dispatch_slots(&fired);
                LoopAction::Dispatch { slots, stop }
            },
            Err(code) => {
                if code == errno_interrupted() || code == errno_again() {
                    LoopAction::Retry
                } else if code == errno_bad_descriptor() {
                    LoopAction::Shutdown
                } else {
                    LoopAction::Fail(code)
                }
            },
        }
    }
}

} // verus!
