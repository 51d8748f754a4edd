//! The modern deletion engine's decisions, and the capability cache that
//! guards its use.
//!
//! The modern mechanism composes a deletion through an interface-based
//! file-operation object. A session is a fixed sequence of platform calls —
//! initialize the apartment concurrency model, create a binding context,
//! register the folder-preference parameter, resolve the path to an item,
//! check the item's attributes, create the file-operation object, suppress
//! its UI, queue the deletion, perform it, and query the aborted flag. Each
//! call's status is checked at once; the first failure ends the session with
//! a structured error and no later step runs. The host shim makes the calls
//! on a dedicated execution context and feeds every outcome through
//! [`advance`], which owns all the decisions.

use vstd::prelude::*;
use crate::error::Error;
use crate::error::ModernStep;
use crate::error::spec_hresult_error;

verus! {

/// Interface parameter of the file-operation object's progress protocol.
/// The deletion flow never registers a progress sink, so the only value of
/// this type is the absent placeholder that stands for the null parameter.
#[derive(Clone, Copy, Debug, PartialEq, Eq, Structural)]
pub enum IFileOperationProgressSink {
    Absent,
}

/// Interface parameter of the file-operation object's dialog protocol;
/// the deletion flow never supplies one.
#[derive(Clone, Copy, Debug, PartialEq, Eq, Structural)]
pub enum IOperationsProgressDialog {
    Absent,
}

/// Interface parameter of the file-operation object's property protocol;
/// the deletion flow never supplies one.
#[derive(Clone, Copy, Debug, PartialEq, Eq, Structural)]
pub enum IPropertyChangeArray {
    Absent,
}

/// What one platform call of a modern-engine session reported.
#[derive(Clone, Copy, Debug, PartialEq, Eq, Structural)]
pub enum CallOutcome {
    /// A call that reports only a status.
    Status { hr: i32 },
    /// A call that should hand back an object: its status, and whether an
    /// object actually came back.
    Produced { hr: i32, object: bool },
    /// The aborted query: its status, and the flag it reported.
    Flag { hr: i32, aborted: bool },
}

/// The status a call reported, whatever else came with it.
pub open spec fn hr_of(o: CallOutcome) -> i32 {
    match o {
        CallOutcome::Status { hr } => hr,
        CallOutcome::Produced { hr, .. } => hr,
        CallOutcome::Flag { hr, .. } => hr,
    }
}

/// Whether the call handed back the object it was asked for. Calls that
/// produce no object have nothing to miss.
pub open spec fn object_of(o: CallOutcome) -> bool {
    match o {
        CallOutcome::Produced { object, .. } => object,
        _ => true,
    }
}

/// Whether the call reported that some sub-operation was aborted.
pub open spec fn aborted_of(o: CallOutcome) -> bool {
    match o {
        CallOutcome::Flag { aborted, .. } => aborted,
        _ => false,
    }
}

/// Where a modern-engine session stands: the next call to make, or done.
#[derive(Clone, Copy, Debug, PartialEq, Eq, Structural)]
pub enum ModernState {
    /// The session's next platform call.
    Pending(ModernStep),
    /// Every step ran and none failed: the deletion is complete.
    Complete,
}

/// The fixed order of the session's calls, as a position for each state.
pub open spec fn state_index(s: ModernState) -> int {
    match s {
        ModernState::Pending(step) => match step {
            ModernStep::Initialize => 0,
            ModernStep::CreateBindCtx => 1,
            ModernStep::RegisterParam => 2,
            ModernStep::CreateItem => 3,
            ModernStep::QueryAttributes => 4,
            ModernStep::CreateFileOperation => 5,
            ModernStep::SetFlags => 6,
            ModernStep::QueueDelete => 7,
            ModernStep::Perform => 8,
            ModernStep::QueryAborted => 9,
        },
        ModernState::Complete => 10,
    }
}

/// The session state at each position of the fixed order.
pub open spec fn state_at(i: int) -> ModernState {
    if i == 0 {
        ModernState::Pending(ModernStep::Initialize)
    } else if i == 1 {
        ModernState::Pending(ModernStep::CreateBindCtx)
    } else if i == 2 {
        ModernState::Pending(ModernStep::RegisterParam)
    } else if i == 3 {
        ModernState::Pending(ModernStep::CreateItem)
    } else if i == 4 {
        ModernState::Pending(ModernStep::QueryAttributes)
    } else if i == 5 {
        ModernState::Pending(ModernStep::CreateFileOperation)
    } else if i == 6 {
        ModernState::Pending(ModernStep::SetFlags)
    } else if i == 7 {
        ModernState::Pending(ModernStep::QueueDelete)
    } else if i == 8 {
        ModernState::Pending(ModernStep::Perform)
    } else if i == 9 {
        ModernState::Pending(ModernStep::QueryAborted)
    } else {
        ModernState::Complete
    }
}

/// How one step interprets its call's outcome: the next state on success,
/// the structured error that ends the session otherwise.
///
/// Every step checks its status first; a negative status becomes the
/// embedded Win32 code or the raw status with the step's name. The
/// object-producing steps then fail when no object came back. The
/// attribute query demands exactly the all-match status: anything else
/// means the target is not a filesystem directory (a directory symlink
/// reports folder-ness like its target and passes). The aborted query
/// turns a set flag into the interrupted error even though no call failed.
pub open spec fn spec_advance(step: ModernStep, o: CallOutcome) -> Result<ModernState, Error> {
    let hr = hr_of(o);
    match step {
        ModernStep::QueryAttributes => if hr != 0 {
            Err(Error::NotDirectory)
        } else {
            Ok(state_at(5))
        },
        ModernStep::CreateBindCtx | ModernStep::CreateItem | ModernStep::CreateFileOperation => if hr
            < 0 {
            Err(spec_hresult_error(hr, step))
        } else if !object_of(o) {
            Err(Error::NullObject { step })
        } else {
            Ok(state_at(state_index(ModernState::Pending(step)) + 1))
        },
        ModernStep::QueryAborted => if hr < 0 {
            Err(spec_hresult_error(hr, step))
        } else if aborted_of(o) {
            Err(Error::Aborted)
        } else {
            Ok(ModernState::Complete)
        },
        _ => if hr < 0 {
            Err(spec_hresult_error(hr, step))
        } else {
            Ok(state_at(state_index(ModernState::Pending(step)) + 1))
        },
    }
}

/// Applies one call's outcome to the session: the next pending state when
/// the step succeeded, the error that ends the session otherwise.
pub fn advance(step: ModernStep, outcome: CallOutcome) -> (r: Result<ModernState, Error>)
    ensures
        r == spec_advance(step, outcome),
{
    let hr = match outcome {
        CallOutcome::Status { hr } => hr,
        CallOutcome::Produced { hr, .. } => hr,
        CallOutcome::Flag { hr, .. } => hr,
    };
    let object = match outcome {
        CallOutcome::Produced { object, .. } => object,
        _ => true,
    };
    let aborted = match outcome {
        CallOutcome::Flag { aborted, .. } => aborted,
        _ => false,
    };
    match step {
        ModernStep::Initialize => if hr < 0 {
            Err(crate::error::hresult_to_result(hr, step).unwrap_err())
        } else {
            Ok(ModernState::Pending(ModernStep::CreateBindCtx))
        },
        ModernStep::CreateBindCtx => if hr < 0 {
            Err(crate::error::hresult_to_result(hr, step).unwrap_err())
        } else if !object {
            Err(Error::NullObject { step })
        } else {
            Ok(ModernState::Pending(ModernStep::RegisterParam))
        },
        ModernStep::RegisterParam => if hr < 0 {
            Err(crate::error::hresult_to_result(hr, step).unwrap_err())
        } else {
            Ok(ModernState::Pending(ModernStep::CreateItem))
        },
        ModernStep::CreateItem => if hr < 0 {
            Err(crate::error::hresult_to_result(hr, step).unwrap_err())
        } else if !object {
            Err(Error::NullObject { step })
        } else {
            Ok(ModernState::Pending(ModernStep::QueryAttributes))
        },
        ModernStep::QueryAttributes => if hr != 0 {
            Err(Error::NotDirectory)
        } else {
            Ok(ModernState::Pending(ModernStep::CreateFileOperation))
        },
        ModernStep::CreateFileOperation => if hr < 0 {
            Err(crate::error::hresult_to_result(hr, step).unwrap_err())
        } else if !object {
            Err(Error::NullObject { step })
        } else {
            Ok(ModernState::Pending(ModernStep::SetFlags))
        },
        ModernStep::SetFlags => if hr < 0 {
            Err(crate::error::hresult_to_result(hr, step).unwrap_err())
        } else {
            Ok(ModernState::Pending(ModernStep::QueueDelete))
        },
        ModernStep::QueueDelete => if hr < 0 {
            Err(crate::error::hresult_to_result(hr, step).unwrap_err())
        } else {
            Ok(ModernState::Pending(ModernStep::Perform))
        },
        ModernStep::Perform => if hr < 0 {
            Err(crate::error::hresult_to_result(hr, step).unwrap_err())
        } else {
            Ok(ModernState::Pending(ModernStep::QueryAborted))
        },
        ModernStep::QueryAborted => if hr < 0 {
            Err(crate::error::hresult_to_result(hr, step).unwrap_err())
        } else if aborted {
            Err(Error::Aborted)
        } else {
            Ok(ModernState::Complete)
        },
    }
}

/// A whole session from a given state: feed the call outcomes in order
/// until one fails or they run out. The first failure is the session's
/// result; outcomes after it are never consulted.
pub open spec fn run_from(state: ModernState, events: Seq<CallOutcome>) -> Result<
    ModernState,
    Error,
>
    decreases events.len(),
{
    if events.len() == 0 {
        Ok(state)
    } else {
        match state {
            ModernState::Complete => Ok(ModernState::Complete),
            ModernState::Pending(step) => match spec_advance(step, events[0]) {
                Ok(next) => run_from(next, events.drop_first()),
                Err(e) => Err(e),
            },
        }
    }
}

/// A whole session from the start.
pub open spec fn modern_run(events: Seq<CallOutcome>) -> Result<ModernState, Error> {
    run_from(ModernState::Pending(ModernStep::Initialize), events)
}

/// A successful step moves the session exactly one position forward.
proof fn lemma_advance_ok_steps_once(step: ModernStep, o: CallOutcome)
    ensures
        spec_advance(step, o) matches Ok(next) ==> next == state_at(
            state_index(ModernState::Pending(step)) + 1,
        ),
{
}

/// A session only moves forward, one consumed outcome per position: a state
/// it reaches is at most as many positions ahead as there were outcomes.
proof fn lemma_run_bound(state: ModernState, events: Seq<CallOutcome>)
    ensures
        run_from(state, events) matches Ok(s2) ==> state_index(state) <= state_index(s2)
            <= state_index(state) + events.len(),
    decreases events.len(),
{
    if events.len() > 0 {
        match state {
            ModernState::Complete => {},
            ModernState::Pending(step) => {
                match spec_advance(step, events[0]) {
                    Ok(next) => {
                        lemma_advance_ok_steps_once(step, events[0]);
                        lemma_run_bound(next, events.drop_first());
                    },
                    Err(..) => {},
                }
            },
        }
    }
}

/// Along a successful stretch of a session, the outcome consumed at each
/// position belongs to that position's step, and that step accepted it.
proof fn lemma_run_steps(state: ModernState, events: Seq<CallOutcome>, j: int)
    requires
        run_from(state, events) is Ok,
        state == state_at(state_index(state)),
        state_index(state) <= j,
        run_from(state, events) matches Ok(s2) && j < state_index(s2),
    ensures
        0 <= j - state_index(state) < events.len(),
        state_at(j) matches ModernState::Pending(step) && spec_advance(
            step,
            events[j - state_index(state)],
        ) == Ok::<ModernState, Error>(state_at(j + 1)),
    decreases events.len(),
{
    let s2 = run_from(state, events)->Ok_0;
    if events.len() == 0 {
        assert(s2 == state);
    } else {
        match state {
            ModernState::Complete => {},
            ModernState::Pending(step) => {
                match spec_advance(step, events[0]) {
                    Ok(next) => {
                        lemma_advance_ok_steps_once(step, events[0]);
                        if j == state_index(state) {
                            lemma_run_bound(next, events.drop_first());
                        } else {
                            lemma_run_steps(next, events.drop_first(), j);
                            assert(events.drop_first()[j - state_index(next)] == events[j
                                - state_index(state)]);
                        }
                    },
                    Err(..) => {},
                }
            },
        }
    }
}

/// A session that completes ran the whole fixed sequence: it consumed at
/// least one outcome per step, every consumed outcome was accepted, and in
/// particular the attribute query — the step that admits only a filesystem
/// directory or directory symlink — reported exactly the all-match status
/// before the deletion was ever queued.
pub proof fn lemma_success_requires_directory(events: Seq<CallOutcome>)
    requires
        modern_run(events) == Ok::<ModernState, Error>(ModernState::Complete),
    ensures
        events.len() >= 10,
        hr_of(events[4]) == 0,
        forall|j: int|
            0 <= j < 10 ==> (state_at(j) matches ModernState::Pending(step) && spec_advance(
                step,
                #[trigger] events[j],
            ) == Ok::<ModernState, Error>(state_at(j + 1))),
{
    let start = ModernState::Pending(ModernStep::Initialize);
    lemma_run_bound(start, events);
    assert forall|j: int| 0 <= j < 10 implies (state_at(j) matches ModernState::Pending(step)
        && spec_advance(step, #[trigger] events[j]) == Ok::<ModernState, Error>(
        state_at(j + 1),
    )) by {
        lemma_run_steps(start, events, j);
    }
    assert(spec_advance(ModernStep::QueryAttributes, events[4]) is Ok);
}

/// A session whose attribute query does not report the all-match status
/// fails with the invalid-target error — the deletion is never queued, so
/// a plain file or a non-filesystem item is left untouched.
pub proof fn lemma_non_directory_rejected(events: Seq<CallOutcome>)
    requires
        events.len() >= 5,
        forall|j: int|
            0 <= j < 4 ==> (state_at(j) matches ModernState::Pending(step) && spec_advance(
                step,
                #[trigger] events[j],
            ) is Ok),
        hr_of(events[4]) != 0,
    ensures
        modern_run(events) == Err::<ModernState, Error>(Error::NotDirectory),
        crate::error::spec_kind(Error::NotDirectory) == Some(crate::error::ErrorKind::InvalidData),
{
    reveal_with_fuel(run_from, 7);
    assert(spec_advance(ModernStep::Initialize, events[0]) == Ok::<ModernState, Error>(
        state_at(1),
    )) by {
        lemma_advance_ok_steps_once(ModernStep::Initialize, events[0]);
    }
    assert(spec_advance(ModernStep::CreateBindCtx, events[1]) == Ok::<ModernState, Error>(
        state_at(2),
    )) by {
        lemma_advance_ok_steps_once(ModernStep::CreateBindCtx, events[1]);
    }
    assert(spec_advance(ModernStep::RegisterParam, events[2]) == Ok::<ModernState, Error>(
        state_at(3),
    )) by {
        lemma_advance_ok_steps_once(ModernStep::RegisterParam, events[2]);
    }
    assert(spec_advance(ModernStep::CreateItem, events[3]) == Ok::<ModernState, Error>(
        state_at(4),
    )) by {
        lemma_advance_ok_steps_once(ModernStep::CreateItem, events[3]);
    }
    assert(events.drop_first()[0] == events[1]);
    assert(events.drop_first().drop_first()[0] == events[2]);
    assert(events.drop_first().drop_first().drop_first()[0] == events[3]);
    assert(events.drop_first().drop_first().drop_first().drop_first()[0] == events[4]);
}

/// From position `i` on, outcomes that every remaining step accepts drive
/// the session to completion.
proof fn lemma_all_ok_runs_to_completion(i: int, events: Seq<CallOutcome>)
    requires
        0 <= i <= 10,
        events.len() == 10 - i,
        forall|j: int|
            i <= j < 10 ==> (state_at(j) matches ModernState::Pending(step) && spec_advance(
                step,
                #[trigger] events[j - i],
            ) is Ok),
    ensures
        run_from(state_at(i), events) == Ok::<ModernState, Error>(ModernState::Complete),
    decreases 10 - i,
{
    if i < 10 {
        assert(state_at(i) matches ModernState::Pending(s) && spec_advance(s, events[i - i]) is Ok);
        let step = state_at(i)->Pending_0;
        assert(spec_advance(step, events[0]) is Ok);
        lemma_advance_ok_steps_once(step, events[0]);
        assert(state_index(ModernState::Pending(step)) == i);
        assert(spec_advance(step, events[0]) == Ok::<ModernState, Error>(state_at(i + 1)));
        assert forall|j: int| i + 1 <= j < 10 implies (state_at(j) matches ModernState::Pending(
            s,
        ) && spec_advance(s, #[trigger] events.drop_first()[j - (i + 1)]) is Ok) by {
            assert(events.drop_first()[j - (i + 1)] == events[j - i]);
        }
        lemma_all_ok_runs_to_completion(i + 1, events.drop_first());
        assert(run_from(state_at(i), events) == run_from(state_at(i + 1), events.drop_first()));
    }
}

/// Success is owed: a session whose ten outcomes are each accepted by
/// their step — good statuses, objects delivered, a directory target, no
/// aborted flag — completes, and the public operation reports success.
pub proof fn lemma_clean_session_completes(events: Seq<CallOutcome>)
    requires
        events.len() == 10,
        forall|j: int|
            0 <= j < 10 ==> (state_at(j) matches ModernState::Pending(step) && spec_advance(
                step,
                #[trigger] events[j],
            ) is Ok),
    ensures
        modern_run(events) == Ok::<ModernState, Error>(ModernState::Complete),
{
    lemma_all_ok_runs_to_completion(0, events);
}

/// The process-wide record of whether the modern mechanism is available:
/// unknown until the first probe, then written once and never changed.
#[derive(Clone, Copy, Debug, PartialEq, Eq, Structural)]
pub enum Capability {
    /// No probe has run yet.
    Unknown,
    /// The probe found the modern conversion entry point.
    Supported,
    /// The probe found no entry point; only the legacy engine can run.
    Unsupported,
}

/// What the discovery probe concludes: the modern mechanism is available
/// exactly when the shell component could be located and the path-to-item
/// conversion entry point was found in it. A missing component is merely
/// "not found", never a failure of its own.
pub fn interpret_probe(module_found: bool, symbol_found: bool) -> (supported: bool)
    ensures
        supported == (module_found && symbol_found),
{
    module_found && symbol_found
}

/// The capability record after a probe outcome arrives: an unknown record
/// takes the outcome, a settled record keeps its value — the cache is
/// written once and only read afterwards.
pub open spec fn spec_record_probe(current: Capability, supported: bool) -> Capability {
    if current is Unknown {
        if supported {
            Capability::Supported
        } else {
            Capability::Unsupported
        }
    } else {
        current
    }
}

/// Folds a probe outcome into the capability record; see
/// [`spec_record_probe`] for the write-once rule it follows.
pub fn record_probe(current: Capability, supported: bool) -> (c: Capability)
    ensures
        c == spec_record_probe(current, supported),
        !(c is Unknown),
{
    match current {
        Capability::Unknown => if supported {
            Capability::Supported
        } else {
            Capability::Unsupported
        },
        _ => current,
    }
}

/// Once the first probe has settled the capability record, later probes —
/// however many, and whatever they report — leave it unchanged, so every
/// caller observes the one outcome of the first probe.
pub proof fn lemma_probe_cached_once(first: bool, later: bool)
    ensures
        spec_record_probe(spec_record_probe(Capability::Unknown, first), later)
            == spec_record_probe(Capability::Unknown, first),
{
}

/// The minimal identity object handed to the binding context as its
/// boolean folder-preference parameter. It exists only to satisfy the
/// platform's reference-counted-parameter convention, so it implements
/// just the base protocol: identity lookup and a manual reference count.
pub struct IdentityObject {
    /// The object's manual reference count.
    pub ref_count: u32,
}

impl IdentityObject {
    /// Allocates the identity object with one outstanding reference, owned
    /// by the caller that registers it.
    pub fn allocate() -> (o: IdentityObject)
        ensures
            o.ref_count == 1,
    {
        IdentityObject { ref_count: 1 }
    }

    /// The identity-lookup rule: the object offers exactly its base
    /// identity. Asked for that, it reports the all-good status; asked for
    /// anything else, it reports the no-interface status.
    pub fn query_interface(&self, is_base_identity: bool) -> (hr: i32)
        ensures
            is_base_identity ==> hr == 0,
            // the platform's no-interface status, 0x80004002 as a signed value
            !is_base_identity ==> hr == -2147467262i32,
    {
        if is_base_identity {
            0
        } else {
            -2147467262
        }
    }

    /// Takes one more reference and reports the new count, as the base
    /// protocol asks.
    pub fn add_ref(&mut self) -> (n: u32)
        requires
            old(self).ref_count < 0xffff_ffffu32,
        ensures
            final(self).ref_count == old(self).ref_count + 1,
            n == final(self).ref_count,
    {
        self.ref_count = self.ref_count + 1;
        self.ref_count
    }

    /// Drops one reference and reports the new count; at zero the object
    /// is to be freed by its owner.
    pub fn release(&mut self) -> (r: (u32, bool))
        requires
            old(self).ref_count > 0,
        ensures
            final(self).ref_count == old(self).ref_count - 1,
            r.0 == final(self).ref_count,
            r.1 == (final(self).ref_count == 0),
    {
        self.ref_count = self.ref_count - 1;
        (self.ref_count, self.ref_count == 0)
    }
}

/// The first failing step settles the session: outcomes delivered after a
/// failure are never consulted and cannot change the reported error.
pub proof fn lemma_first_error_is_final(
    state: ModernState,
    events: Seq<CallOutcome>,
    more: Seq<CallOutcome>,
)
    requires
        run_from(state, events) is Err,
    ensures
        run_from(state, events + more) == run_from(state, events),
    decreases events.len(),
{
    if events.len() == 0 {
        assert(false);
    } else {
        match state {
            ModernState::Complete => {},
            ModernState::Pending(step) => {
                assert((events + more)[0] == events[0]);
                match spec_advance(step, events[0]) {
                    Ok(next) => {
                        assert(events.drop_first() + more =~= (events + more).drop_first());
                        lemma_first_error_is_final(next, events.drop_first(), more);
                    },
                    Err(..) => {},
                }
            },
        }
    }
}

} // verus!
