//! A value that is acquired at most once, however many callers ask for it.
//!
//! A slot starts unresolved. The first request turns it to resolving and
//! tells the caller to acquire the value; every request that arrives while
//! the slot is resolving is told to wait. The acquiring caller reports the
//! outcome: a value is kept for good, a failure is kept until the next
//! request, which starts a new attempt.

use crate::error::AcquisitionError;
use vstd::prelude::*;

verus! {

/// Where a slot stands.
pub enum SlotState<T> {
    /// Nobody has asked yet.
    Unresolved,
    /// One caller is acquiring the value.
    Resolving,
    /// The value, kept for the rest of the slot's life.
    Resolved(T),
    /// The last attempt failed.
    Failed(AcquisitionError),
}

/// What a caller that asks for the value has to do.
#[derive(Clone, Copy, Debug, PartialEq, Eq, Structural)]
pub enum Decision {
    /// The value is there: read it.
    Ready,
    /// Acquire the value and report the outcome.
    Acquire,
    /// Another caller is acquiring the value: wait for its outcome.
    Wait,
}

/// A slot as contracts see it: its state and the attempts started so far.
pub struct SlotModel<T> {
    pub state: SlotState<T>,
    pub attempts: int,
}

/// One more attempt on the counter, which stops at the largest `u64`.
pub open spec fn one_more(attempts: int) -> int {
    if attempts < u64::MAX {
        attempts + 1
    } else {
        attempts
    }
}

/// A slot after one request, and the decision that the request gets.
pub open spec fn requested<T>(slot: SlotModel<T>) -> (SlotModel<T>, Decision) {
    match slot.state {
        SlotState::Resolved(_) => (slot, Decision::Ready),
        SlotState::Resolving => (slot, Decision::Wait),
        SlotState::Unresolved | SlotState::Failed(_) => (
            SlotModel { state: SlotState::Resolving, attempts: one_more(slot.attempts) },
            Decision::Acquire,
        ),
    }
}

/// A slot after the acquiring caller has reported `outcome`. A report to a
/// slot that is not resolving changes nothing.
pub open spec fn completed<T>(
    slot: SlotModel<T>,
    outcome: Result<T, AcquisitionError>,
) -> SlotModel<T> {
    match slot.state {
        SlotState::Resolving => match outcome {
            Ok(value) => SlotModel { state: SlotState::Resolved(value), ..slot },
            Err(error) => SlotModel { state: SlotState::Failed(error), ..slot },
        },
        _ => slot,
    }
}

/// A slot after `n` requests in a row.
pub open spec fn requested_times<T>(slot: SlotModel<T>, n: nat) -> SlotModel<T>
    decreases n,
{
    if n == 0 {
        slot
    } else {
        requested(requested_times(slot, (n - 1) as nat)).0
    }
}

/// The decision that the request after `n` earlier ones gets.
pub open spec fn decision_after<T>(slot: SlotModel<T>, n: nat) -> Decision {
    requested(requested_times(slot, n)).1
}

/// The memoized state of one tool.
pub struct Slot<T> {
    state: SlotState<T>,
    attempts: u64,
}

impl<T> View for Slot<T> {
    type V = SlotModel<T>;

    closed spec fn view(&self) -> SlotModel<T> {
        SlotModel { state: self.state, attempts: self.attempts as int }
    }
}

impl<T> Slot<T> {
    /// A slot that nobody has asked for yet.
    pub fn new() -> (slot: Self)
        ensures
            slot@ == (SlotModel::<T> { state: SlotState::Unresolved, attempts: 0 }),
    {
        Slot { state: SlotState::Unresolved, attempts: 0 }
    }

    /// Asks for the value on behalf of one caller.
    pub fn request(&mut self) -> (decision: Decision)
        ensures
            (final(self)@, decision) == requested(old(self)@),
    {
        match &self.state {
            SlotState::Resolved(_) => Decision::Ready,
            SlotState::Resolving => Decision::Wait,
            _ => {
                self.state = SlotState::Resolving;
                if self.attempts < u64::MAX {
                    self.attempts = self.attempts + 1;
                }
                Decision::Acquire
            },
        }
    }

    /// Takes the outcome of the attempt that `request` asked for. Returns
    /// whether the slot was resolving; if it was not, nothing changes.
    pub fn complete(&mut self, outcome: Result<T, AcquisitionError>) -> (accepted: bool)
        ensures
            final(self)@ == completed(old(self)@, outcome),
            accepted == (old(self)@.state is Resolving),
    {
        match &self.state {
            SlotState::Resolving => {
                match outcome {
                    Ok(value) => {
                        self.state = SlotState::Resolved(value);
                    },
                    Err(error) => {
                        self.state = SlotState::Failed(error);
                    },
                }
                true
            },
            _ => false,
        }
    }

    /// The value, once the slot is resolved.
    pub fn value(&self) -> (value: Option<&T>)
        ensures
            match self@.state {
                SlotState::Resolved(v) => value == Some(&v),
                _ => value is None,
            },
    {
        match &self.state {
            SlotState::Resolved(v) => Some(v),
            _ => None,
        }
    }

    /// The failure of the last attempt, until the next request.
    pub fn failure(&self) -> (error: Option<&AcquisitionError>)
        ensures
            match self@.state {
                SlotState::Failed(e) => error == Some(&e),
                _ => error is None,
            },
    {
        match &self.state {
            SlotState::Failed(e) => Some(e),
            _ => None,
        }
    }

    /// Whether one caller is acquiring the value right now.
    pub fn is_resolving(&self) -> (resolving: bool)
        ensures
            resolving == (self@.state is Resolving),
    {
        match &self.state {
            SlotState::Resolving => true,
            _ => false,
        }
    }

    /// The number of attempts started so far.
    pub fn attempts(&self) -> (n: u64)
        ensures
            n == self@.attempts,
    {
        self.attempts
    }
}

/// However many callers ask for an unresolved slot before the outcome is
/// reported, one attempt is started: the first caller is told to acquire,
/// every later one to wait, and the slot is resolving throughout.
pub proof fn law_single_attempt<T>(slot: SlotModel<T>, n: nat)
    requires
        slot.state is Unresolved || slot.state is Failed,
        0 <= slot.attempts < u64::MAX,
    ensures
        decision_after(slot, 0) == Decision::Acquire,
        n >= 1 ==> decision_after(slot, n) == Decision::Wait,
        n >= 1 ==> requested_times(slot, n) == (SlotModel::<T> {
            state: SlotState::Resolving,
            attempts: slot.attempts + 1,
        }),
    decreases n,
{
    if n >= 2 {
        law_single_attempt(slot, (n - 1) as nat);
    } else if n == 1 {
        assert(requested_times(slot, 0) == slot);
    }
}

/// All callers of one attempt get the one outcome: once a value is
/// reported, every request finds it ready, the slot stays as it is, and no
/// further attempt is started.
pub proof fn law_resolved_is_final<T>(slot: SlotModel<T>, value: T, n: nat)
    requires
        slot.state is Resolving,
    ensures
        requested_times(completed(slot, Ok(value)), n) == completed(slot, Ok(value)),
        decision_after(completed(slot, Ok(value)), n) == Decision::Ready,
        completed(slot, Ok(value)).state == SlotState::Resolved(value),
        completed(slot, Ok(value)).attempts == slot.attempts,
    decreases n,
{
    if n >= 1 {
        law_resolved_is_final(slot, value, (n - 1) as nat);
    }
}

/// A slot is resolved at most once: neither a request nor a late report
/// changes a slot that holds its value.
pub proof fn law_value_is_kept<T>(slot: SlotModel<T>, outcome: Result<T, AcquisitionError>)
    requires
        slot.state is Resolved,
    ensures
        requested(slot) == (slot, Decision::Ready),
        completed(slot, outcome) == slot,
{
}

/// A failure is not kept for good: the slot holds it for the callers of the
/// failed attempt, and the next request starts a new attempt.
pub proof fn law_failure_allows_retry<T>(slot: SlotModel<T>, error: AcquisitionError)
    requires
        slot.state is Resolving,
    ensures
        completed(slot, Err(error)).state == SlotState::<T>::Failed(error),
        requested(completed(slot, Err(error))).1 == Decision::Acquire,
        requested(completed(slot, Err(error))).0.state is Resolving,
{
}

} // verus!
