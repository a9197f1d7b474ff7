//! Coordination of timeouts with completions: whichever comes first is seen by the other.

use std::collections::HashMap;

use vstd::prelude::*;

verus! {

/// What is known of a callback whose timeout and completion have not both arrived.
#[derive(Clone, Copy, Debug, PartialEq, Eq, Structural)]
pub enum CallbackCoordinationState {
    /// The command timed out and its completion is still to come.
    TimedOut,
    /// The command was completed as timed out and the timeout mark is still to come.
    CompletedAwaitingMark,
}

/// What a completion does about a timeout.
#[derive(Clone, Copy, Debug, PartialEq, Eq, Structural)]
pub enum CallbackCoordinationFinish {
    /// Nothing: a timeout has no say any more.
    Skip,
    /// Takes a timeout that was marked.
    CheckForTimeout,
    /// Takes a timeout that was marked, or waits for its mark.
    AwaitTimeoutMark,
}

/// The states of callbacks, by callback id.
pub type CoordinationMap = Map<i64, CallbackCoordinationState>;

/// Whether a timeout of the callback is marked.
pub open spec fn marked(states: CoordinationMap, callback_id: i64) -> bool {
    states.contains_key(callback_id) && states[callback_id] == CallbackCoordinationState::TimedOut
}

/// Whether a mark takes hold: it answers a completion that waits for it, repeats an earlier mark,
/// or meets a command that is in flight.
pub open spec fn mark_accepted(states: CoordinationMap, callback_id: i64, in_flight: bool) -> bool {
    states.contains_key(callback_id) || in_flight
}

/// The states after a mark.
pub open spec fn after_mark(
    states: CoordinationMap,
    callback_id: i64,
    in_flight: bool,
) -> CoordinationMap {
    if states.contains_key(callback_id) {
        match states[callback_id] {
            CallbackCoordinationState::CompletedAwaitingMark => states.remove(callback_id),
            CallbackCoordinationState::TimedOut => states,
        }
    } else if in_flight {
        states.insert(callback_id, CallbackCoordinationState::TimedOut)
    } else {
        states
    }
}

/// The states after a marked timeout was taken; as before where none was marked.
pub open spec fn after_take(states: CoordinationMap, callback_id: i64) -> CoordinationMap {
    if marked(states, callback_id) {
        states.remove(callback_id)
    } else {
        states
    }
}

/// Whether a completion finds its command timed out.
pub open spec fn finish_timed_out(
    states: CoordinationMap,
    callback_id: i64,
    coordination: CallbackCoordinationFinish,
) -> bool {
    coordination != CallbackCoordinationFinish::Skip && marked(states, callback_id)
}

/// The states after a completion.
pub open spec fn after_finish(
    states: CoordinationMap,
    callback_id: i64,
    coordination: CallbackCoordinationFinish,
) -> CoordinationMap {
    match coordination {
        CallbackCoordinationFinish::Skip => states,
        CallbackCoordinationFinish::CheckForTimeout => after_take(states, callback_id),
        CallbackCoordinationFinish::AwaitTimeoutMark => if marked(states, callback_id) {
            states.remove(callback_id)
        } else {
            states.insert(callback_id, CallbackCoordinationState::CompletedAwaitingMark)
        },
    }
}

/// The callbacks whose timeout and completion have not both arrived.
pub struct CallbackCoordinationRegistry {
    states: HashMap<i64, CallbackCoordinationState>,
}

impl View for CallbackCoordinationRegistry {
    type V = CoordinationMap;

    closed spec fn view(&self) -> CoordinationMap {
        self.states@
    }
}

impl Default for CallbackCoordinationRegistry {
    fn default() -> (registry: CallbackCoordinationRegistry)
        ensures
            registry@ == CoordinationMap::empty(),
    {
        CallbackCoordinationRegistry { states: HashMap::new() }
    }
}

impl CallbackCoordinationRegistry {
    /// Marks a callback as timed out. Whether the mark took hold is returned. Where nothing is
    /// known of the callback, `has_in_flight_command` tells whether its command is in flight; it
    /// is asked only then.
    pub fn mark_timed_out(
        &mut self,
        callback_id: i64,
        has_in_flight_command: impl FnOnce() -> bool,
    ) -> (accepted: bool)
        requires
            !old(self)@.contains_key(callback_id) ==> call_requires(has_in_flight_command, ()),
        ensures
            old(self)@.contains_key(callback_id) ==> accepted,
            !old(self)@.contains_key(callback_id) ==> call_ensures(
                has_in_flight_command,
                (),
                accepted,
            ),
            accepted == mark_accepted(old(self)@, callback_id, accepted),
            final(self)@ == after_mark(old(self)@, callback_id, accepted),
    {
        broadcast use vstd::std_specs::hash::group_hash_axioms;

        match self.states.remove(&callback_id) {
            Some(CallbackCoordinationState::CompletedAwaitingMark) => true,
            Some(CallbackCoordinationState::TimedOut) => {
                self.states.insert(callback_id, CallbackCoordinationState::TimedOut);
                assert(self@ =~= old(self)@);
                true
            },
            None => {
                assert(self@ =~= old(self)@);
                if has_in_flight_command() {
                    self.states.insert(callback_id, CallbackCoordinationState::TimedOut);
                    true
                } else {
                    false
                }
            },
        }
    }

    /// Takes a marked timeout. Whether one was marked is returned.
    pub fn take_timed_out(&mut self, callback_id: i64) -> (timed_out: bool)
        ensures
            timed_out == marked(old(self)@, callback_id),
            final(self)@ == after_take(old(self)@, callback_id),
    {
        broadcast use vstd::std_specs::hash::group_hash_axioms;

        let timed_out = match self.states.get(&callback_id) {
            Some(CallbackCoordinationState::TimedOut) => true,
            _ => false,
        };
        if timed_out {
            self.states.remove(&callback_id);
        }
        timed_out
    }

    /// Completes a callback. Whether its command had timed out is returned. The command is
    /// released by `finish_in_flight_command` before any later mark can be made, so that no such
    /// mark is left behind.
    pub fn finish(
        &mut self,
        callback_id: i64,
        coordination: CallbackCoordinationFinish,
        finish_in_flight_command: impl FnOnce(),
    ) -> (timed_out: bool)
        requires
            call_requires(finish_in_flight_command, ()),
        ensures
            call_ensures(finish_in_flight_command, (), ()),
            timed_out == finish_timed_out(old(self)@, callback_id, coordination),
            final(self)@ == after_finish(old(self)@, callback_id, coordination),
    {
        broadcast use vstd::std_specs::hash::group_hash_axioms;

        let timed_out = match coordination {
            CallbackCoordinationFinish::Skip => false,
            CallbackCoordinationFinish::CheckForTimeout => self.take_timed_out(callback_id),
            CallbackCoordinationFinish::AwaitTimeoutMark => {
                if self.take_timed_out(callback_id) {
                    true
                } else {
                    self.states.insert(
                        callback_id,
                        CallbackCoordinationState::CompletedAwaitingMark,
                    );
                    false
                }
            },
        };
        finish_in_flight_command();
        timed_out
    }

    /// How many callbacks wait for their timeout or for their completion.
    pub fn len(&self) -> (count: usize)
        ensures
            count == self@.len(),
    {
        broadcast use vstd::std_specs::hash::group_hash_axioms;

        self.states.len()
    }
}

/// The mark first, then the completion: the completion sees the timeout, and nothing stays behind.
pub proof fn law_mark_then_finish(
    states: CoordinationMap,
    callback_id: i64,
    coordination: CallbackCoordinationFinish,
)
    requires
        !states.contains_key(callback_id),
        coordination != CallbackCoordinationFinish::Skip,
    ensures
        mark_accepted(states, callback_id, true),
        finish_timed_out(after_mark(states, callback_id, true), callback_id, coordination),
        after_finish(after_mark(states, callback_id, true), callback_id, coordination) == states,
{
    assert(after_finish(after_mark(states, callback_id, true), callback_id, coordination)
        =~= states);
}

/// A completion as timed out first, then the mark: the mark is accepted though the command is no
/// longer in flight, and nothing stays behind.
pub proof fn law_finish_then_mark(states: CoordinationMap, callback_id: i64, in_flight: bool)
    requires
        !states.contains_key(callback_id),
    ensures
        ({
            let waiting = after_finish(
                states,
                callback_id,
                CallbackCoordinationFinish::AwaitTimeoutMark,
            );
            &&& !finish_timed_out(
                states,
                callback_id,
                CallbackCoordinationFinish::AwaitTimeoutMark,
            )
            &&& mark_accepted(waiting, callback_id, in_flight)
            &&& after_mark(waiting, callback_id, in_flight) == states
        }),
{
    let waiting = after_finish(states, callback_id, CallbackCoordinationFinish::AwaitTimeoutMark);
    assert(after_mark(waiting, callback_id, in_flight) =~= states);
}

/// A mark that comes after a completion released the command is refused and leaves nothing behind.
pub proof fn law_late_mark_is_refused(
    states: CoordinationMap,
    callback_id: i64,
    coordination: CallbackCoordinationFinish,
)
    requires
        !states.contains_key(callback_id),
        coordination != CallbackCoordinationFinish::AwaitTimeoutMark,
    ensures
        !mark_accepted(after_finish(states, callback_id, coordination), callback_id, false),
        after_mark(after_finish(states, callback_id, coordination), callback_id, false) == states,
{
}

/// A marked timeout is taken once.
pub proof fn law_timeout_is_taken_once(states: CoordinationMap, callback_id: i64)
    ensures
        !marked(after_take(states, callback_id), callback_id),
        after_take(after_take(states, callback_id), callback_id) == after_take(states, callback_id),
{
}

/// A callback id that was used before is not poisoned: after a completion that looked for a
/// timeout, no timeout is marked for it.
pub proof fn law_reused_id_is_not_poisoned(
    states: CoordinationMap,
    callback_id: i64,
    coordination: CallbackCoordinationFinish,
)
    requires
        coordination != CallbackCoordinationFinish::Skip,
    ensures
        !marked(after_finish(states, callback_id, coordination), callback_id),
{
}

/// What happens to one callback does not touch another.
pub proof fn law_callbacks_are_independent(
    states: CoordinationMap,
    callback_id: i64,
    other: i64,
    in_flight: bool,
    coordination: CallbackCoordinationFinish,
)
    requires
        callback_id != other,
    ensures
        after_mark(states, callback_id, in_flight).contains_key(other) == states.contains_key(other),
        after_take(states, callback_id).contains_key(other) == states.contains_key(other),
        after_finish(states, callback_id, coordination).contains_key(other)
            == states.contains_key(other),
        states.contains_key(other) ==> {
            &&& after_mark(states, callback_id, in_flight)[other] == states[other]
            &&& after_take(states, callback_id)[other] == states[other]
            &&& after_finish(states, callback_id, coordination)[other] == states[other]
        },
{
}

/// What a mark does, by what is known of the callback. Where nothing is known, it takes hold exactly
/// where the command is in flight; a repeated mark is accepted and changes nothing; one that a
/// completion waits for is accepted and used up.
pub proof fn law_mark_by_state(states: CoordinationMap, callback_id: i64, in_flight: bool)
    ensures
        !states.contains_key(callback_id) ==> {
            &&& mark_accepted(states, callback_id, in_flight) == in_flight
            &&& in_flight ==> after_mark(states, callback_id, in_flight) == states.insert(
                callback_id,
                CallbackCoordinationState::TimedOut,
            )
            &&& !in_flight ==> after_mark(states, callback_id, in_flight) == states
        },
        states.contains_key(callback_id) && states[callback_id]
            == CallbackCoordinationState::TimedOut ==> {
            &&& mark_accepted(states, callback_id, in_flight)
            &&& after_mark(states, callback_id, in_flight) == states
        },
        states.contains_key(callback_id) && states[callback_id]
            == CallbackCoordinationState::CompletedAwaitingMark ==> {
            &&& mark_accepted(states, callback_id, in_flight)
            &&& after_mark(states, callback_id, in_flight) == states.remove(callback_id)
        },
{
}

/// What a look for a timeout does, by what is known of the callback: only one that was marked is
/// found, and it is used up.
pub proof fn law_take_by_state(states: CoordinationMap, callback_id: i64)
    ensures
        marked(states, callback_id) <==> states.contains_pair(
            callback_id,
            CallbackCoordinationState::TimedOut,
        ),
        states.contains_pair(callback_id, CallbackCoordinationState::TimedOut) ==> after_take(
            states,
            callback_id,
        ) == states.remove(callback_id),
        !states.contains_pair(callback_id, CallbackCoordinationState::TimedOut) ==> after_take(
            states,
            callback_id,
        ) == states,
{
}

/// What a completion does, by what is known of the callback. One that skips timeouts sees none and
/// changes nothing. The others see one that was marked and use it up; where none was, the one that
/// waits for a mark notes so, and the one that only looks changes nothing.
pub proof fn law_finish_by_state(states: CoordinationMap, callback_id: i64)
    ensures
        ({
            let skip = CallbackCoordinationFinish::Skip;
            let check = CallbackCoordinationFinish::CheckForTimeout;
            let wait = CallbackCoordinationFinish::AwaitTimeoutMark;
            let timed_out = states.contains_pair(callback_id, CallbackCoordinationState::TimedOut);
            &&& !finish_timed_out(states, callback_id, skip)
            &&& after_finish(states, callback_id, skip) == states
            &&& finish_timed_out(states, callback_id, check) == timed_out
            &&& finish_timed_out(states, callback_id, wait) == timed_out
            &&& timed_out ==> {
                &&& after_finish(states, callback_id, check) == states.remove(callback_id)
                &&& after_finish(states, callback_id, wait) == states.remove(callback_id)
            }
            &&& !timed_out ==> {
                &&& after_finish(states, callback_id, check) == states
                &&& after_finish(states, callback_id, wait) == states.insert(
                    callback_id,
                    CallbackCoordinationState::CompletedAwaitingMark,
                )
            }
        }),
{
}

} // verus!
