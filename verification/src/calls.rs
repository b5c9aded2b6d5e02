//! Whole calls, put together from their halves, and what holds of them.
//!
//! A caller that follows the steps performs a start as `begin_start`, then
//! the spawn if one was asked for, then `finish_start`; and a stop likewise.
//! The functions here say what such a call does to the held handle and what
//! it answers, given what the caller's attempt came to. The attempt's
//! outcome is looked at only where the first half asked for the attempt.

use vstd::prelude::*;
use crate::status::BackendStatus;
use crate::supervisor::{
    ReplyView, StartStepView, StopStep, held_after_spawn, kill_reply, spawn_reply, start_step,
    stop_step, START_FAILURE_PREFIX,
};

verus! {

/// One call, with what the caller's attempt would come to if it is made.
pub enum Call<H> {
    Start { spawned: Result<H, Seq<char>> },
    Stop { killed: Result<(), Seq<char>> },
    Status,
}

/// What is held after a start, and what the start answers.
pub open spec fn start_call<H>(held: Option<H>, spawned: Result<H, Seq<char>>) -> (
    Option<H>,
    ReplyView,
) {
    match start_step(held) {
        StartStepView::AlreadyRunning(status) => (held, Ok(status)),
        StartStepView::Spawn(_) => (held_after_spawn(held, spawned), spawn_reply(spawned)),
    }
}

/// What is held after a stop, and what the stop answers.
pub open spec fn stop_call<H>(held: Option<H>, killed: Result<(), Seq<char>>) -> (
    Option<H>,
    ReplyView,
) {
    match stop_step(held) {
        StopStep::NotRunning(status) => (None, Ok(status)),
        StopStep::Kill(_) => (None, kill_reply(killed)),
    }
}

/// What is held after a status query, and what the query answers.
pub open spec fn status_call<H>(held: Option<H>) -> (Option<H>, ReplyView) {
    (held, Ok(BackendStatus::of(held is Some)))
}

/// What is held after a call, and what the call answers.
pub open spec fn call<H>(held: Option<H>, c: Call<H>) -> (Option<H>, ReplyView) {
    match c {
        Call::Start { spawned } => start_call(held, spawned),
        Call::Stop { killed } => stop_call(held, killed),
        Call::Status => status_call(held),
    }
}

/// What is held after a run of calls on a supervisor that began with nothing.
pub open spec fn held_after<H>(calls: Seq<Call<H>>) -> Option<H>
    decreases calls.len(),
{
    if calls.len() == 0 {
        None
    } else {
        call(held_after(calls.drop_last()), calls.last()).0
    }
}

/// The call at `at` spawned a process with success and was given `handle`
/// for it: it is a start, nothing was held when it was made, and its spawn
/// came to `handle`.
pub open spec fn spawned_at<H>(calls: Seq<Call<H>>, at: int, handle: H) -> bool {
    &&& 0 <= at < calls.len()
    &&& calls[at] == Call::Start { spawned: Ok::<H, Seq<char>>(handle) }
    &&& held_after(calls.take(at)) is None
}

/// No stop has been made after the call at `at`.
pub open spec fn no_stop_since<H>(calls: Seq<Call<H>>, at: int) -> bool {
    forall|later: int| at < later < calls.len() ==> !(#[trigger] calls[later] is Stop)
}

/// Unless its spawn fails, a start answers the running status, with the
/// fixed port, and leaves a handle held. A second start right after it asks
/// for no spawn, leaves that handle as it is and answers the same, whatever
/// a second spawn would have come to.
pub proof fn start_twice_spawns_once<H>(
    held: Option<H>,
    first: Result<H, Seq<char>>,
    second: Result<H, Seq<char>>,
)
    requires
        held is None ==> first is Ok,
    ensures
        start_call(held, first).1 == Ok::<BackendStatus, Seq<char>>(
            BackendStatus { running: true, port: Some(8080u16) },
        ),
        start_call(held, first).0 is Some,
        start_step(start_call(held, first).0) is AlreadyRunning,
        start_call(start_call(held, first).0, second) == start_call(held, first),
{
}

/// A stop with nothing held asks for no kill, answers the stopped status
/// without a port, and leaves nothing held, whatever a kill would have come
/// to.
pub proof fn stop_without_process_is_answered<H>(killed: Result<(), Seq<char>>)
    ensures
        stop_step(None::<H>) == StopStep::<H>::NotRunning(
            BackendStatus { running: false, port: None },
        ),
        stop_call(None::<H>, killed) == (
            None::<H>,
            Ok::<BackendStatus, Seq<char>>(BackendStatus { running: false, port: None }),
        ),
{
}

/// Nothing is held after a stop, whether or not its kill succeeded, and a
/// second stop right after it is answered without an error.
pub proof fn stop_lets_go_of_handle<H>(
    held: Option<H>,
    first: Result<(), Seq<char>>,
    second: Result<(), Seq<char>>,
)
    ensures
        stop_call(held, first).0 is None,
        held is Some ==> stop_call(held, first).1 == kill_reply(first),
        stop_call(stop_call(held, first).0, second).1 == Ok::<BackendStatus, Seq<char>>(
            BackendStatus::of(false),
        ),
{
}

/// From nothing held, a start whose spawn succeeds, a status query, a stop
/// whose kill succeeds and another status query answer, in this order:
/// running, running, stopped, stopped. The handle held in between is the one
/// the spawn gave.
pub proof fn start_status_stop_status<H>(handle: H)
    ensures
        ({
            let running = Ok::<BackendStatus, Seq<char>>(
                BackendStatus { running: true, port: Some(8080u16) },
            );
            let stopped = Ok::<BackendStatus, Seq<char>>(
                BackendStatus { running: false, port: None },
            );
            let started = start_call(None::<H>, Ok(handle));
            let seen = status_call(started.0);
            let ended = stop_call(seen.0, Ok(()));
            let seen_again = status_call(ended.0);
            &&& started == (Some(handle), running)
            &&& seen == (Some(handle), running)
            &&& ended == (None::<H>, stopped)
            &&& seen_again == (None::<H>, stopped)
        }),
{
}

/// A start whose spawn fails, made with nothing held, answers an error that
/// carries the operating system's description and no status, and leaves
/// nothing held: the next start asks for a spawn again.
pub proof fn failed_spawn_leaves_nothing_held<H>(reason: Seq<char>)
    ensures
        start_call(None::<H>, Err(reason)) == (
            None::<H>,
            Err::<BackendStatus, Seq<char>>(START_FAILURE_PREFIX@ + reason),
        ),
        start_step(start_call(None::<H>, Err(reason)).0) is Spawn,
{
}

/// Whatever is held and whatever the call, a status that is answered ties
/// its port to its running flag: port 8080 if it says running, none if not.
pub proof fn answered_status_is_well_formed<H>(held: Option<H>, c: Call<H>)
    ensures
        call(held, c).1 matches Ok(status) ==> {
            &&& status.well_formed()
            &&& status.running ==> status.port == Some(8080u16)
            &&& !status.running ==> status.port == None::<u16>
        },
{
}

/// A status that is answered describes the supervisor as the call leaves it:
/// it says running exactly if a handle is held once the call is over.
pub proof fn answered_status_describes_held<H>(held: Option<H>, c: Call<H>)
    ensures
        call(held, c).1 matches Ok(status) ==> status == BackendStatus::of(
            call(held, c).0 is Some,
        ),
{
}

/// A status query leaves what is held as it is and never fails.
pub proof fn status_query_changes_nothing<H>(held: Option<H>)
    ensures
        status_call(held).0 == held,
        status_call(held).1 is Ok,
{
}

/// After any run of calls, `handle` is held exactly if some call of the run
/// spawned a process with success and was given `handle` for it, and no
/// stop has been made since.
pub proof fn held_iff_spawned_and_not_stopped<H>(calls: Seq<Call<H>>, handle: H)
    ensures
        held_after(calls) == Some(handle) <==> exists|at: int|
            #[trigger] spawned_at(calls, at, handle) && no_stop_since(calls, at),
    decreases calls.len(),
{
    if calls.len() == 0 {
    } else {
        let before = calls.drop_last();
        let last_at = calls.len() - 1;
        held_iff_spawned_and_not_stopped(before, handle);
        assert forall|at: int| 0 <= at < last_at implies before.take(at) == calls.take(at) by {
            assert(before.take(at) =~= calls.take(at));
        }
        assert(calls.take(last_at) =~= before);
        assert forall|at: int| 0 <= at < last_at implies (#[trigger] spawned_at(before, at, handle)
            <==> spawned_at(calls, at, handle)) by {
            assert(before.take(at) == calls.take(at));
            assert(before[at] == calls[at]);
        }
        assert forall|at: int| 0 <= at < last_at implies (#[trigger] no_stop_since(calls, at) <==> (
            no_stop_since(before, at) && !(calls.last() is Stop))) by {
            if no_stop_since(calls, at) {
                assert(!(calls[last_at] is Stop));
                assert forall|later: int| at < later < before.len() implies !(
                    #[trigger] before[later] is Stop) by {
                    assert(before[later] == calls[later]);
                }
            }
            if no_stop_since(before, at) && !(calls.last() is Stop) {
                assert forall|later: int| at < later < calls.len() implies !(
                    #[trigger] calls[later] is Stop) by {
                    if later < last_at {
                        assert(before[later] == calls[later]);
                    }
                }
            }
        }
        assert(no_stop_since(calls, last_at));
        if held_after(calls) == Some(handle) {
            if held_after(before) == Some(handle) {
                let at = choose|at: int|
                    #[trigger] spawned_at(before, at, handle) && no_stop_since(before, at);
                assert(!(calls.last() is Stop));
                assert(spawned_at(calls, at, handle) && no_stop_since(calls, at));
            } else {
                assert(spawned_at(calls, last_at, handle) && no_stop_since(calls, last_at));
            }
        }
        if exists|at: int| #[trigger] spawned_at(calls, at, handle) && no_stop_since(calls, at) {
            let at = choose|at: int|
                #[trigger] spawned_at(calls, at, handle) && no_stop_since(calls, at);
            if at < last_at {
                assert(spawned_at(before, at, handle) && no_stop_since(before, at));
                assert(held_after(before) == Some(handle));
            }
        }
    }
}

/// At no point of a run are there two processes that were spawned and have
/// not been handed out to be killed since: a spawn is asked for only once
/// the process spawned before it has been let go of.
pub proof fn at_most_one_process_not_stopped<H>(
    calls: Seq<Call<H>>,
    first: int,
    second: int,
    one: H,
    other: H,
)
    requires
        spawned_at(calls, first, one),
        no_stop_since(calls, first),
        spawned_at(calls, second, other),
        no_stop_since(calls, second),
    ensures
        first == second,
        one == other,
{
    if first < second {
        spawn_is_held_until_stopped(calls, first, second, one);
    } else if second < first {
        spawn_is_held_until_stopped(calls, second, first, other);
    }
}

/// The handle of a process spawned at `at` is still held before a later call
/// `until` if no stop has been made in between.
proof fn spawn_is_held_until_stopped<H>(calls: Seq<Call<H>>, at: int, until: int, handle: H)
    requires
        spawned_at(calls, at, handle),
        no_stop_since(calls, at),
        at < until <= calls.len(),
    ensures
        held_after(calls.take(until)) == Some(handle),
{
    let prefix = calls.take(until);
    assert(prefix.take(at) =~= calls.take(at));
    assert(prefix[at] == calls[at]);
    assert(spawned_at(prefix, at, handle));
    assert forall|later: int| at < later < prefix.len() implies !(
        #[trigger] prefix[later] is Stop) by {
        assert(prefix[later] == calls[later]);
    }
    assert(no_stop_since(prefix, at));
    held_iff_spawned_and_not_stopped(prefix, handle);
}

} // verus!
