//! The supervisor: at most one handle to a backend process, and the steps by
//! which it is started, stopped and inspected.
//!
//! A start and a stop each fall into two halves around the one thing the
//! caller has to do. `begin_start` says whether a process has to be spawned;
//! `finish_start` takes what the spawn came to. `begin_stop` hands out the
//! handle to kill; `finish_stop` takes what the kill came to. Each half that
//! changes the supervisor takes it by `&mut`, so that whoever shares a
//! supervisor between callers has to put it behind a lock, and has to hold
//! that lock from the first half of a call to the second.

use vstd::prelude::*;
use crate::status::BackendStatus;
use crate::launch::{BackendCommand, BackendCommandView, backend_command, backend_command_view};

verus! {

/// What precedes the operating system's description when a spawn fails.
pub const START_FAILURE_PREFIX: &'static str = "Failed to start backend: ";

/// What precedes the operating system's description when a kill fails.
pub const STOP_FAILURE_PREFIX: &'static str = "Failed to stop backend: ";

/// What a call answers: a status, or a description of what went wrong.
pub type Reply = Result<BackendStatus, String>;

/// A `Reply` with its text as a sequence of characters.
pub type ReplyView = Result<BackendStatus, Seq<char>>;

/// The view of a reply.
pub open spec fn reply_view(reply: Reply) -> ReplyView {
    match reply {
        Ok(status) => Ok(status),
        Err(text) => Err(text@),
    }
}

/// What an attempt of the caller came to, with the operating system's
/// description of a failure as a sequence of characters.
pub open spec fn outcome_view<T>(outcome: Result<T, String>) -> Result<T, Seq<char>> {
    match outcome {
        Ok(value) => Ok(value),
        Err(reason) => Err(reason@),
    }
}

/// The supervisor's state: the handle of the backend process, if one is held.
/// `H` is whatever the caller uses to signal the process it spawned.
pub struct BackendState<H> {
    process: Option<H>,
}

/// What `begin_start` asks of the caller.
#[derive(Debug)]
pub enum StartStep {
    /// A handle is held: nothing is to be spawned, and this is the answer.
    AlreadyRunning(BackendStatus),
    /// No handle is held: spawn this command and report with `finish_start`.
    Spawn(BackendCommand),
}

/// A `StartStep` with its command as plain sequences.
pub enum StartStepView {
    AlreadyRunning(BackendStatus),
    Spawn(BackendCommandView),
}

impl View for StartStep {
    type V = StartStepView;

    open spec fn view(&self) -> StartStepView {
        match self {
            StartStep::AlreadyRunning(status) => StartStepView::AlreadyRunning(*status),
            StartStep::Spawn(command) => StartStepView::Spawn(command@),
        }
    }
}

/// What `begin_stop` asks of the caller.
#[derive(Debug)]
pub enum StopStep<H> {
    /// No handle was held: nothing is to be killed, and this is the answer.
    NotRunning(BackendStatus),
    /// This handle was held and is held no longer: kill its process and
    /// report with `finish_stop`.
    Kill(H),
}

/// The first half of a start, as a function of what is held.
pub open spec fn start_step<H>(held: Option<H>) -> StartStepView {
    match held {
        Some(_) => StartStepView::AlreadyRunning(BackendStatus::of(true)),
        None => StartStepView::Spawn(backend_command_view()),
    }
}

/// What is held once a spawn has been reported: the new handle if there is
/// one, else what was held before.
pub open spec fn held_after_spawn<H>(held: Option<H>, spawned: Result<H, Seq<char>>) -> Option<H> {
    match spawned {
        Ok(handle) => Some(handle),
        Err(_) => held,
    }
}

/// The answer to a start whose spawn has been reported.
pub open spec fn spawn_reply<H>(spawned: Result<H, Seq<char>>) -> ReplyView {
    match spawned {
        Ok(_) => Ok(BackendStatus::of(true)),
        Err(reason) => Err(START_FAILURE_PREFIX@ + reason),
    }
}

/// The first half of a stop, as a function of what is held.
pub open spec fn stop_step<H>(held: Option<H>) -> StopStep<H> {
    match held {
        Some(handle) => StopStep::Kill(handle),
        None => StopStep::NotRunning(BackendStatus::of(false)),
    }
}

/// The answer to a stop whose kill has been reported.
pub open spec fn kill_reply(killed: Result<(), Seq<char>>) -> ReplyView {
    match killed {
        Ok(_) => Ok(BackendStatus::of(false)),
        Err(reason) => Err(STOP_FAILURE_PREFIX@ + reason),
    }
}

impl<H> View for BackendState<H> {
    type V = Option<H>;

    closed spec fn view(&self) -> Option<H> {
        self.process
    }
}

impl<H> BackendState<H> {
    /// Whether a handle is held.
    pub open spec fn running(&self) -> bool {
        self@ is Some
    }

    /// A supervisor that holds no handle.
    pub fn new() -> (state: Self)
        ensures
            state@ == None::<H>,
    {
        BackendState { process: None }
    }

    /// Whether a handle is held.
    pub fn is_running(&self) -> (running: bool)
        ensures
            running == self.running(),
    {
        self.process.is_some()
    }

    /// The status as it follows from what is held. Never fails.
    pub fn status(&self) -> (status: BackendStatus)
        ensures
            status == BackendStatus::of(self.running()),
    {
        if self.process.is_some() {
            BackendStatus::started()
        } else {
            BackendStatus::stopped()
        }
    }

    /// First half of a start. With a handle held the call is already
    /// answered and nothing may be spawned; with none the caller is given the
    /// command to spawn. The supervisor is left as it is.
    pub fn begin_start(&self) -> (step: StartStep)
        ensures
            step@ == start_step(self@),
    {
        if self.process.is_some() {
            StartStep::AlreadyRunning(BackendStatus::started())
        } else {
            StartStep::Spawn(backend_command())
        }
    }

    /// Second half of a start: `spawned` is the handle of the process the
    /// caller spawned, or the operating system's description of why it could
    /// not. A handle is recorded and the running status answered. A failure
    /// leaves the supervisor as it was and is answered with the description
    /// behind `START_FAILURE_PREFIX`.
    pub fn finish_start(&mut self, spawned: Result<H, String>) -> (reply: Reply)
        ensures
            final(self)@ == held_after_spawn(old(self)@, outcome_view(spawned)),
            reply_view(reply) == spawn_reply(outcome_view(spawned)),
    {
        match spawned {
            Ok(handle) => {
                self.process = Some(handle);
                Ok(BackendStatus::started())
            },
            Err(reason) => {
                Err(String::from_str(START_FAILURE_PREFIX).concat(reason.as_str()))
            },
        }
    }

    /// First half of a stop. A held handle is taken out of the supervisor
    /// before anything is done to its process, so that nobody else can see
    /// or use it while the kill is under way; the caller is to kill it. With
    /// none held the call is already answered.
    pub fn begin_stop(&mut self) -> (step: StopStep<H>)
        ensures
            final(self)@ == None::<H>,
            step == stop_step(old(self)@),
    {
        match self.process.take() {
            Some(handle) => StopStep::Kill(handle),
            None => StopStep::NotRunning(BackendStatus::stopped()),
        }
    }
}

/// Second half of a stop: `killed` tells whether the process behind the
/// handle that `begin_stop` gave out was killed, or carries the operating
/// system's description of why not. The supervisor has let go of the handle
/// either way, so a failed kill is reported and not tried again.
pub fn finish_stop(killed: Result<(), String>) -> (reply: Reply)
    ensures
        reply_view(reply) == kill_reply(outcome_view(killed)),
{
    match killed {
        Ok(_) => Ok(BackendStatus::stopped()),
        Err(reason) => Err(String::from_str(STOP_FAILURE_PREFIX).concat(reason.as_str())),
    }
}

impl<H> Default for BackendState<H> {
    fn default() -> (state: Self)
        ensures
            state@ == None::<H>,
    {
        BackendState::new()
    }
}

} // verus!
