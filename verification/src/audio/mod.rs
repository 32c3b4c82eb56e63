//! The conversation: sound threads, buffers, the control worker and the
//! connection, started and stopped together.
use vstd::prelude::*;

pub mod audio;
pub mod cache;
pub mod controller;
pub mod samples;

verus! {

/// What a start of the conversation does.
#[derive(Clone, Copy, Debug, PartialEq, Eq, Structural)]
pub enum StartPlan {
    /// The conversation runs already: the start is refused and succeeds.
    AlreadyRunning,
    /// Connect to the server first, then launch; a failed connect fails the start.
    Connect,
    /// Launch the buffers, the sound threads and the control worker.
    Launch,
}

/// Whether the conversation is stopped.
#[allow(non_camel_case_types)]
pub struct AudioState_ {
    stopped: bool,
}

impl AudioState_ {
    /// A stopped conversation.
    pub fn new() -> (res: Self)
        ensures
            res.is_stopped(),
    {
        AudioState_ { stopped: true }
    }

    /// Whether the conversation is stopped.
    pub closed spec fn is_stopped(&self) -> bool {
        self.stopped
    }

    /// Whether the conversation is stopped.
    pub fn stopped(&self) -> (r: bool)
        ensures
            r == self.is_stopped(),
    {
        self.stopped
    }

    /// What a start does, given whether the connection is up.
    pub fn start(&self, ws_connected: bool) -> (plan: StartPlan)
        ensures
            !self.is_stopped() ==> plan == StartPlan::AlreadyRunning,
            self.is_stopped() && !ws_connected ==> plan == StartPlan::Connect,
            self.is_stopped() && ws_connected ==> plan == StartPlan::Launch,
    {
        if !self.stopped {
            StartPlan::AlreadyRunning
        } else if !ws_connected {
            StartPlan::Connect
        } else {
            StartPlan::Launch
        }
    }

    /// The connect of a start came back: on success the start goes on to
    /// launch, a failure ends the start with its message.
    pub fn connected(&self, result: Result<String, String>) -> (r: Result<StartPlan, String>)
        ensures
            result is Ok ==> r == Ok::<StartPlan, String>(StartPlan::Launch),
            result matches Err(e) ==> r matches Err(f) && f@ == e@,
    {
        match result {
            Ok(_) => Ok(StartPlan::Launch),
            Err(e) => Err(e),
        }
    }

    /// Everything is launched: the conversation runs.
    pub fn launched(&mut self)
        ensures
            !final(self).is_stopped(),
    {
        self.stopped = false;
    }

    /// Whether a stop has anything to shut down; stopping a stopped
    /// conversation is refused and succeeds.
    pub fn stop(&self) -> (shut_down: bool)
        ensures
            shut_down == !self.is_stopped(),
    {
        !self.stopped
    }

    /// The connection was closed at the end of a stop: on success the
    /// conversation is stopped; a failure is returned and the conversation
    /// counts as running.
    pub fn closed(&mut self, ws_close: Result<(), String>) -> (r: Result<(), String>)
        ensures
            ws_close is Ok ==> r is Ok && final(self).is_stopped(),
            ws_close matches Err(e) ==> r matches Err(f) && f@ == e@ && final(self).is_stopped()
                == old(self).is_stopped(),
    {
        match ws_close {
            Ok(()) => {
                self.stopped = true;
                Ok(())
            },
            Err(e) => Err(e),
        }
    }

    /// The server went away: the conversation is stopped.
    pub fn on_disconnect(&mut self)
        ensures
            final(self).is_stopped(),
    {
        self.stopped = true;
    }
}

} // verus!
