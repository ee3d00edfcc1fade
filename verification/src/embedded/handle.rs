//! Handles to running machines.
use vstd::prelude::*;
use vstd::string::*;

use crate::agent::{RunConfig, RunConfigView};
use crate::duration::Duration;
use crate::error::Error;

verus! {

/// Handle to a running VM process: its process id and whether a connection to its
/// agent is kept.
#[derive(Debug, Clone, Copy)]
pub struct VmHandle {
    pid: Option<i32>,
    connected: bool,
}

/// The mathematical value of a [`VmHandle`].
pub struct VmHandleView {
    /// Process id of the machine, if known.
    pub pid: Option<i32>,
    /// Whether a connection to the agent is kept.
    pub connected: bool,
}

impl View for VmHandle {
    type V = VmHandleView;

    closed spec fn view(&self) -> VmHandleView {
        VmHandleView { pid: self.pid, connected: self.connected }
    }
}

impl VmHandle {
    /// Construct a handle for a process, with or without a connection.
    pub fn new(pid: Option<i32>, connected: bool) -> (r: VmHandle)
        ensures
            r@ == (VmHandleView { pid, connected }),
    {
        VmHandle { pid, connected }
    }

    /// Get the child PID if known.
    pub fn child_pid(&self) -> (r: Option<i32>)
        ensures
            r == self@.pid,
    {
        self.pid
    }

    /// Whether a connection has to be made before a request: none is kept. Asking
    /// changes nothing.
    pub fn needs_connection(&self) -> (r: bool)
        ensures
            r == !self@.connected,
    {
        !self.connected
    }

    /// Take the outcome of a connection that was made for a request: it is kept only
    /// where it succeeded, so that a later request tries again.
    pub fn client_mut(&mut self, outcome: Result<(), Error>) -> (r: Result<(), Error>)
        ensures
            r == outcome,
            final(self)@ == (VmHandleView {
                connected: old(self)@.connected || outcome is Ok,
                ..old(self)@
            }),
    {
        if outcome.is_ok() {
            self.connected = true;
        }
        outcome
    }

    /// Pull an OCI image and run a command inside it: whether a connection has to be
    /// made first, and the request that follows the pull.
    pub fn run(
        &self,
        image: &str,
        command: Vec<String>,
        env: Vec<(String, String)>,
        workdir: Option<String>,
        timeout: Option<Duration>,
    ) -> (r: (bool, RunConfig))
        ensures
            r.0 == !self@.connected,
            r.1@ == (RunConfigView {
                image: image@,
                command: command.deep_view(),
                env: env.deep_view(),
                workdir: workdir.deep_view(),
                mounts: Seq::empty(),
                timeout,
                tty: false,
                persistent_overlay_id: None,
            }),
    {
        let connect = self.needs_connection();
        let config = RunConfig::new(image, command).with_env(env).with_workdir(
            workdir,
        ).with_timeout(timeout);
        (connect, config)
    }

    /// Drop the connection, as the machine is stopped.
    pub fn stop(&mut self)
        ensures
            final(self)@ == (VmHandleView { connected: false, ..old(self)@ }),
    {
        self.connected = false;
    }
}

} // verus!
