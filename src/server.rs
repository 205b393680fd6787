use vstd::prelude::*;

verus! {

/// Seconds between the stop and the start of a restart.
pub const RESTART_DELAY_SECS: u64 = 2;

/// Seconds between a build and the deployment that follows it.
pub const DEPLOY_DELAY_SECS: u64 = 1;

/// The outcome of one lifecycle, build or deploy operation, as the host shows it.
#[derive(Debug, Clone, PartialEq, Eq)]
pub enum Status {
    /// A start was asked for while a process is held; nothing was done.
    AlreadyRunning,
    /// The directory given does not exist; nothing was launched.
    PathNotFound,
    /// The server process was spawned and is now held.
    Started,
    /// The operating system refused to spawn the server; the error text.
    ProcessSpawnFailed(String),
    /// The held process was killed and released.
    Stopped,
    /// The build tool ran and exited with success.
    BuildSucceeded,
    /// The build tool exited with failure; what it wrote on standard error.
    BuildFailed(String),
    /// The build tool could not be launched; the error text.
    LaunchToolMissing(String),
    /// The artifact was copied; the destination path.
    Deployed(String),
    /// The artifact could not be copied; the error text.
    CopyFailed(String),
}

/// What the host does next for a start or a build.
#[derive(Debug, Clone, PartialEq, Eq)]
pub enum Step {
    /// Launch nothing and show this status.
    Report(Status),
    /// Launch the external command.
    Launch,
}

/// One call on the lifecycle, as far as it decides whether a process is held:
/// a start with whether its directory existed and whether its spawn succeeded,
/// or a stop.
pub enum Call {
    Start { path_exists: bool, spawn_ok: bool },
    Stop,
}

/// Whether a process is held after `c`, when `running` told it before.
pub open spec fn after_call(running: bool, c: Call) -> bool {
    match c {
        Call::Start { path_exists, spawn_ok } => running || (path_exists && spawn_ok),
        Call::Stop => false,
    }
}

/// Whether a process is held after `calls`, made in order on a new manager.
pub open spec fn running_after(calls: Seq<Call>) -> bool
    decreases calls.len(),
{
    if calls.len() == 0 {
        false
    } else {
        after_call(running_after(calls.drop_last()), calls.last())
    }
}

/// Whether `c` is a start whose directory existed and whose spawn succeeded.
pub open spec fn start_succeeds(c: Call) -> bool {
    match c {
        Call::Start { path_exists, spawn_ok } => path_exists && spawn_ok,
        Call::Stop => false,
    }
}

/// What a start decides before it launches anything.
pub open spec fn start_step(running: bool, path_exists: bool) -> Step {
    if running {
        Step::Report(Status::AlreadyRunning)
    } else if !path_exists {
        Step::Report(Status::PathNotFound)
    } else {
        Step::Launch
    }
}

/// What a build decides before it launches anything.
pub open spec fn build_step(path_exists: bool) -> Step {
    if path_exists {
        Step::Launch
    } else {
        Step::Report(Status::PathNotFound)
    }
}

/// Where the build leaves the plugin artifact, under the project directory.
pub open spec fn artifact_source(project_dir: Seq<char>) -> Seq<char> {
    project_dir + "/target/PvPKits-1.0.0.jar"@
}

/// Where the artifact is deployed, under the server directory.
pub open spec fn artifact_destination(server_dir: Seq<char>) -> Seq<char> {
    server_dir + "/plugins/PvPKits-1.0.0.jar"@
}

/// After any sequence of starts and stops on a new manager, a process is held
/// exactly when the last call was a start whose directory existed and whose
/// spawn succeeded. Left out is a last call that is a failing start made
/// while a process was already held: such a start does nothing, and the
/// process stays held.
pub proof fn lemma_running_follows_last_call(calls: Seq<Call>)
    requires
        !(calls.len() > 0 && calls.last() is Start && !start_succeeds(calls.last())
            && running_after(calls.drop_last())),
    ensures
        running_after(calls) == (calls.len() > 0 && start_succeeds(calls.last())),
{
}

/// After any sequence of starts and stops on a new manager, a process is held
/// exactly when some start in it succeeded and no stop came after that start.
pub proof fn lemma_running_after_exact(calls: Seq<Call>)
    ensures
        running_after(calls) <==> exists|i: int|
            0 <= i < calls.len() && start_succeeds(#[trigger] calls[i]) && forall|j: int|
                i < j < calls.len() ==> calls[j] is Start,
    decreases calls.len(),
{
    if calls.len() > 0 {
        let prev = calls.drop_last();
        let n = calls.len() - 1;
        lemma_running_after_exact(prev);
        assert forall|k: int| 0 <= k < n implies calls[k] == prev[k] by {}
        if start_succeeds(calls.last()) {
            assert(start_succeeds(calls[n]));
        } else if calls.last() is Stop {
            assert forall|i: int| 0 <= i < calls.len() && start_succeeds(#[trigger] calls[i])
                implies !(forall|j: int| i < j < calls.len() ==> calls[j] is Start) by {
                assert(i != n);
                assert(!(calls[n] is Start));
            }
        } else {
            if running_after(prev) {
                let i = choose|i: int|
                    0 <= i < prev.len() && start_succeeds(#[trigger] prev[i]) && forall|j: int|
                        i < j < prev.len() ==> prev[j] is Start;
                assert(start_succeeds(calls[i]));
                assert forall|j: int| i < j < calls.len() implies calls[j] is Start by {
                    if j < n {
                        assert(prev[j] is Start);
                    }
                }
            } else {
                assert forall|i: int| 0 <= i < calls.len() && start_succeeds(#[trigger] calls[i])
                    implies !(forall|j: int| i < j < calls.len() ==> calls[j] is Start) by {
                    assert(i != n);
                    assert(start_succeeds(prev[i]));
                    if forall|j: int| i < j < calls.len() ==> calls[j] is Start {
                        assert forall|j: int| i < j < prev.len() implies prev[j] is Start by {
                            assert(calls[j] is Start);
                        }
                    }
                }
            }
        }
    }
}

/// Two starts in a row in an existing directory launch one process: on a
/// manager that holds none the first start launches, and once a start has
/// succeeded the next start reports that a server is already running,
/// whatever its directory.
pub proof fn lemma_second_start_is_noop(running: bool, path_exists: bool)
    ensures
        start_step(false, true) == Step::Launch,
        start_step(after_call(running, Call::Start { path_exists: true, spawn_ok: true }), path_exists)
            == Step::Report(Status::AlreadyRunning),
{
}

/// A restart (a stop, then a start in an existing directory) passes through
/// a state that holds no process, in which the start launches, and ends
/// holding a process when the spawn succeeds.
pub proof fn lemma_restart_ends_running(running: bool)
    ensures
        !after_call(running, Call::Stop),
        start_step(after_call(running, Call::Stop), true) == Step::Launch,
        after_call(after_call(running, Call::Stop), Call::Start { path_exists: true, spawn_ok: true }),
{
}

/// Holds at most one server process handle of type `H` and decides each
/// lifecycle operation on it. The host performs the process work that a
/// decision asks for and hands the outcome back.
pub struct ServerManager<H> {
    process: Option<H>,
}

impl<H> ServerManager<H> {
    /// The process handle held, if any.
    pub closed spec fn handle(&self) -> Option<H> {
        self.process
    }

    /// Whether a process handle is held.
    pub open spec fn running(&self) -> bool {
        self.handle() is Some
    }

    pub fn new() -> (r: Self)
        ensures
            r.handle() == None::<H>,
    {
        ServerManager { process: None }
    }

    /// Decides a start in `path_exists`'s directory: report that a server
    /// is already held, report a missing directory, or launch.
    pub fn start(&self, path_exists: bool) -> (r: Step)
        ensures
            r == start_step(self.running(), path_exists),
    {
        if self.process.is_some() {
            Step::Report(Status::AlreadyRunning)
        } else if !path_exists {
            Step::Report(Status::PathNotFound)
        } else {
            Step::Launch
        }
    }

    /// Takes the outcome of the spawn that a start asked for: the handle,
    /// or the error text.
    pub fn record_spawn(&mut self, spawned: Result<H, String>) -> (r: Status)
        requires
            !old(self).running(),
        ensures
            final(self).running() == after_call(
                old(self).running(),
                Call::Start { path_exists: true, spawn_ok: spawned is Ok },
            ),
            match spawned {
                Ok(h) => final(self).handle() == Some(h) && r == Status::Started,
                Err(e) => final(self).handle() == None::<H> && r == Status::ProcessSpawnFailed(e),
            },
    {
        match spawned {
            Ok(h) => {
                self.process = Some(h);
                Status::Started
            },
            Err(e) => Status::ProcessSpawnFailed(e),
        }
    }

    /// Releases the handle held, if any, for the host to kill. With none
    /// held nothing changes.
    pub fn stop(&mut self) -> (r: Option<H>)
        ensures
            r == old(self).handle(),
            final(self).handle() == None::<H>,
            !old(self).running() ==> r is None && *final(self) == *old(self),
            final(self).running() == after_call(old(self).running(), Call::Stop),
    {
        self.process.take()
    }

    /// Whether a process handle is held. The process itself is not asked
    /// whether it is still alive.
    pub fn is_running(&self) -> (r: bool)
        ensures
            r == self.running(),
    {
        self.process.is_some()
    }

    /// Decides a build in `path_exists`'s directory: report a missing
    /// directory, or launch the build tool. Independent of the process held.
    pub fn build_plugin(&self, path_exists: bool) -> (r: Step)
        ensures
            r == build_step(path_exists),
    {
        if path_exists {
            Step::Launch
        } else {
            Step::Report(Status::PathNotFound)
        }
    }

    /// The source and destination of the copy that deploys the artifact.
    pub fn deploy_plugin(&self, plugin_path: &str, server_path: &str) -> (r: (String, String))
        ensures
            r.0@ == artifact_source(plugin_path@),
            r.1@ == artifact_destination(server_path@),
    {
        let source = String::from_str(plugin_path).concat("/target/PvPKits-1.0.0.jar");
        let destination = String::from_str(server_path).concat("/plugins/PvPKits-1.0.0.jar");
        (source, destination)
    }
}

/// The status of a build from what running the build tool gave: whether it
/// exited with success and its standard error, or the error text of a failed
/// launch.
pub fn build_outcome(run: Result<(bool, String), String>) -> (r: Status)
    ensures
        r == match run {
            Ok((true, _)) => Status::BuildSucceeded,
            Ok((false, stderr)) => Status::BuildFailed(stderr),
            Err(e) => Status::LaunchToolMissing(e),
        },
{
    match run {
        Ok((success, stderr)) => {
            if success {
                Status::BuildSucceeded
            } else {
                Status::BuildFailed(stderr)
            }
        },
        Err(e) => Status::LaunchToolMissing(e),
    }
}

/// The status of a deployment from what the copy gave: the bytes copied,
/// or the error text.
pub fn deploy_outcome(copied: Result<u64, String>, destination: String) -> (r: Status)
    ensures
        r == match copied {
            Ok(_) => Status::Deployed(destination),
            Err(e) => Status::CopyFailed(e),
        },
{
    match copied {
        Ok(_) => Status::Deployed(destination),
        Err(e) => Status::CopyFailed(e),
    }
}

} // verus!
