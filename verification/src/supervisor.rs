//! Process supervisor: bookkeeping for at most one supervised worker at a
//! time. The supervisor decides every lifecycle step — what to kill before a
//! spawn, which signals a termination sends, whether a control line may be
//! written — and hands those decisions to the unverified shell that performs
//! the actual process and stream operations, serialized under one lock.
use vstd::prelude::*;
use crate::Platform;
use crate::codec::{ControlMessage, control_line_spec, encode_control_line};
use crate::text::{decimal_of, u64_to_decimal};

verus! {

/// The supervisor's record of the worker it currently owns: the native
/// process id and whether the worker's input stream is still held.
#[derive(Clone, Copy, PartialEq, Eq, Structural, Debug)]
pub struct WorkerHandle {
    pub pid: u32,
    pub stdin_available: bool,
}

/// The caller-facing errors: no worker is supervised, or the worker's input
/// stream is gone.
#[derive(Clone, Copy, PartialEq, Eq, Structural, Debug)]
pub enum SupervisorError {
    NoProcess,
    StdinUnavailable,
}

/// The message text of each error.
pub open spec fn error_text(e: SupervisorError) -> Seq<char> {
    match e {
        SupervisorError::NoProcess => "No automation process running"@,
        SupervisorError::StdinUnavailable => "Child stdin not available"@,
    }
}

impl SupervisorError {
    pub fn message(&self) -> (r: String)
        ensures
            r@ == error_text(*self),
    {
        match self {
            SupervisorError::NoProcess => "No automation process running".to_owned(),
            SupervisorError::StdinUnavailable => "Child stdin not available".to_owned(),
        }
    }
}

/// One external kill command: a program to invoke with its arguments.
pub struct KillCommand {
    pub program: String,
    pub args: Vec<String>,
}

impl DeepView for KillCommand {
    type V = (Seq<char>, Seq<Seq<char>>);

    open spec fn deep_view(&self) -> (Seq<char>, Seq<Seq<char>>) {
        (self.program@, self.args.deep_view())
    }
}

/// The layered termination plan for one worker: external kill commands to
/// run in order, then a direct kill and wait on the owned handle to reap it.
pub struct KillPlan {
    pub group_kills: Vec<KillCommand>,
    pub direct_kill_and_wait: bool,
}

/// The process-group id argument on POSIX: the negated process id, so the
/// signal reaches the whole group.
pub open spec fn negated_group_id(pid: u32) -> Seq<char> {
    seq!['-'] + decimal_of(pid as int)
}

/// The external kill commands for one platform: on Windows one forced
/// tree-kill by process id; on POSIX a graceful group signal followed
/// unconditionally by a forced one to the same group.
pub open spec fn kill_commands_spec(platform: Platform, pid: u32) -> Seq<(Seq<char>, Seq<Seq<char>>)> {
    match platform {
        Platform::Windows => seq![
            ("taskkill"@, seq!["/PID"@, decimal_of(pid as int), "/T"@, "/F"@]),
        ],
        Platform::Posix => seq![
            ("kill"@, seq!["-TERM"@, negated_group_id(pid)]),
            ("kill"@, seq!["-KILL"@, negated_group_id(pid)]),
        ],
    }
}

/// The state after a successful spawn: exactly the new worker is supervised.
pub open spec fn after_spawn(pid: u32, stdin_available: bool) -> Option<WorkerHandle> {
    Option::Some(WorkerHandle { pid, stdin_available })
}

/// The state after a successful termination: no worker is supervised.
pub open spec fn after_terminate() -> Option<WorkerHandle> {
    Option::None
}

/// Which process a spawn must kill first: the one currently supervised.
pub open spec fn spawn_kill_target(st: Option<WorkerHandle>) -> Option<u32> {
    match st {
        Option::Some(h) => Option::Some(h.pid),
        Option::None => Option::None,
    }
}

/// What the status query reports of a state.
pub open spec fn status_text(st: Option<WorkerHandle>) -> Seq<char> {
    if st is Some {
        "running"@
    } else {
        "stopped"@
    }
}

/// Whether a control line may be sent in a state, and the error if not.
pub open spec fn send_gate(st: Option<WorkerHandle>) -> Option<SupervisorError> {
    match st {
        Option::None => Option::Some(SupervisorError::NoProcess),
        Option::Some(h) => if h.stdin_available {
            Option::None
        } else {
            Option::Some(SupervisorError::StdinUnavailable)
        },
    }
}

/// The supervisor: an owned, swappable slot holding the record of the one
/// supervised worker, or nothing. The shell guards a `Supervisor` value,
/// together with the OS handle it describes, under a single lock.
pub struct Supervisor {
    slot: Option<WorkerHandle>,
}

impl View for Supervisor {
    type V = Option<WorkerHandle>;

    closed spec fn view(&self) -> Option<WorkerHandle> {
        self.slot
    }
}

impl Supervisor {
    /// A fresh supervisor: nothing supervised yet.
    pub fn new() -> (s: Supervisor)
        ensures
            s@ == after_terminate(),
    {
        Supervisor { slot: Option::None }
    }

    /// First step of a spawn: the process id the shell must kill
    /// (best effort, no wait) before launching the new worker.
    pub fn prepare_spawn(&self) -> (target: Option<u32>)
        ensures
            target == spawn_kill_target(self@),
    {
        match &self.slot {
            Option::Some(h) => Option::Some(h.pid),
            Option::None => Option::None,
        }
    }

    /// Second step of a spawn, once the OS launch succeeded: the new worker
    /// replaces whatever was supervised before. On a failed launch this is
    /// not called, so the prior (killed) record stays in place.
    pub fn record_spawn(&mut self, pid: u32, stdin_available: bool)
        ensures
            final(self)@ == after_spawn(pid, stdin_available),
    {
        self.slot = Option::Some(WorkerHandle { pid, stdin_available });
    }

    /// Removes and invalidates the stored record. On success the returned
    /// plan carries the platform's layered tree kill for the worker's
    /// process id; with no worker supervised the state is unchanged and the
    /// distinct no-process error comes back.
    pub fn terminate(&mut self, platform: Platform) -> (r: Result<KillPlan, SupervisorError>)
        ensures
            old(self)@ is None ==> r == Err::<KillPlan, SupervisorError>(SupervisorError::NoProcess)
                && final(self)@ == old(self)@,
            old(self)@ matches Some(h) ==> (r matches Ok(p)
                && final(self)@ == after_terminate()
                && p.group_kills.deep_view() == kill_commands_spec(platform, h.pid)
                && p.direct_kill_and_wait),
    {
        match &self.slot {
            Option::None => Err(SupervisorError::NoProcess),
            Option::Some(h) => {
                let pid = h.pid;
                self.slot = Option::None;
                let mut group_kills: Vec<KillCommand> = Vec::new();
                match platform {
                    Platform::Windows => {
                        let mut args: Vec<String> = Vec::new();
                        args.push("/PID".to_owned());
                        args.push(u64_to_decimal(pid as u64));
                        args.push("/T".to_owned());
                        args.push("/F".to_owned());
                        group_kills.push(KillCommand { program: "taskkill".to_owned(), args });
                    },
                    Platform::Posix => {
                        let group = negated_group_arg(pid);
                        let mut term_args: Vec<String> = Vec::new();
                        term_args.push("-TERM".to_owned());
                        term_args.push(group.clone());
                        group_kills.push(
                            KillCommand { program: "kill".to_owned(), args: term_args },
                        );
                        let mut kill_args: Vec<String> = Vec::new();
                        kill_args.push("-KILL".to_owned());
                        kill_args.push(group);
                        group_kills.push(
                            KillCommand { program: "kill".to_owned(), args: kill_args },
                        );
                    },
                }
                let plan = KillPlan { group_kills, direct_kill_and_wait: true };
                proof {
                    assert(plan.group_kills.deep_view() =~~= kill_commands_spec(platform, pid));
                }
                Ok(plan)
            },
        }
    }

    /// Non-blocking inspection of the supervisor's own bookkeeping; it does
    /// not probe OS-level liveness, so an exited but unreaped worker still
    /// reports as running until terminated.
    pub fn status(&self) -> (r: String)
        ensures
            r@ == status_text(self@),
    {
        match &self.slot {
            Option::Some(_) => "running".to_owned(),
            Option::None => "stopped".to_owned(),
        }
    }

    /// Gates and encodes one control message: with a worker supervised and
    /// its input stream held, the message's single wire line is returned for
    /// the shell to write; otherwise the matching error.
    pub fn send_line(&self, m: &ControlMessage) -> (r: Result<String, SupervisorError>)
        ensures
            send_gate(self@) matches Some(e) ==> r == Err::<String, SupervisorError>(e),
            send_gate(self@) is None ==> (r matches Ok(line) && line@ == control_line_spec(*m)),
    {
        match &self.slot {
            Option::None => Err(SupervisorError::NoProcess),
            Option::Some(h) => {
                if h.stdin_available {
                    Ok(encode_control_line(m))
                } else {
                    Err(SupervisorError::StdinUnavailable)
                }
            },
        }
    }

    /// Starts insertion in the worker.
    pub fn insert_start(&self) -> (r: Result<String, SupervisorError>)
        ensures
            send_gate(self@) matches Some(e) ==> r == Err::<String, SupervisorError>(e),
            send_gate(self@) is None ==> (r matches Ok(line) && line@ == control_line_spec(
                ControlMessage::StartInsertion { form: Option::None },
            )),
    {
        self.send_line(&ControlMessage::StartInsertion { form: Option::None })
    }

    /// Starts insertion with a named form.
    pub fn insert_start_with_form(&self, form: String) -> (r: Result<String, SupervisorError>)
        ensures
            send_gate(self@) matches Some(e) ==> r == Err::<String, SupervisorError>(e),
            send_gate(self@) is None ==> (r matches Ok(line) && line@ == control_line_spec(
                ControlMessage::StartInsertion { form: Option::Some(form) },
            )),
    {
        self.send_line(&ControlMessage::StartInsertion { form: Option::Some(form) })
    }

    /// Pauses insertion in the worker.
    pub fn insert_pause(&self) -> (r: Result<String, SupervisorError>)
        ensures
            send_gate(self@) matches Some(e) ==> r == Err::<String, SupervisorError>(e),
            send_gate(self@) is None ==> (r matches Ok(line) && line@ == control_line_spec(
                ControlMessage::PauseInsertion,
            )),
    {
        self.send_line(&ControlMessage::PauseInsertion)
    }

    /// Stops insertion in the worker.
    pub fn insert_stop(&self) -> (r: Result<String, SupervisorError>)
        ensures
            send_gate(self@) matches Some(e) ==> r == Err::<String, SupervisorError>(e),
            send_gate(self@) is None ==> (r matches Ok(line) && line@ == control_line_spec(
                ControlMessage::StopInsertion,
            )),
    {
        self.send_line(&ControlMessage::StopInsertion)
    }

    /// Hands the worker inline CSV content.
    pub fn load_csv_content(&self, csv: String) -> (r: Result<String, SupervisorError>)
        ensures
            send_gate(self@) matches Some(e) ==> r == Err::<String, SupervisorError>(e),
            send_gate(self@) is None ==> (r matches Ok(line) && line@ == control_line_spec(
                ControlMessage::LoadCsvContent { csv },
            )),
    {
        self.send_line(&ControlMessage::LoadCsvContent { csv })
    }

    /// Points the worker at a CSV file by path.
    pub fn load_csv_path(&self, path: String) -> (r: Result<String, SupervisorError>)
        ensures
            send_gate(self@) matches Some(e) ==> r == Err::<String, SupervisorError>(e),
            send_gate(self@) is None ==> (r matches Ok(line) && line@ == control_line_spec(
                ControlMessage::LoadCsvPath { path },
            )),
    {
        self.send_line(&ControlMessage::LoadCsvPath { path })
    }
}

fn negated_group_arg(pid: u32) -> (r: String)
    ensures
        r@ == negated_group_id(pid),
{
    let mut s = String::new();
    crate::text::push_char(&mut s, '-');
    let digits = u64_to_decimal(pid as u64);
    s.append(digits.as_str());
    s
}

/// Spawning while a worker is already supervised first signals exactly that
/// worker, and afterwards exactly one worker — the new one — is supervised.
pub proof fn lemma_spawn_keeps_singleton(st: Option<WorkerHandle>, h: WorkerHandle, pid: u32, stdin_available: bool)
    requires
        st == Option::Some(h),
    ensures
        spawn_kill_target(st) == Option::Some(h.pid),
        after_spawn(pid, stdin_available) == Option::Some(WorkerHandle { pid, stdin_available }),
{
}

/// The status query reports "stopped" of a fresh supervisor and of one whose
/// worker was just terminated, and "running" right after a recorded spawn.
pub proof fn lemma_status_reflects_lifecycle(pid: u32, stdin_available: bool)
    ensures
        status_text(Option::None) == "stopped"@,
        status_text(after_terminate()) == "stopped"@,
        status_text(after_spawn(pid, stdin_available)) == "running"@,
{
}

/// Sending a control line before any spawn, and again right after a
/// termination, is refused with the no-process error both times.
pub proof fn lemma_send_needs_process()
    ensures
        send_gate(Option::None) == Option::Some(SupervisorError::NoProcess),
        send_gate(after_terminate()) == Option::Some(SupervisorError::NoProcess),
{
}

/// Termination never relies on the graceful signal alone: the POSIX plan
/// follows it with a forced signal to the same group, and the Windows plan's
/// single tree kill is already forced.
pub proof fn lemma_terminate_always_forces(pid: u32)
    ensures
        kill_commands_spec(Platform::Posix, pid).len() == 2,
        kill_commands_spec(Platform::Posix, pid)[1].0 == "kill"@,
        kill_commands_spec(Platform::Posix, pid)[1].1 == seq!["-KILL"@, negated_group_id(pid)],
        kill_commands_spec(Platform::Posix, pid)[1].1[1]
            == kill_commands_spec(Platform::Posix, pid)[0].1[1],
        kill_commands_spec(Platform::Windows, pid).len() == 1,
        kill_commands_spec(Platform::Windows, pid)[0].1[3] == "/F"@,
{
}

} // verus!
