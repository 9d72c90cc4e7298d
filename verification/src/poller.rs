//! The decisions of the remote GPU polling thread, as a state machine.
//!
//! The thread repeats: check whether the application is exiting, report
//! "not connected", read `ssh_settings.txt`, wait while the host is unset,
//! write the password script when a password is set, start ssh, and read its
//! output line by line, publishing every reading; when the stream ends, stop
//! ssh, remove the password script, and reconnect after a pause. The driver
//! in the application performs each action and answers with an event.
use vstd::prelude::*;
use crate::reading::{gpu_reading, lemma_reading_bound, parse_gpu_usage};
use crate::ssh::{
    askpass_script, host_unset, is_host_unset, launch_plan, make_askpass_script, plan_launch,
    SshConfig, SshConfigView, SshLaunch,
};

verus! {

broadcast use vstd::string::group_string_axioms;

/// Where the polling thread stands.
#[derive(Clone, Copy, PartialEq, Eq, Debug, Structural)]
pub enum PollPhase {
    /// At the top of the loop, or waiting before going back to it.
    Idle,
    /// Asked whether the application is exiting.
    CheckingExit,
    /// Reporting "not connected" at the top of the loop.
    Disconnecting,
    /// Reading the configuration file.
    LoadingConfig,
    /// Writing the password script.
    WritingAskpass,
    /// Starting ssh.
    Launching,
    /// Reading the output of ssh.
    Streaming,
    /// Publishing a reading.
    Publishing,
    /// Removing the password script after ssh failed to start.
    RemovingAskpass,
    /// Stopping ssh after its output ended.
    EndingStream,
    /// Asked, after the stream ended, whether the application is exiting.
    CheckingExitAfterStream,
    /// Done for good.
    Stopped,
}

/// Why the thread pauses.
pub enum WaitReason {
    /// The configuration file could not be read.
    ConfigError(String),
    /// The host is still unset.
    HostUnset,
    /// ssh could not be started.
    LaunchFailed,
    /// The stream ended; the thread reconnects.
    Reconnect,
}

/// What the driver does next.
pub enum PollAction {
    /// Find out whether the application is exiting; answer `ExitRequested`.
    CheckExit,
    /// Publish "not connected"; answer `Done`.
    Disconnect,
    /// Read the configuration file; answer `ConfigLoaded`.
    LoadConfig,
    /// Sleep; answer `Done`.
    Wait { seconds: u64, reason: WaitReason },
    /// Write the password script; answer `AskpassWritten`.
    WriteAskpass { script: String },
    /// Start ssh; answer `Launched`.
    Launch { launch: SshLaunch },
    /// Read the next output line, then check for exit; answer `StreamLine`.
    ReadLine,
    /// Publish a reading and "connected"; answer `Done`.
    Publish { usage: u32 },
    /// Remove the password script; answer `Done`.
    RemoveAskpass,
    /// Publish "not connected", stop ssh and remove the password script when
    /// asked to; answer `Done`.
    EndStream { remove_askpass: bool },
    /// End the thread.
    Stop,
}

/// What the driver reports.
pub enum PollEvent {
    /// The action is done (and the thread starts with this).
    Done,
    /// Whether the application is exiting.
    ExitRequested(bool),
    /// The configuration, or why it could not be read.
    ConfigLoaded(Result<SshConfig, String>),
    /// Whether the password script was written.
    AskpassWritten(bool),
    /// Whether ssh started.
    Launched(bool),
    /// The next line of output (`None` at its end, `Err` on a read error),
    /// and whether the application was exiting when it came.
    StreamLine { exiting: bool, line: Option<Result<String, String>> },
}

pub enum WaitReasonView {
    ConfigError(Seq<char>),
    HostUnset,
    LaunchFailed,
    Reconnect,
}

pub enum PollActionView {
    CheckExit,
    Disconnect,
    LoadConfig,
    Wait { seconds: u64, reason: WaitReasonView },
    WriteAskpass { script: Seq<char> },
    Launch { program: Seq<char>, args: Seq<Seq<char>>, use_askpass: bool },
    ReadLine,
    Publish { usage: u32 },
    RemoveAskpass,
    EndStream { remove_askpass: bool },
    Stop,
}

pub enum PollEventView {
    Done,
    ExitRequested(bool),
    ConfigLoaded(Result<SshConfigView, Seq<char>>),
    AskpassWritten(bool),
    Launched(bool),
    StreamLine { exiting: bool, line: Option<Result<Seq<char>, Seq<char>>> },
}

impl View for WaitReason {
    type V = WaitReasonView;

    open spec fn view(&self) -> WaitReasonView {
        match self {
            WaitReason::ConfigError(e) => WaitReasonView::ConfigError(e@),
            WaitReason::HostUnset => WaitReasonView::HostUnset,
            WaitReason::LaunchFailed => WaitReasonView::LaunchFailed,
            WaitReason::Reconnect => WaitReasonView::Reconnect,
        }
    }
}

impl View for PollAction {
    type V = PollActionView;

    open spec fn view(&self) -> PollActionView {
        match self {
            PollAction::CheckExit => PollActionView::CheckExit,
            PollAction::Disconnect => PollActionView::Disconnect,
            PollAction::LoadConfig => PollActionView::LoadConfig,
            PollAction::Wait { seconds, reason } => PollActionView::Wait {
                seconds: *seconds,
                reason: reason@,
            },
            PollAction::WriteAskpass { script } => PollActionView::WriteAskpass { script: script@ },
            PollAction::Launch { launch } => PollActionView::Launch {
                program: launch.program@,
                args: launch.args@.map_values(|a: String| a@),
                use_askpass: launch.use_askpass,
            },
            PollAction::ReadLine => PollActionView::ReadLine,
            PollAction::Publish { usage } => PollActionView::Publish { usage: *usage },
            PollAction::RemoveAskpass => PollActionView::RemoveAskpass,
            PollAction::EndStream { remove_askpass } => PollActionView::EndStream {
                remove_askpass: *remove_askpass,
            },
            PollAction::Stop => PollActionView::Stop,
        }
    }
}

impl View for PollEvent {
    type V = PollEventView;

    open spec fn view(&self) -> PollEventView {
        match self {
            PollEvent::Done => PollEventView::Done,
            PollEvent::ExitRequested(b) => PollEventView::ExitRequested(*b),
            PollEvent::ConfigLoaded(r) => PollEventView::ConfigLoaded(
                match r {
                    Ok(c) => Ok(c@),
                    Err(e) => Err(e@),
                },
            ),
            PollEvent::AskpassWritten(b) => PollEventView::AskpassWritten(*b),
            PollEvent::Launched(b) => PollEventView::Launched(*b),
            PollEvent::StreamLine { exiting, line } => PollEventView::StreamLine {
                exiting: *exiting,
                line: match line {
                    Some(Ok(t)) => Some(Ok(t@)),
                    Some(Err(e)) => Some(Err(e@)),
                    None => None,
                },
            },
        }
    }
}

/// What an action does to the published connection flag: a reading sets
/// it, the top of the loop and the end of a stream clear it, and every other
/// action leaves it.
pub open spec fn connection_change(a: PollActionView) -> Option<bool> {
    match a {
        PollActionView::Publish { .. } => Some(true),
        PollActionView::Disconnect => Some(false),
        PollActionView::EndStream { .. } => Some(false),
        _ => None,
    }
}

/// The connection flag after an action, from the flag before it.
pub open spec fn connection_after(connected: bool, a: PollActionView) -> bool {
    match connection_change(a) {
        Some(b) => b,
        None => connected,
    }
}

/// What an action does to the published GPU load: a reading replaces it,
/// every other action leaves it.
pub open spec fn usage_change(a: PollActionView) -> Option<u32> {
    match a {
        PollActionView::Publish { usage } => Some(usage),
        _ => None,
    }
}

/// The published GPU load after an action, from the load before it.
pub open spec fn usage_after(usage: u32, a: PollActionView) -> u32 {
    match usage_change(a) {
        Some(u) => u,
        None => usage,
    }
}

impl PollAction {
    /// The value to store in the connection flag when performing this
    /// action, if any.
    pub fn connection_update(&self) -> (r: Option<bool>)
        ensures
            r == connection_change(self@),
    {
        match self {
            PollAction::Publish { .. } => Some(true),
            PollAction::Disconnect => Some(false),
            PollAction::EndStream { .. } => Some(false),
            _ => None,
        }
    }

    /// The value to store as the GPU load when performing this action, if
    /// any.
    pub fn usage_update(&self) -> (r: Option<u32>)
        ensures
            r == usage_change(self@),
    {
        match self {
            PollAction::Publish { usage } => Some(*usage),
            _ => None,
        }
    }
}

/// The polling thread's state as values.
pub struct PollerView {
    pub phase: PollPhase,
    pub config: Option<SshConfigView>,
    pub askpass: bool,
}

/// The action that starts ssh for `c`.
pub open spec fn launch_action(c: SshConfigView, has_askpass: bool) -> PollActionView {
    let plan = launch_plan(c, has_askpass);
    PollActionView::Launch { program: plan.0, args: plan.1, use_askpass: plan.2 }
}

/// The action that a state waits on, asked again when an event of the
/// wrong kind arrives.
pub open spec fn pending_action(s: PollerView) -> PollActionView {
    match s.phase {
        PollPhase::CheckingExit => PollActionView::CheckExit,
        PollPhase::CheckingExitAfterStream => PollActionView::CheckExit,
        PollPhase::LoadingConfig => PollActionView::LoadConfig,
        PollPhase::WritingAskpass => PollActionView::WriteAskpass {
            script: askpass_script(s.config->0.password),
        },
        PollPhase::Launching => launch_action(s.config->0, s.askpass),
        PollPhase::Streaming => PollActionView::ReadLine,
        _ => PollActionView::Stop,
    }
}

/// One step of the polling thread: its next state and the action to perform.
pub open spec fn poll_step(s: PollerView, e: PollEventView) -> (PollerView, PollActionView) {
    match s.phase {
        PollPhase::Stopped => (s, PollActionView::Stop),
        PollPhase::Idle => (PollerView { phase: PollPhase::CheckingExit, ..s }, PollActionView::CheckExit),
        PollPhase::Disconnecting => (PollerView { phase: PollPhase::LoadingConfig, ..s }, PollActionView::LoadConfig),
        PollPhase::Publishing => (PollerView { phase: PollPhase::Streaming, ..s }, PollActionView::ReadLine),
        PollPhase::RemovingAskpass => (
            PollerView { phase: PollPhase::Idle, config: None, askpass: false },
            PollActionView::Wait { seconds: 5, reason: WaitReasonView::LaunchFailed },
        ),
        PollPhase::EndingStream => (
            PollerView { phase: PollPhase::CheckingExitAfterStream, config: None, askpass: false },
            PollActionView::CheckExit,
        ),
        PollPhase::CheckingExit => match e {
            PollEventView::ExitRequested(true) => (PollerView { phase: PollPhase::Stopped, ..s }, PollActionView::Stop),
            PollEventView::ExitRequested(false) => (PollerView { phase: PollPhase::Disconnecting, ..s }, PollActionView::Disconnect),
            _ => (s, pending_action(s)),
        },
        PollPhase::CheckingExitAfterStream => match e {
            PollEventView::ExitRequested(true) => (PollerView { phase: PollPhase::Stopped, ..s }, PollActionView::Stop),
            PollEventView::ExitRequested(false) => (
                PollerView { phase: PollPhase::Idle, ..s },
                PollActionView::Wait { seconds: 5, reason: WaitReasonView::Reconnect },
            ),
            _ => (s, pending_action(s)),
        },
        PollPhase::LoadingConfig => match e {
            PollEventView::ConfigLoaded(Err(msg)) => (
                PollerView { phase: PollPhase::Idle, ..s },
                PollActionView::Wait { seconds: 5, reason: WaitReasonView::ConfigError(msg) },
            ),
            PollEventView::ConfigLoaded(Ok(c)) => if host_unset(c.host) {
                (
                    PollerView { phase: PollPhase::Idle, ..s },
                    PollActionView::Wait { seconds: 10, reason: WaitReasonView::HostUnset },
                )
            } else if c.password.len() > 0 {
                (
                    PollerView { phase: PollPhase::WritingAskpass, config: Some(c), askpass: false },
                    PollActionView::WriteAskpass { script: askpass_script(c.password) },
                )
            } else {
                (
                    PollerView { phase: PollPhase::Launching, config: Some(c), askpass: false },
                    launch_action(c, false),
                )
            },
            _ => (s, pending_action(s)),
        },
        PollPhase::WritingAskpass => match e {
            PollEventView::AskpassWritten(ok) => (
                PollerView { phase: PollPhase::Launching, askpass: ok, ..s },
                launch_action(s.config->0, ok),
            ),
            _ => (s, pending_action(s)),
        },
        PollPhase::Launching => match e {
            PollEventView::Launched(true) => (PollerView { phase: PollPhase::Streaming, ..s }, PollActionView::ReadLine),
            PollEventView::Launched(false) => if s.askpass {
                (
                    PollerView { phase: PollPhase::RemovingAskpass, config: None, askpass: false },
                    PollActionView::RemoveAskpass,
                )
            } else {
                (
                    PollerView { phase: PollPhase::Idle, config: None, askpass: false },
                    PollActionView::Wait { seconds: 5, reason: WaitReasonView::LaunchFailed },
                )
            },
            _ => (s, pending_action(s)),
        },
        PollPhase::Streaming => match e {
            PollEventView::StreamLine { exiting: false, line: Some(Ok(t)) } => match gpu_reading(t) {
                Some(u) => (PollerView { phase: PollPhase::Publishing, ..s }, PollActionView::Publish { usage: u as u32 }),
                None => (s, PollActionView::ReadLine),
            },
            PollEventView::StreamLine { .. } => (
                PollerView { phase: PollPhase::EndingStream, config: None, askpass: false },
                PollActionView::EndStream { remove_askpass: s.askpass },
            ),
            _ => (s, pending_action(s)),
        },
    }
}

/// The states that the polling thread can be in: a configuration with a set
/// host is at hand from the moment the password script is written until the
/// stream ends, and the password
/// script exists only while ssh starts or runs.
pub open spec fn poller_wf(s: PollerView) -> bool {
    &&& (s.phase == PollPhase::WritingAskpass || s.phase == PollPhase::Launching || s.phase
        == PollPhase::Streaming || s.phase == PollPhase::Publishing) ==> (s.config is Some
        && !host_unset(s.config->0.host))
    &&& s.askpass ==> (s.phase == PollPhase::Launching || s.phase == PollPhase::Streaming
        || s.phase == PollPhase::Publishing)
}

/// The state machine of the remote GPU polling thread.
pub struct GpuPoller {
    phase: PollPhase,
    config: Option<SshConfig>,
    askpass: bool,
}

impl View for GpuPoller {
    type V = PollerView;

    closed spec fn view(&self) -> PollerView {
        PollerView {
            phase: self.phase,
            config: match self.config {
                Some(c) => Some(c@),
                None => None,
            },
            askpass: self.askpass,
        }
    }
}

impl GpuPoller {
    #[verifier::type_invariant]
    closed spec fn inv(self) -> bool {
        poller_wf(self@)
    }

    /// A poller at the top of its loop; the first event is `Done`.
    pub fn new() -> (p: Self)
        ensures
            p@ == (PollerView { phase: PollPhase::Idle, config: None, askpass: false }),
    {
        GpuPoller { phase: PollPhase::Idle, config: None, askpass: false }
    }

    /// The phase the poller is in.
    pub fn phase(&self) -> (p: PollPhase)
        ensures
            p == self@.phase,
    {
        self.phase
    }

    fn launch_for(c: &SshConfig, has_askpass: bool) -> (a: PollAction)
        ensures
            a@ == launch_action(c@, has_askpass),
    {
        let launch = plan_launch(c, has_askpass);
        PollAction::Launch { launch }
    }

    /// Takes in what the driver reports and gives the next action.
    pub fn step(&mut self, event: PollEvent) -> (a: PollAction)
        ensures
            (final(self)@, a@) == poll_step(old(self)@, event@),
            poller_wf(final(self)@),
    {
        proof {
            use_type_invariant(&*self);
        }
        let ghost ev = event@;
        match self.phase {
            PollPhase::Stopped => PollAction::Stop,
            PollPhase::Idle => {
                self.phase = PollPhase::CheckingExit;
                PollAction::CheckExit
            },
            PollPhase::Disconnecting => {
                self.phase = PollPhase::LoadingConfig;
                PollAction::LoadConfig
            },
            PollPhase::Publishing => {
                self.phase = PollPhase::Streaming;
                PollAction::ReadLine
            },
            PollPhase::RemovingAskpass => {
                *self = GpuPoller { phase: PollPhase::Idle, config: None, askpass: false };
                PollAction::Wait { seconds: 5, reason: WaitReason::LaunchFailed }
            },
            PollPhase::EndingStream => {
                *self = GpuPoller {
                    phase: PollPhase::CheckingExitAfterStream,
                    config: None,
                    askpass: false,
                };
                PollAction::CheckExit
            },
            PollPhase::CheckingExit => match event {
                PollEvent::ExitRequested(true) => {
                    self.phase = PollPhase::Stopped;
                    PollAction::Stop
                },
                PollEvent::ExitRequested(false) => {
                    self.phase = PollPhase::Disconnecting;
                    PollAction::Disconnect
                },
                _ => PollAction::CheckExit,
            },
            PollPhase::CheckingExitAfterStream => match event {
                PollEvent::ExitRequested(true) => {
                    self.phase = PollPhase::Stopped;
                    PollAction::Stop
                },
                PollEvent::ExitRequested(false) => {
                    self.phase = PollPhase::Idle;
                    PollAction::Wait { seconds: 5, reason: WaitReason::Reconnect }
                },
                _ => PollAction::CheckExit,
            },
            PollPhase::LoadingConfig => match event {
                PollEvent::ConfigLoaded(Err(msg)) => {
                    self.phase = PollPhase::Idle;
                    PollAction::Wait { seconds: 5, reason: WaitReason::ConfigError(msg) }
                },
                PollEvent::ConfigLoaded(Ok(c)) => {
                    if is_host_unset(c.host.as_str()) {
                        self.phase = PollPhase::Idle;
                        PollAction::Wait { seconds: 10, reason: WaitReason::HostUnset }
                    } else if !c.password.as_str().is_empty() {
                        let script = make_askpass_script(c.password.as_str());
                        *self = GpuPoller {
                            phase: PollPhase::WritingAskpass,
                            config: Some(c),
                            askpass: false,
                        };
                        PollAction::WriteAskpass { script }
                    } else {
                        let a = Self::launch_for(&c, false);
                        *self = GpuPoller {
                            phase: PollPhase::Launching,
                            config: Some(c),
                            askpass: false,
                        };
                        a
                    }
                },
                _ => PollAction::LoadConfig,
            },
            PollPhase::WritingAskpass => {
                let c = self.config.as_ref().unwrap();
                match event {
                    PollEvent::AskpassWritten(ok) => {
                        let a = Self::launch_for(c, ok);
                        self.phase = PollPhase::Launching;
                        self.askpass = ok;
                        a
                    },
                    _ => PollAction::WriteAskpass { script: make_askpass_script(c.password.as_str()) },
                }
            },
            PollPhase::Launching => {
                match event {
                    PollEvent::Launched(true) => {
                        self.phase = PollPhase::Streaming;
                        PollAction::ReadLine
                    },
                    PollEvent::Launched(false) => {
                        let had = self.askpass;
                        *self = GpuPoller {
                            phase: if had { PollPhase::RemovingAskpass } else { PollPhase::Idle },
                            config: None,
                            askpass: false,
                        };
                        if had {
                            PollAction::RemoveAskpass
                        } else {
                            PollAction::Wait { seconds: 5, reason: WaitReason::LaunchFailed }
                        }
                    },
                    _ => Self::launch_for(self.config.as_ref().unwrap(), self.askpass),
                }
            },
            PollPhase::Streaming => match event {
                PollEvent::StreamLine { exiting: false, line: Some(Ok(text)) } => {
                    match parse_gpu_usage(text.as_str()) {
                        Some(u) => {
                            self.phase = PollPhase::Publishing;
                            PollAction::Publish { usage: u }
                        },
                        None => PollAction::ReadLine,
                    }
                },
                PollEvent::StreamLine { .. } => {
                    let had = self.askpass;
                    *self = GpuPoller {
                        phase: PollPhase::EndingStream,
                        config: None,
                        askpass: false,
                    };
                    PollAction::EndStream { remove_askpass: had }
                },
                _ => PollAction::ReadLine,
            },
        }
    }
}

/// Law: once written, the password script is removed before the thread
/// pauses, stops or reads the configuration again. While it exists the thread
/// only starts ssh and reads its output; the step that forgets it asks the
/// driver to remove it.
pub proof fn law_askpass_removed_before_pause(s: PollerView, e: PollEventView)
    requires
        poller_wf(s),
    ensures
        ({
            let (s2, a) = poll_step(s, e);
            &&& s.askpass && !s2.askpass ==> (a == PollActionView::RemoveAskpass || a
                == PollActionView::EndStream { remove_askpass: true })
            &&& s2.askpass ==> !(a is Wait || a is Stop || a is CheckExit || a is LoadConfig
                || a is Disconnect)
        }),
{
}

/// Law: the thread publishes a load only for an output line that reads as a
/// number, publishes exactly that reading, and every published load is at
/// most 100 percent.
pub proof fn law_publish_reading(s: PollerView, e: PollEventView)
    ensures
        ({
            let (s2, a) = poll_step(s, e);
            a is Publish ==> ({
                &&& e matches PollEventView::StreamLine { exiting: false, line: Some(Ok(t)) }
                    && gpu_reading(t) == Some(a->usage as nat)
                &&& a->usage <= 100
            })
        }),
{
    let (s2, a) = poll_step(s, e);
    if a is Publish {
        if let PollEventView::StreamLine { exiting: false, line: Some(Ok(t)) } = e {
            lemma_reading_bound(t);
        }
    }
}

/// Law: the thread starts ssh only with a configuration whose host is set.
pub proof fn law_launch_needs_host(s: PollerView, e: PollEventView)
    requires
        poller_wf(s),
    ensures
        ({
            let (s2, a) = poll_step(s, e);
            a is Launch ==> (s2.config is Some && !host_unset(s2.config->0.host) && a
                == launch_action(s2.config->0, s2.askpass))
        }),
{
}

/// Law: every step keeps the poller in a well-formed state.
pub proof fn law_poller_wf_preserved(s: PollerView, e: PollEventView)
    requires
        poller_wf(s),
    ensures
        poller_wf(poll_step(s, e).0),
{
}

/// Law: a stopped poller stays stopped.
pub proof fn law_stopped_is_final(s: PollerView, e: PollEventView)
    requires
        s.phase == PollPhase::Stopped,
    ensures
        poll_step(s, e) == (s, PollActionView::Stop),
{
}

/// The phases in which ssh runs and its output is being read.
pub open spec fn reading_phase(p: PollPhase) -> bool {
    p == PollPhase::Streaming || p == PollPhase::Publishing
}

/// Law: the connection flag is set only by a published reading and is on
/// only while ssh runs and its output is read; so it is off at the start, at
/// each top of the loop, while the host is unset or ssh fails to start, and
/// after the output ends or fails. The flag starts off with a fresh poller,
/// which meets the requirement.
pub proof fn law_connected_only_while_reading(s: PollerView, e: PollEventView, connected: bool)
    requires
        poller_wf(s),
        connected ==> reading_phase(s.phase),
    ensures
        ({
            let (s2, a) = poll_step(s, e);
            &&& connection_after(connected, a) ==> reading_phase(s2.phase)
            &&& (connection_after(connected, a) && !connected) ==> a is Publish
            &&& !reading_phase(s2.phase) ==> !connection_after(connected, a)
        }),
{
}

/// Law: the published GPU load changes only to the reading of an output
/// line that reads as a number; lines that do not read as one, and every
/// other event, keep the last value.
pub proof fn law_usage_kept_until_reading(s: PollerView, e: PollEventView, usage: u32)
    ensures
        ({
            let (s2, a) = poll_step(s, e);
            ||| usage_after(usage, a) == usage
            ||| (e matches PollEventView::StreamLine { exiting: false, line: Some(Ok(t)) }
                && gpu_reading(t) == Some(usage_after(usage, a) as nat))
        }),
{
}

/// Law: the configuration that ssh is started with is the one just loaded,
/// field for field. Without a password the load itself starts ssh with it
/// and no password script; with a password the loaded password goes into
/// the script, and once the script is written (or could not be) ssh starts
/// with the loaded configuration, told about the script exactly when it was
/// written.
pub proof fn law_launch_uses_loaded_config(s: PollerView, c: SshConfigView, written: bool)
    requires
        s.phase == PollPhase::LoadingConfig,
        !host_unset(c.host),
    ensures
        ({
            let (s1, a1) = poll_step(s, PollEventView::ConfigLoaded(Ok(c)));
            let (s2, a2) = poll_step(s1, PollEventView::AskpassWritten(written));
            &&& s1.config == Some(c)
            &&& c.password.len() == 0 ==> a1 == (PollActionView::Launch {
                program: launch_plan(c, false).0,
                args: launch_plan(c, false).1,
                use_askpass: launch_plan(c, false).2,
            })
            &&& c.password.len() > 0 ==> a1 == (PollActionView::WriteAskpass {
                script: askpass_script(c.password),
            }) && a2 == (PollActionView::Launch {
                program: launch_plan(c, written).0,
                args: launch_plan(c, written).1,
                use_askpass: launch_plan(c, written).2,
            }) && s2.config == Some(c)
        }),
{
}

/// Law: no step alters the configuration the poller carries. A step keeps
/// it, forgets it, or (only on loading one) takes the loaded configuration
/// as it came.
pub proof fn law_config_carried_unchanged(s: PollerView, e: PollEventView)
    ensures
        ({
            let s2 = poll_step(s, e).0;
            ||| s2.config == s.config
            ||| s2.config is None
            ||| (s.phase == PollPhase::LoadingConfig && (e matches PollEventView::ConfigLoaded(
                Ok(c),
            ) && s2.config == Some(c)))
        }),
{
}

} // verus!
