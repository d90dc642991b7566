//! Bringing a local network up through the external launch tool, step by
//! step.
//!
//! The launcher does not touch the file system, run the tool or sleep. It
//! tells its caller what to do, and the caller reports what happened. The
//! working directory is removed first, whether or not that works, and made
//! anew; the data directory is made where it is missing; only then the tool
//! is run; and after it has returned the network is left to settle. A
//! directory that cannot be made, or a complaint of the tool, ends the
//! launch.

use crate::launch::{
    launch_plan, no_data_dir_prefix, no_work_dir_prefix, plan_launch, plan_text, user_home,
    work_dir, LaunchPlan, LaunchSettings, PlanView, SettingsView, SETTLE_FACTOR,
};
use crate::text::{outcome_text, text_of, texts};
use vstd::prelude::*;

verus! {

/// Where a launch stands.
#[derive(Clone, Copy, Debug, PartialEq, Eq, Structural)]
pub enum LaunchPhase {
    /// Nothing was asked for yet.
    Idle,
    /// The working directory is being removed.
    RemovingWorkDir,
    /// The working directory is being made.
    CreatingWorkDir,
    /// The caller looks whether the data directory exists.
    CheckingDataDir,
    /// The data directory is being made.
    CreatingDataDir,
    /// The launch tool runs.
    RunningTool,
    /// The network is left to settle.
    Settling,
    /// The launch has succeeded.
    Done,
    /// The launch has failed.
    Failed,
}

/// What the caller reports to the launcher.
#[derive(Debug)]
pub enum LaunchEvent {
    /// The launch is to begin.
    Start,
    /// The directory was removed, or why it could not be.
    DirRemoved { outcome: Result<(), String> },
    /// The directory was made, or why it could not be.
    DirCreated { outcome: Result<(), String> },
    /// Whether the directory exists.
    DirChecked { exists: bool },
    /// The launch tool has returned, with its complaint if it had one.
    ToolReturned { outcome: Result<(), String> },
    /// The time to settle has passed.
    Settled,
}

/// What the caller reports to the launcher, with messages as text.
pub enum LaunchEventView {
    Start,
    DirRemoved,
    DirCreated { outcome: Result<(), Seq<char>> },
    DirChecked { exists: bool },
    ToolReturned { outcome: Result<(), Seq<char>> },
    Settled,
}

impl View for LaunchEvent {
    type V = LaunchEventView;

    open spec fn view(&self) -> LaunchEventView {
        match self {
            LaunchEvent::Start => LaunchEventView::Start,
            LaunchEvent::DirRemoved { .. } => LaunchEventView::DirRemoved,
            LaunchEvent::DirCreated { outcome } => LaunchEventView::DirCreated {
                outcome: outcome_text(*outcome),
            },
            LaunchEvent::DirChecked { exists } => LaunchEventView::DirChecked { exists: *exists },
            LaunchEvent::ToolReturned { outcome } => LaunchEventView::ToolReturned {
                outcome: outcome_text(*outcome),
            },
            LaunchEvent::Settled => LaunchEventView::Settled,
        }
    }
}

/// What the launcher asks its caller to do next.
#[derive(Debug)]
pub enum LaunchAction {
    /// Remove the directory with all it holds. Then report `DirRemoved`,
    /// however it went.
    RemoveDir { path: String },
    /// Make the directory and those above it. Then report `DirCreated`.
    CreateDir { path: String },
    /// Look whether the directory exists. Then report `DirChecked`.
    CheckDir { path: String },
    /// Call the launch tool with this command line, its name first. Then
    /// report `ToolReturned`.
    RunTool { command_line: Vec<String> },
    /// Let this many seconds pass. Then report `Settled`.
    Settle { seconds: u64 },
    /// Nothing: the launch has succeeded.
    Finish,
    /// Give up with this message: the launch has failed.
    Fail { message: String },
    /// Nothing: the event reported was not the one awaited.
    Rejected,
}

/// What the launcher asks its caller to do next, with all strings as text.
pub enum LaunchActionView {
    RemoveDir { path: Seq<char> },
    CreateDir { path: Seq<char> },
    CheckDir { path: Seq<char> },
    RunTool { command_line: Seq<Seq<char>> },
    Settle { seconds: nat },
    Finish,
    Fail { message: Seq<char> },
    Rejected,
}

impl View for LaunchAction {
    type V = LaunchActionView;

    open spec fn view(&self) -> LaunchActionView {
        match self {
            LaunchAction::RemoveDir { path } => LaunchActionView::RemoveDir { path: path@ },
            LaunchAction::CreateDir { path } => LaunchActionView::CreateDir { path: path@ },
            LaunchAction::CheckDir { path } => LaunchActionView::CheckDir { path: path@ },
            LaunchAction::RunTool { command_line } => LaunchActionView::RunTool {
                command_line: texts(command_line@),
            },
            LaunchAction::Settle { seconds } => LaunchActionView::Settle {
                seconds: *seconds as nat,
            },
            LaunchAction::Finish => LaunchActionView::Finish,
            LaunchAction::Fail { message } => LaunchActionView::Fail { message: message@ },
            LaunchAction::Rejected => LaunchActionView::Rejected,
        }
    }
}

/// The state of a launch.
pub struct LauncherView {
    /// The settings of the launch.
    pub settings: SettingsView,
    /// The home directory of the user, where there is one.
    pub home: Option<Seq<char>>,
    /// Where the launch stands.
    pub phase: LaunchPhase,
}

impl LauncherView {
    /// What the launch needs, or the message that says why that cannot be
    /// worked out.
    pub open spec fn plan(self) -> Result<PlanView, Seq<char>> {
        launch_plan(self.settings, self.home)
    }

    /// What holds of every state that a launch can reach: once the launch
    /// is past the working directory and has not failed, there is a plan.
    pub open spec fn inv(self) -> bool {
        match self.phase {
            LaunchPhase::Idle
            | LaunchPhase::RemovingWorkDir
            | LaunchPhase::CreatingWorkDir
            | LaunchPhase::Failed => true,
            _ => self.plan() is Ok,
        }
    }

    /// The launch in the given phase, all else the same.
    pub open spec fn at(self, phase: LaunchPhase) -> LauncherView {
        LauncherView { phase, ..self }
    }

    /// The failed launch, and the request to give up with `message`.
    pub open spec fn fail(self, message: Seq<char>) -> (LauncherView, LaunchActionView) {
        (self.at(LaunchPhase::Failed), LaunchActionView::Fail { message })
    }
}

/// The state that follows `state` on `event`, and what the caller is asked
/// to do then.
///
/// How the removal of the working directory went does not matter: a
/// directory that cannot be removed is most often one that is not there.
pub open spec fn launch_next(state: LauncherView, event: LaunchEventView) -> (
    LauncherView,
    LaunchActionView,
) {
    match (state.phase, event) {
        (LaunchPhase::Idle, LaunchEventView::Start) => (
            state.at(LaunchPhase::RemovingWorkDir),
            LaunchActionView::RemoveDir { path: work_dir() },
        ),
        (LaunchPhase::RemovingWorkDir, LaunchEventView::DirRemoved) => (
            state.at(LaunchPhase::CreatingWorkDir),
            LaunchActionView::CreateDir { path: work_dir() },
        ),
        (LaunchPhase::CreatingWorkDir, LaunchEventView::DirCreated { outcome }) => match outcome {
            Err(cause) => state.fail(no_work_dir_prefix() + cause),
            Ok(()) => match state.plan() {
                Ok(plan) => (
                    state.at(LaunchPhase::CheckingDataDir),
                    LaunchActionView::CheckDir { path: plan.data_dir },
                ),
                Err(message) => state.fail(message),
            },
        },
        (
            LaunchPhase::CheckingDataDir,
            LaunchEventView::DirChecked { exists },
        ) => match state.plan() {
            Ok(plan) => if exists {
                (
                    state.at(LaunchPhase::RunningTool),
                    LaunchActionView::RunTool { command_line: plan.command_line },
                )
            } else {
                (
                    state.at(LaunchPhase::CreatingDataDir),
                    LaunchActionView::CreateDir { path: plan.data_dir },
                )
            },
            Err(message) => state.fail(message),
        },
        (LaunchPhase::CreatingDataDir, LaunchEventView::DirCreated { outcome }) => match outcome {
            Err(cause) => state.fail(no_data_dir_prefix() + cause),
            Ok(()) => match state.plan() {
                Ok(plan) => (
                    state.at(LaunchPhase::RunningTool),
                    LaunchActionView::RunTool { command_line: plan.command_line },
                ),
                Err(message) => state.fail(message),
            },
        },
        (LaunchPhase::RunningTool, LaunchEventView::ToolReturned { outcome }) => match outcome {
            Err(complaint) => state.fail(complaint),
            Ok(()) => match state.plan() {
                Ok(plan) => (
                    state.at(LaunchPhase::Settling),
                    LaunchActionView::Settle { seconds: plan.settle_secs },
                ),
                Err(message) => state.fail(message),
            },
        },
        (LaunchPhase::Settling, LaunchEventView::Settled) => (
            state.at(LaunchPhase::Done),
            LaunchActionView::Finish,
        ),
        _ => (state, LaunchActionView::Rejected),
    }
}

/// A launch through the external launch tool.
#[derive(Debug)]
pub struct Launcher {
    settings: LaunchSettings,
    home: Option<String>,
    phase: LaunchPhase,
}

impl View for Launcher {
    type V = LauncherView;

    closed spec fn view(&self) -> LauncherView {
        LauncherView { settings: self.settings@, home: text_of(self.home), phase: self.phase }
    }
}

impl Launcher {
    /// A launch, not yet begun, for a user with the given home directory.
    pub fn with_home(settings: LaunchSettings, home: Option<String>) -> (launcher: Self)
        ensures
            launcher@ == (LauncherView {
                settings: settings@,
                home: text_of(home),
                phase: LaunchPhase::Idle,
            }),
    {
        Launcher { settings, home, phase: LaunchPhase::Idle }
    }

    /// A launch, not yet begun, for the user who runs the process.
    pub fn new(settings: LaunchSettings) -> (launcher: Self)
        ensures
            launcher@.settings == settings@,
            launcher@.phase == LaunchPhase::Idle,
    {
        let home = user_home();
        Launcher::with_home(settings, home)
    }

    /// Where the launch stands.
    pub fn phase(&self) -> (phase: LaunchPhase)
        ensures
            phase == self@.phase,
    {
        self.phase
    }

    /// The settings of the launch.
    pub fn settings(&self) -> (settings: &LaunchSettings)
        ensures
            settings@ == self@.settings,
    {
        &self.settings
    }

    /// What the launch needs, or the message that says why that cannot be
    /// worked out.
    pub fn plan(&self) -> (plan: Result<LaunchPlan, String>)
        ensures
            plan_text(plan) == self@.plan(),
    {
        let home = match &self.home {
            Some(home) => Some(home.clone()),
            None => None,
        };
        plan_launch(&self.settings, home)
    }

    fn fail(&mut self, message: String) -> (action: LaunchAction)
        ensures
            (final(self)@, action@) == old(self)@.fail(message@),
    {
        self.phase = LaunchPhase::Failed;
        LaunchAction::Fail { message }
    }

    /// Takes in what the caller reports and says what to do next.
    pub fn step(&mut self, event: LaunchEvent) -> (action: LaunchAction)
        ensures
            (final(self)@, action@) == launch_next(old(self)@, event@),
    {
        match self.phase {
            LaunchPhase::Idle => match event {
                LaunchEvent::Start => {
                    self.phase = LaunchPhase::RemovingWorkDir;
                    LaunchAction::RemoveDir { path: "nodes".to_owned() }
                },
                _ => LaunchAction::Rejected,
            },
            LaunchPhase::RemovingWorkDir => match event {
                LaunchEvent::DirRemoved { .. } => {
                    self.phase = LaunchPhase::CreatingWorkDir;
                    LaunchAction::CreateDir { path: "nodes".to_owned() }
                },
                _ => LaunchAction::Rejected,
            },
            LaunchPhase::CreatingWorkDir => match event {
                LaunchEvent::DirCreated { outcome } => match outcome {
                    Err(cause) => {
                        let message = "Cannot create nodes directory: ".to_owned().concat(
                            cause.as_str(),
                        );
                        self.fail(message)
                    },
                    Ok(()) => match self.plan() {
                        Ok(plan) => {
                            self.phase = LaunchPhase::CheckingDataDir;
                            LaunchAction::CheckDir { path: plan.data_dir }
                        },
                        Err(message) => self.fail(message),
                    },
                },
                _ => LaunchAction::Rejected,
            },
            LaunchPhase::CheckingDataDir => match event {
                LaunchEvent::DirChecked { exists } => match self.plan() {
                    Ok(plan) => if exists {
                        self.phase = LaunchPhase::RunningTool;
                        LaunchAction::RunTool { command_line: plan.command_line }
                    } else {
                        self.phase = LaunchPhase::CreatingDataDir;
                        LaunchAction::CreateDir { path: plan.data_dir }
                    },
                    Err(message) => self.fail(message),
                },
                _ => LaunchAction::Rejected,
            },
            LaunchPhase::CreatingDataDir => match event {
                LaunchEvent::DirCreated { outcome } => match outcome {
                    Err(cause) => {
                        let prefix = "Couldn't create target path to store nodes' generated data: ";
                        let message = prefix.to_owned().concat(cause.as_str());
                        self.fail(message)
                    },
                    Ok(()) => match self.plan() {
                        Ok(plan) => {
                            self.phase = LaunchPhase::RunningTool;
                            LaunchAction::RunTool { command_line: plan.command_line }
                        },
                        Err(message) => self.fail(message),
                    },
                },
                _ => LaunchAction::Rejected,
            },
            LaunchPhase::RunningTool => match event {
                LaunchEvent::ToolReturned { outcome } => match outcome {
                    Err(complaint) => self.fail(complaint),
                    Ok(()) => match self.plan() {
                        Ok(plan) => {
                            self.phase = LaunchPhase::Settling;
                            LaunchAction::Settle { seconds: plan.settle_secs }
                        },
                        Err(message) => self.fail(message),
                    },
                },
                _ => LaunchAction::Rejected,
            },
            LaunchPhase::Settling => match event {
                LaunchEvent::Settled => {
                    self.phase = LaunchPhase::Done;
                    LaunchAction::Finish
                },
                _ => LaunchAction::Rejected,
            },
            LaunchPhase::Done => LaunchAction::Rejected,
            LaunchPhase::Failed => LaunchAction::Rejected,
        }
    }
}

/// A step keeps what holds of every reachable state, and changes neither
/// the settings nor the home directory.
pub proof fn lemma_launch_keeps_inv(state: LauncherView, event: LaunchEventView)
    requires
        state.inv(),
    ensures
        launch_next(state, event).0.inv(),
        launch_next(state, event).0.settings == state.settings,
        launch_next(state, event).0.home == state.home,
{
}

/// The tool is run only once the data directory is there: because the
/// caller found it, or because the caller made it. And it is run with the
/// command line of the plan.
pub proof fn lemma_tool_after_data_dir(state: LauncherView, event: LaunchEventView)
    requires
        state.inv(),
        launch_next(state, event).1 is RunTool,
    ensures
        (state.phase == LaunchPhase::CheckingDataDir && event == (LaunchEventView::DirChecked {
            exists: true,
        })) || (state.phase == LaunchPhase::CreatingDataDir && event is DirCreated
            && event->DirCreated_outcome is Ok),
        state.plan() is Ok,
        launch_next(state, event).1->command_line == state.plan()->Ok_0.command_line,
        launch_next(state, event).0.phase == LaunchPhase::RunningTool,
{
}

/// The launch succeeds only by the time to settle having passed, and that
/// time is asked for only when the tool has returned without complaint: the
/// interval between two nodes, `SETTLE_FACTOR` times.
pub proof fn lemma_settle_after_tool(state: LauncherView, event: LaunchEventView)
    requires
        state.inv(),
    ensures
        launch_next(state, event).1 is Finish <==> state.phase == LaunchPhase::Settling && event
            == LaunchEventView::Settled,
        launch_next(state, event).0.phase == LaunchPhase::Done && state.phase != LaunchPhase::Done
            ==> launch_next(state, event).1 is Finish,
        launch_next(state, event).1 is Settle <==> state.phase == LaunchPhase::RunningTool
            && event is ToolReturned && event->ToolReturned_outcome is Ok,
        launch_next(state, event).1 is Settle ==> launch_next(state, event).1->seconds
            == state.settings.interval * (SETTLE_FACTOR as nat),
{
}

/// A launch that has failed or succeeded asks for nothing more; so where a
/// launch fails before the tool is run, the tool is never run.
pub proof fn lemma_launch_end_is_final(state: LauncherView, event: LaunchEventView)
    requires
        state.phase == LaunchPhase::Failed || state.phase == LaunchPhase::Done,
    ensures
        launch_next(state, event) == (state, LaunchActionView::Rejected),
{
}

/// The working directory is removed and made anew before anything else is
/// asked for. How the removal went makes no difference; a working
/// directory that cannot be made ends the launch.
pub proof fn lemma_reset_comes_first(state: LauncherView, event: LaunchEventView)
    ensures
        state.phase == LaunchPhase::Idle ==> launch_next(state, event) == if event is Start {
            (
                state.at(LaunchPhase::RemovingWorkDir),
                LaunchActionView::RemoveDir { path: work_dir() },
            )
        } else {
            (state, LaunchActionView::Rejected)
        },
        state.phase == LaunchPhase::RemovingWorkDir ==> launch_next(state, event)
            == if event is DirRemoved {
            (
                state.at(LaunchPhase::CreatingWorkDir),
                LaunchActionView::CreateDir { path: work_dir() },
            )
        } else {
            (state, LaunchActionView::Rejected)
        },
        state.phase == LaunchPhase::CreatingWorkDir && launch_next(state, event).0.phase
            == LaunchPhase::CheckingDataDir ==> event is DirCreated
            && event->DirCreated_outcome is Ok,
        state.phase == LaunchPhase::CreatingWorkDir && event is DirCreated
            && event->DirCreated_outcome is Err ==> launch_next(state, event) == state.fail(
            no_work_dir_prefix() + event->DirCreated_outcome->Err_0,
        ),
{
}

} // verus!
