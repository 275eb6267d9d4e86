//! The decisions of setting up the device's data directory: the data lives
//! in a directory of the user's choice, and `/data/rayhunter` becomes a
//! symbolic link to it. Data left by earlier installs is moved there:
//! - `/data/rayhunter` is a real directory: its contents move to the new place;
//! - it is a link to another directory: the data moves from that directory;
//! - it does not exist: only the link is made;
//! - it already links to the chosen directory: nothing is done.
//!
//! The setup is a state machine. Whoever drives it performs each action
//! (runs a shell command on the device, or prints progress) and hands back
//! what came of it; the machine answers with the next action until it
//! finishes.

use vstd::prelude::*;

use crate::connection::{
    parse_readlink_output, readlink_command, readlink_target, test_dir_command,
    test_symlink_command,
};
use crate::text::{concat3, contains_char, contains_seq, contains_str, same_text};

verus! {

/// Where the setup step stands.
#[derive(Clone, Copy, Debug, PartialEq, Eq, Structural)]
pub enum SetupPhase {
    /// Nothing has happened yet.
    Start,
    /// Asked whether the link path is a symbolic link.
    ProbedLink,
    /// Asked where the link points.
    ReadLink,
    /// Reported that the link already points to the data directory.
    AlreadyConfigured,
    /// Removed the old link.
    RemovedLink,
    /// Asked whether the old link target is a directory.
    ProbedTarget,
    /// Asked whether the link path is a real directory.
    ProbedRealDir,
    /// Asked whether the data directory exists too.
    ProbedDataDir,
    /// Announced that the daemon is being stopped.
    StopAnnounced,
    /// Stopped the daemon.
    Stopped,
    /// Reported the stop.
    StopReported,
    /// Announced the move of the old data.
    MoveAnnounced,
    /// Moved the old data.
    Moved,
    /// Reported the move.
    MoveReported,
    /// Made the data directory (no old data).
    MadeDataDir,
    /// Announced the link.
    LinkAnnounced,
    /// Made the parent of the link path.
    MadeParent,
    /// Made the link.
    Linked,
    /// Reported the link.
    LinkReported,
    /// Finished.
    Done,
}

/// What came of the last action.
#[derive(Debug)]
pub enum SetupEvent {
    /// A print was done (or the setup is starting).
    Continue,
    /// The command ran and printed this.
    Output(String),
    /// The command could not be run.
    Failed,
}

/// Why the setup stopped.
#[derive(Debug)]
pub enum SetupError {
    /// The data directory given is the link path itself.
    DataDirIsLinkPath,
    /// The data directory given contains an apostrophe, which the shell
    /// quoting of the commands cannot carry.
    DataDirHasApostrophe,
    /// The link's target could not be read from this output.
    UnexpectedReadlinkOutput(String),
    /// Both the link path and this data directory are real directories.
    BothDirectoriesExist(String),
    /// Moving the old data failed; the command printed `output`.
    MoveFailed { from: String, to: String, output: String },
    /// A command that the setup depends on could not be run.
    CommandFailed,
}

/// What to do next.
#[derive(Debug)]
pub enum SetupAction {
    /// Run this shell command on the device and report its output.
    Run(String),
    /// Print this text without ending the line.
    Print(String),
    /// Print this text as a line.
    PrintLine(String),
    /// The setup is over, with this result.
    Finish(Result<(), SetupError>),
}

pub enum EventView {
    Continue,
    Output(Seq<char>),
    Failed,
}

pub enum SetupErrorView {
    DataDirIsLinkPath,
    DataDirHasApostrophe,
    UnexpectedReadlinkOutput(Seq<char>),
    BothDirectoriesExist(Seq<char>),
    MoveFailed { from: Seq<char>, to: Seq<char>, output: Seq<char> },
    CommandFailed,
}

pub enum ActionView {
    Run(Seq<char>),
    Print(Seq<char>),
    PrintLine(Seq<char>),
    Finish(Result<(), SetupErrorView>),
}

impl View for SetupEvent {
    type V = EventView;

    open spec fn view(&self) -> EventView {
        match self {
            SetupEvent::Continue => EventView::Continue,
            SetupEvent::Output(o) => EventView::Output(o@),
            SetupEvent::Failed => EventView::Failed,
        }
    }
}

impl View for SetupError {
    type V = SetupErrorView;

    open spec fn view(&self) -> SetupErrorView {
        match self {
            SetupError::DataDirIsLinkPath => SetupErrorView::DataDirIsLinkPath,
            SetupError::DataDirHasApostrophe => SetupErrorView::DataDirHasApostrophe,
            SetupError::UnexpectedReadlinkOutput(o) => SetupErrorView::UnexpectedReadlinkOutput(o@),
            SetupError::BothDirectoriesExist(d) => SetupErrorView::BothDirectoriesExist(d@),
            SetupError::MoveFailed { from, to, output } => SetupErrorView::MoveFailed {
                from: from@,
                to: to@,
                output: output@,
            },
            SetupError::CommandFailed => SetupErrorView::CommandFailed,
        }
    }
}

impl View for SetupAction {
    type V = ActionView;

    open spec fn view(&self) -> ActionView {
        match self {
            SetupAction::Run(c) => ActionView::Run(c@),
            SetupAction::Print(t) => ActionView::Print(t@),
            SetupAction::PrintLine(t) => ActionView::PrintLine(t@),
            SetupAction::Finish(Ok(())) => ActionView::Finish(Ok(())),
            SetupAction::Finish(Err(e)) => ActionView::Finish(Err(e@)),
        }
    }
}

/// The setup of one data directory.
pub struct DataDirSetup {
    data_dir: String,
    phase: SetupPhase,
    source: String,
}

/// The setup's state: the chosen data directory, the phase, and where old
/// data was found (once known).
pub struct SetupState {
    pub data_dir: Seq<char>,
    pub phase: SetupPhase,
    pub source: Seq<char>,
}

impl View for DataDirSetup {
    type V = SetupState;

    closed spec fn view(&self) -> SetupState {
        SetupState { data_dir: self.data_dir@, phase: self.phase, source: self.source@ }
    }
}

/// The path that becomes the link to the data directory.
pub open spec fn link_path() -> Seq<char> {
    "/data/rayhunter"@
}

/// The command that stops the daemon, whatever its state.
pub open spec fn stop_daemon_command() -> Seq<char> {
    "/etc/init.d/rayhunter_daemon stop 2>/dev/null; true"@
}

pub open spec fn dir_probe(path: Seq<char>) -> Seq<char> {
    "test -d '"@ + path + "' && echo exists || echo missing"@
}

pub open spec fn mkdir_data_dir(d: Seq<char>) -> Seq<char> {
    "mkdir -p '"@ + d + "'"@
}

pub open spec fn move_command(from: Seq<char>, to: Seq<char>) -> Seq<char> {
    "mv '"@ + from + "' '"@ + to + "' && echo MV_OK"@
}

pub open spec fn link_command(d: Seq<char>) -> Seq<char> {
    "ln -sf '"@ + d + "' /data/rayhunter"@
}

pub open spec fn link_announcement(d: Seq<char>) -> Seq<char> {
    "Creating symlink /data/rayhunter -> "@ + d + " ... "@
}

/// The event is output that holds `marker`.
pub open spec fn output_says(ev: EventView, marker: Seq<char>) -> bool {
    match ev {
        EventView::Output(o) => contains_seq(o, marker),
        _ => false,
    }
}

pub open spec fn goto(st: SetupState, phase: SetupPhase, a: ActionView) -> (SetupState, ActionView) {
    (SetupState { phase, ..st }, a)
}

pub open spec fn fail(st: SetupState) -> (SetupState, ActionView) {
    goto(st, SetupPhase::Done, ActionView::Finish(Err(SetupErrorView::CommandFailed)))
}

/// One step of the setup: from the state and what came of the last action,
/// the next state and action.
pub open spec fn setup_step(st: SetupState, ev: EventView) -> (SetupState, ActionView) {
    let d = st.data_dir;
    match st.phase {
        SetupPhase::Start => if d == link_path() {
            goto(st, SetupPhase::Done, ActionView::Finish(Err(SetupErrorView::DataDirIsLinkPath)))
        } else if d.contains('\'') {
            goto(
                st,
                SetupPhase::Done,
                ActionView::Finish(Err(SetupErrorView::DataDirHasApostrophe)),
            )
        } else {
            goto(
                st,
                SetupPhase::ProbedLink,
                ActionView::Run("test -L '"@ + link_path() + "' && echo yes || echo no"@),
            )
        },
        SetupPhase::ProbedLink => if output_says(ev, "yes"@) {
            goto(
                st,
                SetupPhase::ReadLink,
                ActionView::Run("echo RL:$(readlink '"@ + link_path() + "')"@),
            )
        } else {
            goto(st, SetupPhase::ProbedRealDir, ActionView::Run(dir_probe(link_path())))
        },
        SetupPhase::ReadLink => match ev {
            EventView::Output(o) => match readlink_target(o) {
                None => goto(
                    st,
                    SetupPhase::Done,
                    ActionView::Finish(Err(SetupErrorView::UnexpectedReadlinkOutput(o))),
                ),
                Some(t) => if t == d {
                    goto(
                        st,
                        SetupPhase::AlreadyConfigured,
                        ActionView::PrintLine("Data directory already configured at "@ + d),
                    )
                } else {
                    (
                        SetupState { phase: SetupPhase::RemovedLink, source: t, ..st },
                        ActionView::Run("rm -f /data/rayhunter"@),
                    )
                },
            },
            _ => fail(st),
        },
        SetupPhase::AlreadyConfigured => goto(st, SetupPhase::Done, ActionView::Finish(Ok(()))),
        SetupPhase::RemovedLink => match ev {
            EventView::Output(_) => goto(
                st,
                SetupPhase::ProbedTarget,
                ActionView::Run(dir_probe(st.source)),
            ),
            _ => fail(st),
        },
        SetupPhase::ProbedTarget => if output_says(ev, "exists"@) {
            goto(
                st,
                SetupPhase::StopAnnounced,
                ActionView::Print("Stopping rayhunter-daemon ... "@),
            )
        } else {
            goto(st, SetupPhase::MadeDataDir, ActionView::Run(mkdir_data_dir(d)))
        },
        SetupPhase::ProbedRealDir => if output_says(ev, "exists"@) {
            goto(st, SetupPhase::ProbedDataDir, ActionView::Run(dir_probe(d)))
        } else {
            goto(st, SetupPhase::MadeDataDir, ActionView::Run(mkdir_data_dir(d)))
        },
        SetupPhase::ProbedDataDir => if output_says(ev, "exists"@) {
            goto(
                st,
                SetupPhase::Done,
                ActionView::Finish(Err(SetupErrorView::BothDirectoriesExist(d))),
            )
        } else {
            (
                SetupState { phase: SetupPhase::StopAnnounced, source: link_path(), ..st },
                ActionView::Print("Stopping rayhunter-daemon ... "@),
            )
        },
        SetupPhase::StopAnnounced => goto(
            st,
            SetupPhase::Stopped,
            ActionView::Run(stop_daemon_command()),
        ),
        SetupPhase::Stopped => goto(st, SetupPhase::StopReported, ActionView::PrintLine("ok"@)),
        SetupPhase::StopReported => goto(
            st,
            SetupPhase::MoveAnnounced,
            ActionView::Print("Migrating data from "@ + st.source + " to "@ + d + " ... "@),
        ),
        SetupPhase::MoveAnnounced => goto(
            st,
            SetupPhase::Moved,
            ActionView::Run(move_command(st.source, d)),
        ),
        SetupPhase::Moved => match ev {
            EventView::Output(o) => if contains_seq(o, "MV_OK"@) {
                goto(st, SetupPhase::MoveReported, ActionView::PrintLine("ok"@))
            } else {
                goto(
                    st,
                    SetupPhase::Done,
                    ActionView::Finish(
                        Err(SetupErrorView::MoveFailed { from: st.source, to: d, output: o }),
                    ),
                )
            },
            _ => fail(st),
        },
        SetupPhase::MoveReported => goto(
            st,
            SetupPhase::LinkAnnounced,
            ActionView::Print(link_announcement(d)),
        ),
        SetupPhase::MadeDataDir => match ev {
            EventView::Output(_) => goto(
                st,
                SetupPhase::LinkAnnounced,
                ActionView::Print(link_announcement(d)),
            ),
            _ => fail(st),
        },
        SetupPhase::LinkAnnounced => goto(
            st,
            SetupPhase::MadeParent,
            ActionView::Run("mkdir -p /data"@),
        ),
        SetupPhase::MadeParent => match ev {
            EventView::Output(_) => goto(st, SetupPhase::Linked, ActionView::Run(link_command(d))),
            _ => fail(st),
        },
        SetupPhase::Linked => match ev {
            EventView::Output(_) => goto(st, SetupPhase::LinkReported, ActionView::PrintLine("ok"@)),
            _ => fail(st),
        },
        SetupPhase::LinkReported => goto(st, SetupPhase::Done, ActionView::Finish(Ok(()))),
        SetupPhase::Done => goto(st, SetupPhase::Done, ActionView::Finish(Ok(()))),
    }
}

impl DataDirSetup {
    /// A setup that will put the data in `data_dir`.
    pub fn new(data_dir: &str) -> (r: DataDirSetup)
        ensures
            r@ == (SetupState {
                data_dir: data_dir@,
                phase: SetupPhase::Start,
                source: Seq::<char>::empty(),
            }),
    {
        DataDirSetup {
            data_dir: String::from_str(data_dir),
            phase: SetupPhase::Start,
            source: String::new(),
        }
    }

    /// The setup has finished.
    pub fn is_done(&self) -> (b: bool)
        ensures
            b == (self@.phase == SetupPhase::Done),
    {
        self.phase == SetupPhase::Done
    }

    fn goto(&mut self, phase: SetupPhase, a: SetupAction) -> (r: SetupAction)
        ensures
            (final(self)@, r@) == goto(old(self)@, phase, a@),
    {
        self.phase = phase;
        a
    }

    fn dir_probe(path: &str) -> (r: String)
        ensures
            r@ == dir_probe(path@),
    {
        test_dir_command(path)
    }

    /// Takes what came of the last action and gives the next one.
    pub fn step(&mut self, event: SetupEvent) -> (a: SetupAction)
        requires
            old(self)@.phase != SetupPhase::Done,
        ensures
            (final(self)@, a@) == setup_step(old(self)@, event@),
    {
        let ghost ev = event@;
        proof {
            reveal_strlit("");
        }
        let said = |marker: &str| -> (b: bool)
            ensures
                b == output_says(ev, marker@),
            {
                match &event {
                    SetupEvent::Output(o) => contains_str(o.as_str(), marker),
                    _ => false,
                }
            };
        match self.phase {
            SetupPhase::Start => {
                if same_text(self.data_dir.as_str(), "/data/rayhunter") {
                    self.goto(SetupPhase::Done, SetupAction::Finish(Err(SetupError::DataDirIsLinkPath)))
                } else if contains_char(self.data_dir.as_str(), '\'') {
                    self.goto(
                        SetupPhase::Done,
                        SetupAction::Finish(Err(SetupError::DataDirHasApostrophe)),
                    )
                } else {
                    let c = test_symlink_command("/data/rayhunter");
                    self.goto(SetupPhase::ProbedLink, SetupAction::Run(c))
                }
            },
            SetupPhase::ProbedLink => {
                if said("yes") {
                    let c = readlink_command("/data/rayhunter");
                    self.goto(SetupPhase::ReadLink, SetupAction::Run(c))
                } else {
                    let c = Self::dir_probe("/data/rayhunter");
                    self.goto(SetupPhase::ProbedRealDir, SetupAction::Run(c))
                }
            },
            SetupPhase::ReadLink => match event {
                SetupEvent::Output(o) => match parse_readlink_output(o.as_str()) {
                    None => self.goto(
                        SetupPhase::Done,
                        SetupAction::Finish(Err(SetupError::UnexpectedReadlinkOutput(o))),
                    ),
                    Some(t) => {
                        if same_text(t.as_str(), self.data_dir.as_str()) {
                            let m = concat3(
                                "Data directory already configured at ",
                                self.data_dir.as_str(),
                                "",
                            );
                            self.goto(SetupPhase::AlreadyConfigured, SetupAction::PrintLine(m))
                        } else {
                            self.source = t;
                            self.goto(
                                SetupPhase::RemovedLink,
                                SetupAction::Run(String::from_str("rm -f /data/rayhunter")),
                            )
                        }
                    },
                },
                _ => self.goto(SetupPhase::Done, SetupAction::Finish(Err(SetupError::CommandFailed))),
            },
            SetupPhase::AlreadyConfigured => self.goto(SetupPhase::Done, SetupAction::Finish(Ok(()))),
            SetupPhase::RemovedLink => match event {
                SetupEvent::Output(_) => {
                    let c = Self::dir_probe(self.source.as_str());
                    self.goto(SetupPhase::ProbedTarget, SetupAction::Run(c))
                },
                _ => self.goto(SetupPhase::Done, SetupAction::Finish(Err(SetupError::CommandFailed))),
            },
            SetupPhase::ProbedTarget => {
                if said("exists") {
                    self.goto(
                        SetupPhase::StopAnnounced,
                        SetupAction::Print(String::from_str("Stopping rayhunter-daemon ... ")),
                    )
                } else {
                    let c = concat3("mkdir -p '", self.data_dir.as_str(), "'");
                    self.goto(SetupPhase::MadeDataDir, SetupAction::Run(c))
                }
            },
            SetupPhase::ProbedRealDir => {
                if said("exists") {
                    let c = Self::dir_probe(self.data_dir.as_str());
                    self.goto(SetupPhase::ProbedDataDir, SetupAction::Run(c))
                } else {
                    let c = concat3("mkdir -p '", self.data_dir.as_str(), "'");
                    self.goto(SetupPhase::MadeDataDir, SetupAction::Run(c))
                }
            },
            SetupPhase::ProbedDataDir => {
                if said("exists") {
                    let d = self.data_dir.clone();
                    self.goto(
                        SetupPhase::Done,
                        SetupAction::Finish(Err(SetupError::BothDirectoriesExist(d))),
                    )
                } else {
                    self.source = String::from_str("/data/rayhunter");
                    self.goto(
                        SetupPhase::StopAnnounced,
                        SetupAction::Print(String::from_str("Stopping rayhunter-daemon ... ")),
                    )
                }
            },
            SetupPhase::StopAnnounced => self.goto(
                SetupPhase::Stopped,
                SetupAction::Run(String::from_str("/etc/init.d/rayhunter_daemon stop 2>/dev/null; true")),
            ),
            SetupPhase::Stopped => self.goto(
                SetupPhase::StopReported,
                SetupAction::PrintLine(String::from_str("ok")),
            ),
            SetupPhase::StopReported => {
                let mut m = concat3("Migrating data from ", self.source.as_str(), " to ");
                m.append(self.data_dir.as_str());
                m.append(" ... ");
                self.goto(SetupPhase::MoveAnnounced, SetupAction::Print(m))
            },
            SetupPhase::MoveAnnounced => {
                let mut c = concat3("mv '", self.source.as_str(), "' '");
                c.append(self.data_dir.as_str());
                c.append("' && echo MV_OK");
                self.goto(SetupPhase::Moved, SetupAction::Run(c))
            },
            SetupPhase::Moved => match event {
                SetupEvent::Output(o) => {
                    if contains_str(o.as_str(), "MV_OK") {
                        self.goto(SetupPhase::MoveReported, SetupAction::PrintLine(String::from_str("ok")))
                    } else {
                        let from = self.source.clone();
                        let to = self.data_dir.clone();
                        self.goto(
                            SetupPhase::Done,
                            SetupAction::Finish(Err(SetupError::MoveFailed { from, to, output: o })),
                        )
                    }
                },
                _ => self.goto(SetupPhase::Done, SetupAction::Finish(Err(SetupError::CommandFailed))),
            },
            SetupPhase::MoveReported => {
                let m = concat3("Creating symlink /data/rayhunter -> ", self.data_dir.as_str(), " ... ");
                self.goto(SetupPhase::LinkAnnounced, SetupAction::Print(m))
            },
            SetupPhase::MadeDataDir => match event {
                SetupEvent::Output(_) => {
                    let m = concat3(
                        "Creating symlink /data/rayhunter -> ",
                        self.data_dir.as_str(),
                        " ... ",
                    );
                    self.goto(SetupPhase::LinkAnnounced, SetupAction::Print(m))
                },
                _ => self.goto(SetupPhase::Done, SetupAction::Finish(Err(SetupError::CommandFailed))),
            },
            SetupPhase::LinkAnnounced => self.goto(
                SetupPhase::MadeParent,
                SetupAction::Run(String::from_str("mkdir -p /data")),
            ),
            SetupPhase::MadeParent => match event {
                SetupEvent::Output(_) => {
                    let c = concat3("ln -sf '", self.data_dir.as_str(), "' /data/rayhunter");
                    self.goto(SetupPhase::Linked, SetupAction::Run(c))
                },
                _ => self.goto(SetupPhase::Done, SetupAction::Finish(Err(SetupError::CommandFailed))),
            },
            SetupPhase::Linked => match event {
                SetupEvent::Output(_) => self.goto(
                    SetupPhase::LinkReported,
                    SetupAction::PrintLine(String::from_str("ok")),
                ),
                _ => self.goto(SetupPhase::Done, SetupAction::Finish(Err(SetupError::CommandFailed))),
            },
            SetupPhase::LinkReported => self.goto(SetupPhase::Done, SetupAction::Finish(Ok(()))),
            SetupPhase::Done => self.goto(SetupPhase::Done, SetupAction::Finish(Ok(()))),
        }
    }
}

} // verus!
