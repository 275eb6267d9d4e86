//! What holds of every run of the data-directory setup.

use vstd::prelude::*;

use crate::connection::readlink_target;
use crate::setup::{setup_step, ActionView, EventView, SetupErrorView, SetupPhase, SetupState};
use crate::text::contains_seq;

verus! {

/// The state a setup for `d` starts in.
pub open spec fn initial(d: Seq<char>) -> SetupState {
    SetupState { data_dir: d, phase: SetupPhase::Start, source: Seq::<char>::empty() }
}

/// The most steps that can remain from a phase before the setup finishes.
pub open spec fn steps_left(p: SetupPhase) -> nat {
    match p {
        SetupPhase::Start => 15,
        SetupPhase::ProbedLink => 14,
        SetupPhase::ReadLink => 13,
        SetupPhase::RemovedLink => 12,
        SetupPhase::ProbedRealDir => 12,
        SetupPhase::ProbedTarget => 11,
        SetupPhase::ProbedDataDir => 11,
        SetupPhase::StopAnnounced => 10,
        SetupPhase::Stopped => 9,
        SetupPhase::StopReported => 8,
        SetupPhase::MoveAnnounced => 7,
        SetupPhase::Moved => 6,
        SetupPhase::MoveReported => 5,
        SetupPhase::MadeDataDir => 5,
        SetupPhase::LinkAnnounced => 4,
        SetupPhase::MadeParent => 3,
        SetupPhase::Linked => 2,
        SetupPhase::LinkReported => 1,
        SetupPhase::AlreadyConfigured => 1,
        SetupPhase::Done => 0,
    }
}

/// The state after feeding `events` to the setup one by one, stopping once
/// it has finished.
pub open spec fn run(st: SetupState, events: Seq<EventView>) -> SetupState
    decreases events.len(),
{
    if events.len() == 0 || st.phase == SetupPhase::Done {
        st
    } else {
        run(setup_step(st, events[0]).0, events.drop_first())
    }
}

/// Every step of an unfinished setup moves it closer to the end, keeps the
/// chosen data directory, and ends it exactly when the action is a `Finish`.
pub proof fn law_step_progresses(st: SetupState, ev: EventView)
    requires
        st.phase != SetupPhase::Done,
    ensures
        steps_left(setup_step(st, ev).0.phase) < steps_left(st.phase),
        setup_step(st, ev).0.data_dir == st.data_dir,
        (setup_step(st, ev).0.phase == SetupPhase::Done) <==> (setup_step(st, ev).1 is Finish),
{
}

/// Whatever the device answers, the setup finishes within fifteen steps.
pub proof fn law_setup_finishes(st: SetupState, events: Seq<EventView>)
    requires
        events.len() >= steps_left(st.phase),
    ensures
        run(st, events).phase == SetupPhase::Done,
    decreases events.len(),
{
    if st.phase != SetupPhase::Done {
        law_step_progresses(st, events[0]);
        law_setup_finishes(setup_step(st, events[0]).0, events.drop_first());
    }
}

/// A data directory that is the link path itself, or that holds an
/// apostrophe, is refused before any command is run; any other data
/// directory gets past the first step, and from then on the commands quote
/// it safely: it holds no apostrophe.
pub proof fn law_data_dir_checked_first(d: Seq<char>, ev: EventView)
    ensures
        (d == "/data/rayhunter"@ || d.contains('\'')) ==> (setup_step(initial(d), ev).0.phase
            == SetupPhase::Done && setup_step(initial(d), ev).1 matches ActionView::Finish(Err(_))),
        setup_step(initial(d), ev).0.phase != SetupPhase::Done ==> !d.contains('\'') && d
            != "/data/rayhunter"@,
{
}

/// While a setup is under way (started and not finished), its data
/// directory holds no apostrophe, so every command quotes it safely.
pub open spec fn quoting_safe(st: SetupState) -> bool {
    (st.phase != SetupPhase::Start && st.phase != SetupPhase::Done) ==> !st.data_dir.contains('\'')
}

/// Every step keeps the quoting safe, starting from any initial state.
pub proof fn law_quoting_safe(st: SetupState, ev: EventView)
    requires
        quoting_safe(st),
    ensures
        quoting_safe(setup_step(st, ev).0),
        quoting_safe(initial(st.data_dir)),
{
}

/// `/data/rayhunter` already links to the data directory: after asking, the
/// setup reports it and finishes successfully without changing anything.
pub proof fn law_already_linked_does_nothing(
    d: Seq<char>,
    e0: EventView,
    o1: Seq<char>,
    o2: Seq<char>,
    e3: EventView,
)
    requires
        d != "/data/rayhunter"@,
        !d.contains('\''),
        contains_seq(o1, "yes"@),
        readlink_target(o2) == Some(d),
    ensures
        ({
            let (s1, a1) = setup_step(initial(d), e0);
            let (s2, a2) = setup_step(s1, EventView::Output(o1));
            let (s3, a3) = setup_step(s2, EventView::Output(o2));
            let (s4, a4) = setup_step(s3, e3);
            &&& a1 == ActionView::Run("test -L '"@ + "/data/rayhunter"@ + "' && echo yes || echo no"@)
            &&& a2 == ActionView::Run("echo RL:$(readlink '"@ + "/data/rayhunter"@ + "')"@)
            &&& a3 == ActionView::PrintLine("Data directory already configured at "@ + d)
            &&& a4 == ActionView::Finish(Ok(()))
            &&& s4.phase == SetupPhase::Done
        }),
{
}

/// `/data/rayhunter` is a real directory and the data directory does not
/// exist: the daemon is stopped and the old directory is moved to the data
/// directory, whatever the stop command answered.
pub proof fn law_real_directory_is_moved(
    d: Seq<char>,
    e0: EventView,
    o1: Seq<char>,
    o2: Seq<char>,
    o3: Seq<char>,
    e4: EventView,
    e5: EventView,
    e6: EventView,
    e7: EventView,
)
    requires
        d != "/data/rayhunter"@,
        !d.contains('\''),
        !contains_seq(o1, "yes"@),
        contains_seq(o2, "exists"@),
        !contains_seq(o3, "exists"@),
    ensures
        ({
            let (s1, a1) = setup_step(initial(d), e0);
            let (s2, a2) = setup_step(s1, EventView::Output(o1));
            let (s3, a3) = setup_step(s2, EventView::Output(o2));
            let (s4, a4) = setup_step(s3, EventView::Output(o3));
            let (s5, a5) = setup_step(s4, e4);
            let (s6, a6) = setup_step(s5, e5);
            let (s7, a7) = setup_step(s6, e6);
            let (s8, a8) = setup_step(s7, e7);
            &&& a3 == ActionView::Run("test -d '"@ + d + "' && echo exists || echo missing"@)
            &&& a4 == ActionView::Print("Stopping rayhunter-daemon ... "@)
            &&& a5 == ActionView::Run("/etc/init.d/rayhunter_daemon stop 2>/dev/null; true"@)
            &&& a6 == ActionView::PrintLine("ok"@)
            &&& a7 == ActionView::Print("Migrating data from "@ + "/data/rayhunter"@ + " to "@ + d + " ... "@)
            &&& a8 == ActionView::Run("mv '"@ + "/data/rayhunter"@ + "' '"@ + d + "' && echo MV_OK"@)
            &&& s8.source == "/data/rayhunter"@
        }),
{
}

/// Both `/data/rayhunter` and the data directory are real directories: the
/// setup refuses without moving anything.
pub proof fn law_two_directories_refused(
    d: Seq<char>,
    e0: EventView,
    o1: Seq<char>,
    o2: Seq<char>,
    o3: Seq<char>,
)
    requires
        d != "/data/rayhunter"@,
        !d.contains('\''),
        !contains_seq(o1, "yes"@),
        contains_seq(o2, "exists"@),
        contains_seq(o3, "exists"@),
    ensures
        ({
            let (s1, a1) = setup_step(initial(d), e0);
            let (s2, a2) = setup_step(s1, EventView::Output(o1));
            let (s3, a3) = setup_step(s2, EventView::Output(o2));
            let (s4, a4) = setup_step(s3, EventView::Output(o3));
            &&& a3 == ActionView::Run("test -d '"@ + d + "' && echo exists || echo missing"@)
            &&& a4 == ActionView::Finish(Err(SetupErrorView::BothDirectoriesExist(d)))
            &&& s4.phase == SetupPhase::Done
        }),
{
}

/// `/data/rayhunter` links to another directory `t`: the link is removed,
/// and the data is moved out of `t`.
pub proof fn law_old_link_target_is_moved(
    d: Seq<char>,
    t: Seq<char>,
    e0: EventView,
    o1: Seq<char>,
    o2: Seq<char>,
    o3: Seq<char>,
    o4: Seq<char>,
    e5: EventView,
    e6: EventView,
    e7: EventView,
    e8: EventView,
)
    requires
        d != "/data/rayhunter"@,
        !d.contains('\''),
        contains_seq(o1, "yes"@),
        readlink_target(o2) == Some(t),
        t != d,
        contains_seq(o4, "exists"@),
    ensures
        ({
            let (s1, a1) = setup_step(initial(d), e0);
            let (s2, a2) = setup_step(s1, EventView::Output(o1));
            let (s3, a3) = setup_step(s2, EventView::Output(o2));
            let (s4, a4) = setup_step(s3, EventView::Output(o3));
            let (s5, a5) = setup_step(s4, EventView::Output(o4));
            let (s6, a6) = setup_step(s5, e5);
            let (s7, a7) = setup_step(s6, e6);
            let (s8, a8) = setup_step(s7, e7);
            let (s9, a9) = setup_step(s8, e8);
            &&& a3 == ActionView::Run("rm -f /data/rayhunter"@)
            &&& a4 == ActionView::Run("test -d '"@ + t + "' && echo exists || echo missing"@)
            &&& a5 == ActionView::Print("Stopping rayhunter-daemon ... "@)
            &&& a8 == ActionView::Print("Migrating data from "@ + t + " to "@ + d + " ... "@)
            &&& a6 == ActionView::Run("/etc/init.d/rayhunter_daemon stop 2>/dev/null; true"@)
            &&& a9 == ActionView::Run("mv '"@ + t + "' '"@ + d + "' && echo MV_OK"@)
        }),
{
}

/// `/data/rayhunter` does not exist: the data directory is made and linked,
/// and the setup succeeds once the commands run.
pub proof fn law_fresh_install_links(
    d: Seq<char>,
    e0: EventView,
    o1: Seq<char>,
    o2: Seq<char>,
    o3: Seq<char>,
    e4: EventView,
    o5: Seq<char>,
    o6: Seq<char>,
    e7: EventView,
)
    requires
        d != "/data/rayhunter"@,
        !d.contains('\''),
        !contains_seq(o1, "yes"@),
        !contains_seq(o2, "exists"@),
    ensures
        ({
            let (s1, a1) = setup_step(initial(d), e0);
            let (s2, a2) = setup_step(s1, EventView::Output(o1));
            let (s3, a3) = setup_step(s2, EventView::Output(o2));
            let (s4, a4) = setup_step(s3, EventView::Output(o3));
            let (s5, a5) = setup_step(s4, e4);
            let (s6, a6) = setup_step(s5, EventView::Output(o5));
            let (s7, a7) = setup_step(s6, EventView::Output(o6));
            let (s8, a8) = setup_step(s7, e7);
            &&& a1 == ActionView::Run("test -L '"@ + "/data/rayhunter"@ + "' && echo yes || echo no"@)
            &&& a2 == ActionView::Run("test -d '"@ + "/data/rayhunter"@ + "' && echo exists || echo missing"@)
            &&& a3 == ActionView::Run("mkdir -p '"@ + d + "'"@)
            &&& a4 == ActionView::Print("Creating symlink /data/rayhunter -> "@ + d + " ... "@)
            &&& a5 == ActionView::Run("mkdir -p /data"@)
            &&& a6 == ActionView::Run("ln -sf '"@ + d + "' /data/rayhunter"@)
            &&& a7 == ActionView::PrintLine("ok"@)
            &&& a8 == ActionView::Finish(Ok(()))
            &&& s8.phase == SetupPhase::Done
        }),
{
}

/// A setup only succeeds after making the link, or after finding it already
/// in place.
pub proof fn law_success_only_when_linked(st: SetupState, ev: EventView)
    requires
        st.phase != SetupPhase::Done,
        setup_step(st, ev).1 == ActionView::Finish(Ok(())),
    ensures
        st.phase == SetupPhase::LinkReported || st.phase == SetupPhase::AlreadyConfigured,
{
}

/// The link reaches `LinkReported` only through the `ln -sf` command
/// succeeding.
pub proof fn law_link_reported_after_link(st: SetupState, ev: EventView)
    requires
        st.phase != SetupPhase::Done,
        setup_step(st, ev).0.phase == SetupPhase::LinkReported,
    ensures
        st.phase == SetupPhase::Linked,
        ev is Output,
{
}

/// `/data/rayhunter` links to a path `t` that is not a directory (a link
/// left dangling): the link is removed, nothing is moved, the data directory
/// is made and linked, and the setup succeeds once the commands run.
pub proof fn law_dangling_link_replaced(
    d: Seq<char>,
    t: Seq<char>,
    e0: EventView,
    o1: Seq<char>,
    o2: Seq<char>,
    o3: Seq<char>,
    e4: EventView,
    o5: Seq<char>,
    e6: EventView,
    o7: Seq<char>,
    o8: Seq<char>,
    e9: EventView,
)
    requires
        d != "/data/rayhunter"@,
        !d.contains('\''),
        contains_seq(o1, "yes"@),
        readlink_target(o2) == Some(t),
        t != d,
        !(e4 matches EventView::Output(o) && contains_seq(o, "exists"@)),
    ensures
        ({
            let (s1, a1) = setup_step(initial(d), e0);
            let (s2, a2) = setup_step(s1, EventView::Output(o1));
            let (s3, a3) = setup_step(s2, EventView::Output(o2));
            let (s4, a4) = setup_step(s3, EventView::Output(o3));
            let (s5, a5) = setup_step(s4, e4);
            let (s6, a6) = setup_step(s5, EventView::Output(o5));
            let (s7, a7) = setup_step(s6, e6);
            let (s8, a8) = setup_step(s7, EventView::Output(o7));
            let (s9, a9) = setup_step(s8, EventView::Output(o8));
            let (s10, a10) = setup_step(s9, e9);
            &&& a3 == ActionView::Run("rm -f /data/rayhunter"@)
            &&& a4 == ActionView::Run("test -d '"@ + t + "' && echo exists || echo missing"@)
            &&& a5 == ActionView::Run("mkdir -p '"@ + d + "'"@)
            &&& a6 == ActionView::Print("Creating symlink /data/rayhunter -> "@ + d + " ... "@)
            &&& a7 == ActionView::Run("mkdir -p /data"@)
            &&& a8 == ActionView::Run("ln -sf '"@ + d + "' /data/rayhunter"@)
            &&& a9 == ActionView::PrintLine("ok"@)
            &&& a10 == ActionView::Finish(Ok(()))
            &&& s10.phase == SetupPhase::Done
        }),
{
}

/// When the move's output lacks the `MV_OK` confirmation, the setup stops
/// with the paths and the output; when a command the setup depends on
/// cannot be run (removing the old link, moving, making the directory, its
/// parent or the link), it stops with `CommandFailed`; a failing probe counts
/// as "no"; the daemon stop may fail without consequence.
pub proof fn law_failures(st: SetupState, o: Seq<char>, ev: EventView)
    ensures
        (st.phase == SetupPhase::Moved && !contains_seq(o, "MV_OK"@)) ==> setup_step(
            st,
            EventView::Output(o),
        ) == (SetupState { phase: SetupPhase::Done, ..st }, ActionView::Finish(
            Err(SetupErrorView::MoveFailed { from: st.source, to: st.data_dir, output: o }),
        )),
        ((st.phase == SetupPhase::RemovedLink || st.phase == SetupPhase::Moved || st.phase
            == SetupPhase::MadeDataDir || st.phase == SetupPhase::MadeParent || st.phase
            == SetupPhase::Linked || st.phase == SetupPhase::ReadLink) && !(ev is Output))
            ==> setup_step(st, ev).1 == ActionView::Finish(Err(SetupErrorView::CommandFailed)),
        (st.phase == SetupPhase::ProbedLink || st.phase == SetupPhase::ProbedRealDir || st.phase
            == SetupPhase::ProbedTarget || st.phase == SetupPhase::ProbedDataDir) ==> setup_step(
            st,
            EventView::Failed,
        ) == setup_step(st, EventView::Output(Seq::<char>::empty())),
        st.phase == SetupPhase::Stopped ==> setup_step(st, ev) == setup_step(
            st,
            EventView::Output("MV_OK"@),
        ) && setup_step(st, ev).1 == ActionView::PrintLine("ok"@),
        (st.phase == SetupPhase::ReadLink && readlink_target(o) is None) ==> setup_step(
            st,
            EventView::Output(o),
        ).1 == ActionView::Finish(Err(SetupErrorView::UnexpectedReadlinkOutput(o))),
{
    reveal_strlit("yes");
    reveal_strlit("exists");
}

/// Once the move confirms with `MV_OK`, the setup reports it, makes the
/// parent of the link path and the link to the data directory, and succeeds
/// when those run.
pub proof fn law_migration_completes(
    st: SetupState,
    o0: Seq<char>,
    e1: EventView,
    e2: EventView,
    o3: Seq<char>,
    o4: Seq<char>,
    e5: EventView,
)
    requires
        st.phase == SetupPhase::Moved,
        contains_seq(o0, "MV_OK"@),
    ensures
        ({
            let d = st.data_dir;
            let (s1, a1) = setup_step(st, EventView::Output(o0));
            let (s2, a2) = setup_step(s1, e1);
            let (s3, a3) = setup_step(s2, e2);
            let (s4, a4) = setup_step(s3, EventView::Output(o3));
            let (s5, a5) = setup_step(s4, EventView::Output(o4));
            let (s6, a6) = setup_step(s5, e5);
            &&& a1 == ActionView::PrintLine("ok"@)
            &&& a2 == ActionView::Print("Creating symlink /data/rayhunter -> "@ + d + " ... "@)
            &&& a3 == ActionView::Run("mkdir -p /data"@)
            &&& a4 == ActionView::Run("ln -sf '"@ + d + "' /data/rayhunter"@)
            &&& a5 == ActionView::PrintLine("ok"@)
            &&& a6 == ActionView::Finish(Ok(()))
            &&& s6.phase == SetupPhase::Done
        }),
{
}

} // verus!
