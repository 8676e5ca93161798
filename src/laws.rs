use vstd::prelude::*;

use crate::session::{
    ActionView, EventView, Phase, ProgramView, RunErrorView, SessionView, args_of, launching,
    malformed, next, program_of, well_formed,
};
use crate::text::{joined, lemma_joined_single};

verus! {

/// The state reached and the actions asked for when `events` are fed, in
/// order, to a run in state `s`.
pub open spec fn run(s: SessionView, events: Seq<EventView>) -> (SessionView, Seq<ActionView>)
    decreases events.len(),
{
    if events.len() == 0 {
        (s, Seq::empty())
    } else {
        let first = next(s, events[0]);
        let rest = run(first.0, events.drop_first());
        (rest.0, seq![first.1] + rest.1)
    }
}

/// The report of a launch that exited with status zero, with output `out`.
pub open spec fn exited_ok(out: Seq<u8>) -> EventView {
    EventView::Launched(Some((Some(0i32), out)))
}

/// A run asks for one action for each event it is fed.
pub proof fn lemma_run_length(s: SessionView, events: Seq<EventView>)
    ensures
        run(s, events).1.len() == events.len(),
    decreases events.len(),
{
    if events.len() > 0 {
        lemma_run_length(next(s, events[0]).0, events.drop_first());
    }
}

/// Feeding `e` and then `rest` is one step and then a run on `rest`.
pub proof fn lemma_run_first(s: SessionView, e: EventView, rest: Seq<EventView>)
    ensures
        run(s, seq![e] + rest).0 == run(next(s, e).0, rest).0,
        run(s, seq![e] + rest).1 == seq![next(s, e).1] + run(next(s, e).0, rest).1,
{
    let events = seq![e] + rest;
    assert(events.drop_first() =~= rest);
    assert(events[0] == e);
}

/// A finished run asks for nothing more, whatever it is told.
pub proof fn lemma_finished_stays_idle(s: SessionView, events: Seq<EventView>)
    requires
        s.phase == Phase::Finished,
    ensures
        run(s, events).0 == s,
        run(s, events).1.len() == events.len(),
        forall|i: int| 0 <= i < events.len() ==> run(s, events).1[i] == ActionView::Idle,
    decreases events.len(),
{
    lemma_run_length(s, events);
    if events.len() > 0 {
        let tail = events.drop_first();
        lemma_finished_stays_idle(s, tail);
        lemma_run_first(s, events[0], tail);
        assert(events =~= seq![events[0]] + tail);
        let acts = run(s, events).1;
        assert forall|i: int| 0 <= i < events.len() implies acts[i] == ActionView::Idle by {
            if i > 0 {
                assert(acts[i] == run(s, tail).1[i - 1]);
            }
        }
    }
}

/// The events that take a well-formed run from its start to the status
/// query: the start, and for a shell run the report that `SHELL` is set.
pub open spec fn lead_to_status(s: SessionView) -> Seq<EventView> {
    if s.shell {
        seq![EventView::Begin, EventView::ShellFound(true)]
    } else {
        seq![EventView::Begin]
    }
}

/// Where the status query reports any output, the run fails as dirty at once.
/// Before that it has asked only for the shell lookup (shell runs) and the
/// status query; after it, it launches nothing: not the command, not the
/// staging, not the commit.
pub proof fn lemma_dirty_tree_stops(s: SessionView, out: Seq<u8>, rest: Seq<EventView>)
    requires
        s.phase == Phase::Start,
        !malformed(s.shell, s.command),
        out.len() != 0,
    ensures
        ({
            let n = lead_to_status(s).len() as int;
            let acts = run(s, lead_to_status(s) + seq![exited_ok(out)] + rest).1;
            &&& acts.len() == n + 1 + rest.len()
            &&& forall|i: int| 0 <= i < n - 1 ==> acts[i] == ActionView::LookUpShell
            &&& acts[n - 1] matches ActionView::Launch { program, args, capture } && program
                == ProgramView::Git && args == seq!["status"@, "--porcelain"@] && capture
            &&& acts[n] == ActionView::Fail(RunErrorView::Dirty)
            &&& forall|i: int| n < i < acts.len() ==> acts[i] == ActionView::Idle
        }),
{
    let n = lead_to_status(s).len() as int;
    let events = lead_to_status(s) + seq![exited_ok(out)] + rest;
    let s1 = next(s, EventView::Begin).0;
    let tail = seq![exited_ok(out)] + rest;
    lemma_run_length(s, events);
    if s.shell {
        let s2 = next(s1, EventView::ShellFound(true)).0;
        let s3 = next(s2, exited_ok(out)).0;
        assert(events =~= seq![EventView::Begin] + (seq![EventView::ShellFound(true)] + tail));
        lemma_run_first(s, EventView::Begin, seq![EventView::ShellFound(true)] + tail);
        lemma_run_first(s1, EventView::ShellFound(true), tail);
        lemma_run_first(s2, exited_ok(out), rest);
        lemma_finished_stays_idle(s3, rest);
        let acts = run(s, events).1;
        assert forall|i: int| n < i < acts.len() implies acts[i] == ActionView::Idle by {
            assert(acts[i] == run(s3, rest).1[i - 3]);
        }
    } else {
        let s2 = next(s1, exited_ok(out)).0;
        assert(events =~= seq![EventView::Begin] + tail);
        lemma_run_first(s, EventView::Begin, tail);
        lemma_run_first(s1, exited_ok(out), rest);
        lemma_finished_stays_idle(s2, rest);
        let acts = run(s, events).1;
        assert forall|i: int| n < i < acts.len() implies acts[i] == ActionView::Idle by {
            assert(acts[i] == run(s2, rest).1[i - 2]);
        }
    }
}

/// A shell run with `SHELL` unset fails for the missing shell right after
/// looking it up, and launches nothing at all.
pub proof fn lemma_missing_shell_launches_nothing(s: SessionView, rest: Seq<EventView>)
    requires
        s.phase == Phase::Start,
        s.shell,
        !malformed(s.shell, s.command),
    ensures
        ({
            let acts = run(s, seq![EventView::Begin, EventView::ShellFound(false)] + rest).1;
            &&& acts[0] == ActionView::LookUpShell
            &&& acts[1] == ActionView::Fail(RunErrorView::MissingShell)
            &&& forall|i: int| 2 <= i < acts.len() ==> acts[i] == ActionView::Idle
        }),
{
    let s1 = next(s, EventView::Begin).0;
    let s2 = next(s1, EventView::ShellFound(false)).0;
    assert(seq![EventView::Begin, EventView::ShellFound(false)] + rest =~= seq![EventView::Begin]
        + (seq![EventView::ShellFound(false)] + rest));
    lemma_run_first(s, EventView::Begin, seq![EventView::ShellFound(false)] + rest);
    lemma_run_first(s1, EventView::ShellFound(false), rest);
    lemma_finished_stays_idle(s2, rest);
    let acts = run(s, seq![EventView::Begin, EventView::ShellFound(false)] + rest).1;
    assert forall|i: int| 2 <= i < acts.len() implies acts[i] == ActionView::Idle by {
        assert(acts[i] == run(s2, rest).1[i - 2]);
    }
}

/// A launched program that exits with a status other than zero, or with
/// none, fails the run with that status, the program and its arguments; the
/// run launches nothing after it. For the user's command run directly, the
/// program is the command's first word and the arguments are the rest.
pub proof fn lemma_failed_exit_stops(
    s: SessionView,
    code: Option<i32>,
    out: Seq<u8>,
    rest: Seq<EventView>,
)
    requires
        well_formed(s),
        launching(s.phase),
        code != Some(0i32),
    ensures
        ({
            let acts = run(s, seq![EventView::Launched(Some((code, out)))] + rest).1;
            &&& acts[0] == ActionView::Fail(
                RunErrorView::ExitFailed { program: program_of(s), args: args_of(s), code },
            )
            &&& forall|i: int| 1 <= i < acts.len() ==> acts[i] == ActionView::Idle
        }),
        s.phase == Phase::RunningCommand && !s.shell ==> {
            &&& program_of(s) == ProgramView::Named(s.command[0])
            &&& args_of(s) == s.command.drop_first()
        },
{
    let e = EventView::Launched(Some((code, out)));
    let s1 = next(s, e).0;
    lemma_run_first(s, e, rest);
    lemma_finished_stays_idle(s1, rest);
    let acts = run(s, seq![e] + rest).1;
    assert forall|i: int| 1 <= i < acts.len() implies acts[i] == ActionView::Idle by {
        assert(acts[i] == run(s1, rest).1[i - 1]);
    }
}

/// Whenever a run launches the commit, the message it commits with is
/// `run: ` followed by the command's words separated by single spaces; for
/// a shell run of the command string `C`, it is `run: C` exactly.
pub proof fn lemma_commit_message(s: SessionView, e: EventView)
    requires
        well_formed(s),
    ensures
        ({
            let (t, a) = next(s, e);
            t.phase == Phase::Committing && s.phase != Phase::Committing ==> {
                &&& a == ActionView::Launch {
                    program: ProgramView::Git,
                    args: seq!["commit"@, "--message"@, "run: "@ + joined(s.command, " "@)],
                    capture: false,
                }
                &&& s.shell ==> a->Launch_args[2] == "run: "@ + s.command[0]
            }
        }),
{
    let (t, a) = next(s, e);
    if t.phase == Phase::Committing && s.phase != Phase::Committing {
        if s.shell {
            assert(s.command =~= seq![s.command[0]]);
            lemma_joined_single(s.command[0], " "@);
        }
    }
}

/// A run whose invocation asks for a shell with more than one command word
/// ends at the start with the usage error, and launches nothing at all.
pub proof fn lemma_shell_takes_one_string(s: SessionView, rest: Seq<EventView>)
    requires
        s.phase == Phase::Start,
        s.shell,
        s.command.len() > 1,
    ensures
        ({
            let acts = run(s, seq![EventView::Begin] + rest).1;
            &&& acts[0] is Usage
            &&& forall|i: int| 1 <= i < acts.len() ==> acts[i] == ActionView::Idle
        }),
{
    let s1 = next(s, EventView::Begin).0;
    lemma_run_first(s, EventView::Begin, rest);
    lemma_finished_stays_idle(s1, rest);
    let acts = run(s, seq![EventView::Begin] + rest).1;
    assert forall|i: int| 1 <= i < acts.len() implies acts[i] == ActionView::Idle by {
        assert(acts[i] == run(s1, rest).1[i - 1]);
    }
}

/// A run told to commit without asking never asks, and once the status has
/// been shown it launches the commit.
pub proof fn lemma_yes_never_asks(s: SessionView, e: EventView, out: Seq<u8>)
    requires
        well_formed(s),
        s.yes,
    ensures
        !(next(s, e).1 is Ask),
        s.phase == Phase::ShowingStatus ==> {
            let (t, a) = next(s, exited_ok(out));
            &&& t.phase == Phase::Committing
            &&& a matches ActionView::Launch { program, args, .. } && program == ProgramView::Git
                && args == seq!["commit"@, "--message"@, s.message]
        },
{
}

/// A run whose confirmation is declined, or could not be asked, fails as
/// cancelled and launches nothing after: in particular not the commit.
pub proof fn lemma_declined_cancels(s: SessionView, answer: Option<bool>, rest: Seq<EventView>)
    requires
        s.phase == Phase::Confirming,
        answer != Some(true),
    ensures
        ({
            let acts = run(s, seq![EventView::Answered(answer)] + rest).1;
            &&& acts[0] == ActionView::Fail(RunErrorView::Cancelled)
            &&& forall|i: int| 1 <= i < acts.len() ==> acts[i] == ActionView::Idle
        }),
{
    let s1 = next(s, EventView::Answered(answer)).0;
    lemma_run_first(s, EventView::Answered(answer), rest);
    lemma_finished_stays_idle(s1, rest);
    let acts = run(s, seq![EventView::Answered(answer)] + rest).1;
    assert forall|i: int| 1 <= i < acts.len() implies acts[i] == ActionView::Idle by {
        assert(acts[i] == run(s1, rest).1[i - 1]);
    }
}

} // verus!
