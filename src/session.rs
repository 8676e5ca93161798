use vstd::prelude::*;

use crate::text::{commit_message, confirmation_prompt, message_of, prompt_of, texts};

verus! {

/// What the user asked for: whether to run the command through the shell
/// named by `SHELL`, whether to commit without asking, and the command.
pub struct Invocation {
    pub shell: bool,
    pub yes: bool,
    pub command: Vec<String>,
}

/// Where a run stands.
#[derive(Clone, Copy, Debug, PartialEq, Eq, Structural)]
pub enum Phase {
    Start,
    CheckingClean,
    ResolvingShell,
    RunningCommand,
    Staging,
    ShowingStatus,
    Confirming,
    Committing,
    Finished,
}

/// A program to launch: version control, the shell that the host resolved
/// from `SHELL` (a path the library never reads), or a program by name.
#[derive(Debug)]
pub enum Program {
    Git,
    Shell,
    Named(String),
}

pub enum ProgramView {
    Git,
    Shell,
    Named(Seq<char>),
}

impl View for Program {
    type V = ProgramView;

    open spec fn view(&self) -> ProgramView {
        match self {
            Program::Git => ProgramView::Git,
            Program::Shell => ProgramView::Shell,
            Program::Named(s) => ProgramView::Named(s@),
        }
    }
}

/// Why a run stopped short.
#[derive(Debug)]
pub enum RunError {
    /// The working tree had changes before the command ran.
    Dirty,
    /// A shell run was asked for and `SHELL` is not set.
    MissingShell,
    /// The program could not be started.
    LaunchFailed { program: Program, args: Vec<String> },
    /// The program ran and exited with a status other than zero, or with
    /// none (`code` is then `None`).
    ExitFailed { program: Program, args: Vec<String>, code: Option<i32> },
    /// Committing was not confirmed.
    Cancelled,
}

pub enum RunErrorView {
    Dirty,
    MissingShell,
    LaunchFailed { program: ProgramView, args: Seq<Seq<char>> },
    ExitFailed { program: ProgramView, args: Seq<Seq<char>>, code: Option<i32> },
    Cancelled,
}

impl View for RunError {
    type V = RunErrorView;

    open spec fn view(&self) -> RunErrorView {
        match self {
            RunError::Dirty => RunErrorView::Dirty,
            RunError::MissingShell => RunErrorView::MissingShell,
            RunError::LaunchFailed { program, args } => RunErrorView::LaunchFailed {
                program: program@,
                args: texts(args@),
            },
            RunError::ExitFailed { program, args, code } => RunErrorView::ExitFailed {
                program: program@,
                args: texts(args@),
                code: *code,
            },
            RunError::Cancelled => RunErrorView::Cancelled,
        }
    }
}

/// What the host reports back to a run.
pub enum Event {
    /// The run is to begin.
    Begin,
    /// The launch that was asked for: `None` if the program could not be
    /// started, else its exit code (`None` when it has none) and the standard
    /// output that was captured (empty when it was not captured).
    Launched(Option<(Option<i32>, Vec<u8>)>),
    /// Whether `SHELL` is set, to any value.
    ShellFound(bool),
    /// The answer to the confirmation prompt; `None` when asking failed.
    Answered(Option<bool>),
}

pub enum EventView {
    Begin,
    Launched(Option<(Option<i32>, Seq<u8>)>),
    ShellFound(bool),
    Answered(Option<bool>),
}

impl View for Event {
    type V = EventView;

    open spec fn view(&self) -> EventView {
        match self {
            Event::Begin => EventView::Begin,
            Event::Launched(None) => EventView::Launched(None),
            Event::Launched(Some((code, out))) => EventView::Launched(Some((*code, out@))),
            Event::ShellFound(b) => EventView::ShellFound(*b),
            Event::Answered(a) => EventView::Answered(*a),
        }
    }
}

/// What a run asks the host to do next.
pub enum Action {
    /// Launch `program` with `args` and wait for it. Its input is closed; its
    /// output is captured when `capture` holds, else shown on the terminal, as
    /// its errors always are.
    Launch { program: Program, args: Vec<String>, capture: bool },
    /// Find out whether `SHELL` is set.
    LookUpShell,
    /// Ask the user, with `prompt`, whether to commit; yes is the default.
    Ask { prompt: String },
    /// Stop: the invocation is malformed; `message` says how.
    Usage { message: String },
    /// Stop with this error.
    Fail(RunError),
    /// Stop: the run has succeeded.
    Succeed,
    /// Nothing to do: the event was not one that the run was waiting for.
    Idle,
}

pub enum ActionView {
    Launch { program: ProgramView, args: Seq<Seq<char>>, capture: bool },
    LookUpShell,
    Ask { prompt: Seq<char> },
    Usage { message: Seq<char> },
    Fail(RunErrorView),
    Succeed,
    Idle,
}

impl View for Action {
    type V = ActionView;

    open spec fn view(&self) -> ActionView {
        match self {
            Action::Launch { program, args, capture } => ActionView::Launch {
                program: program@,
                args: texts(args@),
                capture: *capture,
            },
            Action::LookUpShell => ActionView::LookUpShell,
            Action::Ask { prompt } => ActionView::Ask { prompt: prompt@ },
            Action::Usage { message } => ActionView::Usage { message: message@ },
            Action::Fail(e) => ActionView::Fail(e@),
            Action::Succeed => ActionView::Succeed,
            Action::Idle => ActionView::Idle,
        }
    }
}

/// One run: the invocation, where it stands, and the commit message, which
/// is set once the invocation has been found well formed.
pub struct Session {
    invocation: Invocation,
    phase: Phase,
    message: String,
}

pub struct SessionView {
    pub shell: bool,
    pub yes: bool,
    pub command: Seq<Seq<char>>,
    pub phase: Phase,
    pub message: Seq<char>,
}

impl View for Session {
    type V = SessionView;

    closed spec fn view(&self) -> SessionView {
        SessionView {
            shell: self.invocation.shell,
            yes: self.invocation.yes,
            command: texts(self.invocation.command@),
            phase: self.phase,
            message: self.message@,
        }
    }
}

/// Whether an invocation is malformed: no command, or a shell run with other
/// than one command string.
pub open spec fn malformed(shell: bool, command: Seq<Seq<char>>) -> bool {
    command.len() == 0 || (shell && command.len() != 1)
}

/// The text that a malformed invocation is reported with: one for a missing
/// command, one for a shell run with more than one command word.
pub open spec fn usage_text(command: Seq<Seq<char>>) -> Seq<char> {
    if command.len() == 0 {
        "COMMAND must be given"@
    } else {
        "when --shell is supplied, COMMAND must be a single string"@
    }
}

/// The program launched in a phase.
pub open spec fn program_of(s: SessionView) -> ProgramView {
    if s.phase == Phase::RunningCommand {
        if s.shell {
            ProgramView::Shell
        } else {
            ProgramView::Named(s.command[0])
        }
    } else {
        ProgramView::Git
    }
}

/// The arguments of the program launched in a phase.
pub open spec fn args_of(s: SessionView) -> Seq<Seq<char>> {
    match s.phase {
        Phase::CheckingClean => seq!["status"@, "--porcelain"@],
        Phase::RunningCommand => if s.shell {
            seq!["-i"@, "-c"@, s.command[0]]
        } else {
            s.command.drop_first()
        },
        Phase::Staging => seq!["add"@, "."@],
        Phase::ShowingStatus => seq!["-c"@, "color.status=always"@, "status"@],
        Phase::Committing => seq!["commit"@, "--message"@, s.message],
        _ => Seq::empty(),
    }
}

/// The launch made on entering a phase; only the status query captures.
pub open spec fn launch_in(s: SessionView) -> ActionView {
    ActionView::Launch {
        program: program_of(s),
        args: args_of(s),
        capture: s.phase == Phase::CheckingClean,
    }
}

/// `s` moved to phase `p`.
pub open spec fn moved(s: SessionView, p: Phase) -> SessionView {
    SessionView { phase: p, ..s }
}

/// `s` moved to phase `p`, with the launch of that phase.
pub open spec fn enter(s: SessionView, p: Phase) -> (SessionView, ActionView) {
    (moved(s, p), launch_in(moved(s, p)))
}

/// `s` finished with action `a`.
pub open spec fn finish(s: SessionView, a: ActionView) -> (SessionView, ActionView) {
    (moved(s, Phase::Finished), a)
}

/// The phases that wait for a launch to end.
pub open spec fn launching(p: Phase) -> bool {
    p == Phase::CheckingClean || p == Phase::RunningCommand || p == Phase::Staging
        || p == Phase::ShowingStatus || p == Phase::Committing
}

/// The error of a launch that failed, if it did: it could not be started,
/// or it exited with other than status zero.
pub open spec fn launch_error(s: SessionView, r: Option<(Option<i32>, Seq<u8>)>) -> Option<
    RunErrorView,
> {
    match r {
        None => Some(RunErrorView::LaunchFailed { program: program_of(s), args: args_of(s) }),
        Some((code, _)) => if code == Some(0i32) {
            None
        } else {
            Some(RunErrorView::ExitFailed { program: program_of(s), args: args_of(s), code })
        },
    }
}

/// Where a launch that succeeded leads.
pub open spec fn after_launch(s: SessionView, out: Seq<u8>) -> (SessionView, ActionView) {
    match s.phase {
        Phase::CheckingClean => if out.len() != 0 {
            finish(s, ActionView::Fail(RunErrorView::Dirty))
        } else {
            enter(s, Phase::RunningCommand)
        },
        Phase::RunningCommand => enter(s, Phase::Staging),
        Phase::Staging => enter(s, Phase::ShowingStatus),
        Phase::ShowingStatus => if s.yes {
            enter(s, Phase::Committing)
        } else {
            (moved(s, Phase::Confirming), ActionView::Ask { prompt: prompt_of(s.message) })
        },
        _ => finish(s, ActionView::Succeed),
    }
}

/// The next state of a run and the action it asks for, given an event.
/// Events that the run is not waiting for change nothing.
pub open spec fn next(s: SessionView, e: EventView) -> (SessionView, ActionView) {
    match e {
        EventView::Begin => if s.phase != Phase::Start {
            (s, ActionView::Idle)
        } else if malformed(s.shell, s.command) {
            finish(s, ActionView::Usage { message: usage_text(s.command) })
        } else if s.shell {
            (
                moved(SessionView { message: message_of(s.command), ..s }, Phase::ResolvingShell),
                ActionView::LookUpShell,
            )
        } else {
            enter(SessionView { message: message_of(s.command), ..s }, Phase::CheckingClean)
        },
        EventView::Launched(r) => if !launching(s.phase) {
            (s, ActionView::Idle)
        } else {
            match launch_error(s, r) {
                Some(err) => finish(s, ActionView::Fail(err)),
                None => after_launch(s, r->Some_0.1),
            }
        },
        EventView::ShellFound(found) => if s.phase != Phase::ResolvingShell {
            (s, ActionView::Idle)
        } else if found {
            enter(s, Phase::CheckingClean)
        } else {
            finish(s, ActionView::Fail(RunErrorView::MissingShell))
        },
        EventView::Answered(answer) => if s.phase != Phase::Confirming {
            (s, ActionView::Idle)
        } else if answer == Some(true) {
            enter(s, Phase::Committing)
        } else {
            finish(s, ActionView::Fail(RunErrorView::Cancelled))
        },
    }
}

/// What holds of every run: once past the start and not finished, the
/// invocation is well formed and the commit message is derived from it; and
/// only a shell run looks up the shell.
pub open spec fn well_formed(s: SessionView) -> bool {
    &&& (s.phase != Phase::Start && s.phase != Phase::Finished) ==> {
        &&& !malformed(s.shell, s.command)
        &&& s.message == message_of(s.command)
    }
    &&& s.phase == Phase::ResolvingShell ==> s.shell
}

impl Session {
    /// A run of `invocation` that has not begun.
    pub fn new(invocation: Invocation) -> (r: Session)
        ensures
            r@.phase == Phase::Start,
            r@.shell == invocation.shell,
            r@.yes == invocation.yes,
            r@.command == texts(invocation.command@),
            r@.message == Seq::<char>::empty(),
            well_formed(r@),
    {
        Session { invocation, phase: Phase::Start, message: String::new() }
    }

    /// Where the run stands.
    pub fn phase(&self) -> (r: Phase)
        ensures
            r == self@.phase,
    {
        self.phase
    }

    /// The commit message; empty until the run has begun.
    pub fn message(&self) -> (r: &String)
        ensures
            r@ == self@.message,
    {
        &self.message
    }

    fn waits_for_launch(&self) -> (r: bool)
        ensures
            r == launching(self@.phase),
    {
        match self.phase {
            Phase::CheckingClean | Phase::RunningCommand | Phase::Staging | Phase::ShowingStatus
            | Phase::Committing => true,
            _ => false,
        }
    }

    /// The program and arguments launched in the current phase.
    fn target(&self) -> (r: (Program, Vec<String>))
        requires
            well_formed(self@),
            launching(self@.phase),
        ensures
            r.0@ == program_of(self@),
            texts(r.1@) == args_of(self@),
    {
        let ghost v = self@;
        match self.phase {
            Phase::CheckingClean => {
                let args = vec!["status".to_owned(), "--porcelain".to_owned()];
                assert(texts(args@) =~= args_of(v));
                (Program::Git, args)
            },
            Phase::RunningCommand => {
                let command = &self.invocation.command;
                if self.invocation.shell {
                    let args = vec!["-i".to_owned(), "-c".to_owned(), command[0].clone()];
                    assert(texts(args@) =~= args_of(v));
                    (Program::Shell, args)
                } else {
                    let n = command.len();
                    let mut args: Vec<String> = Vec::new();
                    let mut i: usize = 1;
                    while i < n
                        invariant
                            1 <= i <= n,
                            n == command@.len(),
                            texts(args@) =~= texts(command@).subrange(1, i as int),
                        decreases n - i,
                    {
                        let ghost before = args@;
                        args.push(command[i].clone());
                        assert(texts(args@) =~= texts(before).push(texts(command@)[i as int]));
                        i = i + 1;
                    }
                    assert(texts(args@) =~= args_of(v));
                    (Program::Named(command[0].clone()), args)
                }
            },
            Phase::Staging => {
                let args = vec!["add".to_owned(), ".".to_owned()];
                assert(texts(args@) =~= args_of(v));
                (Program::Git, args)
            },
            Phase::ShowingStatus => {
                let args = vec!["-c".to_owned(), "color.status=always".to_owned(), "status".to_owned()];
                assert(texts(args@) =~= args_of(v));
                (Program::Git, args)
            },
            _ => {
                let args = vec!["commit".to_owned(), "--message".to_owned(), self.message.clone()];
                assert(texts(args@) =~= args_of(v));
                (Program::Git, args)
            },
        }
    }

    /// The launch of the current phase.
    fn launch(&self) -> (a: Action)
        requires
            well_formed(self@),
            launching(self@.phase),
        ensures
            a@ == launch_in(self@),
    {
        let (program, args) = self.target();
        Action::Launch { program, args, capture: self.phase == Phase::CheckingClean }
    }

    /// Moves to `p` and asks for its launch.
    fn enter(&mut self, p: Phase) -> (a: Action)
        requires
            well_formed(moved(old(self)@, p)),
            launching(p),
        ensures
            (final(self)@, a@) == enter(old(self)@, p),
    {
        self.phase = p;
        self.launch()
    }

    /// Finishes with `a`.
    fn finish(&mut self, a: Action) -> (r: Action)
        ensures
            (final(self)@, r@) == finish(old(self)@, a@),
    {
        self.phase = Phase::Finished;
        a
    }

    /// Takes the run one step on from a launch that succeeded, whose
    /// captured output is `out`.
    fn after_launch(&mut self, out: &Vec<u8>) -> (a: Action)
        requires
            well_formed(old(self)@),
            launching(old(self)@.phase),
        ensures
            (final(self)@, a@) == after_launch(old(self)@, out@),
            well_formed(final(self)@),
    {
        match self.phase {
            Phase::CheckingClean => {
                if out.len() != 0 {
                    self.finish(Action::Fail(RunError::Dirty))
                } else {
                    self.enter(Phase::RunningCommand)
                }
            },
            Phase::RunningCommand => self.enter(Phase::Staging),
            Phase::Staging => self.enter(Phase::ShowingStatus),
            Phase::ShowingStatus => {
                if self.invocation.yes {
                    self.enter(Phase::Committing)
                } else {
                    self.phase = Phase::Confirming;
                    Action::Ask { prompt: confirmation_prompt(&self.message) }
                }
            },
            _ => self.finish(Action::Succeed),
        }
    }

    /// Takes the run one step on: from the event that the host reports, the
    /// next state and the action that the host is to perform, as `next`
    /// gives them.
    pub fn step(&mut self, event: Event) -> (a: Action)
        requires
            well_formed(old(self)@),
        ensures
            (final(self)@, a@) == next(old(self)@, event@),
            well_formed(final(self)@),
    {
        match event {
            Event::Begin => {
                if self.phase != Phase::Start {
                    return Action::Idle;
                }
                let n = self.invocation.command.len();
                if n == 0 {
                    let message = "COMMAND must be given".to_owned();
                    return self.finish(Action::Usage { message });
                }
                if self.invocation.shell && n != 1 {
                    let message = "when --shell is supplied, COMMAND must be a single string".to_owned();
                    return self.finish(Action::Usage { message });
                }
                self.message = commit_message(self.invocation.shell, &self.invocation.command);
                if self.invocation.shell {
                    self.phase = Phase::ResolvingShell;
                    Action::LookUpShell
                } else {
                    self.enter(Phase::CheckingClean)
                }
            },
            Event::Launched(report) => {
                if !self.waits_for_launch() {
                    return Action::Idle;
                }
                match report {
                    None => {
                        let (program, args) = self.target();
                        self.finish(Action::Fail(RunError::LaunchFailed { program, args }))
                    },
                    Some((code, out)) => {
                        let succeeded = match code {
                            Some(c) => c == 0,
                            None => false,
                        };
                        if succeeded {
                            self.after_launch(&out)
                        } else {
                            let (program, args) = self.target();
                            self.finish(Action::Fail(RunError::ExitFailed { program, args, code }))
                        }
                    },
                }
            },
            Event::ShellFound(found) => {
                if self.phase != Phase::ResolvingShell {
                    Action::Idle
                } else if found {
                    self.enter(Phase::CheckingClean)
                } else {
                    self.finish(Action::Fail(RunError::MissingShell))
                }
            },
            Event::Answered(answer) => {
                if self.phase != Phase::Confirming {
                    return Action::Idle;
                }
                let yes = match answer {
                    Some(b) => b,
                    None => false,
                };
                if yes {
                    self.enter(Phase::Committing)
                } else {
                    self.finish(Action::Fail(RunError::Cancelled))
                }
            },
        }
    }
}

} // verus!
