use git_run::session::{Action, Event, Invocation, Phase, Program, RunError, Session};
use git_run::text::{commit_message, confirmation_prompt};

fn words(ws: &[&str]) -> Vec<String> {
    ws.iter().map(|w| w.to_string()).collect()
}

fn session(shell: bool, yes: bool, command: &[&str]) -> Session {
    Session::new(Invocation { shell, yes, command: words(command) })
}

fn ok(out: &[u8]) -> Event {
    Event::Launched(Some((Some(0), out.to_vec())))
}

fn launch(a: &Action) -> (&Program, Vec<&str>, bool) {
    match a {
        Action::Launch { program, args, capture } => {
            (program, args.iter().map(|s| s.as_str()).collect(), *capture)
        }
        other => panic!("expected a launch, got {:?}", debug_action(other)),
    }
}

fn debug_action(a: &Action) -> String {
    match a {
        Action::Launch { .. } => "launch".to_string(),
        Action::LookUpShell => "look up shell".to_string(),
        Action::Ask { prompt } => format!("ask {prompt}"),
        Action::Usage { message } => format!("usage {message}"),
        Action::Fail(e) => format!("fail {e:?}"),
        Action::Succeed => "succeed".to_string(),
        Action::Idle => "idle".to_string(),
    }
}

fn is_git(p: &Program) -> bool {
    matches!(p, Program::Git)
}

#[test]
fn clean_repo_echo_hi_with_yes_commits() {
    let mut s = session(false, true, &["echo", "hi"]);
    let a = s.step(Event::Begin);
    let (p, args, capture) = launch(&a);
    assert!(is_git(p));
    assert_eq!(args, vec!["status", "--porcelain"]);
    assert!(capture);

    let a = s.step(ok(b""));
    let (p, args, capture) = launch(&a);
    assert!(matches!(p, Program::Named(n) if n == "echo"));
    assert_eq!(args, vec!["hi"]);
    assert!(!capture);

    let a = s.step(ok(b""));
    let (p, args, _) = launch(&a);
    assert!(is_git(p));
    assert_eq!(args, vec!["add", "."]);

    let a = s.step(ok(b""));
    let (p, args, capture) = launch(&a);
    assert!(is_git(p));
    assert_eq!(args, vec!["-c", "color.status=always", "status"]);
    assert!(!capture);

    let a = s.step(ok(b""));
    let (p, args, _) = launch(&a);
    assert!(is_git(p));
    assert_eq!(args, vec!["commit", "--message", "run: echo hi"]);

    let a = s.step(ok(b""));
    assert!(matches!(a, Action::Succeed));
    assert_eq!(s.phase(), Phase::Finished);
}

#[test]
fn dirty_repo_fails_before_anything_else() {
    let mut s = session(false, true, &["echo", "hi"]);
    s.step(Event::Begin);
    let a = s.step(ok(b" M file.txt\n"));
    assert!(matches!(a, Action::Fail(RunError::Dirty)));
    assert_eq!(s.phase(), Phase::Finished);
    assert!(matches!(s.step(ok(b"")), Action::Idle));
    assert!(matches!(s.step(Event::Answered(Some(true))), Action::Idle));
}

#[test]
fn untracked_file_counts_as_dirty() {
    let mut s = session(false, false, &["true"]);
    s.step(Event::Begin);
    assert!(matches!(s.step(ok(b"?? new.txt\n")), Action::Fail(RunError::Dirty)));
}

#[test]
fn shell_without_shell_variable_fails() {
    let mut s = session(true, true, &["echo hi | wc"]);
    assert!(matches!(s.step(Event::Begin), Action::LookUpShell));
    let a = s.step(Event::ShellFound(false));
    assert!(matches!(a, Action::Fail(RunError::MissingShell)));
    assert!(matches!(s.step(ok(b"")), Action::Idle));
}

#[test]
fn shell_run_uses_interactive_command_string() {
    let mut s = session(true, true, &["echo hi | wc"]);
    assert!(matches!(s.step(Event::Begin), Action::LookUpShell));
    let a = s.step(Event::ShellFound(true));
    let (p, args, capture) = launch(&a);
    assert!(is_git(p));
    assert_eq!(args, vec!["status", "--porcelain"]);
    assert!(capture);
    let a = s.step(ok(b""));
    let (p, args, capture) = launch(&a);
    assert!(matches!(p, Program::Shell));
    assert_eq!(args, vec!["-i", "-c", "echo hi | wc"]);
    assert!(!capture);
    s.step(ok(b""));
    s.step(ok(b""));
    let a = s.step(ok(b""));
    let (_, args, _) = launch(&a);
    assert_eq!(args, vec!["commit", "--message", "run: echo hi | wc"]);
}

#[test]
fn command_exit_status_two_fails_without_staging() {
    let mut s = session(false, true, &["make", "check"]);
    s.step(Event::Begin);
    s.step(ok(b""));
    let a = s.step(Event::Launched(Some((Some(2), Vec::new()))));
    match a {
        Action::Fail(RunError::ExitFailed { program, args, code }) => {
            assert!(matches!(program, Program::Named(n) if n == "make"));
            assert_eq!(args, words(&["check"]));
            assert_eq!(code, Some(2));
        }
        other => panic!("unexpected {}", debug_action(&other)),
    }
    assert!(matches!(s.step(ok(b"")), Action::Idle));
}

#[test]
fn killed_command_has_no_status() {
    let mut s = session(false, true, &["sleep", "9"]);
    s.step(Event::Begin);
    s.step(ok(b""));
    let a = s.step(Event::Launched(Some((None, Vec::new()))));
    assert!(matches!(a, Action::Fail(RunError::ExitFailed { code: None, .. })));
}

#[test]
fn failed_status_query_is_a_launch_failure() {
    let mut s = session(false, true, &["no-such-program", "x"]);
    s.step(Event::Begin);
    let a = s.step(Event::Launched(None));
    match a {
        Action::Fail(RunError::LaunchFailed { program, args }) => {
            assert!(is_git(&program));
            assert_eq!(args, words(&["status", "--porcelain"]));
        }
        other => panic!("unexpected {}", debug_action(&other)),
    }
}

#[test]
fn missing_user_program_is_a_launch_failure() {
    let mut s = session(false, true, &["no-such-program", "x"]);
    s.step(Event::Begin);
    let a = s.step(ok(b""));
    let (p, _, _) = launch(&a);
    assert!(matches!(p, Program::Named(n) if n == "no-such-program"));
    let a = s.step(Event::Launched(None));
    match a {
        Action::Fail(RunError::LaunchFailed { program, args }) => {
            assert!(matches!(program, Program::Named(n) if n == "no-such-program"));
            assert_eq!(args, words(&["x"]));
        }
        other => panic!("unexpected {}", debug_action(&other)),
    }
    assert!(matches!(s.step(ok(b"")), Action::Idle));
}

#[test]
fn shell_with_two_words_is_a_usage_error() {
    let mut s = session(true, false, &["echo", "hi"]);
    let a = s.step(Event::Begin);
    match a {
        Action::Usage { message } => {
            assert_eq!(message, "when --shell is supplied, COMMAND must be a single string")
        }
        other => panic!("unexpected {}", debug_action(&other)),
    }
    assert!(matches!(s.step(ok(b"")), Action::Idle));
}

#[test]
fn empty_command_is_a_usage_error() {
    let mut s = session(false, false, &[]);
    match s.step(Event::Begin) {
        Action::Usage { message } => assert_eq!(message, "COMMAND must be given"),
        other => panic!("unexpected {}", debug_action(&other)),
    }
}

fn to_confirmation(command: &[&str]) -> Session {
    let mut s = session(false, false, command);
    s.step(Event::Begin);
    s.step(ok(b""));
    s.step(ok(b""));
    s.step(ok(b""));
    s
}

#[test]
fn confirmation_shows_message_and_yes_commits() {
    let mut s = to_confirmation(&["cargo", "fmt"]);
    let a = s.step(ok(b""));
    match a {
        Action::Ask { prompt } => assert_eq!(prompt, "commit with message `run: cargo fmt`"),
        other => panic!("unexpected {}", debug_action(&other)),
    }
    let a = s.step(Event::Answered(Some(true)));
    let (_, args, _) = launch(&a);
    assert_eq!(args, vec!["commit", "--message", "run: cargo fmt"]);
}

#[test]
fn declined_confirmation_cancels() {
    let mut s = to_confirmation(&["cargo", "fmt"]);
    s.step(ok(b""));
    assert!(matches!(s.step(Event::Answered(Some(false))), Action::Fail(RunError::Cancelled)));
    assert!(matches!(s.step(ok(b"")), Action::Idle));
}

#[test]
fn failed_confirmation_cancels() {
    let mut s = to_confirmation(&["cargo", "fmt"]);
    s.step(ok(b""));
    assert!(matches!(s.step(Event::Answered(None)), Action::Fail(RunError::Cancelled)));
}

#[test]
fn failed_commit_reports_its_arguments() {
    let mut s = session(false, true, &["ls"]);
    s.step(Event::Begin);
    for _ in 0..4 {
        s.step(ok(b""));
    }
    assert_eq!(s.phase(), Phase::Committing);
    let a = s.step(Event::Launched(Some((Some(1), Vec::new()))));
    match a {
        Action::Fail(RunError::ExitFailed { program, args, code }) => {
            assert!(is_git(&program));
            assert_eq!(args, words(&["commit", "--message", "run: ls"]));
            assert_eq!(code, Some(1));
        }
        other => panic!("unexpected {}", debug_action(&other)),
    }
}

#[test]
fn events_before_begin_are_ignored() {
    let mut s = session(false, true, &["ls"]);
    assert!(matches!(s.step(ok(b"")), Action::Idle));
    assert!(matches!(s.step(Event::ShellFound(true)), Action::Idle));
    assert_eq!(s.phase(), Phase::Start);
    assert_eq!(s.message(), "");
}

#[test]
fn message_joins_words_with_single_spaces() {
    assert_eq!(commit_message(false, &words(&["git", "mv", "a b", "c"])), "run: git mv a b c");
    assert_eq!(commit_message(false, &words(&["ls"])), "run: ls");
}

#[test]
fn shell_message_is_the_command_string() {
    assert_eq!(commit_message(true, &words(&["echo  $HOME"])), "run: echo  $HOME");
}

#[test]
fn prompt_quotes_message() {
    assert_eq!(confirmation_prompt(&"run: x".to_string()), "commit with message `run: x`");
}
