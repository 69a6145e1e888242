use prtsc::cli::{first_task, next_task, Outcome, Report, Task, DEFAULT_OUTPUT};

fn first(args: &[&str]) -> Task {
    first_task(&args.iter().map(|arg| arg.to_string()).collect::<Vec<String>>())
}

fn report(task: Task) -> Report {
    match task {
        Task::Exit { report } => report,
        _ => panic!("the program goes on"),
    }
}

fn line(text: &str) -> Option<String> {
    Some(text.to_string())
}

#[test]
fn captures_without_arguments() {
    let task = first(&[]);
    assert!(matches!(task, Task::Capture));
    let end = report(next_task(task, Outcome::Captured(Ok("file:///a.png".to_string()))));
    assert_eq!((end.stdout, end.stderr, end.code), (line("file:///a.png"), None, 0));
}

#[test]
fn reports_a_failed_capture() {
    let end = report(next_task(first(&[]), Outcome::Captured(Err("cancelled".to_string()))));
    assert_eq!((end.stdout, end.stderr, end.code), (None, line("capture failed: cancelled"), 1));
}

#[test]
fn serves_on_request() {
    assert!(matches!(first(&["mcp", "more"]), Task::ServeMcp));
    let end = report(next_task(Task::ServeMcp, Outcome::Served(Ok(()))));
    assert_eq!((end.stdout, end.stderr, end.code), (None, None, 0));
    let end = report(next_task(Task::ServeMcp, Outcome::Served(Err("closed".to_string()))));
    assert_eq!((end.stdout, end.stderr, end.code), (None, line("mcp server error: closed"), 1));
}

#[test]
fn rejects_unknown_arguments() {
    let end = report(first(&["recrod", "x"]));
    assert_eq!(end.stdout, None);
    assert_eq!(
        end.stderr,
        line("unknown argument: recrod (expected no arguments, `mcp`, or `record`)")
    );
    assert_eq!(end.code, 2);
}

#[test]
fn an_empty_argument_is_unknown() {
    let end = report(first(&[""]));
    assert_eq!(
        end.stderr,
        line("unknown argument:  (expected no arguments, `mcp`, or `record`)")
    );
    assert_eq!(end.code, 2);
}

#[test]
fn records_to_the_given_or_the_default_path() {
    assert_eq!(DEFAULT_OUTPUT, "recording.mp4");
    assert!(matches!(first(&["record"]), Task::Negotiate { output } if output == "recording.mp4"));
    assert!(matches!(first(&["record", "a.mp4"]), Task::Negotiate { output } if output == "a.mp4"));
}

#[test]
fn blocks_signals_between_negotiating_and_recording() {
    let task = next_task(first(&["record", "a.mp4"]), Outcome::Negotiated(Ok(())));
    assert!(matches!(&task, Task::BlockSignals { output } if output == "a.mp4"));
    let task = next_task(task, Outcome::SignalsBlocked);
    assert!(matches!(&task, Task::Record { output } if output == "a.mp4"));
    let end = report(next_task(task, Outcome::Recorded(Ok(()))));
    assert_eq!((end.stdout, end.stderr, end.code), (line("a.mp4"), None, 0));
}

#[test]
fn reports_what_goes_wrong_with_a_recording() {
    let task = first(&["record"]);
    let end = report(next_task(task, Outcome::Negotiated(Err("denied".to_string()))));
    assert_eq!(
        (end.stdout, end.stderr, end.code),
        (None, line("recording setup failed: denied"), 1)
    );
    let task = Task::Record { output: "a.mp4".to_string() };
    let end = report(next_task(task, Outcome::Recorded(Err("disk full".to_string()))));
    assert_eq!((end.stdout, end.stderr, end.code), (None, line("recording failed: disk full"), 1));
}
