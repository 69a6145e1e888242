//! The command line: which tasks the program performs, in which order, and how
//! it ends.
//!
//! The program performs one task after the other. Each task has an outcome, and
//! the outcome decides on the next task, until the task is to exit.

use vstd::prelude::*;

verus! {

/// The saved screenshot's location on success, or a human-readable error.
pub type CaptureResult = Result<String, String>;

/// Where a recording is saved unless the command line says otherwise.
pub const DEFAULT_OUTPUT: &'static str = "recording.mp4";

/// How the program ends: what it prints, and its exit code.
pub struct Report {
    pub stdout: Option<String>,
    pub stderr: Option<String>,
    pub code: i32,
}

/// What the program does next.
pub enum Task {
    /// Take one screenshot.
    Capture,
    /// Serve the capture tool until the client disconnects.
    ServeMcp,
    /// Have the user choose what to record.
    Negotiate { output: String },
    /// Block the interrupt signals, so that only the recorder sees them.
    BlockSignals { output: String },
    /// Record until interrupted.
    Record { output: String },
    /// End the program.
    Exit { report: Report },
}

/// What came of a task.
pub enum Outcome {
    Captured(CaptureResult),
    Served(Result<(), String>),
    Negotiated(Result<(), String>),
    SignalsBlocked,
    Recorded(Result<(), String>),
}

/// [`Report`] as mathematical values.
#[verifier::ext_equal]
pub struct ReportView {
    pub stdout: Option<Seq<char>>,
    pub stderr: Option<Seq<char>>,
    pub code: i32,
}

/// [`Task`] as mathematical values.
#[verifier::ext_equal]
pub enum TaskView {
    Capture,
    ServeMcp,
    Negotiate { output: Seq<char> },
    BlockSignals { output: Seq<char> },
    Record { output: Seq<char> },
    Exit { report: ReportView },
}

/// [`Outcome`] as mathematical values.
pub enum OutcomeView {
    Captured(Result<Seq<char>, Seq<char>>),
    Served(Result<(), Seq<char>>),
    Negotiated(Result<(), Seq<char>>),
    SignalsBlocked,
    Recorded(Result<(), Seq<char>>),
}

/// The text of an optional line.
pub open spec fn line_view(line: Option<String>) -> Option<Seq<char>> {
    match line {
        Some(text) => Some(text@),
        None => None,
    }
}

/// Success, or the text of the error.
pub open spec fn result_view(result: Result<(), String>) -> Result<(), Seq<char>> {
    match result {
        Ok(()) => Ok(()),
        Err(text) => Err(text@),
    }
}

impl View for Report {
    type V = ReportView;

    open spec fn view(&self) -> ReportView {
        ReportView {
            stdout: line_view(self.stdout),
            stderr: line_view(self.stderr),
            code: self.code,
        }
    }
}

impl View for Task {
    type V = TaskView;

    open spec fn view(&self) -> TaskView {
        match *self {
            Task::Capture => TaskView::Capture,
            Task::ServeMcp => TaskView::ServeMcp,
            Task::Negotiate { output } => TaskView::Negotiate { output: output@ },
            Task::BlockSignals { output } => TaskView::BlockSignals { output: output@ },
            Task::Record { output } => TaskView::Record { output: output@ },
            Task::Exit { report } => TaskView::Exit { report: report@ },
        }
    }
}

impl View for Outcome {
    type V = OutcomeView;

    open spec fn view(&self) -> OutcomeView {
        match *self {
            Outcome::Captured(Ok(uri)) => OutcomeView::Captured(Ok(uri@)),
            Outcome::Captured(Err(text)) => OutcomeView::Captured(Err(text@)),
            Outcome::Served(result) => OutcomeView::Served(result_view(result)),
            Outcome::Negotiated(result) => OutcomeView::Negotiated(result_view(result)),
            Outcome::SignalsBlocked => OutcomeView::SignalsBlocked,
            Outcome::Recorded(result) => OutcomeView::Recorded(result_view(result)),
        }
    }
}

/// Ending well, with `line` on standard output.
pub open spec fn success(line: Option<Seq<char>>) -> TaskView {
    TaskView::Exit { report: ReportView { stdout: line, stderr: None, code: 0 } }
}

/// Ending with `text` on standard error.
pub open spec fn failure(text: Seq<char>, code: i32) -> TaskView {
    TaskView::Exit { report: ReportView { stdout: None, stderr: Some(text), code } }
}

/// The task that the command line arguments, without the program's name, ask
/// for.
pub open spec fn requested(args: Seq<Seq<char>>) -> TaskView {
    if args.len() == 0 {
        TaskView::Capture
    } else if args[0] == "mcp"@ {
        TaskView::ServeMcp
    } else if args[0] == "record"@ {
        TaskView::Negotiate {
            output: if args.len() > 1 {
                args[1]
            } else {
                DEFAULT_OUTPUT@
            },
        }
    } else {
        failure(
            "unknown argument: "@ + args[0] + " (expected no arguments, `mcp`, or `record`)"@,
            2,
        )
    }
}

/// Whether `outcome` is one that `task` can have.
pub open spec fn fits(task: TaskView, outcome: OutcomeView) -> bool {
    match task {
        TaskView::Capture => outcome is Captured,
        TaskView::ServeMcp => outcome is Served,
        TaskView::Negotiate { .. } => outcome is Negotiated,
        TaskView::BlockSignals { .. } => outcome is SignalsBlocked,
        TaskView::Record { .. } => outcome is Recorded,
        TaskView::Exit { .. } => false,
    }
}

/// The task that follows on a task and its outcome.
pub open spec fn following(task: TaskView, outcome: OutcomeView) -> TaskView
    recommends
        fits(task, outcome),
{
    match (task, outcome) {
        (TaskView::Capture, OutcomeView::Captured(Ok(uri))) => success(Some(uri)),
        (TaskView::Capture, OutcomeView::Captured(Err(text))) => failure(
            "capture failed: "@ + text,
            1,
        ),
        (TaskView::ServeMcp, OutcomeView::Served(Ok(()))) => success(None),
        (TaskView::ServeMcp, OutcomeView::Served(Err(text))) => failure(
            "mcp server error: "@ + text,
            1,
        ),
        (
            TaskView::Negotiate { output },
            OutcomeView::Negotiated(Ok(())),
        ) => TaskView::BlockSignals { output },
        (TaskView::Negotiate { .. }, OutcomeView::Negotiated(Err(text))) => failure(
            "recording setup failed: "@ + text,
            1,
        ),
        (TaskView::BlockSignals { output }, OutcomeView::SignalsBlocked) => TaskView::Record {
            output,
        },
        (TaskView::Record { output }, OutcomeView::Recorded(Ok(()))) => success(Some(output)),
        (TaskView::Record { .. }, OutcomeView::Recorded(Err(text))) => failure(
            "recording failed: "@ + text,
            1,
        ),
        _ => task,
    }
}

/// Whether a task did what it was for.
pub open spec fn succeeded(outcome: OutcomeView) -> bool {
    match outcome {
        OutcomeView::Captured(result) => result is Ok,
        OutcomeView::Served(result) => result is Ok,
        OutcomeView::Negotiated(result) => result is Ok,
        OutcomeView::SignalsBlocked => true,
        OutcomeView::Recorded(result) => result is Ok,
    }
}

/// How many tasks may still follow.
pub open spec fn tasks_left(task: TaskView) -> nat {
    match task {
        TaskView::Negotiate { .. } => 3,
        TaskView::BlockSignals { .. } => 2,
        TaskView::Capture | TaskView::ServeMcp | TaskView::Record { .. } => 1,
        TaskView::Exit { .. } => 0,
    }
}

/// Every run ends: whatever comes of a task, fewer are left after it, and only
/// the end has none left.
pub proof fn law_every_run_ends(task: TaskView, outcome: OutcomeView)
    requires
        fits(task, outcome),
    ensures
        tasks_left(following(task, outcome)) < tasks_left(task),
        tasks_left(following(task, outcome)) == 0 <==> following(task, outcome) is Exit,
{
}

/// The exit code is zero exactly if the last task succeeded, and one otherwise.
/// A failure prints nothing on standard output and something on standard error;
/// a success prints nothing on standard error.
pub proof fn law_exit_code_tells_success(task: TaskView, outcome: OutcomeView)
    requires
        fits(task, outcome),
    ensures
        !succeeded(outcome) ==> following(task, outcome) is Exit,
        following(task, outcome) matches TaskView::Exit { report } ==> {
            &&& report.code == 0 <==> succeeded(outcome)
            &&& report.code == 0 || report.code == 1
            &&& report.code == 0 <==> report.stderr is None
            &&& report.code != 0 ==> report.stdout is None
        },
{
}

/// On success standard output holds exactly the saved location: the one that
/// was reported for a screenshot, the one that was asked for of a recording.
pub proof fn law_stdout_is_the_saved_location(uri: Seq<char>, output: Seq<char>)
    ensures
        following(TaskView::Capture, OutcomeView::Captured(Ok(uri))) == success(Some(uri)),
        following(TaskView::Record { output }, OutcomeView::Recorded(Ok(()))) == success(
            Some(output),
        ),
{
}

/// Recording begins only when the signals have been blocked, and they are
/// blocked only when something to record has been chosen. The output stays what
/// was asked for.
pub proof fn law_signals_are_blocked_before_recording(task: TaskView, outcome: OutcomeView)
    requires
        fits(task, outcome),
    ensures
        following(task, outcome) matches TaskView::Record { output } ==> task
            == (TaskView::BlockSignals { output }),
        following(task, outcome) matches TaskView::BlockSignals { output } ==> task
            == (TaskView::Negotiate { output }) && succeeded(outcome),
{
}

/// `prefix` with `text` behind it.
fn joined(prefix: &str, text: &str) -> (r: String)
    ensures
        r@ == prefix@ + text@,
{
    let r: String = prefix.to_owned();
    r.concat(text)
}

/// Ending well, with `line` on standard output.
fn exit_well(line: Option<String>) -> (task: Task)
    ensures
        task@ == success(line_view(line)),
{
    Task::Exit { report: Report { stdout: line, stderr: None, code: 0 } }
}

/// Ending with `prefix` and `text` on standard error.
fn exit_with(prefix: &str, text: &str, code: i32) -> (task: Task)
    ensures
        task@ == failure(prefix@ + text@, code),
{
    Task::Exit { report: Report { stdout: None, stderr: Some(joined(prefix, text)), code } }
}

/// The first task, for the command line arguments without the program's name.
/// With no arguments a screenshot is taken, `record [path]` records, `mcp`
/// serves the capture tool.
pub fn first_task(args: &Vec<String>) -> (task: Task)
    ensures
        task@ == requested(args@.map_values(|arg: String| arg@)),
{
    let ghost texts = args@.map_values(|arg: String| arg@);
    if args.len() == 0 {
        return Task::Capture;
    }
    let command = &args[0];
    assert(texts[0] == command@);
    if *command == "mcp".to_owned() {
        Task::ServeMcp
    } else if *command == "record".to_owned() {
        let output = if args.len() > 1 {
            assert(texts[1] == args@[1]@);
            args[1].clone()
        } else {
            DEFAULT_OUTPUT.to_owned()
        };
        Task::Negotiate { output }
    } else {
        let argument = joined("unknown argument: ", command.as_str());
        exit_with(argument.as_str(), " (expected no arguments, `mcp`, or `record`)", 2)
    }
}

/// The task that follows on a task and its outcome.
pub fn next_task(task: Task, outcome: Outcome) -> (next: Task)
    requires
        fits(task@, outcome@),
    ensures
        next@ == following(task@, outcome@),
{
    match (task, outcome) {
        (Task::Capture, Outcome::Captured(Ok(uri))) => exit_well(Some(uri)),
        (Task::Capture, Outcome::Captured(Err(text))) => exit_with(
            "capture failed: ",
            text.as_str(),
            1,
        ),
        (Task::ServeMcp, Outcome::Served(Ok(()))) => exit_well(None),
        (Task::ServeMcp, Outcome::Served(Err(text))) => exit_with(
            "mcp server error: ",
            text.as_str(),
            1,
        ),
        (Task::Negotiate { output }, Outcome::Negotiated(Ok(()))) => Task::BlockSignals { output },
        (Task::Negotiate { .. }, Outcome::Negotiated(Err(text))) => exit_with(
            "recording setup failed: ",
            text.as_str(),
            1,
        ),
        (Task::BlockSignals { output }, Outcome::SignalsBlocked) => Task::Record { output },
        (Task::Record { output }, Outcome::Recorded(Ok(()))) => exit_well(Some(output)),
        (Task::Record { .. }, Outcome::Recorded(Err(text))) => exit_with(
            "recording failed: ",
            text.as_str(),
            1,
        ),
        (task, _) => task,
    }
}

/// What the program does first is by its first argument alone, however many
/// follow, but for the path of a recording, which is the second argument. The
/// program is ended at once, with exit code 2, exactly if there is a first
/// argument and it is neither `mcp` nor `record`.
pub proof fn law_first_argument_decides(args: Seq<Seq<char>>)
    ensures
        args.len() == 0 <==> requested(args) is Capture,
        args.len() > 0 && args.first() == "mcp"@ <==> requested(args) is ServeMcp,
        args.len() > 0 && args.first() == "record"@ <==> requested(args) is Negotiate,
        args.len() == 1 ==> (requested(args) matches TaskView::Negotiate { output } ==> output
            == "recording.mp4"@),
        args.len() > 1 ==> (requested(args) matches TaskView::Negotiate { output } ==> output
            == args[1]),
        args.len() > 0 && args.first() != "mcp"@ && args.first() != "record"@ <==> requested(
            args,
        ) is Exit,
        requested(args) matches TaskView::Exit { report } ==> {
            &&& report.code == 2
            &&& report.stdout is None
            &&& report.stderr == Some(
                "unknown argument: "@ + args.first()
                    + " (expected no arguments, `mcp`, or `record`)"@,
            )
        },
{
    reveal_strlit("mcp");
    reveal_strlit("record");
    assert("mcp"@.len() != "record"@.len());
}

/// The first task itself, for arguments as they are given: what its model says
/// of it holds of its variants and texts.
pub proof fn law_first_task_goes_by_the_arguments(args: Seq<String>, task: Task)
    requires
        task@ == requested(args.map_values(|arg: String| arg@)),
    ensures
        args.len() == 0 <==> task is Capture,
        args.len() > 0 && args[0]@ == "mcp"@ <==> task is ServeMcp,
        args.len() > 0 && args[0]@ == "record"@ <==> task is Negotiate,
        args.len() > 0 && args[0]@ != "mcp"@ && args[0]@ != "record"@ <==> task is Exit,
        task matches Task::Negotiate { output } ==> output@ == if args.len() > 1 {
            args[1]@
        } else {
            "recording.mp4"@
        },
        task matches Task::Exit { report } ==> {
            &&& report.code == 2
            &&& report.stdout is None
            &&& report.stderr matches Some(text) && text@ == "unknown argument: "@ + args[0]@
                + " (expected no arguments, `mcp`, or `record`)"@
        },
{
    let texts = args.map_values(|arg: String| arg@);
    law_first_argument_decides(texts);
    if args.len() > 0 {
        assert(texts.first() == args[0]@);
    }
    if args.len() > 1 {
        assert(texts[1] == args[1]@);
    }
}

/// What the program prints and how it exits, after each way in which a task can
/// end the run, text by text.
pub proof fn law_reports_are_as_printed(text: Seq<char>, output: Seq<char>)
    ensures
        following(TaskView::Capture, OutcomeView::Captured(Ok(text))) == (TaskView::Exit {
            report: ReportView { stdout: Some(text), stderr: None, code: 0 },
        }),
        following(TaskView::Capture, OutcomeView::Captured(Err(text))) == (TaskView::Exit {
            report: ReportView {
                stdout: None,
                stderr: Some("capture failed: "@ + text),
                code: 1,
            },
        }),
        following(TaskView::ServeMcp, OutcomeView::Served(Ok(()))) == (TaskView::Exit {
            report: ReportView { stdout: None, stderr: None, code: 0 },
        }),
        following(TaskView::ServeMcp, OutcomeView::Served(Err(text))) == (TaskView::Exit {
            report: ReportView {
                stdout: None,
                stderr: Some("mcp server error: "@ + text),
                code: 1,
            },
        }),
        following(TaskView::Negotiate { output }, OutcomeView::Negotiated(Ok(())))
            == (TaskView::BlockSignals { output }),
        following(TaskView::Negotiate { output }, OutcomeView::Negotiated(Err(text))) == (
        TaskView::Exit {
            report: ReportView {
                stdout: None,
                stderr: Some("recording setup failed: "@ + text),
                code: 1,
            },
        }),
        following(TaskView::BlockSignals { output }, OutcomeView::SignalsBlocked) == (
        TaskView::Record { output }),
        following(TaskView::Record { output }, OutcomeView::Recorded(Ok(()))) == (TaskView::Exit {
            report: ReportView { stdout: Some(output), stderr: None, code: 0 },
        }),
        following(TaskView::Record { output }, OutcomeView::Recorded(Err(text))) == (
        TaskView::Exit {
            report: ReportView {
                stdout: None,
                stderr: Some("recording failed: "@ + text),
                code: 1,
            },
        }),
{
}

/// Each task but the last has outcomes of its own kind, and of no other.
pub proof fn law_outcomes_belong_to_their_tasks(task: TaskView, outcome: OutcomeView)
    ensures
        fits(task, outcome) <==> {
            ||| task is Capture && outcome is Captured
            ||| task is ServeMcp && outcome is Served
            ||| task is Negotiate && outcome is Negotiated
            ||| task is BlockSignals && outcome is SignalsBlocked
            ||| task is Record && outcome is Recorded
        },
{
}

/// The models of tasks and reports show their variants and texts.
pub proof fn law_tasks_show_their_texts(task: Task)
    ensures
        task is Capture <==> task@ is Capture,
        task is ServeMcp <==> task@ is ServeMcp,
        task is Negotiate <==> task@ is Negotiate,
        task is BlockSignals <==> task@ is BlockSignals,
        task is Record <==> task@ is Record,
        task is Exit <==> task@ is Exit,
        task matches Task::Negotiate { output } ==> task@ == (TaskView::Negotiate {
            output: output@,
        }),
        task matches Task::BlockSignals { output } ==> task@ == (TaskView::BlockSignals {
            output: output@,
        }),
        task matches Task::Record { output } ==> task@ == (TaskView::Record { output: output@ }),
        task matches Task::Exit { report } ==> {
            &&& task@->report.code == report.code
            &&& report.stdout is None <==> task@->report.stdout is None
            &&& report.stdout matches Some(line) ==> task@->report.stdout == Some(line@)
            &&& report.stderr is None <==> task@->report.stderr is None
            &&& report.stderr matches Some(line) ==> task@->report.stderr == Some(line@)
        },
{
}

/// The models of outcomes show their variants and texts.
pub proof fn law_outcomes_show_their_texts(outcome: Outcome)
    ensures
        outcome matches Outcome::Captured(Ok(uri)) ==> outcome@ == OutcomeView::Captured(Ok(uri@)),
        outcome matches Outcome::Captured(Err(text)) ==> outcome@ == OutcomeView::Captured(
            Err(text@),
        ),
        outcome matches Outcome::Served(Ok(())) ==> outcome@ == OutcomeView::Served(Ok(())),
        outcome matches Outcome::Served(Err(text)) ==> outcome@ == OutcomeView::Served(Err(text@)),
        outcome matches Outcome::Negotiated(Ok(())) ==> outcome@ == OutcomeView::Negotiated(
            Ok(()),
        ),
        outcome matches Outcome::Negotiated(Err(text)) ==> outcome@ == OutcomeView::Negotiated(
            Err(text@),
        ),
        outcome is SignalsBlocked ==> outcome@ == OutcomeView::SignalsBlocked,
        outcome matches Outcome::Recorded(Ok(())) ==> outcome@ == OutcomeView::Recorded(Ok(())),
        outcome matches Outcome::Recorded(Err(text)) ==> outcome@ == OutcomeView::Recorded(
            Err(text@),
        ),
{
}

} // verus!
