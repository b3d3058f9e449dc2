//! Printing a receipt through the system's print spooler.
//!
//! The spooler is driven from outside: [`print_receipt`] names the next
//! command to run or file to write, is told how it went, and decides what
//! follows.

use crate::text::{begins_a_line, chars_of, contains_text, line_begins_with, occurs_in};
use vstd::prelude::*;

verus! {

/// The family of operating systems the program was built for.
#[derive(Clone, Copy, Debug, PartialEq, Eq, Structural)]
pub enum Platform {
    Linux,
    Other,
}

/// Why a receipt was not printed.
#[derive(Clone, Copy, Debug, PartialEq, Eq, Structural)]
pub enum PrintErrorKind {
    /// Printing is not offered on this platform.
    Unsupported,
    /// The spooler knows no printer.
    NoPrinter,
    /// A command or the receipt file failed; the message carries the detail.
    Failed,
}

/// A refusal to print, with a message for the user.
#[derive(Clone, Debug, PartialEq, Eq)]
pub struct PrintError {
    pub kind: PrintErrorKind,
    pub message: String,
}

pub struct PrintErrorView {
    pub kind: PrintErrorKind,
    pub message: Seq<char>,
}

impl View for PrintError {
    type V = PrintErrorView;

    open spec fn view(&self) -> PrintErrorView {
        PrintErrorView { kind: self.kind, message: self.message@ }
    }
}

/// How far a print job has come.
#[derive(Clone, Copy, Debug, PartialEq, Eq, Structural)]
pub enum PrintPhase {
    /// Nothing was asked for yet.
    Idle,
    /// The spooler was asked for its printers.
    Querying,
    /// The receipt file is being written.
    Writing,
    /// The receipt file was handed to the spooler.
    Submitting,
    /// The job has ended.
    Finished,
}

/// A print job: the text to print and how far the job has come.
#[derive(Clone, Debug, PartialEq, Eq)]
pub struct PrintJob {
    pub platform: Platform,
    pub text: String,
    pub phase: PrintPhase,
}

pub struct PrintJobView {
    pub platform: Platform,
    pub text: Seq<char>,
    pub phase: PrintPhase,
}

impl View for PrintJob {
    type V = PrintJobView;

    open spec fn view(&self) -> PrintJobView {
        PrintJobView { platform: self.platform, text: self.text@, phase: self.phase }
    }
}

/// What the caller is to do next for a print job.
#[derive(Clone, Debug, PartialEq, Eq)]
pub enum PrintAction {
    /// Run `program` with the one argument `argument` and collect its output.
    Run { program: String, argument: String },
    /// Write `text` to the file `file_name` in the directory for temporary
    /// files.
    WriteReceipt { file_name: String, text: String },
    /// Run `program` with the path of the temporary file `file_name` as its
    /// one argument.
    RunOnReceipt { program: String, file_name: String },
    /// The receipt was printed.
    Done,
    /// The receipt was not printed.
    Fail(PrintError),
}

pub enum PrintActionView {
    Run { program: Seq<char>, argument: Seq<char> },
    WriteReceipt { file_name: Seq<char>, text: Seq<char> },
    RunOnReceipt { program: Seq<char>, file_name: Seq<char> },
    Done,
    Fail(PrintErrorView),
}

impl View for PrintAction {
    type V = PrintActionView;

    open spec fn view(&self) -> PrintActionView {
        match self {
            PrintAction::Run { program, argument } => PrintActionView::Run {
                program: program@,
                argument: argument@,
            },
            PrintAction::WriteReceipt { file_name, text } => PrintActionView::WriteReceipt {
                file_name: file_name@,
                text: text@,
            },
            PrintAction::RunOnReceipt { program, file_name } => PrintActionView::RunOnReceipt {
                program: program@,
                file_name: file_name@,
            },
            PrintAction::Done => PrintActionView::Done,
            PrintAction::Fail(e) => PrintActionView::Fail(e@),
        }
    }
}

/// How the last action of a print job went.
#[derive(Clone, Debug, PartialEq, Eq)]
pub enum PrintEvent {
    /// The job is to begin.
    Start,
    /// The command ran to its end.
    Exited { success: bool, stdout: String, stderr: String },
    /// The receipt file was written.
    Written,
    /// The command could not be run, or the file not written.
    Failed(String),
}

pub enum PrintEventView {
    Start,
    Exited { success: bool, stdout: Seq<char>, stderr: Seq<char> },
    Written,
    Failed(Seq<char>),
}

impl View for PrintEvent {
    type V = PrintEventView;

    open spec fn view(&self) -> PrintEventView {
        match self {
            PrintEvent::Start => PrintEventView::Start,
            PrintEvent::Exited { success, stdout, stderr } => PrintEventView::Exited {
                success: *success,
                stdout: stdout@,
                stderr: stderr@,
            },
            PrintEvent::Written => PrintEventView::Written,
            PrintEvent::Failed(detail) => PrintEventView::Failed(detail@),
        }
    }
}

/// The spooler's list of printers names at least one: some line begins with
/// `printer ` or holds ` printer `.
pub open spec fn names_a_printer(listing: Seq<char>) -> bool {
    begins_a_line(listing, "printer "@) || occurs_in(listing, " printer "@)
}

/// Tells whether the spooler's list of printers names at least one.
pub fn has_printer(listing: &str) -> (r: bool)
    ensures
        r == names_a_printer(listing@),
{
    let text = chars_of(listing);
    let at_start = chars_of("printer ");
    let inside = chars_of(" printer ");
    line_begins_with(&text, &at_start) || contains_text(&text, &inside)
}

/// A job that ends without printing.
pub open spec fn refused(job: PrintJobView, kind: PrintErrorKind, message: Seq<char>) -> (
    PrintJobView,
    PrintActionView,
) {
    (
        PrintJobView { phase: PrintPhase::Finished, ..job },
        PrintActionView::Fail(PrintErrorView { kind, message }),
    )
}

/// The job after `event`, and what is to be done next.
pub open spec fn print_next(job: PrintJobView, event: PrintEventView) -> (
    PrintJobView,
    PrintActionView,
) {
    match (job.phase, event) {
        (PrintPhase::Idle, PrintEventView::Start) => match job.platform {
            Platform::Linux => (
                PrintJobView { phase: PrintPhase::Querying, ..job },
                PrintActionView::Run { program: "lpstat"@, argument: "-p"@ },
            ),
            Platform::Other => refused(
                job,
                PrintErrorKind::Unsupported,
                "Printing is currently supported only on Linux builds."@,
            ),
        },
        (PrintPhase::Querying, PrintEventView::Failed(detail)) => refused(
            job,
            PrintErrorKind::Failed,
            "Printing not available (lpstat not found): "@ + detail,
        ),
        (PrintPhase::Querying, PrintEventView::Exited { success, stdout, stderr }) => if !success {
            refused(job, PrintErrorKind::Failed, "Printer status check failed: "@ + stderr)
        } else if !names_a_printer(stdout) {
            refused(
                job,
                PrintErrorKind::NoPrinter,
                "No printer configured. Please add/connect a printer in system settings (CUPS)."@,
            )
        } else {
            (
                PrintJobView { phase: PrintPhase::Writing, ..job },
                PrintActionView::WriteReceipt {
                    file_name: "motormods_receipt.txt"@,
                    text: job.text,
                },
            )
        },
        (PrintPhase::Writing, PrintEventView::Failed(detail)) => refused(
            job,
            PrintErrorKind::Failed,
            "Failed to write receipt file: "@ + detail,
        ),
        (PrintPhase::Writing, PrintEventView::Written) => (
            PrintJobView { phase: PrintPhase::Submitting, ..job },
            PrintActionView::RunOnReceipt {
                program: "lp"@,
                file_name: "motormods_receipt.txt"@,
            },
        ),
        (PrintPhase::Submitting, PrintEventView::Failed(detail)) => refused(
            job,
            PrintErrorKind::Failed,
            "Printing not available (lp not found): "@ + detail,
        ),
        (PrintPhase::Submitting, PrintEventView::Exited { success, stdout, stderr }) => if success {
            (PrintJobView { phase: PrintPhase::Finished, ..job }, PrintActionView::Done)
        } else {
            refused(job, PrintErrorKind::Failed, "Print failed: "@ + stderr)
        },
        _ => refused(job, PrintErrorKind::Failed, "Unexpected reply while printing"@),
    }
}

/// Ends `job` without printing.
fn refuse(job: PrintJob, kind: PrintErrorKind, message: String) -> (r: (PrintJob, PrintAction))
    ensures
        (r.0@, r.1@) == refused(job@, kind, message@),
{
    (
        PrintJob { platform: job.platform, text: job.text, phase: PrintPhase::Finished },
        PrintAction::Fail(PrintError { kind, message }),
    )
}

/// Moves `job` to `phase`.
fn moved(job: PrintJob, phase: PrintPhase) -> (r: PrintJob)
    ensures
        r@ == (PrintJobView { phase, ..job@ }),
{
    PrintJob { platform: job.platform, text: job.text, phase }
}

/// A new print job for `text`, nothing done yet.
pub fn new_print_job(platform: Platform, text: String) -> (job: PrintJob)
    ensures
        job@ == (PrintJobView { platform, text: text@, phase: PrintPhase::Idle }),
{
    PrintJob { platform, text, phase: PrintPhase::Idle }
}

/// Takes a print job one step further: given how the last action went,
/// returns the job's new state and the next action.
///
/// On Linux the spooler is first asked for its printers; if it names one,
/// the text is written to a temporary file and that file handed to the
/// spooler. On any other platform the job is refused at once.
pub fn print_receipt(job: PrintJob, event: PrintEvent) -> (r: (PrintJob, PrintAction))
    ensures
        (r.0@, r.1@) == print_next(job@, event@),
{
    match job.phase {
        PrintPhase::Idle => match event {
            PrintEvent::Start => match job.platform {
                Platform::Linux => {
                    let action = PrintAction::Run {
                        program: String::from_str("lpstat"),
                        argument: String::from_str("-p"),
                    };
                    (moved(job, PrintPhase::Querying), action)
                },
                Platform::Other => refuse(
                    job,
                    PrintErrorKind::Unsupported,
                    String::from_str("Printing is currently supported only on Linux builds."),
                ),
            },
            _ => unexpected(job),
        },
        PrintPhase::Querying => match event {
            PrintEvent::Failed(detail) => refuse(
                job,
                PrintErrorKind::Failed,
                String::from_str("Printing not available (lpstat not found): ").concat(
                    detail.as_str(),
                ),
            ),
            PrintEvent::Exited { success, stdout, stderr } => {
                if !success {
                    refuse(
                        job,
                        PrintErrorKind::Failed,
                        String::from_str("Printer status check failed: ").concat(stderr.as_str()),
                    )
                } else if !has_printer(stdout.as_str()) {
                    refuse(
                        job,
                        PrintErrorKind::NoPrinter,
                        String::from_str(
                            "No printer configured. Please add/connect a printer in system settings (CUPS).",
                        ),
                    )
                } else {
                    let action = PrintAction::WriteReceipt {
                        file_name: String::from_str("motormods_receipt.txt"),
                        text: job.text.clone(),
                    };
                    (moved(job, PrintPhase::Writing), action)
                }
            },
            _ => unexpected(job),
        },
        PrintPhase::Writing => match event {
            PrintEvent::Failed(detail) => refuse(
                job,
                PrintErrorKind::Failed,
                String::from_str("Failed to write receipt file: ").concat(detail.as_str()),
            ),
            PrintEvent::Written => {
                let action = PrintAction::RunOnReceipt {
                    program: String::from_str("lp"),
                    file_name: String::from_str("motormods_receipt.txt"),
                };
                (moved(job, PrintPhase::Submitting), action)
            },
            _ => unexpected(job),
        },
        PrintPhase::Submitting => match event {
            PrintEvent::Failed(detail) => refuse(
                job,
                PrintErrorKind::Failed,
                String::from_str("Printing not available (lp not found): ").concat(
                    detail.as_str(),
                ),
            ),
            PrintEvent::Exited { success, stdout, stderr } => {
                if success {
                    (moved(job, PrintPhase::Finished), PrintAction::Done)
                } else {
                    refuse(
                        job,
                        PrintErrorKind::Failed,
                        String::from_str("Print failed: ").concat(stderr.as_str()),
                    )
                }
            },
            _ => unexpected(job),
        },
        PrintPhase::Finished => unexpected(job),
    }
}

/// Ends `job` because the event does not answer what was asked.
fn unexpected(job: PrintJob) -> (r: (PrintJob, PrintAction))
    ensures
        (r.0@, r.1@) == refused(
            job@,
            PrintErrorKind::Failed,
            "Unexpected reply while printing"@,
        ),
{
    refuse(job, PrintErrorKind::Failed, String::from_str("Unexpected reply while printing"))
}

} // verus!
