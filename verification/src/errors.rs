//! Failures as the command framework reports them, and their
//! classification: how grave a failure is and what is known of it.

use crate::context::{no_context, ContextModel, ErrorContext, Invocation};
use crate::severity::Severity;
use crate::text::copy_optional;
use crate::time::Timestamp;
use vstd::prelude::*;
use vstd::string::*;

verus! {

/// `anyhow::Error`, the error type that command handlers and setup fail
/// with. Nothing is known of a value of it but what the functions below
/// read from it.
#[verifier::external_type_specification]
#[verifier::external_body]
pub struct ExAnyhowError(anyhow::Error);

/// A failure that the command framework reports.
#[allow(inconsistent_fields)]
#[derive(Debug)]
pub enum FailureEvent<'a> {
    /// A command handler returned an error.
    ExecutionFailure { error: &'a anyhow::Error, ctx: Invocation },
    /// A command handler panicked; the payload is the panic's text, if it
    /// had one.
    Panic { payload: Option<String>, ctx: Invocation },
    /// The framework could not be set up.
    SetupFailure { error: &'a anyhow::Error },
    /// Any other failure: a failed check, arguments that do not parse, a
    /// cooldown and the like. The description is the framework's; the
    /// invocation is there where the failure belongs to one.
    Unclassified { description: String, ctx: Option<Invocation> },
}

/// How the backtrace of an error stands.
#[derive(Clone, Copy, Debug, PartialEq, Eq, Structural)]
pub enum Capture {
    /// Backtraces cannot be taken here.
    Unsupported,
    /// Backtraces are switched off.
    Disabled,
    /// A backtrace was taken when the error arose.
    Captured,
    /// A status that is not known here.
    Unknown,
}

impl Capture {
    /// Whether there is a backtrace to show: only where one was taken.
    pub open spec fn available(self) -> bool {
        self is Captured
    }

    /// Whether there is a backtrace to show.
    pub fn is_available(&self) -> (available: bool)
        ensures
            available == self.available(),
    {
        match self {
            Capture::Captured => true,
            _ => false,
        }
    }
}

/// What is known of the failure itself.
#[derive(Clone, Debug, PartialEq, Eq)]
pub struct ErrorError {
    pub short_message: String,
    pub detailed_message: Option<String>,
    pub backtrace: Option<String>,
}

/// What an `ErrorError` holds.
pub struct ErrorModel {
    pub short_message: Seq<char>,
    pub detailed_message: Option<Seq<char>>,
    pub backtrace: Option<Seq<char>>,
}

impl View for ErrorError {
    type V = ErrorModel;

    open spec fn view(&self) -> ErrorModel {
        ErrorModel {
            short_message: self.short_message@,
            detailed_message: self.detailed_message.deep_view(),
            backtrace: self.backtrace.deep_view(),
        }
    }
}

/// One failure, classified and with its context, ready to be composed.
#[derive(Clone, Debug, PartialEq, Eq)]
pub struct ErrorReport {
    pub severity: Severity,
    pub error: ErrorError,
    pub context: ErrorContext,
    pub timestamp: Timestamp,
}

/// What an `ErrorReport` holds.
pub struct ReportModel {
    pub severity: Severity,
    pub error: ErrorModel,
    pub context: ContextModel,
    pub timestamp: Timestamp,
}

impl View for ErrorReport {
    type V = ReportModel;

    open spec fn view(&self) -> ReportModel {
        ReportModel {
            severity: self.severity,
            error: self.error@,
            context: self.context@,
            timestamp: self.timestamp,
        }
    }
}

/// An error of which nothing is known.
pub open spec fn no_error() -> ErrorModel {
    ErrorModel { short_message: Seq::empty(), detailed_message: None, backtrace: None }
}

/// What is known of a panic: a fixed message, and the panic's own text in
/// the place of a backtrace.
pub open spec fn panic_error(payload: Option<Seq<char>>) -> ErrorModel {
    ErrorModel { short_message: "Command panicked"@, detailed_message: None, backtrace: payload }
}

/// Both renderings of an error, and its backtrace `trace` where one is
/// available and no backtrace where none is.
pub open spec fn rendered_error(
    short_message: Seq<char>,
    detailed_message: Seq<char>,
    capture: Capture,
    trace: Seq<char>,
) -> ErrorModel {
    ErrorModel {
        short_message,
        detailed_message: Some(detailed_message),
        backtrace: if capture.available() {
            Some(trace)
        } else {
            None
        },
    }
}

/// The message of `error`: the text that `{}` prints for it.
pub uninterp spec fn error_message(error: anyhow::Error) -> Seq<char>;

/// How the backtrace of `error` stands.
pub uninterp spec fn backtrace_capture(error: anyhow::Error) -> Capture;

/// Whether `rendered` is what is known of `error`: its message, a full
/// report of it, and a backtrace where one is available and none where
/// none is. The texts of the full report and of the backtrace are what
/// the error prints where it is printed.
pub open spec fn renders(error: anyhow::Error, rendered: ErrorModel) -> bool {
    &&& rendered.short_message == error_message(error)
    &&& rendered.detailed_message is Some
    &&& rendered.backtrace is Some <==> backtrace_capture(error).available()
}

/// The report of a command that returned an error rendered as `error`.
pub open spec fn execution_report(error: ErrorModel, ctx: Invocation) -> ReportModel {
    ReportModel {
        severity: Severity::Degraded,
        error,
        context: ctx.context(),
        timestamp: ctx.created_at,
    }
}

/// The report of a command that panicked with the text `payload`.
pub open spec fn panic_report(payload: Option<Seq<char>>, ctx: Invocation) -> ReportModel {
    ReportModel {
        severity: Severity::Degraded,
        error: panic_error(payload),
        context: ctx.context(),
        timestamp: ctx.created_at,
    }
}

/// The report of a setup that failed at `now` with an error rendered as
/// `error`.
pub open spec fn setup_report(error: ErrorModel, now: Timestamp) -> ReportModel {
    ReportModel { severity: Severity::Critical, error, context: no_context(), timestamp: now }
}

/// The context of the invocation `ctx`, where there is one, and else a
/// context of which nothing is known.
pub open spec fn context_of(ctx: Option<Invocation>) -> ContextModel {
    match ctx {
        Some(ctx) => ctx.context(),
        None => no_context(),
    }
}

/// The report of a failure at `now` that is not told apart any further,
/// with the context of its invocation where it belongs to one.
pub open spec fn unclassified_report(ctx: Option<Invocation>, now: Timestamp) -> ReportModel {
    ReportModel {
        severity: Severity::Notice,
        error: no_error(),
        context: context_of(ctx),
        timestamp: now,
    }
}

impl<'a> FailureEvent<'a> {
    /// The level that a failure of this kind is reported at.
    pub open spec fn severity(self) -> Severity {
        match self {
            FailureEvent::ExecutionFailure { .. } => Severity::Degraded,
            FailureEvent::Panic { .. } => Severity::Degraded,
            FailureEvent::SetupFailure { .. } => Severity::Critical,
            FailureEvent::Unclassified { .. } => Severity::Notice,
        }
    }

    /// The context that a report of this failure has: that of the
    /// invocation, where the failure belongs to one.
    pub open spec fn context(self) -> ContextModel {
        match self {
            FailureEvent::ExecutionFailure { ctx, .. } => ctx.context(),
            FailureEvent::Panic { ctx, .. } => ctx.context(),
            FailureEvent::SetupFailure { .. } => no_context(),
            FailureEvent::Unclassified { ctx, .. } => context_of(ctx),
        }
    }

    /// The time that a report of this failure bears: that of the
    /// invocation, where the failure belongs to one, and else `now`.
    pub open spec fn timestamp(self, now: Timestamp) -> Timestamp {
        match self {
            FailureEvent::ExecutionFailure { ctx, .. } => ctx.created_at,
            FailureEvent::Panic { ctx, .. } => ctx.created_at,
            _ => now,
        }
    }

    /// Whether the process cannot go on after this failure.
    pub open spec fn is_fatal(self) -> bool {
        self is SetupFailure
    }

    /// Whether `report` classifies this failure, handled at `now`.
    /// Severity, context and time follow from the kind of the failure. The
    /// error of a panic and of an unclassified failure is fixed; that of a
    /// failed command or setup is what is known of the failure's error.
    pub open spec fn classified_as(self, now: Timestamp, report: ReportModel) -> bool {
        match self {
            FailureEvent::ExecutionFailure { error, ctx } => {
                &&& report == execution_report(report.error, ctx)
                &&& renders(*error, report.error)
            },
            FailureEvent::Panic { payload, ctx } => report == panic_report(
                payload.deep_view(),
                ctx,
            ),
            FailureEvent::SetupFailure { error } => {
                &&& report == setup_report(report.error, now)
                &&& renders(*error, report.error)
            },
            FailureEvent::Unclassified { ctx, .. } => report == unclassified_report(ctx, now),
        }
    }

    /// Whether the process cannot go on after this failure.
    pub fn fatal(&self) -> (fatal: bool)
        ensures
            fatal == self.is_fatal(),
    {
        match self {
            FailureEvent::SetupFailure { .. } => true,
            _ => false,
        }
    }
}

/// The message of `error`, as `{}` prints it.
///
/// Trusted: formats the error with `Display`, which anyhow hands on to the
/// error it wraps. The text is taken to be a function of the error; it is
/// named, not spelt out.
#[verifier::external_body]
fn error_display(error: &anyhow::Error) -> (text: String)
    ensures
        text@ == error_message(*error),
{
    format!("{error}")
}

/// The report of `error`, as `{:?}` prints it.
///
/// Trusted: formats the error with `Debug`, for which anyhow prints the
/// message, the chain of causes and a captured backtrace. Nothing is
/// claimed of the text: with the backtrace in it, it depends on what the
/// machine knows of the running program when the text is made.
#[verifier::external_body]
fn error_debug(error: &anyhow::Error) -> (text: String) {
    format!("{error:?}")
}

/// How the backtrace of `error` stands.
///
/// Trusted: asks `Error::backtrace` of anyhow for the backtrace and reads
/// its status, which was settled when the error arose and is kept in the
/// error. Each status of the standard library is handed on under its own
/// name; one that may be added later comes out as `Unknown`.
#[verifier::external_body]
fn backtrace_status(error: &anyhow::Error) -> (capture: Capture)
    ensures
        capture == backtrace_capture(*error),
{
    match error.backtrace().status() {
        std::backtrace::BacktraceStatus::Unsupported => Capture::Unsupported,
        std::backtrace::BacktraceStatus::Disabled => Capture::Disabled,
        std::backtrace::BacktraceStatus::Captured => Capture::Captured,
        _ => Capture::Unknown,
    }
}

/// The backtrace of `error` as text.
///
/// Trusted: prints what `Error::backtrace` of anyhow returns. Nothing is
/// claimed of the text: the names in it are looked up on the machine when
/// the text is made.
#[verifier::external_body]
fn backtrace_text(error: &anyhow::Error) -> (text: String) {
    error.backtrace().to_string()
}

impl ErrorError {
    /// What is known of a failure whose error was rendered as
    /// `short_message` and, in full, as `detailed_message`, and whose
    /// backtrace stands as `capture` says and reads `trace`. The backtrace
    /// is kept where one is available and left out where none is.
    pub fn rendered(
        short_message: String,
        detailed_message: String,
        capture: Capture,
        trace: String,
    ) -> (error: ErrorError)
        ensures
            error@ == rendered_error(short_message@, detailed_message@, capture, trace@),
    {
        let backtrace = if capture.is_available() {
            Some(trace)
        } else {
            None
        };
        ErrorError { short_message, detailed_message: Some(detailed_message), backtrace }
    }

    /// What is known of a panic with the text `payload`.
    pub fn panicked(payload: &Option<String>) -> (error: ErrorError)
        ensures
            error@ == panic_error(payload.deep_view()),
    {
        ErrorError {
            short_message: String::from_str("Command panicked"),
            detailed_message: None,
            backtrace: copy_optional(payload),
        }
    }

    /// Renders `error`: its message, its full report, and its backtrace
    /// where one is available. The message is the error's own, and a
    /// backtrace is kept exactly where one was taken; the texts of the
    /// full report and of the backtrace are what the error prints.
    pub fn from_error(error: &anyhow::Error) -> (rendered: ErrorError)
        ensures
            renders(*error, rendered@),
    {
        let short_message = error_display(error);
        let detailed_message = error_debug(error);
        let capture = backtrace_status(error);
        let trace = backtrace_text(error);
        ErrorError::rendered(short_message, detailed_message, capture, trace)
    }
}

impl Default for ErrorError {
    /// An error of which nothing is known.
    fn default() -> (error: ErrorError)
        ensures
            error@ == no_error(),
    {
        ErrorError { short_message: String::new(), detailed_message: None, backtrace: None }
    }
}

impl ErrorReport {
    /// Reports a command that returned an error, rendered as `error`.
    pub fn execution_failure(error: ErrorError, ctx: &Invocation) -> (report: ErrorReport)
        ensures
            report@ == execution_report(error@, *ctx),
    {
        ErrorReport {
            severity: Severity::Degraded,
            error,
            context: ErrorContext::from_context(ctx),
            timestamp: ctx.created_at,
        }
    }

    /// Reports a command that panicked.
    pub fn panic(payload: &Option<String>, ctx: &Invocation) -> (report: ErrorReport)
        ensures
            report@ == panic_report(payload.deep_view(), *ctx),
    {
        ErrorReport {
            severity: Severity::Degraded,
            error: ErrorError::panicked(payload),
            context: ErrorContext::from_context(ctx),
            timestamp: ctx.created_at,
        }
    }

    /// Reports a setup that failed at `now` with an error rendered as
    /// `error`.
    pub fn setup_failure(error: ErrorError, now: Timestamp) -> (report: ErrorReport)
        ensures
            report@ == setup_report(error@, now),
    {
        ErrorReport {
            severity: Severity::Critical,
            error,
            context: ErrorContext::default(),
            timestamp: now,
        }
    }

    /// Reports a failure at `now` that is not told apart any further,
    /// with what its invocation tells where it belongs to one.
    pub fn unclassified(ctx: &Option<Invocation>, now: Timestamp) -> (report: ErrorReport)
        ensures
            report@ == unclassified_report(*ctx, now),
    {
        ErrorReport {
            severity: Severity::default(),
            error: ErrorError::default(),
            context: match ctx {
                Some(ctx) => ErrorContext::from_context(ctx),
                None => ErrorContext::default(),
            },
            timestamp: now,
        }
    }

    /// Classifies `e`, which is handled at `now`.
    pub fn from_error(e: &FailureEvent, now: Timestamp) -> (report: ErrorReport)
        ensures
            e.classified_as(now, report@),
    {
        match e {
            FailureEvent::ExecutionFailure { error, ctx } => ErrorReport::execution_failure(
                ErrorError::from_error(error),
                ctx,
            ),
            FailureEvent::Panic { payload, ctx } => ErrorReport::panic(payload, ctx),
            FailureEvent::SetupFailure { error } => ErrorReport::setup_failure(
                ErrorError::from_error(error),
                now,
            ),
            FailureEvent::Unclassified { ctx, .. } => ErrorReport::unclassified(ctx, now),
        }
    }
}

impl Default for ErrorReport {
    /// The report of nothing in particular, at the Unix epoch.
    fn default() -> (report: ErrorReport)
        ensures
            report@ == unclassified_report(None, Timestamp { unix_nanos: 0 }),
    {
        ErrorReport::unclassified(&None, Timestamp::default())
    }
}

/// What a report says follows from the kind of the failure alone, but for
/// the texts that an error prints: the level, the context and the time.
pub proof fn lemma_classification(e: FailureEvent, now: Timestamp, report: ReportModel)
    requires
        e.classified_as(now, report),
    ensures
        report.severity == e.severity(),
        report.context == e.context(),
        report.timestamp == e.timestamp(now),
        e is Unclassified ==> report.error == no_error(),
        e matches FailureEvent::Panic { payload, .. } ==> report.error == panic_error(
            payload.deep_view(),
        ),
{
}

/// A failure that is not told apart any further is reported as a notice
/// without an error, at the time at which it is handled. Where it belongs
/// to an invocation, the report has what the invocation tells: the text
/// that was typed, the author and the command's name in any case.
pub proof fn lemma_unclassified_keeps_context(
    e: FailureEvent,
    now: Timestamp,
    report: ReportModel,
)
    requires
        e is Unclassified,
        e.classified_as(now, report),
    ensures
        report.severity == Severity::Notice,
        report.error == no_error(),
        report.timestamp == now,
        e matches FailureEvent::Unclassified { ctx: Some(ctx), .. } ==> {
            &&& report.context == ctx.context()
            &&& report.context.invocation_text == Some(ctx.invocation_string@)
            &&& report.context.author == Some(ctx.author@)
            &&& report.context.command_name == Some(ctx.invoked_command_name@)
        },
        e matches FailureEvent::Unclassified { ctx: None, .. } ==> report.context == no_context(),
{
}

/// What is known of the error of a failed command or setup: its message
/// is the error's own, it has a full report, and it has a backtrace
/// exactly where one was taken when the error arose.
pub proof fn lemma_error_is_rendered(e: FailureEvent, now: Timestamp, report: ReportModel)
    requires
        e.classified_as(now, report),
    ensures
        e matches FailureEvent::ExecutionFailure { error, .. } ==> renders(*error, report.error),
        e matches FailureEvent::SetupFailure { error } ==> renders(*error, report.error),
{
}

/// A panic that carried no text is reported with the fixed message and
/// nothing else: no full report and no backtrace.
pub proof fn lemma_silent_panic(e: FailureEvent, now: Timestamp, report: ReportModel)
    requires
        e matches FailureEvent::Panic { payload, .. } && payload is None,
        e.classified_as(now, report),
    ensures
        report.error.short_message == "Command panicked"@,
        report.error.detailed_message is None,
        report.error.backtrace is None,
{
}

} // verus!
