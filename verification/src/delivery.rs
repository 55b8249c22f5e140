//! What to do with a failure, step by step: send the notification, log
//! what went wrong on the way, and close with a shutdown or with the
//! default acknowledgment.
//!
//! The steps that reach outside are not taken here. `begin` and `step`
//! decide; the caller posts, logs, shuts down or acknowledges, and reports
//! back what came of it.

use crate::config::Secrets;
use crate::errors::{ErrorModel, ErrorReport, FailureEvent, ReportModel};
use crate::payload::{Payload, PayloadModel};
use crate::text::{lemma_head_occurs, lemma_occurs_in_transitive, lemma_tail_occurs, occurs_in};
use crate::time::Timestamp;
use vstd::prelude::*;
use vstd::string::*;

verus! {

/// How far the handling of one failure has come.
#[derive(Clone, Copy, Debug, PartialEq, Eq, Structural)]
pub enum Stage {
    /// The notification is on its way; its fate is awaited.
    Delivering,
    /// The closing step, a shutdown or the default acknowledgment, is on
    /// its way.
    Closing,
    /// Nothing is left to do.
    Done,
}

/// The handling of one failure: where it stands and what it remembers.
#[derive(Clone, Debug, PartialEq, Eq)]
pub struct Handling {
    pub stage: Stage,
    /// Whether the process is to shut down once the failure is reported.
    pub fatal: bool,
    /// The failure's own account of itself, for the local log.
    pub account: String,
}

/// What a `Handling` holds.
pub struct HandlingModel {
    pub stage: Stage,
    pub fatal: bool,
    pub account: Seq<char>,
}

impl View for Handling {
    type V = HandlingModel;

    open spec fn view(&self) -> HandlingModel {
        HandlingModel { stage: self.stage, fatal: self.fatal, account: self.account@ }
    }
}

/// What came of the step that was asked for last.
#[derive(Clone, Debug, PartialEq, Eq)]
pub enum Outcome {
    /// The delivery channel took the notification.
    Delivered,
    /// The delivery channel could not be reached at all.
    Unreachable { reason: String },
    /// The delivery channel refused the notification.
    Rejected { reason: String },
    /// The closing step was carried out.
    Closed,
    /// The default acknowledgment failed.
    CloseFailed { reason: String },
}

/// What an `Outcome` holds.
pub enum OutcomeModel {
    Delivered,
    Unreachable { reason: Seq<char> },
    Rejected { reason: Seq<char> },
    Closed,
    CloseFailed { reason: Seq<char> },
}

impl View for Outcome {
    type V = OutcomeModel;

    open spec fn view(&self) -> OutcomeModel {
        match self {
            Outcome::Delivered => OutcomeModel::Delivered,
            Outcome::Unreachable { reason } => OutcomeModel::Unreachable { reason: reason@ },
            Outcome::Rejected { reason } => OutcomeModel::Rejected { reason: reason@ },
            Outcome::Closed => OutcomeModel::Closed,
            Outcome::CloseFailed { reason } => OutcomeModel::CloseFailed { reason: reason@ },
        }
    }
}

impl OutcomeModel {
    /// Whether the outcome tells the fate of a delivery.
    pub open spec fn settles_delivery(self) -> bool {
        self is Delivered || self is Unreachable || self is Rejected
    }

    /// Whether the outcome tells the fate of a closing step.
    pub open spec fn settles_closing(self) -> bool {
        self is Closed || self is CloseFailed
    }
}

/// What is to be done next.
#[derive(Clone, Copy, Debug, PartialEq, Eq, Structural)]
pub enum Effect {
    /// Shut all connections down in an orderly way.
    Shutdown,
    /// Let the command framework acknowledge the failure to the user in
    /// its default way.
    Acknowledge,
    /// Go on waiting: the outcome at hand was not the awaited one.
    Wait,
    /// Stop: the failure is dealt with.
    Finish,
}

/// One decision: a line for the local log, if any, and then an effect.
#[derive(Clone, Debug, PartialEq, Eq)]
pub struct Decision {
    pub log: Option<String>,
    pub effect: Effect,
}

/// What a `Decision` holds.
pub struct DecisionModel {
    pub log: Option<Seq<char>>,
    pub effect: Effect,
}

impl View for Decision {
    type V = DecisionModel;

    open spec fn view(&self) -> DecisionModel {
        DecisionModel { log: self.log.deep_view(), effect: self.effect }
    }
}

/// A notification and the endpoint that it goes to.
#[derive(Clone, Debug, PartialEq, Eq)]
pub struct Delivery {
    pub endpoint: String,
    pub payload: Payload,
}

/// What a `Delivery` holds.
pub struct DeliveryModel {
    pub endpoint: Seq<char>,
    pub payload: PayloadModel,
}

impl View for Delivery {
    type V = DeliveryModel;

    open spec fn view(&self) -> DeliveryModel {
        DeliveryModel { endpoint: self.endpoint@, payload: self.payload@ }
    }
}

impl ErrorModel {
    /// The message, and under it the full report where there is one.
    pub open spec fn summary(self) -> Seq<char> {
        match self.detailed_message {
            Some(detail) => self.short_message + "\n"@ + detail,
            None => self.short_message,
        }
    }
}

impl<'a> FailureEvent<'a> {
    /// The failure's own account of itself: its description, for a failure
    /// that is not told apart any further, and else the summary of the
    /// error that was classified, with the text of a panic under it where
    /// the panic had one.
    pub open spec fn account(self, error: ErrorModel) -> Seq<char> {
        match self {
            FailureEvent::Unclassified { description, .. } => description@,
            FailureEvent::Panic { payload: Some(text), .. } => error.summary() + "\n"@ + text@,
            _ => error.summary(),
        }
    }
}

/// The state in which the handling of `e`, classified as `report`, starts.
pub open spec fn starting(e: FailureEvent, report: ReportModel) -> HandlingModel {
    HandlingModel {
        stage: Stage::Delivering,
        fatal: e.is_fatal(),
        account: e.account(report.error),
    }
}

/// The line that records a delivery channel that could not be reached.
pub open spec fn unreachable_line(reason: Seq<char>, account: Seq<char>) -> Seq<char> {
    "Could not initialize a reporting webhook ("@ + reason + "), original error: "@ + account
}

/// The line that records a notification that was refused.
pub open spec fn rejected_line(reason: Seq<char>, account: Seq<char>) -> Seq<char> {
    "Failed to report error with webhook ("@ + reason + ", original error: "@ + account
}

/// The line that records a default acknowledgment that failed.
pub open spec fn close_failed_line(reason: Seq<char>) -> Seq<char> {
    "Error from the error handler: "@ + reason
}

impl HandlingModel {
    /// The closing step: a shutdown after a fatal failure, and else the
    /// default acknowledgment.
    pub open spec fn closing_effect(self) -> Effect {
        if self.fatal {
            Effect::Shutdown
        } else {
            Effect::Acknowledge
        }
    }

    /// The same handling at another stage.
    pub open spec fn at(self, stage: Stage) -> HandlingModel {
        HandlingModel { stage, ..self }
    }

    /// The state and the decision that follow on `outcome`.
    ///
    /// While the notification is under way, any fate of it leads to the
    /// closing step; a failure to deliver is logged first, together with
    /// the failure's own account. While the closing step is under way, its
    /// fate ends the handling; a failed acknowledgment is logged. An
    /// outcome that is not the awaited one changes nothing.
    pub open spec fn next(self, outcome: OutcomeModel) -> (HandlingModel, DecisionModel) {
        match self.stage {
            Stage::Delivering => match outcome {
                OutcomeModel::Delivered => (
                    self.at(Stage::Closing),
                    DecisionModel { log: None, effect: self.closing_effect() },
                ),
                OutcomeModel::Unreachable { reason } => (
                    self.at(Stage::Closing),
                    DecisionModel {
                        log: Some(unreachable_line(reason, self.account)),
                        effect: self.closing_effect(),
                    },
                ),
                OutcomeModel::Rejected { reason } => (
                    self.at(Stage::Closing),
                    DecisionModel {
                        log: Some(rejected_line(reason, self.account)),
                        effect: self.closing_effect(),
                    },
                ),
                _ => (self, DecisionModel { log: None, effect: Effect::Wait }),
            },
            Stage::Closing => match outcome {
                OutcomeModel::Closed => (
                    self.at(Stage::Done),
                    DecisionModel { log: None, effect: Effect::Finish },
                ),
                OutcomeModel::CloseFailed { reason } => (
                    self.at(Stage::Done),
                    DecisionModel { log: Some(close_failed_line(reason)), effect: Effect::Finish },
                ),
                _ => (self, DecisionModel { log: None, effect: Effect::Wait }),
            },
            Stage::Done => (self, DecisionModel { log: None, effect: Effect::Finish }),
        }
    }
}

impl ErrorReport {
    /// The message of the report's error, and under it the full report
    /// where there is one.
    pub fn summary(&self) -> (text: String)
        ensures
            text@ == self@.error.summary(),
    {
        let mut text = self.error.short_message.clone();
        match &self.error.detailed_message {
            Some(detail) => {
                text.append("\n");
                text.append(detail.as_str());
            },
            None => {},
        }
        text
    }
}

impl Handling {
    /// Starts the handling of `e`, which was classified as `report`.
    pub fn of(e: &FailureEvent, report: &ErrorReport) -> (handling: Handling)
        ensures
            handling@ == starting(*e, report@),
    {
        let account = match e {
            FailureEvent::Unclassified { description, .. } => description.clone(),
            FailureEvent::Panic { payload: Some(text), .. } => {
                let mut account = report.summary();
                account.append("\n");
                account.append(text.as_str());
                account
            },
            _ => report.summary(),
        };
        let fatal = match e {
            FailureEvent::SetupFailure { .. } => true,
            _ => false,
        };
        Handling { stage: Stage::Delivering, fatal, account }
    }

    fn closing_effect(&self) -> (effect: Effect)
        ensures
            effect == self@.closing_effect(),
    {
        if self.fatal {
            Effect::Shutdown
        } else {
            Effect::Acknowledge
        }
    }

    /// Takes the outcome of the step that was asked for last and decides
    /// what is logged and what is done next.
    pub fn step(&mut self, outcome: Outcome) -> (decision: Decision)
        ensures
            (final(self)@, decision@) == old(self)@.next(outcome@),
    {
        match self.stage {
            Stage::Delivering => match outcome {
                Outcome::Delivered => {
                    self.stage = Stage::Closing;
                    Decision { log: None, effect: self.closing_effect() }
                },
                Outcome::Unreachable { reason } => {
                    let mut line = String::from_str("Could not initialize a reporting webhook (");
                    line.append(reason.as_str());
                    line.append("), original error: ");
                    line.append(self.account.as_str());
                    self.stage = Stage::Closing;
                    Decision { log: Some(line), effect: self.closing_effect() }
                },
                Outcome::Rejected { reason } => {
                    let mut line = String::from_str("Failed to report error with webhook (");
                    line.append(reason.as_str());
                    line.append(", original error: ");
                    line.append(self.account.as_str());
                    self.stage = Stage::Closing;
                    Decision { log: Some(line), effect: self.closing_effect() }
                },
                _ => Decision { log: None, effect: Effect::Wait },
            },
            Stage::Closing => match outcome {
                Outcome::Closed => {
                    self.stage = Stage::Done;
                    Decision { log: None, effect: Effect::Finish }
                },
                Outcome::CloseFailed { reason } => {
                    let mut line = String::from_str("Error from the error handler: ");
                    line.append(reason.as_str());
                    self.stage = Stage::Done;
                    Decision { log: Some(line), effect: Effect::Finish }
                },
                _ => Decision { log: None, effect: Effect::Wait },
            },
            Stage::Done => Decision { log: None, effect: Effect::Finish },
        }
    }
}

/// Takes up the failure `e` at the time `now`: classifies it, composes the
/// notification, addresses it to the configured endpoint and starts the
/// handling. The notification is that of some report that `e` is
/// classified as; the handling starts from the same report.
pub fn begin(e: &FailureEvent, now: Timestamp, secrets: &Secrets) -> (started: (
    Handling,
    Delivery,
))
    ensures
        exists|report: ReportModel|
            {
                &&& #[trigger] e.classified_as(now, report)
                &&& started.0@ == starting(*e, report)
                &&& started.1@ == DeliveryModel {
                    endpoint: secrets.webhook_url@,
                    payload: report.payload(),
                }
            },
{
    let report = ErrorReport::from_error(e, now);
    let handling = Handling::of(e, &report);
    let delivery = Delivery {
        endpoint: secrets.webhook_url.clone(),
        payload: report.into_payload(),
    };
    (handling, delivery)
}

/// The effects that are decided on, one after another, when `outcomes`
/// come in from `state` on.
pub open spec fn effects(state: HandlingModel, outcomes: Seq<OutcomeModel>) -> Seq<Effect>
    decreases outcomes.len(),
{
    if outcomes.len() == 0 {
        Seq::empty()
    } else {
        seq![state.next(outcomes.first()).1.effect] + effects(
            state.next(outcomes.first()).0,
            outcomes.drop_first(),
        )
    }
}

/// The state that is reached when `outcomes` come in from `state` on.
pub open spec fn settled(state: HandlingModel, outcomes: Seq<OutcomeModel>) -> HandlingModel
    decreases outcomes.len(),
{
    if outcomes.len() == 0 {
        state
    } else {
        settled(state.next(outcomes.first()).0, outcomes.drop_first())
    }
}

/// How many of `effects` are shutdowns.
pub open spec fn shutdowns(effects: Seq<Effect>) -> nat
    decreases effects.len(),
{
    if effects.len() == 0 {
        0
    } else if effects.first() == Effect::Shutdown {
        1 + shutdowns(effects.drop_first())
    } else {
        shutdowns(effects.drop_first())
    }
}

/// From a state past the delivery no shutdown is decided on any more, and
/// a handling that is not fatal never decides on one.
pub proof fn lemma_no_shutdown(state: HandlingModel, outcomes: Seq<OutcomeModel>)
    requires
        !state.fatal || state.stage != Stage::Delivering,
    ensures
        shutdowns(effects(state, outcomes)) == 0,
    decreases outcomes.len(),
{
    if outcomes.len() > 0 {
        let after = state.next(outcomes.first()).0;
        let rest = effects(after, outcomes.drop_first());
        lemma_no_shutdown(after, outcomes.drop_first());
        assert(effects(state, outcomes).drop_first() =~= rest);
    }
}

/// A fatal handling decides on a shutdown when the fate of the delivery
/// comes in, whatever that fate is, and on no other: among all the
/// effects of a run there is exactly one shutdown where the run holds a
/// delivery's fate, and none before that.
pub proof fn lemma_fatal_shuts_down_once(state: HandlingModel, outcomes: Seq<OutcomeModel>)
    requires
        state.fatal,
        state.stage == Stage::Delivering,
    ensures
        shutdowns(effects(state, outcomes)) == if exists|i: int|
            0 <= i < outcomes.len() && (#[trigger] outcomes[i]).settles_delivery() {
            1nat
        } else {
            0nat
        },
    decreases outcomes.len(),
{
    if outcomes.len() > 0 {
        let after = state.next(outcomes.first()).0;
        let later = outcomes.drop_first();
        assert(effects(state, outcomes).drop_first() =~= effects(after, later));
        if outcomes.first().settles_delivery() {
            lemma_no_shutdown(after, later);
            assert(outcomes[0].settles_delivery());
        } else {
            lemma_fatal_shuts_down_once(after, later);
            if exists|i: int| 0 <= i < later.len() && (#[trigger] later[i]).settles_delivery() {
                let i = choose|i: int|
                    0 <= i < later.len() && (#[trigger] later[i]).settles_delivery();
                assert(outcomes[i + 1].settles_delivery());
            } else {
                assert forall|i: int| 0 <= i < outcomes.len() implies !(#[trigger] outcomes[
                    i
                ]).settles_delivery() by {
                    if i > 0 {
                        assert(later[i - 1] == outcomes[i]);
                    }
                }
            }
        }
    }
}

/// A failed setup shuts the process down exactly once, whatever became of
/// the notification: as soon as the fate `fate` of the delivery is known,
/// and never again, whatever comes in later. No other failure shuts
/// anything down.
pub proof fn lemma_setup_failure_shuts_down_once(
    e: FailureEvent,
    report: ReportModel,
    fate: OutcomeModel,
    later: Seq<OutcomeModel>,
)
    requires
        fate.settles_delivery(),
    ensures
        e is SetupFailure ==> shutdowns(effects(starting(e, report), seq![fate] + later)) == 1,
        e is SetupFailure ==> starting(e, report).next(fate).1.effect == Effect::Shutdown,
        !(e is SetupFailure) ==> shutdowns(effects(starting(e, report), seq![fate] + later)) == 0,
{
    let outcomes = seq![fate] + later;
    assert(outcomes[0].settles_delivery());
    if e is SetupFailure {
        lemma_fatal_shuts_down_once(starting(e, report), outcomes);
    } else {
        lemma_no_shutdown(starting(e, report), outcomes);
    }
}

/// The message of an error occurs in its summary.
pub proof fn lemma_summary_holds_message(error: ErrorModel)
    ensures
        occurs_in(error.short_message, error.summary()),
{
    lemma_head_occurs(error.short_message, error.summary().skip(error.short_message.len() as int));
    assert(error.summary() =~= error.short_message + error.summary().skip(
        error.short_message.len() as int,
    ));
}

/// The message of the error that was classified occurs in the account of
/// every failure but one that is not told apart any further.
pub proof fn lemma_account_holds_message(e: FailureEvent, error: ErrorModel)
    requires
        !(e is Unclassified),
    ensures
        occurs_in(error.short_message, e.account(error)),
{
    lemma_summary_holds_message(error);
    match e {
        FailureEvent::Panic { payload: Some(text), .. } => {
            lemma_head_occurs(error.summary(), "\n"@ + text@);
            assert(e.account(error) =~= error.summary() + ("\n"@ + text@));
            lemma_occurs_in_transitive(error.short_message, error.summary(), e.account(error));
        },
        _ => {},
    }
}

/// A delivery that fails does not stop the handling, and the failure that
/// was to be reported is not lost. Whether the channel could not be
/// reached or refused the notification, for the reason `reason`: a line
/// is logged that holds the failure's own account of itself, and with it
/// the message of the error that was classified; the closing step is
/// decided on as after a delivery that went well; and once the closing
/// step has come to an end `closing`, the handling is done.
pub proof fn lemma_failed_delivery_is_logged(
    e: FailureEvent,
    report: ReportModel,
    reason: Seq<char>,
    refused: bool,
    closing: OutcomeModel,
)
    requires
        closing.settles_closing(),
    ensures
        ({
            let fate = if refused {
                OutcomeModel::Rejected { reason }
            } else {
                OutcomeModel::Unreachable { reason }
            };
            let start = starting(e, report);
            let (after, decision) = start.next(fate);
            &&& decision.log matches Some(line) && occurs_in(e.account(report.error), line) && (!(e
                is Unclassified) ==> occurs_in(report.error.short_message, line))
            &&& decision.effect == start.next(OutcomeModel::Delivered).1.effect
            &&& after == start.next(OutcomeModel::Delivered).0
            &&& after.next(closing).0.stage == Stage::Done
            &&& after.next(closing).1.effect == Effect::Finish
            &&& settled(start, seq![fate, closing]).stage == Stage::Done
        }),
{
    let fate = if refused {
        OutcomeModel::Rejected { reason }
    } else {
        OutcomeModel::Unreachable { reason }
    };
    let start = starting(e, report);
    let (after, decision) = start.next(fate);
    let account = e.account(report.error);
    let line = decision.log->0;
    if refused {
        lemma_tail_occurs(
            "Failed to report error with webhook ("@ + reason + ", original error: "@,
            account,
        );
    } else {
        lemma_tail_occurs(
            "Could not initialize a reporting webhook ("@ + reason + "), original error: "@,
            account,
        );
    }
    if !(e is Unclassified) {
        lemma_account_holds_message(e, report.error);
        lemma_occurs_in_transitive(report.error.short_message, account, line);
    }
    let run = seq![fate, closing];
    assert(run.drop_first() =~= seq![closing]);
    assert(seq![closing].drop_first() =~= Seq::<OutcomeModel>::empty());
    reveal_with_fuel(settled, 3);
}

} // verus!
