//! The submission and confirmation engine as a state machine. The engine
//! decides; its driver performs each action on the network and hands back
//! what happened as an event.

use crate::classify::classification;
use crate::classify::classify;
use crate::classify::Classification;
use crate::classify::RemoteError;
use crate::instruction::batch_view;
use crate::instruction::build_batch;
use crate::instruction::compute_unit_price_instruction;
use crate::instruction::reprice_batch;
use crate::instruction::with_budget;
use crate::instruction::Instruction;
use crate::instruction::InstructionView;
use vstd::prelude::*;

verus! {

/// How many submissions one cycle may make before it gives up.
pub const GATEWAY_RETRIES: u64 = 150;

/// How many times the status of one submission is asked for.
pub const CONFIRM_RETRIES: u64 = 8;

/// The pause before each status query, in milliseconds.
pub const CONFIRM_DELAY: u64 = 500;

/// The anchor is fetched anew before every submission whose number is a
/// multiple of this.
pub const REFRESH_INTERVAL: u64 = 10;

/// The least balance, in the ledger's smallest unit, that a signer must hold.
pub const MIN_BALANCE: u64 = 500_000;

/// The identifier of a submitted batch.
#[derive(Clone, Copy, Debug, PartialEq, Eq)]
pub struct Signature {
    pub bytes: [u8; 64],
}

/// A recent checkpoint of the ledger and the last slot at which a batch signed
/// against it is still accepted.
#[derive(Clone, Copy, Debug, PartialEq, Eq)]
pub struct Anchor {
    pub blockhash: [u8; 32],
    pub last_valid_slot: u64,
}

/// What the ledger says of a submitted batch.
#[derive(Clone, Copy, Debug, PartialEq, Eq)]
pub enum ConfirmationStatus {
    NotYetVisible,
    ProcessedNotConfirmed,
    Confirmed,
    Finalized,
    Failed(RemoteError),
}

/// Why a submission ended without a confirmed batch.
#[derive(Clone, Copy, Debug, PartialEq, Eq)]
pub enum TerminalError {
    /// The signer holds less than `MIN_BALANCE`.
    InsufficientBalance,
    /// The compute budget was to be found by simulation, which is not offered.
    UnsupportedFeePolicy,
    /// No anchor could be fetched.
    TransientNetwork,
    /// `GATEWAY_RETRIES` submissions were made and none was confirmed.
    Timeout,
    /// The program rejected the batch with this code.
    FatalCustom(u32),
    /// The ledger rejected the batch for any other reason.
    FatalOther,
}

/// What the driver reports back to the engine.
#[derive(Clone, Copy, Debug, PartialEq, Eq)]
pub enum Event {
    /// The signer's balance, or `None` where it could not be fetched.
    BalanceFetched(Option<u64>),
    /// The estimated priority fee, or `None` where the estimate failed.
    FeeEstimated(Option<u64>),
    /// A fresh anchor, or `None` where every try to fetch one failed.
    AnchorFetched(Option<Anchor>),
    /// The batch was signed against the current anchor.
    Signed,
    /// The ledger's gateway took the signed batch.
    Submitted(Signature),
    /// The signed batch could not be handed to the gateway.
    SubmitFailed,
    /// The ledger answered a status query.
    StatusFetched(ConfirmationStatus),
    /// A status query failed.
    StatusUnavailable,
}

/// What the engine asks its driver to do next.
#[derive(Clone, Copy, Debug, PartialEq, Eq)]
pub enum Action {
    /// Fetch the signer's balance.
    FetchBalance,
    /// Estimate the priority fee.
    EstimateFee,
    /// Fetch a fresh anchor.
    FetchAnchor,
    /// Sign the engine's batch against the engine's anchor.
    Sign,
    /// Hand the signed batch to the gateway.
    Submit,
    /// Wait for `delay_ms` milliseconds, then ask for the batch's status.
    Poll { delay_ms: u64 },
    /// Stop: the submission has ended with this result.
    Finish(Result<Signature, TerminalError>),
}

/// Where a submission stands: what the engine is waiting for.
#[derive(Clone, Copy, Debug, PartialEq, Eq)]
pub enum Phase {
    AwaitBalance,
    AwaitFee,
    AwaitAnchor,
    AwaitSignature,
    AwaitSubmission,
    AwaitStatus(Signature),
    Done(Result<Signature, TerminalError>),
}

/// One submission cycle: the batch, the anchor it is signed against, and the
/// counters that bound the retries.
pub struct Submission {
    phase: Phase,
    attempts: u64,
    polls: u64,
    batch: Vec<Instruction>,
    anchor: Option<Anchor>,
    static_fee: u64,
    dynamic_fee: bool,
    skip_confirmation: bool,
}

/// What a `Submission` holds.
pub struct SubmissionView {
    pub phase: Phase,
    pub attempts: nat,
    pub polls: nat,
    pub batch: Seq<InstructionView>,
    pub anchor: Option<Anchor>,
    pub static_fee: u64,
    pub dynamic_fee: bool,
    pub skip_confirmation: bool,
}

/// Whether a balance report lets a submission start. A balance that could not
/// be fetched counts as none at all.
pub open spec fn balance_suffices(balance: Option<u64>) -> bool {
    match balance {
        Some(held) => held >= MIN_BALANCE,
        None => false,
    }
}

/// The state in which every submission starts.
pub open spec fn initial_state(
    units: u32,
    static_fee: u64,
    dynamic_fee: bool,
    skip_confirmation: bool,
    instructions: Seq<InstructionView>,
) -> SubmissionView {
    SubmissionView {
        phase: Phase::AwaitBalance,
        attempts: 0,
        polls: 0,
        batch: with_budget(units, static_fee, instructions),
        anchor: None,
        static_fee,
        dynamic_fee,
        skip_confirmation,
    }
}

/// What holds of every state that a submission can reach.
pub open spec fn well_formed(s: SubmissionView) -> bool {
    &&& s.batch.len() >= 2
    &&& s.attempts <= GATEWAY_RETRIES
    &&& s.polls < CONFIRM_RETRIES
    &&& s.phase is AwaitBalance ==> s.attempts == 0
    &&& (s.phase is AwaitFee || s.phase is AwaitAnchor || s.phase is AwaitSignature) ==> {
        &&& s.attempts < GATEWAY_RETRIES
        &&& refresh_due(s.attempts)
    }
    &&& (s.phase is AwaitSubmission || s.phase is AwaitStatus) ==> s.attempts >= 1
    &&& (s.phase is AwaitSignature || s.phase is AwaitSubmission || s.phase is AwaitStatus)
        ==> s.anchor is Some
}

/// The action that a state is waiting on.
pub open spec fn pending_action(s: SubmissionView) -> Action {
    match s.phase {
        Phase::AwaitBalance => Action::FetchBalance,
        Phase::AwaitFee => Action::EstimateFee,
        Phase::AwaitAnchor => Action::FetchAnchor,
        Phase::AwaitSignature => Action::Sign,
        Phase::AwaitSubmission => Action::Submit,
        Phase::AwaitStatus(_) => Action::Poll { delay_ms: CONFIRM_DELAY },
        Phase::Done(outcome) => Action::Finish(outcome),
    }
}

/// Whether the next submission must be signed against a fresh anchor.
pub open spec fn refresh_due(attempts: nat) -> bool {
    attempts % (REFRESH_INTERVAL as nat) == 0
}

/// The state that ends a submission with `outcome`.
pub open spec fn finished(s: SubmissionView, outcome: Result<Signature, TerminalError>)
    -> SubmissionView {
    SubmissionView { phase: Phase::Done(outcome), ..s }
}

/// The state at the top of the submission loop. Once the retry budget is
/// spent the submission ends. Where a refresh is due the old anchor is dropped
/// and the fee is estimated, if fees are dynamic, or a new anchor is fetched.
/// Otherwise the batch goes out again as it was signed.
pub open spec fn begin_attempt(s: SubmissionView) -> SubmissionView {
    if s.attempts >= GATEWAY_RETRIES {
        finished(s, Err(TerminalError::Timeout))
    } else if refresh_due(s.attempts) {
        SubmissionView {
            phase: if s.dynamic_fee {
                Phase::AwaitFee
            } else {
                Phase::AwaitAnchor
            },
            anchor: None,
            polls: 0,
            ..s
        }
    } else {
        SubmissionView {
            phase: Phase::AwaitSubmission,
            attempts: s.attempts + 1,
            polls: 0,
            ..s
        }
    }
}

/// The state after a status query that settled nothing: another query, until
/// `CONFIRM_RETRIES` have been made, then the next submission.
pub open spec fn after_unsettled_poll(s: SubmissionView) -> SubmissionView {
    if s.polls + 1 < CONFIRM_RETRIES {
        SubmissionView { polls: s.polls + 1, ..s }
    } else {
        begin_attempt(s)
    }
}

/// The state after the ledger reported `status` for the batch submitted under
/// `signature`.
pub open spec fn after_status(
    s: SubmissionView,
    signature: Signature,
    status: ConfirmationStatus,
) -> SubmissionView {
    match status {
        ConfirmationStatus::Confirmed => finished(s, Ok(signature)),
        ConfirmationStatus::Finalized => finished(s, Ok(signature)),
        ConfirmationStatus::Failed(err) => match classification(err) {
            Classification::NeedsPrecondition => begin_attempt(
                SubmissionView { attempts: 0, ..s },
            ),
            Classification::FatalCustom(code) => finished(
                s,
                Err(TerminalError::FatalCustom(code)),
            ),
            Classification::FatalOther => finished(s, Err(TerminalError::FatalOther)),
        },
        ConfirmationStatus::NotYetVisible => after_unsettled_poll(s),
        ConfirmationStatus::ProcessedNotConfirmed => after_unsettled_poll(s),
    }
}

/// The state that follows `s` on `event`. An event that the state is not
/// waiting for changes nothing.
pub open spec fn next_state(s: SubmissionView, event: Event) -> SubmissionView {
    match (s.phase, event) {
        (Phase::AwaitBalance, Event::BalanceFetched(balance)) => if balance_suffices(balance) {
            begin_attempt(s)
        } else {
            finished(s, Err(TerminalError::InsufficientBalance))
        },
        (Phase::AwaitFee, Event::FeeEstimated(estimate)) => SubmissionView {
            phase: Phase::AwaitAnchor,
            batch: s.batch.update(
                1,
                compute_unit_price_instruction(
                    match estimate {
                        Some(fee) => fee,
                        None => s.static_fee,
                    },
                ),
            ),
            ..s
        },
        (Phase::AwaitAnchor, Event::AnchorFetched(Some(anchor))) => SubmissionView {
            phase: Phase::AwaitSignature,
            anchor: Some(anchor),
            ..s
        },
        (Phase::AwaitAnchor, Event::AnchorFetched(None)) => finished(
            s,
            Err(TerminalError::TransientNetwork),
        ),
        (Phase::AwaitSignature, Event::Signed) => SubmissionView {
            phase: Phase::AwaitSubmission,
            attempts: s.attempts + 1,
            ..s
        },
        (Phase::AwaitSubmission, Event::Submitted(signature)) => if s.skip_confirmation {
            finished(s, Ok(signature))
        } else {
            SubmissionView { phase: Phase::AwaitStatus(signature), polls: 0, ..s }
        },
        (Phase::AwaitSubmission, Event::SubmitFailed) => begin_attempt(s),
        (Phase::AwaitStatus(signature), Event::StatusFetched(status)) => after_status(
            s,
            signature,
            status,
        ),
        (Phase::AwaitStatus(_), Event::StatusUnavailable) => after_unsettled_poll(s),
        _ => s,
    }
}

/// Whether a balance report lets a submission start.
pub fn sufficient_balance(balance: Option<u64>) -> (enough: bool)
    ensures
        enough == balance_suffices(balance),
{
    match balance {
        Some(held) => held >= MIN_BALANCE,
        None => false,
    }
}

impl View for Submission {
    type V = SubmissionView;

    closed spec fn view(&self) -> SubmissionView {
        SubmissionView {
            phase: self.phase,
            attempts: self.attempts as nat,
            polls: self.polls as nat,
            batch: batch_view(self.batch@),
            anchor: self.anchor,
            static_fee: self.static_fee,
            dynamic_fee: self.dynamic_fee,
            skip_confirmation: self.skip_confirmation,
        }
    }
}

impl Submission {
    /// Starts a submission of `instructions` under a limit of `units` compute
    /// units. The batch is led by the two budget instructions; nothing has
    /// been sent yet, and the first thing asked for is the signer's balance.
    pub fn start(
        instructions: Vec<Instruction>,
        units: u32,
        static_fee: u64,
        dynamic_fee: bool,
        skip_confirmation: bool,
    ) -> (s: Submission)
        ensures
            s@ == initial_state(
                units,
                static_fee,
                dynamic_fee,
                skip_confirmation,
                batch_view(instructions@),
            ),
            well_formed(s@),
    {
        let batch = build_batch(units, static_fee, instructions);
        Submission {
            phase: Phase::AwaitBalance,
            attempts: 0,
            polls: 0,
            batch,
            anchor: None,
            static_fee,
            dynamic_fee,
            skip_confirmation,
        }
    }

    /// What the engine is waiting for.
    pub fn phase(&self) -> (phase: Phase)
        ensures
            phase == self@.phase,
    {
        self.phase
    }

    /// How many submissions have been made since the cycle last started over.
    pub fn attempts(&self) -> (attempts: u64)
        ensures
            attempts == self@.attempts,
    {
        self.attempts
    }

    /// How many status queries of the current submission settled nothing.
    pub fn polls(&self) -> (polls: u64)
        ensures
            polls == self@.polls,
    {
        self.polls
    }

    /// The batch to sign and submit, budget instructions first.
    pub fn batch(&self) -> (batch: &Vec<Instruction>)
        ensures
            batch_view(batch@) == self@.batch,
    {
        &self.batch
    }

    /// The anchor to sign against; `None` until one has been fetched, and
    /// again from the moment a refresh is due.
    pub fn anchor(&self) -> (anchor: Option<Anchor>)
        ensures
            anchor == self@.anchor,
    {
        self.anchor
    }

    /// The action that the engine is waiting on.
    pub fn pending(&self) -> (action: Action)
        ensures
            action == pending_action(self@),
    {
        match self.phase {
            Phase::AwaitBalance => Action::FetchBalance,
            Phase::AwaitFee => Action::EstimateFee,
            Phase::AwaitAnchor => Action::FetchAnchor,
            Phase::AwaitSignature => Action::Sign,
            Phase::AwaitSubmission => Action::Submit,
            Phase::AwaitStatus(_) => Action::Poll { delay_ms: CONFIRM_DELAY },
            Phase::Done(outcome) => Action::Finish(outcome),
        }
    }

    /// Takes in what the driver reports and says what to do next.
    pub fn step(&mut self, event: Event) -> (action: Action)
        requires
            well_formed(old(self)@),
        ensures
            final(self)@ == next_state(old(self)@, event),
            action == pending_action(final(self)@),
            well_formed(final(self)@),
    {
        match (self.phase, event) {
            (Phase::AwaitBalance, Event::BalanceFetched(balance)) => {
                if sufficient_balance(balance) {
                    self.begin_attempt();
                } else {
                    self.phase = Phase::Done(Err(TerminalError::InsufficientBalance));
                }
            },
            (Phase::AwaitFee, Event::FeeEstimated(estimate)) => {
                let fee = match estimate {
                    Some(fee) => fee,
                    None => self.static_fee,
                };
                reprice_batch(&mut self.batch, fee);
                self.phase = Phase::AwaitAnchor;
            },
            (Phase::AwaitAnchor, Event::AnchorFetched(Some(anchor))) => {
                self.anchor = Some(anchor);
                self.phase = Phase::AwaitSignature;
            },
            (Phase::AwaitAnchor, Event::AnchorFetched(None)) => {
                self.phase = Phase::Done(Err(TerminalError::TransientNetwork));
            },
            (Phase::AwaitSignature, Event::Signed) => {
                self.attempts = self.attempts + 1;
                self.phase = Phase::AwaitSubmission;
            },
            (Phase::AwaitSubmission, Event::Submitted(signature)) => {
                if self.skip_confirmation {
                    self.phase = Phase::Done(Ok(signature));
                } else {
                    self.polls = 0;
                    self.phase = Phase::AwaitStatus(signature);
                }
            },
            (Phase::AwaitSubmission, Event::SubmitFailed) => {
                self.begin_attempt();
            },
            (Phase::AwaitStatus(signature), Event::StatusFetched(status)) => {
                match status {
                    ConfirmationStatus::Confirmed => {
                        self.phase = Phase::Done(Ok(signature));
                    },
                    ConfirmationStatus::Finalized => {
                        self.phase = Phase::Done(Ok(signature));
                    },
                    ConfirmationStatus::Failed(err) => {
                        match classify(err) {
                            Classification::NeedsPrecondition => {
                                self.attempts = 0;
                                self.begin_attempt();
                            },
                            Classification::FatalCustom(code) => {
                                self.phase = Phase::Done(Err(TerminalError::FatalCustom(code)));
                            },
                            Classification::FatalOther => {
                                self.phase = Phase::Done(Err(TerminalError::FatalOther));
                            },
                        }
                    },
                    ConfirmationStatus::NotYetVisible => {
                        self.after_unsettled_poll();
                    },
                    ConfirmationStatus::ProcessedNotConfirmed => {
                        self.after_unsettled_poll();
                    },
                }
            },
            (Phase::AwaitStatus(_), Event::StatusUnavailable) => {
                self.after_unsettled_poll();
            },
            _ => {},
        }
        self.pending()
    }

    /// Moves to the top of the submission loop.
    fn begin_attempt(&mut self)
        requires
            old(self)@.batch.len() >= 2,
            old(self)@.attempts <= GATEWAY_RETRIES,
            old(self)@.polls < CONFIRM_RETRIES,
            old(self)@.anchor is Some || refresh_due(old(self)@.attempts),
        ensures
            final(self)@ == begin_attempt(old(self)@),
            well_formed(final(self)@),
    {
        if self.attempts >= GATEWAY_RETRIES {
            self.phase = Phase::Done(Err(TerminalError::Timeout));
        } else if self.attempts % REFRESH_INTERVAL == 0 {
            self.phase = if self.dynamic_fee {
                Phase::AwaitFee
            } else {
                Phase::AwaitAnchor
            };
            self.anchor = None;
            self.polls = 0;
        } else {
            self.phase = Phase::AwaitSubmission;
            self.attempts = self.attempts + 1;
            self.polls = 0;
        }
    }

    /// Counts a status query that settled nothing.
    fn after_unsettled_poll(&mut self)
        requires
            well_formed(old(self)@),
            old(self)@.phase is AwaitStatus,
        ensures
            final(self)@ == after_unsettled_poll(old(self)@),
            well_formed(final(self)@),
    {
        if self.polls + 1 < CONFIRM_RETRIES {
            self.polls = self.polls + 1;
        } else {
            self.begin_attempt();
        }
    }
}

/// The state reached from `s` after the driver has reported `events` in turn.
pub open spec fn run(s: SubmissionView, events: Seq<Event>) -> SubmissionView
    decreases events.len(),
{
    if events.len() == 0 {
        s
    } else {
        next_state(run(s, events.drop_last()), events.last())
    }
}

/// Whether an event brings a fresh anchor.
pub open spec fn brings_anchor(event: Event) -> bool {
    event matches Event::AnchorFetched(Some(_))
}

/// Whether an event is a status query that settled nothing.
pub open spec fn unsettled(event: Event) -> bool {
    ||| event == Event::StatusUnavailable
    ||| event == Event::StatusFetched(ConfirmationStatus::NotYetVisible)
    ||| event == Event::StatusFetched(ConfirmationStatus::ProcessedNotConfirmed)
}

/// Every step keeps a submission well formed.
pub proof fn lemma_step_keeps_well_formed(s: SubmissionView, event: Event)
    requires
        well_formed(s),
    ensures
        well_formed(next_state(s, event)),
{
}

/// Every run keeps a submission well formed.
pub proof fn lemma_run_keeps_well_formed(s: SubmissionView, events: Seq<Event>)
    requires
        well_formed(s),
    ensures
        well_formed(run(s, events)),
    decreases events.len(),
{
    if events.len() > 0 {
        lemma_run_keeps_well_formed(s, events.drop_last());
        lemma_step_keeps_well_formed(run(s, events.drop_last()), events.last());
    }
}

/// A remote error that calls for a reset never ends the submission. The
/// attempt counter starts again at zero, the anchor is dropped, the batch is
/// kept, and the engine asks for a new fee estimate or a new anchor.
pub proof fn lemma_reset_restarts_cycle(s: SubmissionView, signature: Signature, err: RemoteError)
    requires
        well_formed(s),
        s.phase == Phase::AwaitStatus(signature),
        classification(err) == Classification::NeedsPrecondition,
    ensures
        ({
            let next = next_state(s, Event::StatusFetched(ConfirmationStatus::Failed(err)));
            &&& next.attempts == 0
            &&& next.anchor is None
            &&& next.batch == s.batch
            &&& next.phase == if s.dynamic_fee {
                Phase::AwaitFee
            } else {
                Phase::AwaitAnchor
            }
            &&& pending_action(next) == if s.dynamic_fee {
                Action::EstimateFee
            } else {
                Action::FetchAnchor
            }
        }),
{
}

/// A submission without an anchor gets one only from the event that brings
/// it.
pub proof fn lemma_anchor_comes_from_fetch(s: SubmissionView, event: Event)
    requires
        well_formed(s),
        s.anchor is None,
        next_state(s, event).anchor is Some,
    ensures
        s.phase is AwaitAnchor,
        event == Event::AnchorFetched(next_state(s, event).anchor),
{
}

/// From a state without an anchor, no run reaches a submission unless one of
/// its events brought a fresh anchor.
pub proof fn lemma_submission_follows_fresh_anchor(s: SubmissionView, events: Seq<Event>)
    requires
        well_formed(s),
        s.anchor is None,
        pending_action(run(s, events)) == Action::Submit,
    ensures
        exists|i: int| 0 <= i < events.len() && brings_anchor(#[trigger] events[i]),
{
    lemma_run_keeps_well_formed(s, events);
    lemma_anchor_in_run_was_fetched(s, events);
}

/// From a state without an anchor, a run that ends with an anchor holds an
/// event that brought one.
proof fn lemma_anchor_in_run_was_fetched(s: SubmissionView, events: Seq<Event>)
    requires
        well_formed(s),
        s.anchor is None,
        run(s, events).anchor is Some,
    ensures
        exists|i: int| 0 <= i < events.len() && brings_anchor(#[trigger] events[i]),
    decreases events.len(),
{
    if events.len() > 0 {
        let before = run(s, events.drop_last());
        lemma_run_keeps_well_formed(s, events.drop_last());
        if before.anchor is Some {
            lemma_anchor_in_run_was_fetched(s, events.drop_last());
            let i = choose|i: int|
                0 <= i < events.drop_last().len() && brings_anchor(
                    #[trigger] events.drop_last()[i],
                );
            assert(events[i] == events.drop_last()[i]);
            assert(brings_anchor(events[i]));
        } else {
            lemma_anchor_comes_from_fetch(before, events.last());
            assert(brings_anchor(events[events.len() - 1]));
        }
    }
}

/// A remote error of any other class ends the submission at once, with the
/// error that names its class.
pub proof fn lemma_fatal_error_ends_submission(
    s: SubmissionView,
    signature: Signature,
    err: RemoteError,
)
    requires
        well_formed(s),
        s.phase == Phase::AwaitStatus(signature),
        classification(err) != Classification::NeedsPrecondition,
    ensures
        ({
            let next = next_state(s, Event::StatusFetched(ConfirmationStatus::Failed(err)));
            let outcome = match classification(err) {
                Classification::FatalCustom(code) => Err(TerminalError::FatalCustom(code)),
                _ => Err(TerminalError::FatalOther),
            };
            &&& next == finished(s, outcome)
            &&& pending_action(next) == Action::Finish(outcome)
        }),
{
}

/// A submission that has ended stays as it is, whatever is reported to it:
/// the engine asks for nothing more.
pub proof fn lemma_done_is_final(s: SubmissionView, events: Seq<Event>)
    requires
        s.phase is Done,
    ensures
        run(s, events) == s,
        pending_action(run(s, events)) == Action::Finish(s.phase->Done_0),
    decreases events.len(),
{
    if events.len() > 0 {
        lemma_done_is_final(s, events.drop_last());
    }
}

/// What ends a submission, outcome by outcome. Each outcome comes from
/// exactly the states and events named here, and no step ends a submission
/// with an unsupported fee policy: that is refused before a submission exists.
pub proof fn lemma_outcomes_and_their_causes(s: SubmissionView, event: Event)
    requires
        well_formed(s),
        !(s.phase is Done),
    ensures
        ({
            let next = next_state(s, event);
            &&& next.phase == Phase::Done(Err(TerminalError::InsufficientBalance)) <==> {
                &&& s.phase is AwaitBalance
                &&& event is BalanceFetched
                &&& !balance_suffices(event->BalanceFetched_0)
            }
            &&& next.phase == Phase::Done(Err(TerminalError::TransientNetwork)) <==> {
                &&& s.phase is AwaitAnchor
                &&& event == Event::AnchorFetched(None)
            }
            &&& next.phase == Phase::Done(Err(TerminalError::Timeout)) <==> {
                &&& s.attempts == GATEWAY_RETRIES
                &&& {
                    ||| s.phase is AwaitSubmission && event == Event::SubmitFailed
                    ||| s.phase is AwaitStatus && unsettled(event) && s.polls + 1
                        == CONFIRM_RETRIES
                }
            }
            &&& next.phase == Phase::Done(Err(TerminalError::FatalOther)) <==> {
                &&& s.phase is AwaitStatus
                &&& {
                    ||| event == Event::StatusFetched(
                        ConfirmationStatus::Failed(RemoteError::InstructionLevelOtherCode),
                    )
                    ||| event == Event::StatusFetched(
                        ConfirmationStatus::Failed(RemoteError::NonInstructionError),
                    )
                }
            }
            &&& forall|code: u32|
                next.phase == Phase::Done(Err(TerminalError::FatalCustom(code))) <==> {
                    &&& s.phase is AwaitStatus
                    &&& code != crate::classify::NEEDS_RESET_CODE
                    &&& event == Event::StatusFetched(
                        ConfirmationStatus::Failed(RemoteError::InstructionLevelCustomCode(code)),
                    )
                }
            &&& forall|signature: Signature|
                next.phase == Phase::Done(Ok(signature)) <==> {
                    ||| s.phase == Phase::AwaitStatus(signature) && (event == Event::StatusFetched(
                        ConfirmationStatus::Confirmed,
                    ) || event == Event::StatusFetched(ConfirmationStatus::Finalized))
                    ||| s.phase is AwaitSubmission && s.skip_confirmation && event
                        == Event::Submitted(signature)
                }
            &&& next.phase != Phase::Done(Err(TerminalError::UnsupportedFeePolicy))
        }),
{
}

/// The attempt counter goes up exactly when a submission goes out, and the
/// submission numbered `s.attempts` is signed against a fresh anchor exactly
/// when that number is a multiple of `REFRESH_INTERVAL`.
pub proof fn lemma_refresh_every_tenth_attempt(s: SubmissionView, event: Event)
    requires
        well_formed(s),
    ensures
        ({
            let next = next_state(s, event);
            &&& next.attempts == s.attempts || next.attempts == s.attempts + 1 || next.attempts
                == 0
            &&& next.attempts == s.attempts + 1 ==> {
                &&& pending_action(next) == Action::Submit
                &&& s.phase is AwaitSignature <==> refresh_due(s.attempts)
                &&& s.phase is AwaitSignature <==> s.attempts % 10 == 0
            }
            &&& (pending_action(next) == Action::Submit && next != s) ==> next.attempts
                == s.attempts + 1
        }),
{
}

/// At the top of the submission loop, with budget left, the anchor is
/// refreshed exactly when the attempt counter is a multiple of
/// `REFRESH_INTERVAL`; otherwise the batch is submitted again as it is.
pub proof fn lemma_begin_attempt_refreshes(s: SubmissionView)
    requires
        s.attempts < GATEWAY_RETRIES,
    ensures
        refresh_due(s.attempts) <==> s.attempts % 10 == 0,
        refresh_due(s.attempts) ==> begin_attempt(s).anchor is None && (begin_attempt(s).phase
            is AwaitFee || begin_attempt(s).phase is AwaitAnchor) && begin_attempt(s).attempts
            == s.attempts,
        !refresh_due(s.attempts) ==> begin_attempt(s).anchor == s.anchor && begin_attempt(s).phase
            is AwaitSubmission && begin_attempt(s).attempts == s.attempts + 1,
{
}

/// The status of one submission is asked for at most `CONFIRM_RETRIES` times.
/// Each query that settles nothing is counted; after the last one the engine
/// leaves the polling phase for the next submission.
pub proof fn lemma_polls_bounded(s: SubmissionView, event: Event)
    requires
        well_formed(s),
        s.phase is AwaitStatus,
        unsettled(event),
    ensures
        s.polls < 8,
        s.polls + 1 < 8 ==> next_state(s, event) == (SubmissionView { polls: s.polls + 1, ..s }),
        s.polls + 1 == 8 ==> next_state(s, event) == begin_attempt(s) && !(next_state(
            s,
            event,
        ).phase is AwaitStatus),
{
}

/// A new round of status queries starts from zero.
pub proof fn lemma_polls_start_at_zero(s: SubmissionView, event: Event)
    requires
        well_formed(s),
        !(s.phase is AwaitStatus),
        next_state(s, event).phase is AwaitStatus,
    ensures
        next_state(s, event).polls == 0,
        s.phase is AwaitSubmission,
        event == Event::Submitted(next_state(s, event).phase->AwaitStatus_0),
{
}

/// Between two refreshes the payload is kept: while the engine goes from
/// submitting or polling to submitting or polling, the batch and the anchor it
/// was signed against stay as they are.
pub proof fn lemma_payload_kept_between_refreshes(s: SubmissionView, event: Event)
    requires
        well_formed(s),
        s.phase is AwaitSubmission || s.phase is AwaitStatus,
        next_state(s, event).phase is AwaitSubmission || next_state(s, event).phase
            is AwaitStatus,
    ensures
        next_state(s, event).batch == s.batch,
        next_state(s, event).anchor == s.anchor,
{
}

/// The batch changes only where a fee estimate is taken in, and then only in
/// its second place; the caller's instructions are never touched.
pub proof fn lemma_batch_changes_only_price(s: SubmissionView, event: Event)
    requires
        well_formed(s),
    ensures
        next_state(s, event).batch.len() == s.batch.len(),
        forall|i: int|
            0 <= i < s.batch.len() && i != 1 ==> next_state(s, event).batch[i] == s.batch[i],
        next_state(s, event).batch != s.batch ==> s.phase is AwaitFee && event is FeeEstimated,
{
}

} // verus!
