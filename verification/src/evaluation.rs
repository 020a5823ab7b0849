//! The evaluation channel: one script, one eventual result.
//!
//! Submitting a script to the content view returns at once; the result comes
//! later through a completion callback. A [`PendingEvaluation`] is the
//! single-slot cell between the two: the callback fills it, the awaiting task
//! empties it, and whatever arrives after that is dropped.

use vstd::prelude::*;
use crate::decode::{decode, json_value_of, DecodeError};

verus! {

/// How the result of an evaluation reaches the script.
#[derive(Clone, Copy, Debug, PartialEq, Eq, Structural)]
pub enum EvalMode {
    /// The caller is suspended and resumed with the decoded value.
    Await,
    /// The caller returns at once; a background task hands the decoded value
    /// to a handler the caller supplied.
    Callback,
}

/// Where a cell stands in its life.
#[derive(Clone, Copy, Debug, PartialEq, Eq, Structural)]
pub enum CellPhase {
    /// No result has been stored since the cell was made.
    Waiting,
    /// A result is stored and has not been taken yet.
    Changed,
    /// The result was taken, or the producer went away before storing one.
    Discarded,
}

/// The text a fresh cell holds: the JSON text `null`.
pub open spec fn sentinel() -> Seq<char> {
    seq!['n', 'u', 'l', 'l']
}

/// The mathematical content of a [`PendingEvaluation`].
pub struct CellModel {
    pub script: Seq<char>,
    pub mode: EvalMode,
    pub latest: Seq<char>,
    pub phase: CellPhase,
}

/// What the awaiting task finds when it looks into the cell.
pub enum PollModel {
    Pending,
    Ready(Seq<char>),
    Closed,
}

/// One thing that can happen to a cell, for statements about whole
/// histories.
pub enum CellOp {
    /// The completion callback reports this result.
    Report(Seq<char>),
    /// The producer goes away.
    Close,
    /// The awaiting task looks into the cell.
    Poll,
}

/// What the caller of an evaluation does once the content view has answered
/// the submission.
#[derive(Clone, Copy, Debug, PartialEq, Eq, Structural)]
pub enum Submission {
    /// The content view refused the script: raise its error in the caller
    /// at once. The cell is discarded and no task waits on it.
    Raise,
    /// Suspend the caller until the cell changes.
    Suspend,
    /// Return to the caller at once and leave the waiting to a background
    /// task.
    Spawn,
}

impl CellModel {
    /// What the caller does once the submission was accepted or refused.
    pub open spec fn submission(self, accepted: bool) -> Submission {
        if !accepted {
            Submission::Raise
        } else {
            match self.mode {
                EvalMode::Await => Submission::Suspend,
                EvalMode::Callback => Submission::Spawn,
            }
        }
    }

    /// The cell made for submitting `script`.
    pub open spec fn created(script: Seq<char>, mode: EvalMode) -> CellModel {
        CellModel { script, mode, latest: sentinel(), phase: CellPhase::Waiting }
    }

    /// The cell after the completion callback reported `result`. A discarded
    /// cell takes nothing in; otherwise the newest result replaces what the
    /// slot held.
    pub open spec fn fulfilled(self, result: Seq<char>) -> CellModel {
        if self.phase is Discarded {
            self
        } else {
            CellModel { latest: result, phase: CellPhase::Changed, ..self }
        }
    }

    /// The cell after its producer went away. A result that is already stored
    /// stays available.
    pub open spec fn closed(self) -> CellModel {
        if self.phase is Waiting {
            CellModel { phase: CellPhase::Discarded, ..self }
        } else {
            self
        }
    }

    /// What the awaiting task finds.
    pub open spec fn found(self) -> PollModel {
        match self.phase {
            CellPhase::Waiting => PollModel::Pending,
            CellPhase::Changed => PollModel::Ready(self.latest),
            CellPhase::Discarded => PollModel::Closed,
        }
    }

    /// The cell after the awaiting task looked into it: a stored result is
    /// taken exactly once.
    pub open spec fn polled(self) -> CellModel {
        if self.phase is Changed {
            CellModel { phase: CellPhase::Discarded, ..self }
        } else {
            self
        }
    }

    /// The cell after one operation.
    pub open spec fn after(self, op: CellOp) -> CellModel {
        match op {
            CellOp::Report(result) => self.fulfilled(result),
            CellOp::Close => self.closed(),
            CellOp::Poll => self.polled(),
        }
    }

    /// The result texts that the looks of the history `ops` take out of the
    /// cell, in order.
    pub open spec fn deliveries(self, ops: Seq<CellOp>) -> Seq<Seq<char>>
        decreases ops.len(),
    {
        if ops.len() == 0 {
            Seq::empty()
        } else {
            let later = self.after(ops[0]).deliveries(ops.drop_first());
            match ops[0] {
                CellOp::Poll => match self.found() {
                    PollModel::Ready(text) => seq![text] + later,
                    _ => later,
                },
                _ => later,
            }
        }
    }
}

/// What the awaiting task found in the cell.
#[derive(Clone, Debug)]
pub enum EvalPoll {
    /// No result yet: keep waiting.
    Pending,
    /// The result text, taken out of the cell.
    Ready(String),
    /// No result will come.
    Closed,
}

impl EvalPoll {
    pub open spec fn model(self) -> PollModel {
        match self {
            EvalPoll::Pending => PollModel::Pending,
            EvalPoll::Ready(text) => PollModel::Ready(text@),
            EvalPoll::Closed => PollModel::Closed,
        }
    }
}

/// What to do with the task that waits for an evaluation.
#[derive(Debug)]
pub enum Settlement {
    /// Nothing has arrived: stay suspended.
    Suspend,
    /// Resume the suspended caller with this value.
    Resume(serde_json::Value),
    /// The content view went away: resume the suspended caller with nil.
    ResumeNil,
    /// Schedule the caller's handler with this value.
    Invoke(serde_json::Value),
    /// The content view went away: end the background task quietly.
    End,
    /// The result was not a JSON value: raise this error in the waiting task.
    Fail(DecodeError),
}

/// The settlement owed for a result text whose decoding gave `decoded`.
pub open spec fn settlement_fits_decoded(
    settlement: Settlement,
    mode: EvalMode,
    decoded: Option<serde_json::Value>,
) -> bool {
    match decoded {
        Some(value) => match mode {
            EvalMode::Await => settlement == Settlement::Resume(value),
            EvalMode::Callback => settlement == Settlement::Invoke(value),
        },
        None => settlement is Fail,
    }
}

/// The settlement owed for what was found in a cell of mode `mode`.
pub open spec fn settlement_fits(settlement: Settlement, mode: EvalMode, found: PollModel) -> bool {
    match found {
        PollModel::Pending => settlement is Suspend,
        PollModel::Ready(text) => settlement_fits_decoded(settlement, mode, json_value_of(text)),
        PollModel::Closed => match mode {
            EvalMode::Await => settlement is ResumeNil,
            EvalMode::Callback => settlement is End,
        },
    }
}

/// Settles a result text that has been decoded.
///
/// A decoded value goes to the suspended caller or to the handler, as the
/// mode asks; a decode failure is raised in the waiting task, never dropped.
pub fn settle_decoded(mode: EvalMode, decoded: Result<serde_json::Value, DecodeError>) -> (settlement:
    Settlement)
    ensures
        match decoded {
            Ok(value) => match mode {
                EvalMode::Await => settlement == Settlement::Resume(value),
                EvalMode::Callback => settlement == Settlement::Invoke(value),
            },
            Err(error) => settlement == Settlement::Fail(error),
        },
{
    match decoded {
        Ok(value) => match mode {
            EvalMode::Await => Settlement::Resume(value),
            EvalMode::Callback => Settlement::Invoke(value),
        },
        Err(error) => Settlement::Fail(error),
    }
}

/// Settles what the waiting task found in its cell.
pub fn settle(mode: EvalMode, found: EvalPoll) -> (settlement: Settlement)
    ensures
        settlement_fits(settlement, mode, found.model()),
{
    match found {
        EvalPoll::Pending => Settlement::Suspend,
        EvalPoll::Ready(text) => settle_decoded(mode, decode(text.as_str())),
        EvalPoll::Closed => match mode {
            EvalMode::Await => Settlement::ResumeNil,
            EvalMode::Callback => Settlement::End,
        },
    }
}

/// A submitted script together with the single slot its result will land in.
#[derive(Clone, Debug)]
pub struct PendingEvaluation {
    script: String,
    mode: EvalMode,
    latest: String,
    phase: CellPhase,
}

impl View for PendingEvaluation {
    type V = CellModel;

    closed spec fn view(&self) -> CellModel {
        CellModel { script: self.script@, mode: self.mode, latest: self.latest@, phase: self.phase }
    }
}

impl PendingEvaluation {
    /// Makes the cell for one submission of `script`. The slot starts out
    /// holding the sentinel text and counts as unchanged.
    pub fn new(script: String, mode: EvalMode) -> (cell: PendingEvaluation)
        ensures
            cell@ == CellModel::created(script@, mode),
    {
        proof {
            reveal_strlit("null");
        }
        let latest = "null".to_string();
        assert(latest@ =~= sentinel());
        PendingEvaluation { script, mode, latest, phase: CellPhase::Waiting }
    }

    /// The script to hand to the content view.
    pub fn script(&self) -> (script: &str)
        ensures
            script@ == self@.script,
    {
        self.script.as_str()
    }

    /// The delivery mode chosen at submission.
    pub fn mode(&self) -> (mode: EvalMode)
        ensures
            mode == self@.mode,
    {
        self.mode
    }

    /// The text the slot holds now: the sentinel until a result is stored.
    pub fn latest(&self) -> (text: &str)
        ensures
            text@ == self@.latest,
    {
        self.latest.as_str()
    }

    /// Where the cell stands.
    pub fn phase(&self) -> (phase: CellPhase)
        ensures
            phase == self@.phase,
    {
        self.phase
    }

    /// Takes in the content view's answer to the submission and says what the
    /// caller does next. A refused submission closes the cell: no result will
    /// come, and the error goes to the caller without the cell being waited
    /// on.
    pub fn submitted(&mut self, accepted: bool) -> (next: Submission)
        ensures
            next == old(self)@.submission(accepted),
            accepted ==> final(self)@ == old(self)@,
            !accepted ==> final(self)@ == old(self)@.closed(),
    {
        if !accepted {
            self.close();
            Submission::Raise
        } else {
            match self.mode {
                EvalMode::Await => Submission::Suspend,
                EvalMode::Callback => Submission::Spawn,
            }
        }
    }

    /// Stores a result reported by the completion callback. Returns whether
    /// the cell took it in: a result that arrives after the cell was
    /// discarded is dropped and changes nothing.
    pub fn fulfil(&mut self, result: String) -> (stored: bool)
        ensures
            final(self)@ == old(self)@.fulfilled(result@),
            stored == !(old(self)@.phase is Discarded),
    {
        match self.phase {
            CellPhase::Discarded => false,
            _ => {
                self.latest = result;
                self.phase = CellPhase::Changed;
                true
            },
        }
    }

    /// Records that the producer went away: the native call was refused, or
    /// the content view was torn down. A cell still waiting will never be
    /// filled and is discarded; a stored result stays until it is taken.
    pub fn close(&mut self)
        ensures
            final(self)@ == old(self)@.closed(),
    {
        match self.phase {
            CellPhase::Waiting => {
                self.phase = CellPhase::Discarded;
            },
            _ => {},
        }
    }

    /// Looks into the cell on behalf of the awaiting task and takes the
    /// result out if one is stored.
    pub fn poll(&mut self) -> (found: EvalPoll)
        ensures
            found.model() == old(self)@.found(),
            final(self)@ == old(self)@.polled(),
    {
        match self.phase {
            CellPhase::Waiting => EvalPoll::Pending,
            CellPhase::Changed => {
                self.phase = CellPhase::Discarded;
                EvalPoll::Ready(self.latest.clone())
            },
            CellPhase::Discarded => EvalPoll::Closed,
        }
    }

    /// Polls the cell and settles the waiting task in one step.
    pub fn resolve(&mut self) -> (settlement: Settlement)
        ensures
            settlement_fits(settlement, old(self)@.mode, old(self)@.found()),
            final(self)@ == old(self)@.polled(),
    {
        let mode = self.mode;
        let found = self.poll();
        settle(mode, found)
    }
}

/// A script whose result is reported once is delivered once: the first look
/// into the cell after the report finds exactly the reported text, and the
/// cell is spent. A report that arrives after that is dropped, so a fresh
/// look finds the cell closed, not the late result.
pub proof fn lemma_reported_once_delivered_once(
    script: Seq<char>,
    mode: EvalMode,
    result: Seq<char>,
    late: Seq<char>,
)
    ensures
        CellModel::created(script, mode).found() == PollModel::Pending,
        CellModel::created(script, mode).fulfilled(result).found() == PollModel::Ready(result),
        CellModel::created(script, mode).fulfilled(result).polled().found() == PollModel::Closed,
        CellModel::created(script, mode).fulfilled(result).polled().fulfilled(late)
            == CellModel::created(script, mode).fulfilled(result).polled(),
        CellModel::created(script, mode).fulfilled(result).polled().fulfilled(late).found()
            == PollModel::Closed,
{
}

/// A discarded cell delivers nothing, whatever is reported to it afterwards.
pub proof fn lemma_discarded_cell_delivers_nothing(cell: CellModel, ops: Seq<CellOp>)
    requires
        cell.phase is Discarded,
    ensures
        cell.deliveries(ops) == Seq::<Seq<char>>::empty(),
    decreases ops.len(),
{
    if ops.len() > 0 {
        lemma_discarded_cell_delivers_nothing(cell.after(ops[0]), ops.drop_first());
    }
}

/// An evaluation delivers at most once: over any history of reports, looks
/// and teardowns, in any order and number, at most one look takes a result
/// out of the cell.
pub proof fn lemma_at_most_one_delivery(cell: CellModel, ops: Seq<CellOp>)
    ensures
        cell.deliveries(ops).len() <= 1,
    decreases ops.len(),
{
    if ops.len() > 0 {
        let next = cell.after(ops[0]);
        lemma_at_most_one_delivery(next, ops.drop_first());
        if ops[0] is Poll && cell.found() is Ready {
            lemma_discarded_cell_delivers_nothing(next, ops.drop_first());
        }
    }
}

/// The awaiting task wakes with the decoding of exactly the text that was
/// reported: whenever the reported text decodes to `value`, an awaiting
/// caller is resumed with `value` and a handler is invoked with `value`.
pub proof fn lemma_result_text_is_decoded_unchanged(
    script: Seq<char>,
    mode: EvalMode,
    result: Seq<char>,
    value: serde_json::Value,
    settlement: Settlement,
)
    requires
        json_value_of(result) == Some(value),
        settlement_fits(settlement, mode, CellModel::created(script, mode).fulfilled(result).found()),
    ensures
        mode is Await ==> settlement == Settlement::Resume(value),
        mode is Callback ==> settlement == Settlement::Invoke(value),
{
}

/// A cell whose producer goes away before any result arrives never hangs:
/// the next look finds it closed, and the waiting task is released without
/// an error.
pub proof fn lemma_teardown_releases_waiter(script: Seq<char>, mode: EvalMode, settlement: Settlement)
    requires
        settlement_fits(settlement, mode, CellModel::created(script, mode).closed().found()),
    ensures
        mode is Await ==> settlement is ResumeNil,
        mode is Callback ==> settlement is End,
{
}

} // verus!
