//! The protocol of the terminal fault handler.
//!
//! When any part of the program signals an unrecoverable fault, the handler
//! reaches the trace-output unit by its fixed address, reports where the
//! fault happened, stops at a breakpoint and then spins for ever. What it
//! does, and in which order, is the [`TrapScript`] that [`trap_script`]
//! makes from the [`FaultRecord`].

use vstd::prelude::*;
use vstd::string::*;
use crate::decimal::{decimal, render_decimal};
use crate::broker::Bundle;
use crate::hardware::{TraceView, TRACE_UNIT_BASE};
use crate::startup::init_run;

verus! {

/// One occurrence of a fault: what went wrong, and where in the source.
#[derive(Debug, PartialEq, Eq)]
pub struct FaultRecord {
    /// The human-readable message of the fault.
    pub message: String,
    /// The source file in which the fault was signalled.
    pub file: String,
    /// The line in that file.
    pub line: u32,
    /// The column in that line.
    pub column: u32,
}

/// A fault record as plain values.
pub struct FaultRecordView {
    pub message: Seq<char>,
    pub file: Seq<char>,
    pub line: nat,
    pub column: nat,
}

impl View for FaultRecord {
    type V = FaultRecordView;

    open spec fn view(&self) -> FaultRecordView {
        FaultRecordView {
            message: self.message@,
            file: self.file@,
            line: self.line as nat,
            column: self.column as nat,
        }
    }
}

/// One thing the fault handler does.
#[derive(Debug, PartialEq, Eq)]
pub enum TrapStep {
    /// Write the text to the trace-output unit.
    Emit(String),
    /// Execute the breakpoint instruction, which stops the processor if a
    /// debugger is attached.
    Breakpoint,
    /// Loop without end. This step never completes.
    Spin,
}

/// A step of the fault handler as plain values.
pub enum TrapStepView {
    Emit(Seq<char>),
    Breakpoint,
    Spin,
}

impl View for TrapStep {
    type V = TrapStepView;

    open spec fn view(&self) -> TrapStepView {
        match self {
            TrapStep::Emit(text) => TrapStepView::Emit(text@),
            TrapStep::Breakpoint => TrapStepView::Breakpoint,
            TrapStep::Spin => TrapStepView::Spin,
        }
    }
}

/// What the fault handler does for one fault.
#[derive(Debug, PartialEq, Eq)]
pub struct TrapScript {
    /// The trace-output unit, reached by its address and not through its
    /// owner.
    pub unit: TraceView,
    /// The steps, in the order in which they are taken.
    pub steps: Vec<TrapStep>,
}

/// A script as plain values: the address of the unit that is written to,
/// and the steps.
pub struct TrapScriptView {
    pub unit: usize,
    pub steps: Seq<TrapStepView>,
}

impl View for TrapScript {
    type V = TrapScriptView;

    open spec fn view(&self) -> TrapScriptView {
        TrapScriptView {
            unit: self.unit.address(),
            steps: Seq::new(self.steps@.len(), |i: int| self.steps@[i]@),
        }
    }
}

/// The text that opens every fault report: `PANIC at '`.
pub open spec fn prefix_text() -> Seq<char> {
    seq!['P', 'A', 'N', 'I', 'C', ' ', 'a', 't', ' ', '\'']
}

/// The text that closes a fault report: the quote that ends the message,
/// then `file:line:column` and a line feed.
pub open spec fn location_text(file: Seq<char>, line: nat, column: nat) -> Seq<char> {
    seq!['\'', ',', ' '] + file + seq![':'] + decimal(line) + seq![':'] + decimal(column)
        + seq!['\n']
}

/// The steps of the fault handler for `record`: the opening text, the
/// message, the location, the breakpoint, and the loop that never ends.
pub open spec fn trap_steps(record: FaultRecordView) -> Seq<TrapStepView> {
    seq![
        TrapStepView::Emit(prefix_text()),
        TrapStepView::Emit(record.message),
        TrapStepView::Emit(location_text(record.file, record.line, record.column)),
        TrapStepView::Breakpoint,
        TrapStepView::Spin,
    ]
}

/// What the fault handler does for `record`: it writes to the trace-output
/// unit at its fixed address, and takes the steps of [`trap_steps`].
pub open spec fn trap_run(record: FaultRecordView) -> TrapScriptView {
    TrapScriptView { unit: TRACE_UNIT_BASE, steps: trap_steps(record) }
}

/// The text that opens every fault report.
pub fn prefix() -> (text: String)
    ensures
        text@ == prefix_text(),
{
    proof {
        reveal_strlit("PANIC at '");
    }
    let text = String::from_str("PANIC at '");
    assert(text@ =~= prefix_text());
    text
}

/// The text that closes the report of a fault signalled at `line` and
/// `column` of `file`.
pub fn location(file: &str, line: u32, column: u32) -> (text: String)
    ensures
        text@ == location_text(file@, line as nat, column as nat),
{
    proof {
        reveal_strlit("', ");
        reveal_strlit(":");
        reveal_strlit("\n");
    }
    let mut text = String::from_str("', ");
    text.append(file);
    text.append(":");
    text.append(render_decimal(line).as_str());
    text.append(":");
    text.append(render_decimal(column).as_str());
    text.append("\n");
    assert(text@ =~= location_text(file@, line as nat, column as nat));
    text
}

/// Makes the script of the fault handler for `record`.
pub fn trap_script(record: &FaultRecord) -> (script: TrapScript)
    ensures
        script@ == trap_run(record@),
{
    let mut steps: Vec<TrapStep> = Vec::new();
    steps.push(TrapStep::Emit(prefix()));
    steps.push(TrapStep::Emit(record.message.clone()));
    steps.push(TrapStep::Emit(location(record.file.as_str(), record.line, record.column)));
    steps.push(TrapStep::Breakpoint);
    steps.push(TrapStep::Spin);
    let script = TrapScript { unit: TraceView::unchecked(), steps };
    assert(script@.steps =~= trap_steps(record@));
    script
}

/// The fault handler never returns. Its last step is the loop without end;
/// right before it comes the breakpoint; and the steps before that are the
/// three texts, each of which is written and done with.
pub proof fn law_trap_never_returns(record: FaultRecordView)
    ensures
        trap_steps(record).last() == TrapStepView::Spin,
        trap_steps(record)[trap_steps(record).len() - 2] == TrapStepView::Breakpoint,
        forall|i: int| 0 <= i < trap_steps(record).len() - 2 ==> trap_steps(record)[i] is Emit,
{
}

/// The unit the fault handler writes to is the unit that start-up hands
/// out, though the handler does not get it from its owner.
pub proof fn law_trap_reaches_the_owned_unit(taken: Set<Bundle>, record: FaultRecordView)
    ensures
        init_run(taken).outcome matches Ok((unit, _)) ==> trap_run(record).unit == unit,
{
}

} // verus!
