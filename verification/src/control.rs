//! The control-plane vocabulary: parsing one newline-delimited command line
//! into an instruction, and the bounded hand-off slot that carries at most
//! one pending instruction from the listener to the orchestrator.

use vstd::prelude::*;
use crate::widget::WidgetInstanceInstruction;

verus! {

/// Parses one command line from the control channel. The only recognized
/// command is `list`; every other line is ignored.
pub fn parse_command(line: &String) -> (r: Option<WidgetInstanceInstruction>)
    ensures
        line@ == "list"@ ==> r == Some(WidgetInstanceInstruction::List),
        line@ != "list"@ ==> r is None,
{
    let list = String::from_str("list");
    if *line == list {
        Some(WidgetInstanceInstruction::List)
    } else {
        None
    }
}

/// The hand-off between the control-plane listener and the orchestrator: a
/// queue of capacity one, so at most one instruction is ever in flight and
/// a producer must wait until the consumer has taken the previous one.
pub struct InstructionQueue {
    pending: Option<WidgetInstanceInstruction>,
}

impl InstructionQueue {
    /// The pending instruction, if one is in flight.
    pub closed spec fn spec_pending(&self) -> Option<WidgetInstanceInstruction> {
        self.pending
    }

    /// How many instructions are in flight: zero or one, never more.
    pub open spec fn size(&self) -> int {
        if self.spec_pending() is Some {
            1
        } else {
            0
        }
    }

    /// An empty queue.
    pub fn new() -> (r: InstructionQueue)
        ensures
            r.spec_pending() is None,
    {
        InstructionQueue { pending: None }
    }

    /// Whether an instruction is waiting to be consumed.
    pub fn is_pending(&self) -> (r: bool)
        ensures
            r == (self.spec_pending() is Some),
    {
        match &self.pending {
            Some(_) => true,
            None => false,
        }
    }

    /// Offers an instruction. It is queued only when the slot is free; a
    /// second push while one instruction is pending is refused, handing the
    /// instruction back unchanged so the producer can wait and retry.
    pub fn push(&mut self, instruction: WidgetInstanceInstruction) -> (r: Result<
        (),
        WidgetInstanceInstruction,
    >)
        ensures
            old(self).spec_pending() is None ==> (final(self).spec_pending() == Some(instruction)
                && r is Ok),
            old(self).spec_pending() is Some ==> (*final(self) == *old(self) && r == Err::<
                (),
                WidgetInstanceInstruction,
            >(instruction)),
    {
        match &self.pending {
            Some(_) => Err(instruction),
            None => {
                self.pending = Some(instruction);
                Ok(())
            },
        }
    }

    /// Takes the pending instruction, leaving the slot free.
    pub fn pop(&mut self) -> (r: Option<WidgetInstanceInstruction>)
        ensures
            final(self).spec_pending() is None,
            r == old(self).spec_pending(),
    {
        let mut taken: Option<WidgetInstanceInstruction> = None;
        core::mem::swap(&mut taken, &mut self.pending);
        taken
    }
}

/// Law: the instruction queue never holds more than one instruction, in any
/// reachable or even unreachable state.
pub proof fn lemma_queue_capacity(queue: InstructionQueue)
    ensures
        queue.size() <= 1,
{
}

} // verus!
