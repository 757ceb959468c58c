//! The interaction bus: tagged tuples that tables send to and receive from
//! each other.
//!
//! A table never reads another table's rows. It sends a tuple of field
//! elements with a multiplicity, and another table receives the same tuple.
//! The proving backend later shows that, per kind and scope, what was sent
//! is exactly what was received.

use crate::expr::{Expr, RowWindow, Window};
use crate::field::canonical;
use vstd::prelude::*;

verus! {

/// What an interaction tuple is about. The order of the variants is part of
/// the proof's public structure: new kinds are added at the end.
#[derive(Clone, Copy, Debug, PartialEq, Eq, Structural, Hash)]
pub enum InteractionKind {
    /// Fetching an instruction from the program table.
    Program,
    /// A register-to-register operation checked by an ALU table.
    Alu,
    /// A read or write of a memory cell or register.
    Memory,
    /// A byte operation or range check.
    Byte,
    /// A row of the CPU table handed to the opcode-specific table.
    Instruction,
    /// A system call handed to a precompile table.
    Syscall,
}

impl InteractionKind {
    /// The stable identifier of the kind.
    pub open spec fn spec_code(self) -> nat {
        match self {
            InteractionKind::Program => 1,
            InteractionKind::Alu => 2,
            InteractionKind::Memory => 3,
            InteractionKind::Byte => 4,
            InteractionKind::Instruction => 5,
            InteractionKind::Syscall => 6,
        }
    }

    /// The stable identifier of the kind.
    pub fn code(&self) -> (r: u32)
        ensures
            r == self.spec_code(),
    {
        match self {
            InteractionKind::Program => 1,
            InteractionKind::Alu => 2,
            InteractionKind::Memory => 3,
            InteractionKind::Byte => 4,
            InteractionKind::Instruction => 5,
            InteractionKind::Syscall => 6,
        }
    }
}

/// Where an interaction is matched: within the tables of one shard, or
/// across all shards of a proof.
#[derive(Clone, Copy, Debug, PartialEq, Eq, Structural, Hash)]
pub enum InteractionScope {
    Global,
    Local,
}

/// A tuple with its multiplicity and kind, as a table states it: every entry
/// is an expression over the table's columns.
#[derive(Debug)]
pub struct AirInteraction {
    pub values: Vec<Expr>,
    pub multiplicity: Expr,
    pub kind: InteractionKind,
}

impl AirInteraction {
    pub fn new(values: Vec<Expr>, multiplicity: Expr, kind: InteractionKind) -> (r: Self)
        ensures
            r.values == values,
            r.multiplicity == multiplicity,
            r.kind == kind,
    {
        AirInteraction { values, multiplicity, kind }
    }
}

/// An interaction together with its scope and direction.
#[derive(Debug)]
pub struct Interaction {
    pub tuple: AirInteraction,
    pub scope: InteractionScope,
    pub is_send: bool,
}

/// What an interaction puts on the bus for one row.
pub struct Message {
    pub kind: InteractionKind,
    pub scope: InteractionScope,
    pub is_send: bool,
    pub values: Seq<int>,
    pub multiplicity: int,
}

/// The values of a list of expressions on a window.
pub open spec fn values_of(exprs: Seq<Expr>, w: Window) -> Seq<int> {
    Seq::new(exprs.len(), |i: int| exprs[i].value(w))
}

impl Interaction {
    /// The message that the interaction puts on the bus for the row of `w`.
    pub open spec fn instantiate(self, w: Window) -> Message {
        Message {
            kind: self.tuple.kind,
            scope: self.scope,
            is_send: self.is_send,
            values: values_of(self.tuple.values@, w),
            multiplicity: self.tuple.multiplicity.value(w),
        }
    }

    /// Evaluates the interaction on a window.
    pub fn emit(&self, w: &RowWindow) -> (r: BusMessage)
        requires
            w@.wf(),
        ensures
            r@ == self.instantiate(w@),
            r.wf(),
    {
        let mut values: Vec<u32> = Vec::new();
        let mut i: usize = 0;
        while i < self.tuple.values.len()
            invariant
                i <= self.tuple.values.len(),
                w@.wf(),
                values@.len() == i,
                forall|j: int| 0 <= j < i ==> #[trigger] values@[j] as int == self.tuple.values@[j].value(w@),
                forall|j: int| 0 <= j < i ==> canonical(#[trigger] values@[j] as int),
            decreases self.tuple.values.len() - i,
        {
            values.push(self.tuple.values[i].evaluate(w));
            i += 1;
        }
        let multiplicity = self.tuple.multiplicity.evaluate(w);
        let r = BusMessage {
            kind: self.tuple.kind,
            scope: self.scope,
            is_send: self.is_send,
            values,
            multiplicity,
        };
        assert(r@.values =~= values_of(self.tuple.values@, w@));
        r
    }
}

/// A message with concrete field elements.
#[derive(Clone, Debug, PartialEq, Eq)]
pub struct BusMessage {
    pub kind: InteractionKind,
    pub scope: InteractionScope,
    pub is_send: bool,
    pub values: Vec<u32>,
    pub multiplicity: u32,
}

impl View for BusMessage {
    type V = Message;

    open spec fn view(&self) -> Message {
        Message {
            kind: self.kind,
            scope: self.scope,
            is_send: self.is_send,
            values: Seq::new(self.values@.len(), |i: int| self.values@[i] as int),
            multiplicity: self.multiplicity as int,
        }
    }
}

impl BusMessage {
    /// Every entry and the multiplicity are canonical field elements.
    pub open spec fn wf(&self) -> bool {
        &&& crate::expr::all_canonical(self.values@)
        &&& canonical(self.multiplicity as int)
    }

    /// Decides [`Self::wf`].
    pub fn is_well_formed(&self) -> (r: bool)
        ensures
            r == self.wf(),
    {
        crate::expr::check_all_canonical(&self.values) && self.multiplicity < crate::field::MODULUS
    }
}

/// The messages that a list of interactions puts on the bus for one row.
pub open spec fn instantiate_all(interactions: Seq<Interaction>, w: Window) -> Seq<Message> {
    Seq::new(interactions.len(), |i: int| interactions[i].instantiate(w))
}

} // verus!
