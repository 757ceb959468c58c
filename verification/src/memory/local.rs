//! The local memory tables.
//!
//! For every memory cell that a shard touches, the shard's record holds the
//! state of the cell before the first touch and after the last. The
//! initialize table has one row per cell with the first of the two states,
//! the finalize table one row per cell with the second.
//!
//! The initialize table sends its state in the global scope and receives it
//! in the local one, the finalize table receives globally and sends
//! locally. In the local scope the two states close the chain of accesses
//! that the shard makes to the cell. In the global scope the state that one
//! shard leaves is the state that the next shard to touch the cell finds.

use crate::air_builder::memory_values;
use crate::builder::ConstraintBuilder;
use crate::expr::{all_canonical, Expr, Var, Window};
use crate::field::{canonical, fsub, MODULUS};
use crate::interaction::{
    values_of, AirInteraction, InteractionKind, InteractionScope, Message,
};
use crate::memory::{MemoryChipType, MemoryRecord};
use crate::trace::{matrix_from_values, matrix_values, matrix_width};
use crate::word::{at_cell, cell, word_limbs, Word};
use p3_baby_bear::BabyBear;
use p3_matrix::dense::RowMajorMatrix;
use vstd::prelude::*;

verus! {

/// The number of columns of a local memory table.
pub const NUM_MEMORY_LOCAL_INIT_COLS: usize = 8;

/// The least number of rows of a trace.
pub const MIN_TRACE_HEIGHT: usize = 16;

/// One row of a local memory table: a state of a memory cell.
#[derive(Clone, Copy, Debug, PartialEq, Eq)]
pub struct MemoryLocalInitCols<T> {
    /// The shard of the access that left the state.
    pub shard: T,
    /// The clock of the access that left the state.
    pub clk: T,
    /// The address of the cell.
    pub addr: T,
    /// The value of the cell.
    pub value: Word<T>,
    /// Whether the row stands for a cell, rather than being padding.
    pub is_real: T,
}

impl MemoryLocalInitCols<Var> {
    /// The columns of the current or of the next row of the table, the first
    /// of them at column `base`.
    pub open spec fn spec_at(next: bool, base: int) -> MemoryLocalInitCols<Var> {
        MemoryLocalInitCols {
            shard: cell(next, base),
            clk: cell(next, base + 1),
            addr: cell(next, base + 2),
            value: Word::<Var>::spec_at(next, base + 3),
            is_real: cell(next, base + 7),
        }
    }

    /// The columns of the current or of the next row of the table, the first
    /// of them at column `base`.
    pub fn at(next: bool, base: usize) -> (r: Self)
        requires
            base + 8 <= usize::MAX,
        ensures
            r == Self::spec_at(next, base as int),
    {
        MemoryLocalInitCols {
            shard: at_cell(next, base),
            clk: at_cell(next, base + 1),
            addr: at_cell(next, base + 2),
            value: Word::<Var>::at(next, base + 3),
            is_real: at_cell(next, base + 7),
        }
    }
}

impl MemoryLocalInitCols<u32> {
    /// The cells of the row in column order.
    pub open spec fn spec_to_row(self) -> Seq<u32> {
        seq![
            self.shard,
            self.clk,
            self.addr,
            self.value.0[0],
            self.value.0[1],
            self.value.0[2],
            self.value.0[3],
            self.is_real,
        ]
    }

    /// The cells of the row in column order.
    pub fn to_row(&self) -> (r: [u32; 8])
        ensures
            r@ == self.spec_to_row(),
    {
        let r = [
            self.shard,
            self.clk,
            self.addr,
            self.value.0[0],
            self.value.0[1],
            self.value.0[2],
            self.value.0[3],
            self.is_real,
        ];
        assert(r@ =~= self.spec_to_row());
        r
    }
}

/// What a shard knows of a memory cell that it touched: the state before the
/// first touch and the state after the last.
#[derive(Clone, Copy, Debug, PartialEq, Eq, Structural)]
pub struct MemoryLocalEvent {
    pub addr: u32,
    pub initial_mem_access: MemoryRecord,
    pub final_mem_access: MemoryRecord,
}

impl MemoryLocalEvent {
    /// The state that a table of the given kind shows of the cell.
    pub open spec fn spec_access(self, kind: MemoryChipType) -> MemoryRecord {
        match kind {
            MemoryChipType::Initialize => self.initial_mem_access,
            MemoryChipType::Finalize => self.final_mem_access,
        }
    }

    /// The row of the cell in a table of the given kind.
    pub open spec fn spec_cols(self, kind: MemoryChipType) -> MemoryLocalInitCols<u32> {
        let access = self.spec_access(kind);
        MemoryLocalInitCols {
            shard: access.shard,
            clk: access.clk,
            addr: self.addr,
            value: Word(
                [
                    word_limbs(access.value)[0],
                    word_limbs(access.value)[1],
                    word_limbs(access.value)[2],
                    word_limbs(access.value)[3],
                ],
            ),
            is_real: 1,
        }
    }

    /// Whether the row of the cell in a table of the given kind holds field
    /// elements: shard, clock and address are below the order of the field.
    pub open spec fn fits(self, kind: MemoryChipType) -> bool {
        let access = self.spec_access(kind);
        &&& canonical(access.shard as int)
        &&& canonical(access.clk as int)
        &&& canonical(self.addr as int)
    }

    /// Decides [`Self::fits`].
    pub fn check_fits(&self, kind: MemoryChipType) -> (r: bool)
        ensures
            r == self.fits(kind),
    {
        let access = match kind {
            MemoryChipType::Initialize => self.initial_mem_access,
            MemoryChipType::Finalize => self.final_mem_access,
        };
        access.shard < MODULUS && access.clk < MODULUS && self.addr < MODULUS
    }
}

/// One run of a permutation precompile, with the memory cells that it
/// touched as scratch space.
#[derive(Clone, Debug)]
pub struct KeccakPermuteEvent {
    pub local_mem_access: Vec<MemoryLocalEvent>,
}

/// What the execution of one shard recorded, as far as the local memory
/// tables need it.
#[derive(Clone, Debug, Default)]
pub struct ExecutionRecord {
    /// The memory cells that the instructions of the shard touched.
    pub local_memory_access: Vec<MemoryLocalEvent>,
    /// The runs of the permutation precompile in the shard.
    pub keccak_permute_events: Vec<KeccakPermuteEvent>,
}

/// The memory cells that the first `n` precompile runs touched, run after
/// run.
pub open spec fn precompile_events(runs: Seq<KeccakPermuteEvent>, n: nat) -> Seq<MemoryLocalEvent>
    decreases n,
{
    if n == 0 {
        Seq::empty()
    } else {
        precompile_events(runs, (n - 1) as nat) + runs[n - 1].local_mem_access@
    }
}

impl ExecutionRecord {
    /// The memory cells that the shard touched: those of its instructions,
    /// then those of its precompile runs.
    pub open spec fn local_events(self) -> Seq<MemoryLocalEvent> {
        self.local_memory_access@ + precompile_events(
            self.keccak_permute_events@,
            self.keccak_permute_events@.len(),
        )
    }

    /// Whether the rows of all cells in a table of the given kind hold
    /// field elements.
    pub open spec fn fits(self, kind: MemoryChipType) -> bool {
        forall|i: int| 0 <= i < self.local_events().len() ==> (#[trigger] self.local_events()[i]).fits(kind)
    }

    /// The memory cells that the shard touched.
    pub fn collect_local_events(&self) -> (r: Vec<MemoryLocalEvent>)
        ensures
            r@ == self.local_events(),
    {
        let mut out: Vec<MemoryLocalEvent> = Vec::new();
        let mut i: usize = 0;
        while i < self.local_memory_access.len()
            invariant
                i <= self.local_memory_access.len(),
                out@ == self.local_memory_access@.subrange(0, i as int),
            decreases self.local_memory_access.len() - i,
        {
            out.push(self.local_memory_access[i]);
            assert(out@ =~= self.local_memory_access@.subrange(0, i + 1));
            i += 1;
        }
        assert(self.local_memory_access@.subrange(0, i as int) =~= self.local_memory_access@);
        let mut k: usize = 0;
        while k < self.keccak_permute_events.len()
            invariant
                k <= self.keccak_permute_events.len(),
                out@ == self.local_memory_access@ + precompile_events(
                    self.keccak_permute_events@,
                    k as nat,
                ),
            decreases self.keccak_permute_events.len() - k,
        {
            let run = &self.keccak_permute_events[k];
            let ghost before = out@;
            let mut j: usize = 0;
            while j < run.local_mem_access.len()
                invariant
                    j <= run.local_mem_access.len(),
                    out@ == before + run.local_mem_access@.subrange(0, j as int),
                decreases run.local_mem_access.len() - j,
            {
                out.push(run.local_mem_access[j]);
                assert(out@ =~= before + run.local_mem_access@.subrange(0, j + 1));
                j += 1;
            }
            assert(run.local_mem_access@.subrange(0, j as int) =~= run.local_mem_access@);
            assert(out@ =~= self.local_memory_access@ + precompile_events(
                self.keccak_permute_events@,
                (k + 1) as nat,
            ));
            k += 1;
        }
        out
    }

    /// Decides [`Self::fits`].
    pub fn check_fits(&self, kind: MemoryChipType) -> (r: bool)
        ensures
            r == self.fits(kind),
    {
        let events = self.collect_local_events();
        let mut i: usize = 0;
        while i < events.len()
            invariant
                i <= events.len(),
                events@ == self.local_events(),
                forall|j: int| 0 <= j < i ==> (#[trigger] events@[j]).fits(kind),
            decreases events.len() - i,
        {
            if !events[i].check_fits(kind) {
                return false;
            }
            i += 1;
        }
        true
    }
}

/// The least power of two that is at least `n`, starting the search at `p`:
/// `p` is doubled until it reaches `n`.
pub open spec fn height_from(n: nat, p: nat) -> nat
    decreases (if p < n { n - p } else { 0 }),
{
    if p >= n || p == 0 {
        p
    } else {
        height_from(n, 2 * p)
    }
}

/// The number of rows of a trace with `n` real rows: the least power of two
/// that is at least `n` and at least sixteen.
pub open spec fn padded_height(n: nat) -> nat {
    height_from(n, 16)
}

/// The cells of a local memory table of the given kind for the given cells
/// of memory, row after row: one real row per cell, then rows of zeros up
/// to the padded height.
pub open spec fn local_trace_values(kind: MemoryChipType, events: Seq<MemoryLocalEvent>) -> Seq<u32> {
    Seq::new(
        padded_height(events.len()) * 8,
        |i: int|
            if i < events.len() * 8 {
                events[i / 8].spec_cols(kind).spec_to_row()[i % 8]
            } else {
                0u32
            },
    )
}

/// Decides the padded height of a trace with `n` real rows.
pub fn compute_padded_height(n: usize) -> (r: usize)
    requires
        2 * n <= usize::MAX,
    ensures
        r == padded_height(n as nat),
        r >= n,
        r >= 16,
        r <= 16 || r < 2 * n,
{
    let mut p: usize = MIN_TRACE_HEIGHT;
    while p < n
        invariant
            p >= 16,
            p <= 16 || p < 2 * n,
            2 * n <= usize::MAX,
            height_from(n as nat, p as nat) == padded_height(n as nat),
        decreases (if p < n { n - p } else { 0 }),
    {
        p = p * 2;
    }
    p
}

/// The name of a local memory table of the given kind.
pub open spec fn local_chip_name(kind: MemoryChipType) -> Seq<char> {
    match kind {
        MemoryChipType::Initialize => "MemoryLocalInit"@,
        MemoryChipType::Finalize => "MemoryLocalFinalize"@,
    }
}

/// The message of a row of a local memory table in one scope: the state of
/// the cell, with the multiplicity `is_real`.
///
/// The initialize table sends in the global scope and receives in the local
/// one; the finalize table receives in the global scope and sends in the
/// local one.
pub open spec fn memory_local_message(
    kind: MemoryChipType,
    scope: InteractionScope,
    local: MemoryLocalInitCols<Var>,
    w: Window,
) -> Message {
    Message {
        kind: InteractionKind::Memory,
        scope,
        is_send: (kind == MemoryChipType::Initialize) == (scope == InteractionScope::Global),
        values: memory_values(
            w.var(local.shard),
            w.var(local.clk),
            w.var(local.addr),
            local.value.limbs(w),
        ),
        multiplicity: w.var(local.is_real),
    }
}

/// The two messages of a row of a local memory table: the global one, then
/// the local one.
pub open spec fn memory_local_messages(
    kind: MemoryChipType,
    local: MemoryLocalInitCols<Var>,
    w: Window,
) -> Seq<Message> {
    seq![
        memory_local_message(kind, InteractionScope::Global, local, w),
        memory_local_message(kind, InteractionScope::Local, local, w),
    ]
}

/// A local memory table.
#[derive(Clone, Copy, Debug)]
pub struct MemoryLocalChip {
    pub kind: MemoryChipType,
}

impl MemoryLocalChip {
    /// A local memory table of the given kind.
    pub fn new(kind: MemoryChipType) -> (r: Self)
        ensures
            r.kind == kind,
    {
        Self { kind }
    }

    /// The number of columns of the table.
    pub fn width(&self) -> (r: usize)
        ensures
            r == NUM_MEMORY_LOCAL_INIT_COLS,
    {
        NUM_MEMORY_LOCAL_INIT_COLS
    }

    /// Whether the table is part of the proof of the shard: whether the
    /// shard touched any memory cell, be it with an instruction or with a
    /// precompile run. A table without rows is left out, not padded.
    pub fn included(&self, shard: &ExecutionRecord) -> (r: bool)
        ensures
            r == (shard.local_events().len() > 0),
    {
        let events = shard.collect_local_events();
        events.len() > 0
    }

    /// Whether the table is committed to in the first phase of the proof.
    pub fn included_phase1(&self) -> (r: bool)
        ensures
            r,
    {
        true
    }

    /// The row of a memory cell in the table.
    pub fn event_to_row(&self, event: &MemoryLocalEvent) -> (r: [u32; 8])
        ensures
            r@ == event.spec_cols(self.kind).spec_to_row(),
    {
        let mem_access = match self.kind {
            MemoryChipType::Initialize => event.initial_mem_access,
            MemoryChipType::Finalize => event.final_mem_access,
        };
        let value = Word::<u32>::from_u32(mem_access.value);
        let cols = MemoryLocalInitCols {
            shard: mem_access.shard,
            clk: mem_access.clk,
            addr: event.addr,
            value,
            is_real: 1,
        };
        assert(value.0@ == word_limbs(mem_access.value));
        assert(value.0[0] == word_limbs(mem_access.value)[0]);
        assert(value.0[1] == word_limbs(mem_access.value)[1]);
        assert(value.0[2] == word_limbs(mem_access.value)[2]);
        assert(value.0[3] == word_limbs(mem_access.value)[3]);
        let row = cols.to_row();
        assert(row@ =~= event.spec_cols(self.kind).spec_to_row());
        row
    }
    /// The name of the table.
    pub fn name(&self) -> (r: String)
        ensures
            r@ == local_chip_name(self.kind),
    {
        match self.kind {
            MemoryChipType::Initialize => "MemoryLocalInit".to_owned(),
            MemoryChipType::Finalize => "MemoryLocalFinalize".to_owned(),
        }
    }

    /// The cells of the table for the shard that `input` records, row after
    /// row: one row per touched memory cell, in the order of the record, then
    /// rows of zeros up to the padded height.
    pub fn generate_values(&self, input: &ExecutionRecord) -> (values: Vec<u32>)
        requires
            input.fits(self.kind),
            16 * input.local_events().len() <= usize::MAX,
        ensures
            values@ == local_trace_values(self.kind, input.local_events()),
            all_canonical(values@),
            values@.len() % 8 == 0,
    {
        let events = input.collect_local_events();
        let mut values: Vec<u32> = Vec::new();
        let mut i: usize = 0;
        while i < events.len()
            invariant
                i <= events.len(),
                events@ == input.local_events(),
                input.fits(self.kind),
                16 * events@.len() <= usize::MAX,
                values@.len() == 8 * i,
                all_canonical(values@),
                forall|k: int|
                    0 <= k < 8 * i ==> #[trigger] values@[k] == events@[k / 8].spec_cols(
                        self.kind,
                    ).spec_to_row()[k % 8],
            decreases events.len() - i,
        {
            let event = &events[i];
            let row = self.event_to_row(event);
            let ghost before = values@;
            assert(events@[i as int].fits(self.kind));
            values.push(row[0]);
            values.push(row[1]);
            values.push(row[2]);
            values.push(row[3]);
            values.push(row[4]);
            values.push(row[5]);
            values.push(row[6]);
            values.push(row[7]);
            assert forall|k: int| 0 <= k < 8 * (i + 1) implies #[trigger] values@[k]
                == events@[k / 8].spec_cols(self.kind).spec_to_row()[k % 8] by {
                if k < 8 * i {
                    assert(values@[k] == before[k]);
                } else {
                    assert(k / 8 == i);
                    assert(values@[k] == row@[k % 8]);
                }
            }
            assert forall|k: int| 0 <= k < values@.len() implies canonical(
                #[trigger] values@[k] as int,
            ) by {
                if k < 8 * i {
                    assert(values@[k] == before[k]);
                } else {
                    assert(values@[k] == row@[k - 8 * i]);
                }
            }
            i += 1;
        }
        let height = compute_padded_height(events.len());
        let total = height * 8;
        let ghost filled = values@;
        while values.len() < total
            invariant
                values@.len() <= total,
                filled.len() == 8 * events@.len(),
                filled.len() <= values@.len(),
                all_canonical(values@),
                forall|k: int| 0 <= k < filled.len() ==> #[trigger] values@[k] == filled[k],
                forall|k: int| filled.len() <= k < values@.len() ==> #[trigger] values@[k] == 0,
            decreases total - values.len(),
        {
            let ghost before = values@;
            values.push(0);
            assert forall|k: int| 0 <= k < values@.len() implies canonical(
                #[trigger] values@[k] as int,
            ) by {
                if k < before.len() {
                    assert(values@[k] == before[k]);
                }
            }
        }
        assert(values@ =~= local_trace_values(self.kind, input.local_events()));
        values
    }

    /// The trace of the table for the shard that `input` records: the matrix
    /// of eight columns that holds one row per touched memory cell, in the
    /// order of the record, then rows of zeros up to the padded height.
    pub fn generate_trace(&self, input: &ExecutionRecord, _output: &mut ExecutionRecord) -> (trace:
        RowMajorMatrix<BabyBear>)
        requires
            input.fits(self.kind),
            16 * input.local_events().len() <= usize::MAX,
        ensures
            matrix_values(trace) == local_trace_values(self.kind, input.local_events()),
            matrix_width(trace) == NUM_MEMORY_LOCAL_INIT_COLS,
            *final(_output) == *old(_output),
    {
        let values = self.generate_values(input);
        matrix_from_values(values, NUM_MEMORY_LOCAL_INIT_COLS)
    }

    /// The tuple of the state of the cell of a row.
    fn state_values(local: &MemoryLocalInitCols<Var>) -> (values: Vec<Expr>)
        ensures
            forall|w: Window| #[trigger]
                values_of(values@, w) == memory_values(
                    w.var(local.shard),
                    w.var(local.clk),
                    w.var(local.addr),
                    local.value.limbs(w),
                ),
    {
        let mut values: Vec<Expr> = Vec::new();
        values.push(Expr::var(local.shard));
        values.push(Expr::var(local.clk));
        values.push(Expr::var(local.addr));
        local.value.push_to(&mut values);
        assert forall|w: Window| #[trigger]
            values_of(values@, w) == memory_values(
                w.var(local.shard),
                w.var(local.clk),
                w.var(local.addr),
                local.value.limbs(w),
            ) by {
            assert(values_of(values@, w) =~= memory_values(
                w.var(local.shard),
                w.var(local.clk),
                w.var(local.addr),
                local.value.limbs(w),
            ));
        }
        values
    }

    /// States the constraint and the two interactions of the table.
    ///
    /// The constraint holds on every row and is there for the degree of the
    /// table only. The columns of the row are the first eight columns of
    /// the window.
    pub fn eval(&self, builder: &mut ConstraintBuilder)
        ensures
            final(builder).constraints@.len() == old(builder).constraints@.len() + 1,
            final(builder).interactions@.len() == old(builder).interactions@.len() + 2,
            forall|w: Window| #[trigger] final(builder).holds(w) == old(builder).holds(w),
            forall|w: Window| #[trigger]
                final(builder).messages(w) == old(builder).messages(w) + memory_local_messages(
                    self.kind,
                    MemoryLocalInitCols::<Var>::spec_at(false, 0),
                    w,
                ),
    {
        let local = MemoryLocalInitCols::<Var>::at(false, 0);

        builder.assert_eq(
            Expr::var(local.is_real).times(Expr::var(local.is_real)).times(Expr::var(local.is_real)),
            Expr::var(local.is_real).times(Expr::var(local.is_real)).times(Expr::var(local.is_real)),
        );
        proof {
            reveal(fsub);
        }

        match self.kind {
            MemoryChipType::Initialize => {
                builder.send(
                    AirInteraction::new(
                        Self::state_values(&local),
                        Expr::var(local.is_real),
                        InteractionKind::Memory,
                    ),
                    InteractionScope::Global,
                );
                builder.receive(
                    AirInteraction::new(
                        Self::state_values(&local),
                        Expr::var(local.is_real),
                        InteractionKind::Memory,
                    ),
                    InteractionScope::Local,
                );
            },
            MemoryChipType::Finalize => {
                builder.receive(
                    AirInteraction::new(
                        Self::state_values(&local),
                        Expr::var(local.is_real),
                        InteractionKind::Memory,
                    ),
                    InteractionScope::Global,
                );
                builder.send(
                    AirInteraction::new(
                        Self::state_values(&local),
                        Expr::var(local.is_real),
                        InteractionKind::Memory,
                    ),
                    InteractionScope::Local,
                );
            },
        }
        assert forall|w: Window| #[trigger]
            builder.messages(w) == old(builder).messages(w) + memory_local_messages(
                self.kind,
                local,
                w,
            ) by {
            assert(builder.messages(w) =~= old(builder).messages(w) + memory_local_messages(
                self.kind,
                local,
                w,
            ));
        }
    }
}

} // verus!
