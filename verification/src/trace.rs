//! Traces as matrices of field elements.
//!
//! A trace is handed to the proving backend as a `p3_matrix` row-major
//! matrix of `p3_baby_bear` field elements. The library computes the cells
//! of a trace as canonical `u32` values and builds the matrix from them.

use crate::builder::ConstraintBuilder;
use crate::bus::views;
use crate::expr::{all_canonical, RowWindow, Window};
use crate::interaction::{BusMessage, Message};
use p3_baby_bear::BabyBear;
use p3_field::AbstractField;
use p3_field::PrimeField32;
use p3_matrix::dense::RowMajorMatrix;
use vstd::prelude::*;

verus! {

/// `p3_baby_bear::BabyBear`, an element of the Baby Bear field.
#[verifier::external_type_specification]
#[verifier::external_body]
pub struct ExBabyBear(p3_baby_bear::BabyBear);

/// `p3_matrix::dense::DenseMatrix`, a matrix stored row by row.
#[verifier::external_type_specification]
#[verifier::external_body]
#[verifier::reject_recursive_types(T)]
#[verifier::reject_recursive_types(V)]
pub struct ExDenseMatrix<T, V>(p3_matrix::dense::DenseMatrix<T, V>);

/// The cells of a matrix, row after row, each as the canonical
/// representative of the field element that it holds.
pub uninterp spec fn matrix_values(m: RowMajorMatrix<BabyBear>) -> Seq<u32>;

/// The number of columns of a matrix.
pub uninterp spec fn matrix_width(m: RowMajorMatrix<BabyBear>) -> nat;

/// The row-major matrix of the given width whose cells are `values`.
///
/// Trusted: the body turns every value into a field element with
/// `from_canonical_u32`, which keeps a canonical value as it is, and hands
/// the list to `RowMajorMatrix::new`, which stores the list and the width
/// unchanged. Both expect what the `requires` asks for.
#[verifier::external_body]
pub(crate) fn matrix_from_values(values: Vec<u32>, width: usize) -> (m: RowMajorMatrix<BabyBear>)
    requires
        all_canonical(values@),
        width == 0 || values@.len() % (width as nat) == 0,
    ensures
        matrix_values(m) == values@,
        matrix_width(m) == width,
{
    RowMajorMatrix::new(values.into_iter().map(BabyBear::from_canonical_u32).collect(), width)
}

/// The cells and the width of a matrix.
///
/// Trusted: the body reads the public fields `values` and `width` of the
/// matrix and turns every cell into its canonical representative with
/// `as_canonical_u32`, which is below the order of the field.
#[verifier::external_body]
pub(crate) fn matrix_to_values(m: &RowMajorMatrix<BabyBear>) -> (r: (Vec<u32>, usize))
    ensures
        r.0@ == matrix_values(*m),
        r.1 == matrix_width(*m),
        all_canonical(r.0@),
{
    (m.values.iter().map(|x| x.as_canonical_u32()).collect(), m.width)
}

/// Whether `values` are the cells of a trace of the given width: a positive
/// number of full rows of canonical field elements.
pub open spec fn is_trace(values: Seq<u32>, width: nat) -> bool {
    &&& width > 0
    &&& values.len() > 0
    &&& values.len() % width == 0
    &&& all_canonical(values)
}

/// Decides [`is_trace`].
pub fn check_is_trace(values: &Vec<u32>, width: usize) -> (r: bool)
    ensures
        r == is_trace(values@, width as nat),
{
    width > 0 && values.len() > 0 && values.len() % width == 0 && crate::expr::check_all_canonical(
        values,
    )
}

/// The number of rows of a trace.
pub open spec fn trace_height(values: Seq<u32>, width: nat) -> nat {
    values.len() / width
}

/// Row `i` of a trace.
pub open spec fn trace_row(values: Seq<u32>, width: nat, i: int) -> Seq<u32> {
    values.subrange(i * width, (i + 1) * width)
}

/// The window of row `i` of a trace: the row, the row after it, or the
/// first row after the last, and the position of the row in the trace.
pub open spec fn window_at(values: Seq<u32>, width: nat, public_values: Seq<u32>, i: int) -> Window {
    let height = trace_height(values, width) as int;
    Window {
        local: trace_row(values, width, i),
        next: trace_row(values, width, if i + 1 < height { i + 1 } else { 0 }),
        public_values,
        is_first_row: i == 0,
        is_last_row: i == height - 1,
        is_transition: i != height - 1,
    }
}

/// Whether the windows of the first `n` rows of a trace satisfy every
/// constraint of a builder.
pub open spec fn rows_hold(
    builder: ConstraintBuilder,
    values: Seq<u32>,
    width: nat,
    public_values: Seq<u32>,
    n: int,
) -> bool {
    forall|i: int| 0 <= i < n ==> builder.holds(#[trigger] window_at(values, width, public_values, i))
}

/// The messages that the first `n` rows of a trace put on the bus, row
/// after row.
pub open spec fn rows_messages(
    builder: ConstraintBuilder,
    values: Seq<u32>,
    width: nat,
    public_values: Seq<u32>,
    n: nat,
) -> Seq<Message>
    decreases n,
{
    if n == 0 {
        Seq::empty()
    } else {
        rows_messages(builder, values, width, public_values, (n - 1) as nat) + builder.messages(
            window_at(values, width, public_values, n - 1),
        )
    }
}

/// The arithmetic of rows in a row-major list: row `i` of `height` rows of
/// the given width lies within the list.
proof fn lemma_row_bounds(len: int, width: int, i: int)
    requires
        width > 0,
        len >= 0,
        len % width == 0,
        0 <= i < len / width,
    ensures
        0 <= i * width,
        (i + 1) * width <= len,
        (i + 1) * width == i * width + width,
{
    vstd::arithmetic::div_mod::lemma_fundamental_div_mod(len, width);
    assert(i * width + width == (i + 1) * width) by (nonlinear_arith);
    assert((i + 1) * width <= (len / width) * width) by (nonlinear_arith)
        requires
            i + 1 <= len / width,
            width > 0,
    ;
    assert(0 <= i * width) by (nonlinear_arith)
        requires
            0 <= i,
            width > 0,
    ;
    assert((len / width) * width == width * (len / width)) by (nonlinear_arith);
}

/// Copies row `i` of a trace.
fn copy_row(values: &Vec<u32>, width: usize, i: usize) -> (r: Vec<u32>)
    requires
        is_trace(values@, width as nat),
        i < trace_height(values@, width as nat),
    ensures
        r@ == trace_row(values@, width as nat, i as int),
        all_canonical(r@),
{
    let len = values.len();
    proof {
        lemma_row_bounds(len as int, width as int, i as int);
        assert(i * width + width <= len);
    }
    let start = i * width;
    let mut r: Vec<u32> = Vec::new();
    let mut k: usize = 0;
    while k < width
        invariant
            k <= width,
            start == i * width,
            len == values@.len(),
            start + width <= len,
            all_canonical(values@),
            r@.len() == k,
            forall|j: int| 0 <= j < k ==> #[trigger] r@[j] == values@[start + j],
        decreases width - k,
    {
        r.push(values[start + k]);
        k += 1;
    }
    assert(r@ =~= trace_row(values@, width as nat, i as int));
    r
}

/// The window of row `i` of a trace.
pub fn row_window(values: &Vec<u32>, width: usize, public_values: &Vec<u32>, i: usize) -> (r: RowWindow)
    requires
        is_trace(values@, width as nat),
        all_canonical(public_values@),
        i < trace_height(values@, width as nat),
    ensures
        r@ == window_at(values@, width as nat, public_values@, i as int),
        r@.wf(),
{
    let height = values.len() / width;
    let next = if i + 1 < height {
        i + 1
    } else {
        0
    };
    RowWindow {
        local: copy_row(values, width, i),
        next: copy_row(values, width, next),
        public_values: public_values.clone(),
        is_first_row: i == 0,
        is_last_row: i == height - 1,
        is_transition: i != height - 1,
    }
}

impl ConstraintBuilder {
    /// Looks for a row of a trace whose window violates a constraint, and
    /// returns the first such row; `None` if every window satisfies every
    /// constraint.
    pub fn check_trace(&self, values: &Vec<u32>, width: usize, public_values: &Vec<u32>) -> (r: Option<usize>)
        requires
            is_trace(values@, width as nat),
            all_canonical(public_values@),
        ensures
            match r {
                None => rows_hold(
                    *self,
                    values@,
                    width as nat,
                    public_values@,
                    trace_height(values@, width as nat) as int,
                ),
                Some(i) => i < trace_height(values@, width as nat) && !self.holds(
                    window_at(values@, width as nat, public_values@, i as int),
                ) && rows_hold(*self, values@, width as nat, public_values@, i as int),
            },
    {
        let height = values.len() / width;
        let mut i: usize = 0;
        while i < height
            invariant
                i <= height,
                height == trace_height(values@, width as nat),
                is_trace(values@, width as nat),
                all_canonical(public_values@),
                rows_hold(*self, values@, width as nat, public_values@, i as int),
            decreases height - i,
        {
            let w = row_window(values, width, public_values, i);
            if !self.check(&w) {
                return Some(i);
            }
            i += 1;
        }
        None
    }

    /// The messages that the rows of a trace put on the bus, row after row.
    pub fn trace_messages(&self, values: &Vec<u32>, width: usize, public_values: &Vec<u32>) -> (r: Vec<BusMessage>)
        requires
            is_trace(values@, width as nat),
            all_canonical(public_values@),
        ensures
            views(r@) == rows_messages(
                *self,
                values@,
                width as nat,
                public_values@,
                trace_height(values@, width as nat),
            ),
            forall|i: int| 0 <= i < r@.len() ==> (#[trigger] r@[i]).wf(),
    {
        let height = values.len() / width;
        let mut out: Vec<BusMessage> = Vec::new();
        let mut i: usize = 0;
        assert(views(out@) =~= Seq::<Message>::empty());
        while i < height
            invariant
                i <= height,
                height == trace_height(values@, width as nat),
                is_trace(values@, width as nat),
                all_canonical(public_values@),
                views(out@) == rows_messages(*self, values@, width as nat, public_values@, i as nat),
                forall|k: int| 0 <= k < out@.len() ==> (#[trigger] out@[k]).wf(),
            decreases height - i,
        {
            let w = row_window(values, width, public_values, i);
            let mut row = self.emit(&w);
            let ghost before = out@;
            let ghost emitted = row@;
            out.append(&mut row);
            assert(views(out@) =~= views(before) + self.messages(w@)) by {
                assert(views(emitted) =~= self.messages(w@));
                assert(views(before + emitted) =~= views(before) + views(emitted));
            }
            assert forall|j: int| 0 <= j < out@.len() implies (#[trigger] out@[j]).wf() by {
                if j >= before.len() {
                    assert(out@[j] == emitted[j - before.len()]);
                }
            }
            i += 1;
        }
        out
    }

    /// Like [`Self::check_trace`], for a trace that is held as a matrix.
    /// `None` also if the matrix has no cell or no column.
    pub fn check_matrix(&self, trace: &RowMajorMatrix<BabyBear>, public_values: &Vec<u32>) -> (r: Option<usize>)
        requires
            all_canonical(public_values@),
        ensures
            is_trace(matrix_values(*trace), matrix_width(*trace)) ==> match r {
                None => rows_hold(
                    *self,
                    matrix_values(*trace),
                    matrix_width(*trace),
                    public_values@,
                    trace_height(matrix_values(*trace), matrix_width(*trace)) as int,
                ),
                Some(i) => i < trace_height(matrix_values(*trace), matrix_width(*trace))
                    && !self.holds(
                    window_at(matrix_values(*trace), matrix_width(*trace), public_values@, i as int),
                ) && rows_hold(
                    *self,
                    matrix_values(*trace),
                    matrix_width(*trace),
                    public_values@,
                    i as int,
                ),
            },
            !is_trace(matrix_values(*trace), matrix_width(*trace)) ==> r is None,
    {
        let (values, width) = matrix_to_values(trace);
        if width == 0 || values.len() == 0 || values.len() % width != 0 {
            return None;
        }
        self.check_trace(&values, width, public_values)
    }

    /// Like [`Self::trace_messages`], for a trace that is held as a matrix.
    /// No message if the matrix has no cell or no column.
    pub fn matrix_messages(&self, trace: &RowMajorMatrix<BabyBear>, public_values: &Vec<u32>) -> (r: Vec<BusMessage>)
        requires
            all_canonical(public_values@),
        ensures
            is_trace(matrix_values(*trace), matrix_width(*trace)) ==> views(r@) == rows_messages(
                *self,
                matrix_values(*trace),
                matrix_width(*trace),
                public_values@,
                trace_height(matrix_values(*trace), matrix_width(*trace)),
            ),
            !is_trace(matrix_values(*trace), matrix_width(*trace)) ==> r@.len() == 0,
            forall|i: int| 0 <= i < r@.len() ==> (#[trigger] r@[i]).wf(),
    {
        let (values, width) = matrix_to_values(trace);
        if width == 0 || values.len() == 0 || values.len() % width != 0 {
            return Vec::new();
        }
        self.trace_messages(&values, width, public_values)
    }
}

} // verus!
