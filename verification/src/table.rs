//! Derived enumerations of a gate's outputs: the ordered truth-table rows
//! and the cells of the Karnaugh-Veitch grid, both pure projections of the
//! gate kind.

use vstd::prelude::*;

use crate::gate::{LogicGates, spec_compute, spec_is_unary};

verus! {

/// One line of a truth table: the input values paired with a gate's
/// output on them. `input_b` is `None` for a unary gate.
#[derive(Debug, Clone, Copy, PartialEq, Eq)]
pub struct TruthRow {
    pub input_a: bool,
    pub input_b: Option<bool>,
    pub output: bool,
}

/// One cell of a Karnaugh-Veitch grid: the boolean its row header stands
/// for (input A; `None` for a unary gate, whose grid has a single row),
/// the boolean its column header stands for (input B, or input A for a
/// unary gate), and a gate's output there.
#[derive(Debug, Clone, Copy, PartialEq, Eq)]
pub struct KVCell {
    pub row: Option<bool>,
    pub col: bool,
    pub value: bool,
}

/// The truth table of `gate`, in presentation order: A descending for a
/// unary gate, (A, B) descending lexicographically for a binary one.
pub open spec fn spec_truth_table(gate: LogicGates) -> Seq<TruthRow> {
    if spec_is_unary(gate) {
        seq![
            (TruthRow { input_a: true, input_b: None, output: spec_compute(gate, true, false) }),
            (TruthRow { input_a: false, input_b: None, output: spec_compute(gate, false, false) }),
        ]
    } else {
        seq![
            (TruthRow {
                input_a: true,
                input_b: Some(true),
                output: spec_compute(gate, true, true),
            }),
            (TruthRow {
                input_a: true,
                input_b: Some(false),
                output: spec_compute(gate, true, false),
            }),
            (TruthRow {
                input_a: false,
                input_b: Some(true),
                output: spec_compute(gate, false, true),
            }),
            (TruthRow {
                input_a: false,
                input_b: Some(false),
                output: spec_compute(gate, false, false),
            }),
        ]
    }
}

/// The Karnaugh-Veitch grid of `gate`, flattened row-major with both axes
/// in header order 1, 0. A binary gate fills a 2-by-2 grid whose rows
/// stand for A and whose columns stand for B; a unary gate fills a single
/// row of two cells whose columns stand for A.
pub open spec fn spec_kv_diagram(gate: LogicGates) -> Seq<KVCell> {
    if spec_is_unary(gate) {
        seq![
            (KVCell { row: None, col: true, value: spec_compute(gate, true, false) }),
            (KVCell { row: None, col: false, value: spec_compute(gate, false, false) }),
        ]
    } else {
        seq![
            (KVCell { row: Some(true), col: true, value: spec_compute(gate, true, true) }),
            (KVCell { row: Some(true), col: false, value: spec_compute(gate, true, false) }),
            (KVCell { row: Some(false), col: true, value: spec_compute(gate, false, true) }),
            (KVCell { row: Some(false), col: false, value: spec_compute(gate, false, false) }),
        ]
    }
}

/// Enumerates the truth table of `gate`: two rows, A in {true, false} in
/// that order, for a unary gate; four rows, (A, B) in {(T,T), (T,F),
/// (F,T), (F,F)} in that order, for a binary one. Each row carries the
/// output of `gate` on its inputs.
pub fn generate_truth_table(gate: LogicGates) -> (r: Vec<TruthRow>)
    ensures
        r@ == spec_truth_table(gate),
        r@.len() == (if spec_is_unary(gate) { 2int } else { 4int }),
{
    let mut rows: Vec<TruthRow> = Vec::new();
    if gate.is_unary() {
        rows.push(TruthRow { input_a: true, input_b: None, output: gate.compute(true, false) });
        rows.push(TruthRow { input_a: false, input_b: None, output: gate.compute(false, false) });
    } else {
        rows.push(
            TruthRow { input_a: true, input_b: Some(true), output: gate.compute(true, true) },
        );
        rows.push(
            TruthRow { input_a: true, input_b: Some(false), output: gate.compute(true, false) },
        );
        rows.push(
            TruthRow { input_a: false, input_b: Some(true), output: gate.compute(false, true) },
        );
        rows.push(
            TruthRow { input_a: false, input_b: Some(false), output: gate.compute(false, false) },
        );
    }
    proof {
        assert(rows@ =~= spec_truth_table(gate));
    }
    rows
}

/// Enumerates the Karnaugh-Veitch grid of `gate`, row-major with both
/// axes in header order 1, 0: a single row of two cells for a unary gate,
/// a 2-by-2 grid for a binary one. The cell at row header `ra` and column
/// header `cb` holds the output of `gate` on (A, B) = (ra, cb); for a unary
/// gate the cell under column header `h` holds the output on A = `h`.
pub fn generate_kv_diagram(gate: LogicGates) -> (r: Vec<KVCell>)
    ensures
        r@ == spec_kv_diagram(gate),
        spec_is_unary(gate) ==> r@.len() == 2 && (forall|i: int|
            0 <= i < r@.len() ==> r@[i].row is None),
        !spec_is_unary(gate) ==> r@.len() == 4 && (forall|i: int|
            0 <= i < r@.len() ==> r@[i].row is Some),
{
    let mut cells: Vec<KVCell> = Vec::new();
    if gate.is_unary() {
        cells.push(KVCell { row: None, col: true, value: gate.compute(true, false) });
        cells.push(KVCell { row: None, col: false, value: gate.compute(false, false) });
    } else {
        cells.push(KVCell { row: Some(true), col: true, value: gate.compute(true, true) });
        cells.push(KVCell { row: Some(true), col: false, value: gate.compute(true, false) });
        cells.push(KVCell { row: Some(false), col: true, value: gate.compute(false, true) });
        cells.push(KVCell { row: Some(false), col: false, value: gate.compute(false, false) });
    }
    proof {
        assert(cells@ =~= spec_kv_diagram(gate));
    }
    cells
}

/// Resolves which grid header numeral stands for a boolean input value:
/// true is headed 1, false is headed 0. The presentation layer uses this
/// to outline the row and column matching the current inputs.
pub fn header_value(input: bool) -> (r: u8)
    ensures
        r == (if input { 1u8 } else { 0u8 }),
{
    if input {
        1
    } else {
        0
    }
}

} // verus!
