//! Gate kinds and their evaluation: a pure, total function from a gate
//! kind and two boolean inputs to an output.

use vstd::prelude::*;

verus! {

/// The seven boolean logic operators. NOT is unary; the others are binary.
#[derive(Debug, Clone, Copy, PartialEq, Eq, Hash, Structural)]
pub enum LogicGates {
    AND,
    OR,
    XOR,
    NOT,
    NAND,
    NOR,
    XNOR,
}

/// The canonical truth table: the output of `gate` on inputs `a` and `b`.
/// For the unary NOT, `b` is disregarded.
pub open spec fn spec_compute(gate: LogicGates, a: bool, b: bool) -> bool {
    match gate {
        LogicGates::AND => a && b,
        LogicGates::OR => a || b,
        LogicGates::XOR => a != b,
        LogicGates::NOT => !a,
        LogicGates::NAND => !(a && b),
        LogicGates::NOR => !(a || b),
        LogicGates::XNOR => a == b,
    }
}

/// Whether `gate` takes a single input.
pub open spec fn spec_is_unary(gate: LogicGates) -> bool {
    gate is NOT
}

/// The display name of `gate`.
pub open spec fn spec_name(gate: LogicGates) -> Seq<char> {
    match gate {
        LogicGates::AND => "AND"@,
        LogicGates::OR => "OR"@,
        LogicGates::XOR => "XOR"@,
        LogicGates::NOT => "NOT"@,
        LogicGates::NAND => "NAND"@,
        LogicGates::NOR => "NOR"@,
        LogicGates::XNOR => "XNOR"@,
    }
}

impl LogicGates {
    /// Evaluates this gate on inputs `a` and `b`. Total over all gate kinds
    /// and all input pairs; for NOT the value of `b` has no effect.
    pub fn compute(&self, a: bool, b: bool) -> (r: bool)
        ensures
            r == spec_compute(*self, a, b),
    {
        match *self {
            LogicGates::AND => a && b,
            LogicGates::OR => a || b,
            LogicGates::XOR => a ^ b,
            LogicGates::NOT => !a,
            LogicGates::NAND => !(a && b),
            LogicGates::NOR => !(a || b),
            LogicGates::XNOR => !(a ^ b),
        }
    }

    /// Whether this gate takes a single input (true exactly for NOT).
    pub fn is_unary(&self) -> (r: bool)
        ensures
            r == spec_is_unary(*self),
    {
        *self == LogicGates::NOT
    }

    /// The display name of this gate.
    pub fn name(&self) -> (r: String)
        ensures
            r@ == spec_name(*self),
    {
        match *self {
            LogicGates::AND => String::from_str("AND"),
            LogicGates::OR => String::from_str("OR"),
            LogicGates::XOR => String::from_str("XOR"),
            LogicGates::NOT => String::from_str("NOT"),
            LogicGates::NAND => String::from_str("NAND"),
            LogicGates::NOR => String::from_str("NOR"),
            LogicGates::XNOR => String::from_str("XNOR"),
        }
    }
}

/// Every gate kind once, in the fixed order a selector presents them.
pub fn all_gates() -> (r: Vec<LogicGates>)
    ensures
        r@ == seq![
            LogicGates::AND,
            LogicGates::OR,
            LogicGates::XOR,
            LogicGates::NOT,
            LogicGates::NAND,
            LogicGates::NOR,
            LogicGates::XNOR,
        ],
{
    let mut gates: Vec<LogicGates> = Vec::new();
    gates.push(LogicGates::AND);
    gates.push(LogicGates::OR);
    gates.push(LogicGates::XOR);
    gates.push(LogicGates::NOT);
    gates.push(LogicGates::NAND);
    gates.push(LogicGates::NOR);
    gates.push(LogicGates::XNOR);
    proof {
        assert(gates@ =~= seq![
            LogicGates::AND,
            LogicGates::OR,
            LogicGates::XOR,
            LogicGates::NOT,
            LogicGates::NAND,
            LogicGates::NOR,
            LogicGates::XNOR,
        ]);
    }
    gates
}

/// Evaluation has no hidden state: two results obtained for the same gate
/// and the same inputs are equal.
pub proof fn lemma_compute_deterministic(
    gate: LogicGates,
    a: bool,
    b: bool,
    r1: bool,
    r2: bool,
)
    requires
        r1 == spec_compute(gate, a, b),
        r2 == spec_compute(gate, a, b),
    ensures
        r1 == r2,
{
}

/// Duality: on every input pair, NAND, NOR and XNOR are the negations of
/// AND, OR and XOR.
pub proof fn lemma_duality(a: bool, b: bool)
    ensures
        spec_compute(LogicGates::NAND, a, b) == !spec_compute(LogicGates::AND, a, b),
        spec_compute(LogicGates::NOR, a, b) == !spec_compute(LogicGates::OR, a, b),
        spec_compute(LogicGates::XNOR, a, b) == !spec_compute(LogicGates::XOR, a, b),
{
}

} // verus!
