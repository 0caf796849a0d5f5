use logic_gates::gate::{all_gates, LogicGates};

#[test]
fn compute_and() {
    assert_eq!(LogicGates::AND.compute(true, true), true);
    assert_eq!(LogicGates::AND.compute(true, false), false);
    assert_eq!(LogicGates::AND.compute(false, true), false);
    assert_eq!(LogicGates::AND.compute(false, false), false);
}

#[test]
fn compute_or() {
    assert_eq!(LogicGates::OR.compute(true, true), true);
    assert_eq!(LogicGates::OR.compute(true, false), true);
    assert_eq!(LogicGates::OR.compute(false, true), true);
    assert_eq!(LogicGates::OR.compute(false, false), false);
}

#[test]
fn compute_xor() {
    assert_eq!(LogicGates::XOR.compute(true, true), false);
    assert_eq!(LogicGates::XOR.compute(true, false), true);
    assert_eq!(LogicGates::XOR.compute(false, true), true);
    assert_eq!(LogicGates::XOR.compute(false, false), false);
}

#[test]
fn compute_not_ignores_b() {
    assert_eq!(LogicGates::NOT.compute(true, true), false);
    assert_eq!(LogicGates::NOT.compute(true, false), false);
    assert_eq!(LogicGates::NOT.compute(false, true), true);
    assert_eq!(LogicGates::NOT.compute(false, false), true);
}

#[test]
fn compute_nand() {
    assert_eq!(LogicGates::NAND.compute(true, true), false);
    assert_eq!(LogicGates::NAND.compute(true, false), true);
    assert_eq!(LogicGates::NAND.compute(false, true), true);
    assert_eq!(LogicGates::NAND.compute(false, false), true);
}

#[test]
fn compute_nor() {
    assert_eq!(LogicGates::NOR.compute(true, true), false);
    assert_eq!(LogicGates::NOR.compute(true, false), false);
    assert_eq!(LogicGates::NOR.compute(false, true), false);
    assert_eq!(LogicGates::NOR.compute(false, false), true);
}

#[test]
fn compute_xnor() {
    assert_eq!(LogicGates::XNOR.compute(true, true), true);
    assert_eq!(LogicGates::XNOR.compute(true, false), false);
    assert_eq!(LogicGates::XNOR.compute(false, true), false);
    assert_eq!(LogicGates::XNOR.compute(false, false), true);
}

#[test]
fn compute_is_idempotent() {
    for gate in all_gates() {
        for a in [true, false] {
            for b in [true, false] {
                let first = gate.compute(a, b);
                let second = gate.compute(a, b);
                let third = gate.compute(a, b);
                assert_eq!(first, second);
                assert_eq!(second, third);
            }
        }
    }
}

#[test]
fn duality_nand_nor_xnor() {
    for a in [true, false] {
        for b in [true, false] {
            assert_eq!(
                LogicGates::NAND.compute(a, b),
                !LogicGates::AND.compute(a, b)
            );
            assert_eq!(
                LogicGates::NOR.compute(a, b),
                !LogicGates::OR.compute(a, b)
            );
            assert_eq!(
                LogicGates::XNOR.compute(a, b),
                !LogicGates::XOR.compute(a, b)
            );
        }
    }
}

#[test]
fn only_not_is_unary() {
    for gate in all_gates() {
        assert_eq!(gate.is_unary(), gate == LogicGates::NOT);
    }
}

#[test]
fn all_gates_lists_the_seven_kinds_in_order() {
    let gates = all_gates();
    assert_eq!(
        gates,
        vec![
            LogicGates::AND,
            LogicGates::OR,
            LogicGates::XOR,
            LogicGates::NOT,
            LogicGates::NAND,
            LogicGates::NOR,
            LogicGates::XNOR,
        ]
    );
}

#[test]
fn gate_names() {
    assert_eq!(LogicGates::AND.name(), "AND");
    assert_eq!(LogicGates::OR.name(), "OR");
    assert_eq!(LogicGates::XOR.name(), "XOR");
    assert_eq!(LogicGates::NOT.name(), "NOT");
    assert_eq!(LogicGates::NAND.name(), "NAND");
    assert_eq!(LogicGates::NOR.name(), "NOR");
    assert_eq!(LogicGates::XNOR.name(), "XNOR");
}
