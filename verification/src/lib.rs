//! Pure evaluation core for a tool that explains binary logic gates: the
//! seven gate kinds, their truth-table semantics, and the enumerations that
//! lay a gate's outputs out as a truth table or a Karnaugh-Veitch grid.

pub mod gate;
pub mod table;
