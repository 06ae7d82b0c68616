pub mod betting;
pub mod evaluator;
pub mod generator;
pub mod laws;
pub mod symbol;
