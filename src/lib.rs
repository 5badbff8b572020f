//! Arithmetic drill worksheets: problem generators with validity rules,
//! a bounded rejection-sampling dispatcher, and a renderer that may blank
//! out one value of a problem.

pub mod kind;
pub mod problem;
pub mod random;
pub mod dispatch;
pub mod render;
pub mod page;
