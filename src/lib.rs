//! Dimensional analysis for 2D physical quantities: unit tags with their
//! symbols and dimensions, the closed table of legal unit products and
//! quotients, and the rules that quantity containers follow when they render
//! themselves or read off a direction.
pub mod algebra;
pub mod direction;
pub mod render;
pub mod units;
