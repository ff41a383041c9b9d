//! A small I Ching divination library: the eight trigrams, a catalog of
//! hexagram texts keyed by (upper, lower) trigram identity, and the composition
//! of a six-line reading from three drawn numbers.

pub mod divination;
pub mod hexagram;
pub mod trigram;
