//! Proving, without revealing the moves, that a checkmating line exists from
//! a given chess position: the rules engine that decides a line, and the
//! attestation protocol around it.
pub mod protocol;
pub mod rules;
