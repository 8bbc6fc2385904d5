//! Verified core of the EDDN relay: the journal-event rules, number and text
//! handling, and the decisions that the relay loops take.

pub mod abi;
pub mod eddn;
pub mod hornet;
pub mod journal;
pub mod value;
pub mod number;
pub mod properties;
pub mod send;
pub mod settings;
pub mod text;
