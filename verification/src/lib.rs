//! Differential comparison of a candidate implementation of the Helioselene
//! scalar field and of the Helios and Selene curve groups against a trusted
//! reference implementation, together with the plan of the head-to-head
//! benchmark of the two.
//!
//! The arithmetic itself lives in the implementations under comparison. This
//! library holds the protocol around it, on plain values: canonical encodings
//! as byte strings, answers of predicates as booleans, failed operations as
//! absent values. It decides when two implementations agree, which
//! disagreement is reported first, how often every operation is sampled and
//! in which batches it is timed.

pub mod bytes;
pub mod operation;
pub mod divergence;
pub mod oracle;
pub mod comparison;
pub mod sample;
pub mod field;
pub mod point;
pub mod bench;
pub mod run;

