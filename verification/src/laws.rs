//! What holds of every session, proved from the rules of the model.

pub mod wellformed;
pub mod agenda;
pub mod counts;
pub mod table;
pub mod findings;
pub mod probe;
pub mod flow;
