//! What holds of the analyser whatever it is fed.

pub mod identities;
pub mod ordering;
pub mod records;
pub mod references;
