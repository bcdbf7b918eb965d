//! What the operations give, told from their inputs and results alone: who decides a
//! call and a mint, what an answer, a record and a transcript line say, and what a model
//! is shown. Each law is about every call of an operation, whatever the call returned.

pub mod delegating;
pub mod failing;
pub mod guarding;
pub mod minting;
pub mod reading;
pub mod scene;
pub mod scripting;
pub mod serving;
pub mod writing;
