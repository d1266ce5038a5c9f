//! The remote generation service: what is sent to it and how its replies
//! are read.

pub mod generate;
pub mod login;
