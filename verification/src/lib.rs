//! A crowdfunding program: campaigns with a goal and a deadline, donor
//! contributions held in a program-derived vault, a one-time withdrawal for a
//! successful campaign and refunds for a failed one.
//!
//! The library holds the program's decisions: instruction decoding, the
//! account data layout and the checks and state changes of each instruction,
//! all verified. What an instruction asks the runtime to do (system program
//! calls, account data writes) comes back as a [`processor::Plan`]. The
//! properties of single instructions are proved in [`laws`], and those that
//! hold across any sequence of instructions in [`history`].
pub mod error;
pub mod instruction;
pub mod state;
pub mod address;
pub mod processor;
pub mod laws;
pub mod history;
