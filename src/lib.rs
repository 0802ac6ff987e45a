//! A single virtual pet whose hunger, happiness and energy drift with block
//! height, guarded by an owner check for every change and a password check for
//! every read.

pub mod contract;
pub mod error;
pub mod msg;
pub mod state;
