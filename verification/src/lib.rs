//! Verified decision core of the Harbormaster agent manager.
pub mod decimal;

pub mod domain;
pub mod fsmeta;
pub mod manager;
pub mod page;
pub mod pathwalk;
pub mod protocol;
pub mod recovery;
pub mod runtime;
pub mod storage;
pub mod text;
