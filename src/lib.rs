use vstd::prelude::*;

pub mod boot;
pub mod error;
pub mod membership;
pub mod resolve;
pub mod run;
pub mod select;
pub mod settings;
pub mod storage_path;
