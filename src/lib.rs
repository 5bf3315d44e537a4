use vstd::prelude::*;

pub mod abi;
pub mod archive;
pub mod error;
pub mod export;
pub mod invalid_source_mock;
pub mod json;
pub mod locale;
pub mod manager;
pub mod model;
pub mod text;
pub mod valid_source_mock;
