pub mod cli;
pub mod configuration;
pub mod domain;
pub mod generator;
pub mod storage;
pub mod tabular;
pub mod text;
