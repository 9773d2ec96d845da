//! Configuration: the configuration's contents, its checks and migration
//! while loading, its validation with findings, and where and how it is
//! kept on disk.

pub mod parser;
pub mod validator;
pub mod persistence;
pub mod simple_persistence;
