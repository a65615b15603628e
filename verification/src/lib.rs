//! Resolution of a Cargo manifest's `package.metadata.generate-rpm` table into
//! the validated description of an RPM package: its scalars and its files.

pub mod arch;
pub mod asset;
pub mod config;
pub mod descriptor;
pub mod error;
pub mod mode;
pub mod tree;
