//! Outside types that the library carries through without looking inside.

use vstd::prelude::*;

verus! {

/// `std::io::Error`, carried opaquely inside the library's error values.
#[verifier::external_type_specification]
#[verifier::external_body]
pub struct ExIoError(std::io::Error);

/// `toml::de::Error`, the error of a configuration file that does not parse.
#[verifier::external_type_specification]
#[verifier::external_body]
pub struct ExTomlError(toml::de::Error);

/// `std::path::PathBuf`, the configuration directory given on the command line.
#[verifier::external_type_specification]
#[verifier::external_body]
pub struct ExPathBuf(std::path::PathBuf);

/// `winit::error::OsError`, what the windowing layer reports when the OS refuses a window.
#[verifier::external_type_specification]
#[verifier::external_body]
pub struct ExOsError(winit::error::OsError);

} // verus!
