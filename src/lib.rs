//! Managed download destinations: open policies, a verified copy driver,
//! progress reporting, and a once-only release sequence.
use std::path::Path;
use vstd::prelude::*;

pub mod driver;
pub mod policy;
pub mod progress;
pub mod release;

pub use release::Delete;
pub use release::DropError;
pub use policy::OverwriteBehavior;

verus! {

#[verifier::external_type_specification]
#[verifier::external_body]
pub struct ExPath(Path);

#[verifier::external_type_specification]
#[verifier::external_body]
pub struct ExIoError(std::io::Error);

} // verus!
