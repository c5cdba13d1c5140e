//! Verified core of a React Native binding generator for uniffi component
//! interfaces: the filters that render Kotlin and Swift mapping code for each
//! type of the interface, and the bookkeeping behind the generated files.

pub mod generator;
pub mod gen_kotlin;
pub mod gen_swift;
pub mod interface;
pub mod oracle;
pub mod text;

use vstd::prelude::*;

verus! {

/// The error type of askama filters, which the filters here never return.
#[verifier::external_type_specification]
#[verifier::external_body]
pub struct ExAskamaError(askama::Error);

} // verus!
