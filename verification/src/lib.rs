//! A SIMD runtime's verified core and its Cargo tooling's decision logic:
//! capability modelling, backend selection and dispatch, input validation,
//! resource policy, command planning, option parsing and report rendering.
use vstd::prelude::*;

pub mod backend;
pub mod binary64;
pub mod capabilities;
pub mod cli;
pub mod doctor;
pub mod error;
pub mod orchestrator;
pub mod policy;
pub mod project;
pub mod report;
pub mod system;
pub mod text;
pub mod verify;

pub use backend::{backend, backend_name, engine, BackendKind, Engine, Kernel, Operation};
pub use capabilities::{Architecture, Capabilities, HostFeatures, VectorModel};
pub use error::{Result, SimdError};

verus! {

} // verus!
