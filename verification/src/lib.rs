//! Builders of the HTTP requests of the Kubernetes API: resource paths,
//! query strings and request parameters.
use vstd::prelude::*;

pub mod error;
pub mod form;
pub mod laws;
pub mod params;
pub mod plural;
pub mod query_laws;
pub mod resource;
pub mod text;
pub mod wire;

pub use error::Error;
pub use params::{ListParams, Patch, PatchParams, PostParams};
pub use plural::to_plural;
pub use resource::{Request, TypeInfo};
pub use wire::Verb;

verus! {

} // verus!
