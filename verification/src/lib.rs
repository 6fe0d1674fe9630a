//! A registry of genetic analysts: credentialed service providers who register
//! under their account, keep a profile up to date, hold references to
//! qualifications that live in another registry, and may deregister again.
//!
//! Every operation is stated against a mathematical model of the registry
//! (see [`registry::Registry`]) and proved to follow it.

pub mod analyst;
pub mod config;
pub mod info;
pub mod laws;
pub mod pallet;
pub mod registry;

pub use crate::analyst::GeneticAnalyst;
pub use crate::info::{GeneticAnalystInfo, StakeStatus};
pub use crate::config::{Config, GeneticAnalystQualificationsProvider};
pub use crate::pallet::{Event, GeneticAnalystInterface, GeneticAnalystQualificationOwner, Pallet};
pub use crate::registry::Error;
