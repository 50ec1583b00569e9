//! Reference-counted shared ownership with weak handles: the record protocol
//! as a state machine (`protocol`) and the handles that drive it (`arc`).

pub mod arc;
pub mod protocol;

pub use crate::arc::{Arc, ArcData, Weak};
