//! Host objects behind a binary component protocol: interfaces with stable
//! identifiers, objects reached through function-table pointers, lifetime by
//! reference counting, and interfaces found at run time.
//!
//! - `type_system`: the two type systems and the marshaling contracts between
//!   host values and wire values.
//! - `raw`: status codes, interface identifiers and addresses.
//! - `combox`: the object box, its table pointers and its reference count.
//! - `dispatch`: what a thunk does when it is called.
//! - `model`, `methodinfo`, `tyhandlers`, `returnhandlers`, `idents`: the
//!   description of an implementation that the generator works on.
//! - `com_impl`: the generator of thunks and function tables.

pub mod com_impl;
pub mod combox;
pub mod dispatch;
pub mod idents;
pub mod methodinfo;
pub mod model;
pub mod raw;
pub mod returnhandlers;
pub mod text;
pub mod tyhandlers;
pub mod type_system;
