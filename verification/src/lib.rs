//! An in-process component server for a voice-session module: class and
//! interface dispatch, reference-counted object lifetimes, size-validated
//! configuration exchange on session objects, a two-call codec enumeration
//! protocol, and a transactional class-registration model.

#![allow(non_snake_case)]
#![allow(non_camel_case_types)]

pub mod client;
pub mod compression;
pub mod descriptors;
pub mod dispatch;
pub mod guid;
pub mod hresult;
pub mod probe;
pub mod registry;
pub mod server;
