//! Core of a minimal HTTP file server with coordinated, cancellable shutdown.
//!
//! The crate holds the verified logic of the server: parsing the request
//! line, resolving the requested resource, composing response bytes, and
//! the dispatcher / shutdown-coordinator state machines. All socket,
//! file and timer work stays outside, in the program around the library,
//! which hands plain byte values in and out.

pub mod dispatch;
pub mod request;
pub mod response;
pub mod scan;

use vstd::prelude::*;

verus! {

} // verus!
