//! Session protocol engine for a campus network gateway ("portal") whose only
//! interface is HTML pages over HTTP, together with the machine-bound
//! credential vault that protects stored secrets at rest.
//!
//! The library is pure logic: it classifies portal pages, extracts the
//! reported IP address, builds the requests of the login/configure state
//! machine, and encrypts/decrypts credentials.  All network and file I/O is
//! performed by the surrounding application, which feeds responses back into
//! the state machine.

pub mod client;
pub mod codec;
pub mod config;
pub mod error;
pub mod page;
pub mod session;
pub mod text;
pub mod vault;
