//! Readiness bookkeeping, address conversion and result interpretation for a
//! TCP stack that runs on a user-space network driver.

pub mod net;
pub mod service;
pub mod tcp;
pub mod laws;
pub mod step_laws;
