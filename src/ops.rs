//! Operations that script code reaches through the host, as consumers of the
//! permission model.

pub mod fs;
pub mod net;
