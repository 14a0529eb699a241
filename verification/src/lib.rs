//! Paired "vouching"/"checking" parameter sets implementing a reversible,
//! self-consistency-checked affine transform over 64-bit integers.
//!
//! Given a value, the vouching parameters produce a voucher such that a
//! holder of the matching checking parameters can confirm the voucher was
//! produced from that exact value by that exact vouching parameter set,
//! without needing the vouching parameters themselves.  This is an
//! integrity / tamper-evidence primitive, not a cryptographic
//! authentication scheme.

pub mod modmath;

pub mod constparse;

pub mod check;

pub mod vouch;

pub mod generate;

pub mod params;
