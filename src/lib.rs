//! Verified core of a harness that builds test projects inside container
//! images and checks whether the resulting binaries are statically linked.
pub mod classify;
pub mod environment;
pub mod exec;
pub mod image;
pub mod pairing;
pub mod pipeline;
pub mod selection;
pub mod test_case;
pub mod text;
