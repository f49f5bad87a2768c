//! Synthesis of substitute static libraries for the A121 radar SDK.
//!
//! Code that links against the SDK needs its symbols, also on machines that
//! have neither the SDK's libraries nor the hardware. This crate reads the
//! function signatures that the SDK's headers declare and synthesizes C
//! source text that defines each of these functions with a harmless body.
//! It also decides with which arguments the compiler, the archiver and the
//! symbol-dump tool are run on that text, what their outcomes mean, and
//! what the linker is told.
//!
//! Nothing in this crate reads a file, runs a program or looks at the
//! environment: a driver does that and reports back. Every function comes
//! with a contract that states what it computes, and the contracts are
//! proved.
//!
//! * [`extract`] reads signatures out of declaration text.
//! * [`synth`] writes definitions for signatures.
//! * [`generator`] does both for the headers of a group.
//! * [`stub`] plans and judges the runs of the toolchain.
//! * [`library`] and [`bindings`] decide what surrounds the stubs: where
//!   the SDK is, what the linker and the binding generator are told.
//! * [`laws`] and [`fidelity`] state what holds of every synthesized
//!   source.

pub mod bindings;
pub mod error;
pub mod extract;
pub mod fidelity;
pub mod generator;
pub mod groups;
pub mod laws;
pub mod library;
pub mod registry;
pub mod signature;
pub mod stub;
pub mod synth;
pub mod text;

pub use error::BuildError;
pub use generator::StubGenerator;
pub use groups::Capabilities;
pub use registry::DefaultValueMap;
pub use signature::FunctionSignature;
