//! Provisions and supervises one long-running child server process: resolves
//! a downloadable artifact from a versioned build registry, prepares the
//! workspace directory and its license marker, and bridges an interactive
//! operator console to the child's input and output until the session ends,
//! tearing the workspace down afterwards.
//!
//! The decisions are all here, verified: URL construction and registry
//! response reading (`manager`, `registry`), operator line classification and
//! local command dispatch (`bridge`), the session lifecycle (`supervisor`,
//! `workspace`) and the console settings (`config`).  The surrounding binary
//! performs the I/O these decisions call for and feeds the outcomes back in.

pub mod bridge;
pub mod config;
pub mod manager;
pub mod registry;
pub mod supervisor;
pub mod workspace;
