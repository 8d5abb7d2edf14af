//! Build-time customization of fault handling for freestanding programs.
//!
//! A faulting program must always end in one of two deterministic terminal
//! states, halt or abort. This crate models and verifies the machinery that
//! guarantees it: the terminal-behavior selector over the build configuration
//! (`selector`), the validator for user-declared handler signatures
//! (`validator`), the singleton registration of the binary's unique fault
//! entry function (`registry`), and the invocation wrapper that runs user
//! diagnostic code before falling through to the selected terminal behavior
//! (`wrapper`).

pub mod registry;
pub mod selector;
pub mod validator;
pub mod wrapper;
