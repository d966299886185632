//! EGL call outcomes, checked.
//!
//! Every EGL entry point answers either with a status (`EGL_TRUE` on
//! success), with a handle (null on failure), or with a count next to a
//! status. This crate holds the EGL types and constants and, for each
//! call the binding offers, the verified rule that turns what EGL answered
//! into an [`error::EglCallResult`]: the error is named after the call that
//! failed, and no null handle is ever handed out.
//!
//! The calls into libEGL themselves are made by the code that links the
//! library; it hands the raw answers to the functions of [`calls`].

pub mod types;
pub mod error;
pub mod calls;
pub mod laws;
