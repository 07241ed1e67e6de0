//! The audio pipeline of a voice therapist service: speech comes in, is
//! normalized, transcribed, answered in a chosen persona and spoken back.
//!
//! The library holds every decision of that pipeline. File, process and
//! network work is left to the caller, which performs the actions handed out
//! by [`pipeline::Pipeline::step`] and reports what happened.

pub mod codec;
pub mod decimal;
pub mod error;
pub mod json;
pub mod language;
pub mod laws;
pub mod persona;
pub mod pipeline;
pub mod prompts;
pub mod provider;
pub mod scratch;
pub mod text;
pub mod transcoder;
