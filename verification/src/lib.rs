//! Scripts for an external Python interpreter: how their text is put
//! together, in which order the steps that write and run them are taken,
//! which failure each step reports, and how the captured output becomes the
//! result.
//!
//! Nothing here touches the file system or a process. The functions decide;
//! a driver performs the steps they name and reports back what happened.

pub mod constants;
pub mod output;
pub mod plan;
pub mod runner;
pub mod script;
