//! A verified command-line front-end for recompressing PDF files with an
//! external document-processing engine (Ghostscript's `gs`).
//!
//! The library holds everything the program decides: resolving the caller's
//! arguments into a fully-specified invocation plan, deriving a default
//! destination file name from the source path, building the exact argument
//! list handed to the engine, and mapping the engine's outcome to the
//! program's own success or failure. Launching the engine and waiting on it
//! is plain process I/O and lives outside the library.

pub mod cli;
pub mod engine;
pub mod mode;
pub mod outcome;
pub mod paths;
pub mod strings;
