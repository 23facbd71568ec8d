//! The state of a single-document text editor and of a language picker, each
//! driven by events, with the editor's file operations handed back to the
//! caller as commands.
use vstd::prelude::*;

/// The document: buffer, path, dirty flag, and the save and open flows.
pub mod document;
/// The language picker.
pub mod picker;

verus! {

} // verus!
