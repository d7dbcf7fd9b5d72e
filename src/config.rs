//! The stored configuration document.

use vstd::prelude::*;
use crate::clipboard::ClipBoard;

verus! {

/// The document kept by the configuration store: the clipboard history.
#[derive(Clone, Default, Debug)]
pub struct ClipConfig {
    pub clipboard: ClipBoard,
}

} // verus!
