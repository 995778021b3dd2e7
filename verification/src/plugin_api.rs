//! The plugin's side of the host's loader interface.
use vstd::prelude::*;

verus! {

/// The version of the host interface that the plugin is built against.
pub const VERSION: i32 = 2;

/// What the plugin's entry point reports to the host.
#[derive(Debug, Clone, Copy, PartialEq, Eq, Structural, Hash)]
pub enum InitResult {
    Error,
    Success,
}

impl InitResult {
    /// Whether initialisation succeeded.
    pub fn is_ok(&self) -> (ok: bool)
        ensures
            ok <==> *self == InitResult::Success,
    {
        match self {
            InitResult::Success => true,
            _ => false,
        }
    }
}

} // verus!
