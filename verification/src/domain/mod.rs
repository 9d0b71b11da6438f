//! The domain of the webhook: the statuses a doge may have and the defaults
//! the mutating webhook fills in.

pub mod error;
pub mod model;

pub use model::{DogeConfig, DogeStatus};

use vstd::prelude::*;

verus! {

/// What the mutating webhook applies to the objects it sees.
pub struct MutatingConfig {
    /// The defaults given to every `Doge`.
    pub default_doge: DogeConfig,
}

impl Clone for MutatingConfig {
    fn clone(&self) -> (res: Self)
        ensures
            res == *self,
    {
        MutatingConfig { default_doge: self.default_doge.clone() }
    }
}

} // verus!
