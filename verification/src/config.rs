//! Configuration values the verified engine works with.
//!
//! Reading the configuration file and the environment happens outside
//! the library; the engine only carries the administrator's chat id.

use vstd::prelude::*;

verus! {

/// The chat id of the administrator account.
#[derive(Clone, Copy, PartialEq, Eq, Structural, Debug)]
pub struct AdminUserId(pub i64);

impl AdminUserId {
    /// Whether a chat belongs to the administrator.
    pub fn is_admin_chat(&self, chat_id: i64) -> (r: bool)
        ensures
            r == (self.0 == chat_id),
    {
        self.0 == chat_id
    }
}

} // verus!
