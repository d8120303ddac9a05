//! What every handler is given besides its event.

use vstd::prelude::*;

verus! {

/// The app's name and version, and the user id under which its own comments appear.
pub struct AppData {
    pub name: &'static str,
    pub version: &'static str,
    pub bot_user_id: u64,
}

} // verus!
