pub mod harbor;
pub mod wechat;

use vstd::prelude::*;

verus! {

/// The webhook channel on which Harbor delivers its events.
pub const CHANNEL_HARBOR: &'static str = "harbor";

} // verus!
