//! Social platform a clip was published on.

use vstd::prelude::*;

verus! {

/// Social platform a clip originates from.
#[derive(Clone, Copy, Debug, PartialEq, Eq, Structural)]
pub enum SocialPlatform {
    TikTok,
    YouTube,
    Instagram,
    Twitter,
}

} // verus!
