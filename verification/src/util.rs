//! Telling whether the author of an invocation is on a mobile device.

use vstd::prelude::*;

verus! {

/// How a user shows up to others.
#[derive(Clone, Copy, Debug, PartialEq, Eq, Structural)]
pub enum OnlineStatus {
    DoNotDisturb,
    Idle,
    Invisible,
    Offline,
    Online,
}

/// How a user shows up on each kind of device that they are signed in on.
#[derive(Clone, Copy, Debug, PartialEq, Eq, Structural)]
pub struct ClientStatus {
    pub desktop: Option<OnlineStatus>,
    pub mobile: Option<OnlineStatus>,
    pub web: Option<OnlineStatus>,
}

/// What a guild knows of a member's presence.
#[derive(Clone, Copy, Debug, PartialEq, Eq, Structural)]
pub struct Presence {
    /// How the member shows up overall.
    pub status: OnlineStatus,
    pub client_status: Option<ClientStatus>,
}

impl Presence {
    /// Whether the member's overall status is the one of their mobile
    /// device: the sign that this is the device they are using.
    pub open spec fn on_mobile(self) -> bool {
        &&& self.client_status matches Some(devices)
        &&& devices.mobile matches Some(mobile)
        &&& self.status == mobile
    }
}

/// Whether the author of an invocation is using a mobile device, judged
/// by their presence in the guild of the invocation. Without a presence
/// they are taken not to.
pub fn author_is_mobile(presence: Option<&Presence>) -> (mobile: bool)
    ensures
        mobile == (presence matches Some(p) && p.on_mobile()),
{
    if let Some(Presence {
        client_status: Some(ClientStatus { mobile: Some(mobile_status), .. }),
        status,
    }) = presence {
        *status == *mobile_status
    } else {
        false
    }
}

} // verus!
