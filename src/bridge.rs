//! A bridge's identity: its address, and once registered, the application key that every
//! authenticated call carries. Also the policy for retrying a registration while the
//! bridge's link button has not been pressed.
use vstd::prelude::*;
use crate::disco::BridgeAddress;
use crate::envelope::{empty_list_message, BridgeResponse, SuccessResponse, Username};
use crate::error::HueError;

verus! {

/// A bridge that no application key has been attached to yet.
#[derive(Debug, Clone, Copy, PartialEq, Eq, Structural)]
pub struct UnauthBridge {
    /// The IP-address of the bridge.
    pub ip: BridgeAddress,
}

/// A bridge with the application key of a registered application.
#[derive(Debug, Clone, PartialEq, Eq)]
pub struct Bridge {
    /// The IP-address of the bridge.
    pub ip: BridgeAddress,
    /// The key of the registered application.
    pub application_key: String,
}

/// Whether `r` is what a registration at `ip` comes to when the bridge answers `resp`: the
/// bridge with the key of the (last) success entry, the (last) error that the bridge
/// reports, or a protocol error for an empty list.
pub open spec fn registered_as(
    ip: BridgeAddress,
    resp: BridgeResponse<SuccessResponse<Username>>,
    r: Result<Bridge, HueError>,
) -> bool {
    match resp {
        BridgeResponse::Element(s) => r matches Ok(b) && b.ip == ip && b.application_key
            == s.success.username,
        BridgeResponse::List(ts) => if ts@.len() == 0 {
            r matches Err(HueError::ProtocolError { msg }) && msg@ == empty_list_message()
        } else {
            r matches Ok(b) && b.ip == ip && b.application_key == ts@.last().success.username
        },
        BridgeResponse::Errors(es) => if es@.len() == 0 {
            r matches Err(HueError::ProtocolError { msg }) && msg@ == empty_list_message()
        } else {
            r matches Err(HueError::BridgeError { code, msg }) && code == es@.last().error.code
                && msg == es@.last().error.description
        },
    }
}

fn accept_registration(ip: BridgeAddress, resp: BridgeResponse<SuccessResponse<Username>>) -> (r:
    Result<Bridge, HueError>)
    ensures
        registered_as(ip, resp, r),
{
    match resp.get() {
        Ok(s) => Ok(Bridge { ip, application_key: s.success.username }),
        Err(e) => Err(e),
    }
}

impl UnauthBridge {
    /// Attaches an application key obtained earlier.
    pub fn with_user(self, username: String) -> (r: Bridge)
        ensures
            r.ip == self.ip,
            r.application_key == username,
    {
        Bridge { ip: self.ip, application_key: username }
    }

    /// Completes a registration with the bridge's answer to it: the bridge with the key
    /// that the answer grants, or the error it reports (code 101 while the link button has
    /// not been pressed).
    pub fn register_application(self, resp: BridgeResponse<SuccessResponse<Username>>) -> (r:
        Result<Bridge, HueError>)
        ensures
            registered_as(self.ip, resp, r),
    {
        accept_registration(self.ip, resp)
    }
}

impl Bridge {
    /// A bridge at this address. Nothing checks that a bridge is really there.
    pub fn for_ip(ip: BridgeAddress) -> (r: UnauthBridge)
        ensures
            r.ip == ip,
    {
        UnauthBridge { ip }
    }

    /// Replaces the application key.
    pub fn with_application_key(self, application_key: String) -> (r: Bridge)
        ensures
            r.ip == self.ip,
            r.application_key == application_key,
    {
        Bridge { ip: self.ip, application_key }
    }

    /// Completes a registration made from this bridge with the bridge's answer to it.
    pub fn register_application(self, resp: BridgeResponse<SuccessResponse<Username>>) -> (r:
        Result<Bridge, HueError>)
        ensures
            registered_as(self.ip, resp, r),
    {
        accept_registration(self.ip, resp)
    }
}

/// How long to wait between registration attempts, and how many to make at most
/// (`None`: until the link button is pressed).
#[derive(Debug, Clone, Copy, PartialEq, Eq, Structural)]
pub struct RetryPolicy {
    pub max_attempts: Option<u32>,
    pub delay_ms: u64,
}

impl RetryPolicy {
    /// Retry without limit, five seconds apart.
    pub fn until_pressed() -> (r: RetryPolicy)
        ensures
            r.max_attempts is None,
            r.delay_ms == 5000,
    {
        RetryPolicy { max_attempts: None, delay_ms: 5000 }
    }
}

/// What to do after a registration attempt.
#[derive(Debug, PartialEq, Eq)]
pub enum RegistrationStep {
    /// The registration succeeded.
    Registered(Bridge),
    /// The link button was not pressed: try again after this many milliseconds.
    RetryAfter(u64),
    /// Stop with this error.
    GiveUp(HueError),
}

/// Decides what follows the `attempts`-th registration attempt, whose outcome is `outcome`.
/// Only the link-button error is retried, and only while the policy allows more attempts.
pub fn next_registration_step(
    policy: &RetryPolicy,
    attempts: u32,
    outcome: Result<Bridge, HueError>,
) -> (r: RegistrationStep)
    ensures
        match outcome {
            Ok(b) => r == RegistrationStep::Registered(b),
            Err(e) => if (e matches HueError::BridgeError { code, .. } && code == 101) && (
            policy.max_attempts matches Some(m) ==> attempts < m) {
                r == RegistrationStep::RetryAfter(policy.delay_ms)
            } else {
                r == RegistrationStep::GiveUp(e)
            },
        },
{
    match outcome {
        Ok(b) => RegistrationStep::Registered(b),
        Err(e) => {
            let more = match policy.max_attempts {
                Some(m) => attempts < m,
                None => true,
            };
            if e.is_link_button_not_pressed() && more {
                RegistrationStep::RetryAfter(policy.delay_ms)
            } else {
                RegistrationStep::GiveUp(e)
            }
        },
    }
}

} // verus!
