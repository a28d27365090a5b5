//! The choice between handing a batch to an in-process handler and sending it
//! over the network.

use crate::error::InvalidConfig;
use crate::outside::same_text;
use vstd::prelude::*;

verus! {

/// How a task delivers its batches. Fixed when the task is built.
#[derive(Clone, Copy, Debug, PartialEq, Eq, Structural)]
pub enum DeliveryMode {
    /// An HTTP request to the configured endpoint.
    Network,
    /// A call of the write handler that lives in this process.
    Handler,
}

/// The mathematical form of an address that may be unknown.
pub open spec fn address_view(address: Option<&str>) -> Option<Seq<char>> {
    match address {
        Some(text) => Some(text@),
        None => None,
    }
}

/// The mode for an endpoint, given the address that this process serves, if
/// it serves one. A process that serves the endpoint itself, or that names no
/// endpoint, delivers in-process; a process that serves nothing cannot do so
/// and has no mode without an endpoint.
pub open spec fn mode_for(endpoint: Seq<char>, local: Option<Seq<char>>) -> Option<DeliveryMode> {
    match local {
        Some(address) => if endpoint == address || endpoint.len() == 0 {
            Some(DeliveryMode::Handler)
        } else {
            Some(DeliveryMode::Network)
        },
        None => if endpoint.len() == 0 {
            None
        } else {
            Some(DeliveryMode::Network)
        },
    }
}

/// A process that serves the endpoint itself delivers in-process, and so does
/// one that serves an address and names no endpoint. A process that serves
/// nothing and names no endpoint has no mode. In every other case, whether an
/// address is served or not, delivery goes over the network.
pub proof fn law_mode_selection(endpoint: Seq<char>, local: Option<Seq<char>>)
    ensures
        local == Some(endpoint) ==> mode_for(endpoint, local) == Some(DeliveryMode::Handler),
        endpoint.len() == 0 && local is Some ==> mode_for(endpoint, local) == Some(
            DeliveryMode::Handler,
        ),
        endpoint.len() == 0 && local is None ==> mode_for(endpoint, local) is None,
        endpoint.len() > 0 && local != Some(endpoint) ==> mode_for(endpoint, local) == Some(
            DeliveryMode::Network,
        ),
{
}

/// Decides how to deliver to `endpoint` from a process that serves `local`.
pub fn select_mode(endpoint: &str, local: Option<&str>) -> (mode: Result<
    DeliveryMode,
    InvalidConfig,
>)
    ensures
        mode is Ok <==> mode_for(endpoint@, address_view(local)) is Some,
        mode matches Ok(m) ==> mode_for(endpoint@, address_view(local)) == Some(m),
        mode matches Err(e) ==> e == InvalidConfig::MissingEndpoint,
{
    match local {
        Some(address) => {
            if endpoint.is_empty() || same_text(address, endpoint) {
                Ok(DeliveryMode::Handler)
            } else {
                Ok(DeliveryMode::Network)
            }
        },
        None => {
            if endpoint.is_empty() {
                Err(InvalidConfig::MissingEndpoint)
            } else {
                Ok(DeliveryMode::Network)
            }
        },
    }
}

} // verus!
