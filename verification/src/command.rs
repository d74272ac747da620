//! Outbound commands: what an extension may ask of the connection manager.

use vstd::prelude::*;

use crate::extension::NodeToken;
use crate::extension::TimerToken;

verus! {

/// The protocol version every negotiation request starts from.
pub const INITIAL_VERSION: u64 = 0;

/// A command on its way to the connection manager.
#[derive(Clone, Debug, PartialEq, Eq)]
pub enum Command {
    /// Deliver `data` to `node_id` on behalf of `extension_name`.
    SendExtensionMessage {
        node_id: NodeToken,
        extension_name: String,
        need_encryption: bool,
        data: Vec<u8>,
    },
    /// Negotiate `extension_name` with `node_id`, starting from `version`.
    RequestNegotiation { node_id: NodeToken, extension_name: String, version: u64 },
    /// Fire `timer_id` of `extension_name` every `period_ms` milliseconds.
    SetTimer { extension_name: String, timer_id: TimerToken, period_ms: u64 },
    /// Fire `timer_id` of `extension_name` once, after `delay_ms` milliseconds.
    SetTimerOnce { extension_name: String, timer_id: TimerToken, delay_ms: u64 },
    /// Cancel `timer_id` of `extension_name`.
    ClearTimer { extension_name: String, timer_id: TimerToken },
}

/// The mathematical value of a [`Command`].
pub enum CommandView {
    SendExtensionMessage {
        node_id: NodeToken,
        extension_name: Seq<char>,
        need_encryption: bool,
        data: Seq<u8>,
    },
    RequestNegotiation { node_id: NodeToken, extension_name: Seq<char>, version: u64 },
    SetTimer { extension_name: Seq<char>, timer_id: TimerToken, period_ms: u64 },
    SetTimerOnce { extension_name: Seq<char>, timer_id: TimerToken, delay_ms: u64 },
    ClearTimer { extension_name: Seq<char>, timer_id: TimerToken },
}

impl View for Command {
    type V = CommandView;

    open spec fn view(&self) -> CommandView {
        match *self {
            Command::SendExtensionMessage { node_id, extension_name, need_encryption, data } => {
                CommandView::SendExtensionMessage {
                    node_id,
                    extension_name: extension_name@,
                    need_encryption,
                    data: data@,
                }
            },
            Command::RequestNegotiation { node_id, extension_name, version } => {
                CommandView::RequestNegotiation {
                    node_id,
                    extension_name: extension_name@,
                    version,
                }
            },
            Command::SetTimer { extension_name, timer_id, period_ms } => {
                CommandView::SetTimer { extension_name: extension_name@, timer_id, period_ms }
            },
            Command::SetTimerOnce { extension_name, timer_id, delay_ms } => {
                CommandView::SetTimerOnce { extension_name: extension_name@, timer_id, delay_ms }
            },
            Command::ClearTimer { extension_name, timer_id } => {
                CommandView::ClearTimer { extension_name: extension_name@, timer_id }
            },
        }
    }
}

} // verus!
