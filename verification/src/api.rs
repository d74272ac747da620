//! The handle through which an extension issues commands.

use std::sync::mpsc::Sender;
use std::sync::Arc;

use vstd::prelude::*;

use crate::command::Command;
use crate::command::CommandView;
use crate::command::INITIAL_VERSION;
use crate::extension::NetworkExtension;
use crate::extension::NodeToken;
use crate::extension::TimerToken;
use crate::shared::downgrade;
use crate::shared::enqueue;
use crate::shared::upgrade;
use crate::shared::WeakRef;

verus! {

/// What an extension asks for through its handle.
#[derive(Clone, Copy, Debug)]
pub enum Request<'a> {
    /// Deliver `data` to `node`.
    Send { node: NodeToken, data: &'a Vec<u8> },
    /// Negotiate this extension with `node`.
    Connect { node: NodeToken },
    /// Fire `timer` every `period_ms` milliseconds.
    SetTimer { timer: TimerToken, period_ms: u64 },
    /// Fire `timer` once, after `delay_ms` milliseconds.
    SetTimerOnce { timer: TimerToken, delay_ms: u64 },
    /// Cancel `timer`.
    ClearTimer { timer: TimerToken },
}

/// The mathematical value of a [`Request`].
pub enum RequestView {
    Send { node: NodeToken, data: Seq<u8> },
    Connect { node: NodeToken },
    SetTimer { timer: TimerToken, period_ms: u64 },
    SetTimerOnce { timer: TimerToken, delay_ms: u64 },
    ClearTimer { timer: TimerToken },
}

impl<'a> View for Request<'a> {
    type V = RequestView;

    open spec fn view(&self) -> RequestView {
        match *self {
            Request::Send { node, data } => RequestView::Send { node, data: data@ },
            Request::Connect { node } => RequestView::Connect { node },
            Request::SetTimer { timer, period_ms } => RequestView::SetTimer { timer, period_ms },
            Request::SetTimerOnce { timer, delay_ms } => RequestView::SetTimerOnce {
                timer,
                delay_ms,
            },
            Request::ClearTimer { timer } => RequestView::ClearTimer { timer },
        }
    }
}

/// What became of a request.
#[derive(Clone, Copy, Debug, PartialEq, Eq, Structural)]
pub enum Outcome {
    /// The command is on its way to the connection manager.
    Enqueued,
    /// The extension is alive, but the channel did not take the command.
    ChannelClosed,
    /// The extension is gone: nothing was built and nothing was sent.
    ExtensionDropped,
}

/// The command that stands for `request`, issued by the extension called
/// `name` whose encryption policy is `need_encryption`.
///
/// Only a message carries the policy. A negotiation starts from
/// [`INITIAL_VERSION`].
pub open spec fn command_of(request: RequestView, name: Seq<char>, need_encryption: bool)
    -> CommandView {
    match request {
        RequestView::Send { node, data } => CommandView::SendExtensionMessage {
            node_id: node,
            extension_name: name,
            need_encryption,
            data,
        },
        RequestView::Connect { node } => CommandView::RequestNegotiation {
            node_id: node,
            extension_name: name,
            version: INITIAL_VERSION,
        },
        RequestView::SetTimer { timer, period_ms } => CommandView::SetTimer {
            extension_name: name,
            timer_id: timer,
            period_ms,
        },
        RequestView::SetTimerOnce { timer, delay_ms } => CommandView::SetTimerOnce {
            extension_name: name,
            timer_id: timer,
            delay_ms,
        },
        RequestView::ClearTimer { timer } => CommandView::ClearTimer {
            extension_name: name,
            timer_id: timer,
        },
    }
}

/// Builds the command for `request` in the name of the extension `name`.
pub fn build(request: &Request, name: String, need_encryption: bool) -> (command: Command)
    ensures
        command@ == command_of(request@, name@, need_encryption),
{
    match *request {
        Request::Send { node, data } => {
            let copy = data.clone();
            assert(copy@ =~= data@);
            Command::SendExtensionMessage {
                node_id: node,
                extension_name: name,
                need_encryption,
                data: copy,
            }
        },
        Request::Connect { node } => Command::RequestNegotiation {
            node_id: node,
            extension_name: name,
            version: INITIAL_VERSION,
        },
        Request::SetTimer { timer, period_ms } => Command::SetTimer {
            extension_name: name,
            timer_id: timer,
            period_ms,
        },
        Request::SetTimerOnce { timer, delay_ms } => Command::SetTimerOnce {
            extension_name: name,
            timer_id: timer,
            delay_ms,
        },
        Request::ClearTimer { timer } => Command::ClearTimer {
            extension_name: name,
            timer_id: timer,
        },
    }
}

/// That `command` is what `request` leads to for `extension`: the command of
/// the request under a name that the extension returned when it was asked
/// for its name, and, for a message, under a policy that it returned when it
/// was asked for its policy.
pub open spec fn planned<E: NetworkExtension>(
    extension: &E,
    request: RequestView,
    command: CommandView,
) -> bool {
    exists|name: String, need_encryption: bool|
        #![trigger command_of(request, name@, need_encryption)]
        {
            &&& call_ensures(E::name, (extension,), name)
            &&& request is Send ==> call_ensures(
                E::need_encryption,
                (extension,),
                need_encryption,
            )
            &&& command == command_of(request, name@, need_encryption)
        }
}

/// That some extension of type `E` was found alive and asked, and that a
/// command was [`planned`] from its answers for `request`.
pub open spec fn answered<E: NetworkExtension>(request: RequestView) -> bool {
    exists|alive: Arc<E>, command: CommandView| #[trigger] planned(&*alive, request, command)
}

/// Decides what a request leads to, given the extension as far as it is
/// still alive.
///
/// With the extension gone there is no command. With the extension alive
/// there is exactly the command for `request`, under the name and, for a
/// message, the policy that the extension states at this moment.
pub fn plan<E: NetworkExtension>(extension: Option<Arc<E>>, request: &Request) -> (command:
    Option<Command>)
    ensures
        extension is None <==> command is None,
        command matches Some(c) ==> planned(&*extension->Some_0, request@, c@),
{
    match extension {
        None => None,
        Some(extension) => {
            let need_encryption = match *request {
                Request::Send { .. } => extension.need_encryption(),
                _ => false,
            };
            let name = extension.name();
            let command = build(request, name, need_encryption);
            assert(command@ == command_of(request@, name@, need_encryption));
            Some(command)
        },
    }
}

/// What became of a command that was handed to the channel, given the
/// channel's answer.
pub fn conclude(accepted: bool) -> (outcome: Outcome)
    ensures
        outcome == if accepted {
            Outcome::Enqueued
        } else {
            Outcome::ChannelClosed
        },
{
    if accepted {
        Outcome::Enqueued
    } else {
        Outcome::ChannelClosed
    }
}

/// Carries out what [`plan`] decided: a command goes to the channel, the
/// absence of one goes nowhere. [`conclude`] states what follows from the
/// channel's answer.
pub fn carry_out(channel: &Sender<Command>, command: Option<Command>) -> (outcome: Outcome)
    ensures
        command is None <==> outcome == Outcome::ExtensionDropped,
{
    match command {
        None => Outcome::ExtensionDropped,
        Some(command) => conclude(enqueue(channel, command)),
    }
}

/// Answers `request` for an extension that is given as far as it is still
/// alive: [`plan`], then [`carry_out`].
///
/// A request made in the name of an extension that is gone is answered with
/// [`Outcome::ExtensionDropped`], and no other request is. On that path no
/// command is built and the channel is not touched. On the other, the
/// command was planned from the extension's own answers.
pub fn respond<E: NetworkExtension>(
    extension: Option<Arc<E>>,
    channel: &Sender<Command>,
    request: &Request,
) -> (outcome: Outcome)
    ensures
        extension is None <==> outcome == Outcome::ExtensionDropped,
        outcome != Outcome::ExtensionDropped ==> exists|command: CommandView| #[trigger]
            planned(&*extension->Some_0, request@, command),
{
    let command = plan(extension, request);
    proof {
        if command is Some {
            assert(planned(&*extension->Some_0, request@, command->Some_0@));
        }
    }
    carry_out(channel, command)
}

/// The handle of one registered extension.
///
/// It refers to its extension without keeping it alive, and shares the
/// channel to the connection manager with all other handles. It may outlive
/// its extension: from then on every request is answered with
/// [`Outcome::ExtensionDropped`] and has no effect.
///
/// The weak pointer itself is opaque to the verifier. `made_for` keeps, for
/// contracts only, the extension that the pointer was made from.
#[verifier::reject_recursive_types(E)]
pub struct ClientApi<E: NetworkExtension> {
    extension: WeakRef<E>,
    channel: Sender<Command>,
    made_for: Ghost<Arc<E>>,
}

impl<E: NetworkExtension> ClientApi<E> {
    /// The channel on which the handle sends its commands.
    pub closed spec fn channel(&self) -> Sender<Command> {
        self.channel
    }

    /// The extension that the handle was made for.
    pub closed spec fn made_for(&self) -> Arc<E> {
        self.made_for@
    }

    /// A handle for `extension` that sends on `channel`.
    pub(crate) fn new(extension: &Arc<E>, channel: Sender<Command>) -> (api: Self)
        ensures
            api.made_for() == *extension,
            api.channel() == channel,
    {
        ClientApi { extension: downgrade(extension), channel, made_for: Ghost(*extension) }
    }

    /// Looks whether the extension is still alive, builds the command for
    /// `request` if it is, and hands it to the channel.
    ///
    /// Whether the extension is alive and whether the channel takes the
    /// command is for others to decide; [`respond`] states what follows from
    /// either. An answer other than [`Outcome::ExtensionDropped`] means that
    /// an extension was found and a command for this very request planned
    /// from its answers.
    pub fn issue(&self, request: Request) -> (outcome: Outcome)
        ensures
            outcome != Outcome::ExtensionDropped ==> answered::<E>(request@),
    {
        let alive = upgrade(&self.extension);
        let outcome = respond(alive, &self.channel, &request);
        proof {
            if outcome != Outcome::ExtensionDropped {
                let command = choose|command: CommandView| #[trigger]
                    planned(&*alive->Some_0, request@, command);
                assert(planned(&*alive->Some_0, request@, command));
            }
        }
        outcome
    }

    /// Asks that `message` be delivered to `id`.
    pub fn send(&self, id: &NodeToken, message: &Vec<u8>) -> (outcome: Outcome)
        ensures
            outcome != Outcome::ExtensionDropped ==> answered::<E>(
                RequestView::Send { node: *id, data: message@ },
            ),
    {
        self.issue(Request::Send { node: *id, data: message })
    }

    /// Asks for a negotiation of this extension with `id`.
    pub fn connect(&self, id: &NodeToken) -> (outcome: Outcome)
        ensures
            outcome != Outcome::ExtensionDropped ==> answered::<E>(
                RequestView::Connect { node: *id },
            ),
    {
        self.issue(Request::Connect { node: *id })
    }

    /// Asks for a timer that fires every `ms` milliseconds.
    pub fn set_timer(&self, timer_id: TimerToken, ms: u64) -> (outcome: Outcome)
        ensures
            outcome != Outcome::ExtensionDropped ==> answered::<E>(
                RequestView::SetTimer { timer: timer_id, period_ms: ms },
            ),
    {
        self.issue(Request::SetTimer { timer: timer_id, period_ms: ms })
    }

    /// Asks for a timer that fires once, after `ms` milliseconds.
    pub fn set_timer_once(&self, timer_id: TimerToken, ms: u64) -> (outcome: Outcome)
        ensures
            outcome != Outcome::ExtensionDropped ==> answered::<E>(
                RequestView::SetTimerOnce { timer: timer_id, delay_ms: ms },
            ),
    {
        self.issue(Request::SetTimerOnce { timer: timer_id, delay_ms: ms })
    }

    /// Asks that a timer be cancelled.
    pub fn clear_timer(&self, timer_id: TimerToken) -> (outcome: Outcome)
        ensures
            outcome != Outcome::ExtensionDropped ==> answered::<E>(
                RequestView::ClearTimer { timer: timer_id },
            ),
    {
        self.issue(Request::ClearTimer { timer: timer_id })
    }
}

} // verus!
