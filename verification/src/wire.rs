//! The protocol between a client and the daemon, and how a client session
//! reads it.

use crate::chunk::{InputChunk, OutputChunk};
use crate::cli::passes;
use crate::message::{CliRecv, CliSend, TabScrollback, TabSend};
use crate::subscription::{apply_one, Subscription};
use crate::tab::{CreateTabMetadata, TabId, TabMetadata};
use vstd::prelude::*;

verus! {

/// What a client asks of the daemon.
#[derive(Debug, PartialEq, Eq)]
pub enum Request {
    CreateTab(CreateTabMetadata),
    CloseTab(TabId),
    CloseNamedTab(String),
    RequestScrollback(TabId),
    Input(TabId, InputChunk),
    ResizeTab(TabId, (u16, u16)),
    Retask(TabId, TabId),
    GlobalShutdown,
    Subscribe(TabId),
    Unsubscribe(TabId),
    Auth(String),
}

impl Clone for Request {
    fn clone(&self) -> (copy: Self)
        ensures
            !(self is Input) ==> copy == *self,
            self matches Request::Input(id, input) ==> copy matches Request::Input(same, bytes)
                && same == id && bytes@ == input@,
    {
        match self {
            Request::CreateTab(create) => Request::CreateTab(create.clone()),
            Request::CloseTab(id) => Request::CloseTab(*id),
            Request::CloseNamedTab(name) => Request::CloseNamedTab(name.clone()),
            Request::RequestScrollback(id) => Request::RequestScrollback(*id),
            Request::Input(id, input) => Request::Input(*id, input.clone()),
            Request::ResizeTab(id, dimensions) => Request::ResizeTab(*id, *dimensions),
            Request::Retask(from, to) => Request::Retask(*from, *to),
            Request::GlobalShutdown => Request::GlobalShutdown,
            Request::Subscribe(id) => Request::Subscribe(*id),
            Request::Unsubscribe(id) => Request::Unsubscribe(*id),
            Request::Auth(token) => Request::Auth(token.clone()),
        }
    }
}

/// What the daemon tells a client.
#[derive(Debug, Clone, PartialEq, Eq)]
pub enum Response {
    TabStarted(TabMetadata),
    TabStopped(TabId),
    Scrollback(TabScrollback),
    Output(TabId, OutputChunk),
    Retask(TabId, TabId),
}

/// What a request means to the session of an admitted client.
#[derive(Debug, PartialEq, Eq)]
pub enum ClientStep {
    /// Pass this message on to the daemon's services.
    Send(CliSend),
    /// Change the session's own subscriptions.
    Subscription(Subscription),
    /// Nothing: the client was admitted before.
    Nothing,
}

/// Whether the first frame of a connection admits the client: it has to be
/// an `Auth` request that carries the daemon's token. Any other first frame
/// has the socket closed with nothing sent.
pub fn authenticate(first: &Request, token: &String) -> (admitted: bool)
    ensures
        admitted == (first matches Request::Auth(offered) && offered@ == token@),
{
    match first {
        Request::Auth(offered) => *offered == *token,
        _ => false,
    }
}

/// What a request means to the session of an admitted client.
pub open spec fn step_of(request: Request) -> ClientStep {
    match request {
        Request::CreateTab(create) => ClientStep::Send(CliSend::CreateTab(create)),
        Request::CloseTab(id) => ClientStep::Send(CliSend::CloseTab(id)),
        Request::CloseNamedTab(name) => ClientStep::Send(CliSend::CloseNamedTab(name)),
        Request::RequestScrollback(id) => ClientStep::Send(CliSend::RequestScrollback(id)),
        Request::Input(id, input) => ClientStep::Send(CliSend::Input(id, input)),
        Request::ResizeTab(id, dimensions) => ClientStep::Send(CliSend::ResizeTab(id, dimensions)),
        Request::Retask(from, to) => ClientStep::Send(CliSend::Retask(from, to)),
        Request::GlobalShutdown => ClientStep::Send(CliSend::GlobalShutdown),
        Request::Subscribe(id) => ClientStep::Subscription(Subscription::Subscribe(id)),
        Request::Unsubscribe(id) => ClientStep::Subscription(Subscription::Unsubscribe(id)),
        Request::Auth(_) => ClientStep::Nothing,
    }
}

/// The subscriptions of a session after the given requests, in order.
pub open spec fn subscribed_after(tabs: Set<TabId>, requests: Seq<Request>) -> Set<TabId>
    decreases requests.len(),
{
    if requests.len() == 0 {
        tabs
    } else {
        let before = subscribed_after(tabs, requests.drop_last());
        match step_of(requests.last()) {
            ClientStep::Subscription(change) => apply_one(before, change),
            _ => before,
        }
    }
}

/// Reads a request of an admitted client. Subscribing and unsubscribing
/// change the session's own filter; a repeated `Auth` means nothing; every
/// other request is passed on under the same name.
pub fn request_step(request: Request) -> (step: ClientStep)
    ensures
        step == step_of(request),
{
    match request {
        Request::CreateTab(create) => ClientStep::Send(CliSend::CreateTab(create)),
        Request::CloseTab(id) => ClientStep::Send(CliSend::CloseTab(id)),
        Request::CloseNamedTab(name) => ClientStep::Send(CliSend::CloseNamedTab(name)),
        Request::RequestScrollback(id) => ClientStep::Send(CliSend::RequestScrollback(id)),
        Request::Input(id, input) => ClientStep::Send(CliSend::Input(id, input)),
        Request::ResizeTab(id, dimensions) => ClientStep::Send(CliSend::ResizeTab(id, dimensions)),
        Request::Retask(from, to) => ClientStep::Send(CliSend::Retask(from, to)),
        Request::GlobalShutdown => ClientStep::Send(CliSend::GlobalShutdown),
        Request::Subscribe(id) => ClientStep::Subscription(Subscription::Subscribe(id)),
        Request::Unsubscribe(id) => ClientStep::Subscription(Subscription::Unsubscribe(id)),
        Request::Auth(_) => ClientStep::Nothing,
    }
}

/// A message for the client in the words of the protocol.
pub open spec fn worded(msg: CliRecv) -> Response {
    match msg {
        CliRecv::TabStarted(tab) => Response::TabStarted(tab),
        CliRecv::TabStopped(id) => Response::TabStopped(id),
        CliRecv::Scrollback(scrollback) => Response::Scrollback(scrollback),
        CliRecv::Output(id, chunk) => Response::Output(id, chunk),
        CliRecv::Retask(from, to) => Response::Retask(from, to),
    }
}

/// Words a message for the client as the protocol has it.
pub fn response_of(msg: CliRecv) -> (response: Response)
    ensures
        response == worded(msg),
{
    match msg {
        CliRecv::TabStarted(tab) => Response::TabStarted(tab),
        CliRecv::TabStopped(id) => Response::TabStopped(id),
        CliRecv::Scrollback(scrollback) => Response::Scrollback(scrollback),
        CliRecv::Output(id, chunk) => Response::Output(id, chunk),
        CliRecv::Retask(from, to) => Response::Retask(from, to),
    }
}

/// A client that has never sent `Subscribe` for a tab is sent neither that
/// tab's output nor its retasks, whatever else it has sent.
pub proof fn lemma_output_needs_subscribe(requests: Seq<Request>, msg: TabSend, id: TabId)
    requires
        forall|k: int| 0 <= k < requests.len() ==> requests[k] != Request::Subscribe(id),
        (msg matches TabSend::Output(output) && output.id == id) || (msg matches TabSend::Retask(
            from,
            _,
        ) && from == id),
    ensures
        !subscribed_after(Set::empty(), requests).contains(id),
        !passes(msg, subscribed_after(Set::empty(), requests)),
    decreases requests.len(),
{
    if requests.len() > 0 {
        lemma_output_needs_subscribe(requests.drop_last(), msg, id);
    }
}

} // verus!
