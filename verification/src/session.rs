//! One client's session: the subscriptions it keeps, what its requests set
//! in motion, and what it is told.

use crate::cli::{
    handle_tabsend, handle_terminated, input_steps, passes, run_input, conveys, Outbound,
};
use crate::message::{CliRecv, TabManagerSend, TabSend};
use crate::subscription::SubscriptionSet;
use crate::tab::TabId;
use crate::wire::{
    request_step, response_of, step_of, subscribed_after, worded, ClientStep, Request, Response,
};
use vstd::prelude::*;

verus! {

/// The session of an admitted client.
pub struct ClientSession {
    subscriptions: SubscriptionSet,
}

impl View for ClientSession {
    type V = Set<TabId>;

    /// The tabs that the client is subscribed to.
    closed spec fn view(&self) -> Set<TabId> {
        self.subscriptions@
    }
}

/// What a request of the client sets in motion outside its session.
pub open spec fn request_steps(request: Request) -> Seq<Outbound> {
    match step_of(request) {
        ClientStep::Send(msg) => input_steps(Some(msg)),
        _ => Seq::empty(),
    }
}

impl ClientSession {
    /// A session without subscriptions.
    pub fn new() -> (session: Self)
        ensures
            session@ == Set::<TabId>::empty(),
    {
        ClientSession { subscriptions: SubscriptionSet::new() }
    }

    /// Whether the client is subscribed to a tab.
    pub fn is_subscribed(&self, id: TabId) -> (subscribed: bool)
        ensures
            subscribed == self@.contains(id),
    {
        self.subscriptions.contains(&id)
    }

    /// Takes one request of the client. Subscribing and unsubscribing
    /// change the session and nothing else; every other request leaves the
    /// session as it is and is passed on.
    pub fn request(&mut self, request: Request) -> (steps: Vec<Outbound>)
        ensures
            final(self)@ == subscribed_after(old(self)@, seq![request]),
            steps@ == request_steps(request),
    {
        proof {
            assert(seq![request].drop_last() =~= Seq::<Request>::empty());
            assert(subscribed_after(self@, Seq::<Request>::empty()) == self@);
        }
        match request_step(request) {
            ClientStep::Send(msg) => run_input(Some(msg)),
            ClientStep::Subscription(change) => {
                self.subscriptions.apply(change);
                Vec::new()
            },
            ClientStep::Nothing => Vec::new(),
        }
    }

    /// What is to be done when the client's connection has closed.
    pub fn closed(&self) -> (steps: Vec<Outbound>)
        ensures
            steps@ == input_steps(None),
    {
        run_input(None)
    }

    /// Decides whether the client is told of a message from the tabs, and
    /// in which words.
    pub fn deliver(&self, msg: TabSend) -> (told: Option<Response>)
        ensures
            told is Some <==> passes(msg, self@),
            told matches Some(response) ==> exists|sent: CliRecv|
                conveys(msg, sent) && response == worded(sent),
    {
        match handle_tabsend(msg, &self.subscriptions) {
            Some(sent) => {
                let response = response_of(sent);
                Some(response)
            },
            None => None,
        }
    }

    /// Tells the client of a tab that the manager has reported as
    /// terminated.
    pub fn terminated(&self, msg: TabManagerSend) -> (told: Response)
        ensures
            match msg {
                TabManagerSend::TabTerminated(id) => told == Response::TabStopped(id),
            },
    {
        response_of(handle_terminated(msg))
    }
}

/// The subscriptions after one more request are those after the requests
/// before it, changed by that request alone.
pub proof fn lemma_subscribed_after_push(tabs: Set<TabId>, requests: Seq<Request>, request: Request)
    ensures
        subscribed_after(tabs, requests.push(request)) == subscribed_after(
            subscribed_after(tabs, requests),
            seq![request],
        ),
{
    assert(requests.push(request).drop_last() =~= requests);
    assert(seq![request].drop_last() =~= Seq::<Request>::empty());
    assert(subscribed_after(subscribed_after(tabs, requests), Seq::<Request>::empty())
        == subscribed_after(tabs, requests));
}

} // verus!
