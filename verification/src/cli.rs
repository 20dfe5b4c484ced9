//! The decisions of a client session: what each message from the
//! connection becomes on the daemon's side, and which of the tabs' messages
//! reach the connection.

use crate::message::{
    CliRecv, CliSend, CliShutdown, ListenerShutdown, TabInput, TabManagerRecv, TabManagerSend,
    TabRecv, TabSend,
};
use crate::subscription::{apply_all, lemma_never_subscribed, Subscription, SubscriptionSet};
use crate::tab::TabId;
use std::sync::Arc;
use vstd::prelude::*;

verus! {

/// How long a session waits after a global shutdown, so that writes in
/// flight can drain, in milliseconds.
pub const SHUTDOWN_HOLD_MILLIS: u64 = 50;

/// One thing that a client session does in answer to its connection.
#[derive(Debug, Clone, PartialEq, Eq)]
pub enum Outbound {
    /// Send a lifecycle request to the tab manager.
    Manager(TabManagerRecv),
    /// Send a message towards the tabs.
    Tab(TabRecv),
    /// Tell the listener to stop accepting connections.
    Listener(ListenerShutdown),
    /// Wait for the given number of milliseconds.
    Hold(u64),
    /// Tell the listener that this session has ended.
    Closed(CliShutdown),
}

/// Whether a message from the tabs is meant for a client with the given
/// subscriptions. Output and retasks are for subscribers of the tab they
/// come from; everything else is for everyone.
pub open spec fn passes(msg: TabSend, subs: Set<TabId>) -> bool {
    match msg {
        TabSend::Output(output) => subs.contains(output.id),
        TabSend::Retask(from, _) => subs.contains(from),
        _ => true,
    }
}

/// Whether `sent` is what `msg` looks like on the client's side.
pub open spec fn conveys(msg: TabSend, sent: CliRecv) -> bool {
    match msg {
        TabSend::Started(tab) => sent == CliRecv::TabStarted(tab),
        TabSend::Stopped(id) => sent == CliRecv::TabStopped(id),
        TabSend::Scrollback(scrollback) => sent == CliRecv::Scrollback(scrollback),
        TabSend::Output(output) => sent matches CliRecv::Output(id, chunk) && id == output.id
            && chunk@ == output.stdout@,
        TabSend::Retask(from, to) => sent == CliRecv::Retask(from, to),
    }
}

/// What one message from the connection sets in motion, in the order in
/// which it is to be done; `None` stands for the connection having closed.
pub open spec fn input_steps(event: Option<CliSend>) -> Seq<Outbound> {
    match event {
        Some(CliSend::CreateTab(create)) => seq![
            Outbound::Manager(TabManagerRecv::CreateTab(create)),
        ],
        Some(CliSend::CloseTab(id)) => seq![Outbound::Manager(TabManagerRecv::CloseTab(id))],
        Some(CliSend::CloseNamedTab(name)) => seq![
            Outbound::Manager(TabManagerRecv::CloseNamedTab(name)),
        ],
        Some(CliSend::RequestScrollback(id)) => seq![Outbound::Tab(TabRecv::Scrollback(id))],
        Some(CliSend::Input(id, input)) => seq![
            Outbound::Tab(TabRecv::Input(TabInput { id, stdin: Arc::new(input) })),
        ],
        Some(CliSend::ResizeTab(id, dimensions)) => seq![
            Outbound::Tab(TabRecv::Resize(id, dimensions)),
        ],
        Some(CliSend::Retask(from, to)) => seq![Outbound::Tab(TabRecv::Retask(from, to))],
        Some(CliSend::GlobalShutdown) => seq![
            Outbound::Tab(TabRecv::TerminateAll),
            Outbound::Listener(ListenerShutdown {  }),
            Outbound::Hold(SHUTDOWN_HOLD_MILLIS),
        ],
        None => seq![Outbound::Closed(CliShutdown {  })],
    }
}

/// Decides what one message from the connection sets in motion, in the
/// order in which it is to be done; `None` stands for the connection having
/// closed. Lifecycle requests go to the tab manager and everything about a
/// running tab goes to the tabs, one message each. A global shutdown
/// terminates all tabs, then stops the listener, then holds for
/// `SHUTDOWN_HOLD_MILLIS`. A closed connection ends the session.
pub fn run_input(event: Option<CliSend>) -> (steps: Vec<Outbound>)
    ensures
        steps@ == input_steps(event),
{
    let mut steps: Vec<Outbound> = Vec::new();
    match event {
        Some(CliSend::CreateTab(create)) => {
            steps.push(Outbound::Manager(TabManagerRecv::CreateTab(create)));
        },
        Some(CliSend::CloseTab(id)) => {
            steps.push(Outbound::Manager(TabManagerRecv::CloseTab(id)));
        },
        Some(CliSend::CloseNamedTab(name)) => {
            steps.push(Outbound::Manager(TabManagerRecv::CloseNamedTab(name)));
        },
        Some(CliSend::RequestScrollback(id)) => {
            steps.push(Outbound::Tab(TabRecv::Scrollback(id)));
        },
        Some(CliSend::Input(id, input)) => {
            let stdin = Arc::new(input);
            steps.push(Outbound::Tab(TabRecv::Input(TabInput { id, stdin })));
        },
        Some(CliSend::ResizeTab(id, dimensions)) => {
            steps.push(Outbound::Tab(TabRecv::Resize(id, dimensions)));
        },
        Some(CliSend::Retask(from, to)) => {
            steps.push(Outbound::Tab(TabRecv::Retask(from, to)));
        },
        Some(CliSend::GlobalShutdown) => {
            steps.push(Outbound::Tab(TabRecv::TerminateAll));
            steps.push(Outbound::Listener(ListenerShutdown {  }));
            steps.push(Outbound::Hold(SHUTDOWN_HOLD_MILLIS));
        },
        None => {
            steps.push(Outbound::Closed(CliShutdown {  }));
        },
    }
    steps
}

/// Turns the manager's notice that a tab has terminated into the message
/// that tells the client so.
pub fn handle_terminated(msg: TabManagerSend) -> (sent: CliRecv)
    ensures
        match msg {
            TabManagerSend::TabTerminated(id) => sent == CliRecv::TabStopped(id),
        },
{
    match msg {
        TabManagerSend::TabTerminated(id) => CliRecv::TabStopped(id),
    }
}

/// Decides whether a message from the tabs reaches the client, and as what.
/// Lifecycle events and scrollback always do. Output and retasks do exactly
/// when the client is subscribed to the tab that they come from.
pub fn handle_tabsend(msg: TabSend, id_subscription: &SubscriptionSet) -> (sent: Option<CliRecv>)
    ensures
        sent is Some <==> passes(msg, id_subscription@),
        sent matches Some(out) ==> conveys(msg, out),
        msg matches TabSend::Retask(from, to) ==> sent == if id_subscription@.contains(from) {
            Some(CliRecv::Retask(from, to))
        } else {
            None
        },
{
    match msg {
        TabSend::Started(tab) => Some(CliRecv::TabStarted(tab)),
        TabSend::Stopped(id) => Some(CliRecv::TabStopped(id)),
        TabSend::Scrollback(scrollback) => Some(CliRecv::Scrollback(scrollback)),
        TabSend::Output(stdout) => {
            if !id_subscription.contains(&stdout.id) {
                return None;
            }
            let chunk = (*stdout.stdout).clone();
            Some(CliRecv::Output(stdout.id, chunk))
        },
        TabSend::Retask(from, to) => {
            if !id_subscription.contains(&from) {
                return None;
            }
            Some(CliRecv::Retask(from, to))
        },
    }
}

/// The messages of a run that are meant for a client with the given
/// subscriptions, in the order of the run.
pub open spec fn passing(msgs: Seq<TabSend>, subs: Set<TabId>) -> Seq<TabSend>
    decreases msgs.len(),
{
    if msgs.len() == 0 {
        Seq::empty()
    } else if passes(msgs.last(), subs) {
        passing(msgs.drop_last(), subs).push(msgs.last())
    } else {
        passing(msgs.drop_last(), subs)
    }
}

/// Forwards a run of messages from the tabs to a client whose
/// subscriptions stay as they are meanwhile. The client is sent the
/// messages that are meant for it, each once, in the order in which they
/// came.
pub fn run_output(msgs: Vec<TabSend>, id_subscription: &SubscriptionSet) -> (sent: Vec<CliRecv>)
    ensures
        sent@.len() == passing(msgs@, id_subscription@).len(),
        forall|i: int|
            0 <= i < sent@.len() ==> conveys(
                passing(msgs@, id_subscription@)[i],
                #[trigger] sent@[i],
            ),
{
    let mut sent: Vec<CliRecv> = Vec::new();
    let ghost run = msgs@;
    for msg in it: msgs
        invariant
            it.seq() == run,
            sent@.len() == passing(run.take(it.index() as int), id_subscription@).len(),
            forall|i: int|
                0 <= i < sent@.len() ==> conveys(
                    passing(run.take(it.index() as int), id_subscription@)[i],
                    #[trigger] sent@[i],
                ),
    {
        proof {
            let seen = run.take(it.index() + 1);
            assert(seen.drop_last() =~= run.take(it.index() as int));
        }
        match handle_tabsend(msg, id_subscription) {
            Some(out) => {
                sent.push(out);
            },
            None => {},
        }
    }
    assert(run.take(run.len() as int) =~= run);
    sent
}

/// Where every message of a run is meant for the client, the client is
/// sent the whole run.
pub proof fn lemma_all_pass(msgs: Seq<TabSend>, subs: Set<TabId>)
    requires
        forall|i: int| 0 <= i < msgs.len() ==> passes(#[trigger] msgs[i], subs),
    ensures
        passing(msgs, subs) == msgs,
    decreases msgs.len(),
{
    if msgs.len() > 0 {
        lemma_all_pass(msgs.drop_last(), subs);
    }
}

/// Where in a run the messages stand that are meant for a client with the
/// given subscriptions.
pub open spec fn places(msgs: Seq<TabSend>, subs: Set<TabId>) -> Seq<int>
    decreases msgs.len(),
{
    if msgs.len() == 0 {
        Seq::empty()
    } else if passes(msgs.last(), subs) {
        places(msgs.drop_last(), subs).push(msgs.len() - 1)
    } else {
        places(msgs.drop_last(), subs)
    }
}

/// The messages that a client is sent are those of the run that are meant
/// for it, in the order of the run: each stands later in the run than the
/// one before it.
pub proof fn lemma_passing_keeps_order(msgs: Seq<TabSend>, subs: Set<TabId>)
    ensures
        places(msgs, subs).len() == passing(msgs, subs).len(),
        forall|i: int|
            0 <= i < places(msgs, subs).len() ==> {
                &&& 0 <= #[trigger] places(msgs, subs)[i] < msgs.len()
                &&& msgs[places(msgs, subs)[i]] == passing(msgs, subs)[i]
                &&& passes(msgs[places(msgs, subs)[i]], subs)
            },
        forall|i: int, j: int|
            0 <= i < j < places(msgs, subs).len() ==> #[trigger] places(msgs, subs)[i]
                < #[trigger] places(msgs, subs)[j],
    decreases msgs.len(),
{
    if msgs.len() > 0 {
        let earlier = msgs.drop_last();
        lemma_passing_keeps_order(earlier, subs);
        let now = places(msgs, subs);
        assert forall|i: int| 0 <= i < now.len() implies {
            &&& 0 <= #[trigger] now[i] < msgs.len()
            &&& msgs[now[i]] == passing(msgs, subs)[i]
            &&& passes(msgs[now[i]], subs)
        } by {}
        assert forall|i: int, j: int| 0 <= i < j < now.len() implies #[trigger] now[i]
            < #[trigger] now[j] by {}
    }
}

/// A client that has never asked to subscribe to a tab is sent neither
/// that tab's output nor its retasks.
pub proof fn lemma_unsubscribed_sees_nothing(requests: Seq<Subscription>, msg: TabSend, id: TabId)
    requires
        forall|k: int| 0 <= k < requests.len() ==> requests[k] != Subscription::Subscribe(id),
        (msg matches TabSend::Output(output) && output.id == id) || (msg matches TabSend::Retask(
            from,
            _,
        ) && from == id),
    ensures
        !passes(msg, apply_all(Set::empty(), requests)),
{
    lemma_never_subscribed(requests, id);
}

} // verus!
