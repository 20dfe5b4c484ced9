use tab_core::chunk::InputChunk;
use tab_core::cli::{handle_tabsend, handle_terminated, run_input, Outbound};
use tab_core::manager::{retask, Created, ManagerAction, TabManager};
use tab_core::message::{CliRecv, CliSend, TabRecv, TabSend};
use tab_core::pty::{PtyAction, PtySession};
use tab_core::subscription::SubscriptionSet;
use tab_core::tab::{CreateTabMetadata, TabId};
use tab_core::wire::{authenticate, request_step, response_of, ClientStep, Request, Response};

fn create(name: &str) -> CreateTabMetadata {
    CreateTabMetadata {
        name: name.into(),
        dimensions: (80, 24),
        shell: "bash".into(),
        dir: "/tmp".into(),
    }
}

fn tab_messages(request: Request) -> Vec<TabRecv> {
    let send = match request_step(request) {
        ClientStep::Send(send) => send,
        other => panic!("expected a message to pass on, found: {:?}", other),
    };
    run_input(Some(send))
        .into_iter()
        .filter_map(|step| match step {
            Outbound::Tab(msg) => Some(msg),
            _ => None,
        })
        .collect()
}

#[test]
fn late_subscriber_catches_up() {
    let mut manager = TabManager::new();
    let tab = match manager.create_tab(create("build")) {
        Created::Started(tab) => tab,
        other => panic!("expected a new tab, found: {:?}", other),
    };
    let mut session = PtySession::new(tab.id, 4096);
    let mut a = SubscriptionSet::new();
    a.subscribe(tab.id);
    let b_before = SubscriptionSet::new();

    let first: Vec<u8> = (0..60).collect();
    let second: Vec<u8> = (60..100).collect();
    for read in [first, second] {
        let published = session.stdout(read);
        assert!(handle_tabsend(published.clone(), &a).is_some());
        assert_eq!(handle_tabsend(published, &b_before), None);
    }

    let mut b = SubscriptionSet::new();
    match request_step(Request::Subscribe(tab.id)) {
        ClientStep::Subscription(change) => b.apply(change),
        other => panic!("expected a subscription, found: {:?}", other),
    }
    let asked = tab_messages(Request::RequestScrollback(tab.id));
    assert_eq!(asked, vec![TabRecv::Scrollback(tab.id)]);
    assert_eq!(
        session.handle_tabrecv(asked[0].clone()),
        PtyAction::SendScrollback
    );
    match handle_tabsend(session.scrollback(), &b).map(response_of) {
        Some(Response::Scrollback(reply)) => {
            assert_eq!(reply.id, tab.id);
            assert_eq!(reply.scrollback.end(), 100);
            assert_eq!(reply.scrollback.start(), 0);
            assert_eq!(reply.scrollback.data, (0..100).collect::<Vec<u8>>());
        }
        other => panic!("expected scrollback, found: {:?}", other),
    }

    for read in [vec![100u8, 101], vec![102]] {
        match handle_tabsend(session.stdout(read), &b) {
            Some(CliRecv::Output(id, chunk)) => {
                assert_eq!(id, tab.id);
                assert!(chunk.index >= 100);
            }
            other => panic!("expected output, found: {:?}", other),
        }
    }
}

#[test]
fn input_ordering() {
    let session = PtySession::new(TabId(0), 16);
    let arrivals = vec![
        Request::Input(TabId(0), InputChunk { data: b"a".to_vec() }),
        Request::Input(TabId(0), InputChunk { data: b"1".to_vec() }),
        Request::Input(TabId(1), InputChunk { data: b"x".to_vec() }),
        Request::Input(TabId(0), InputChunk { data: b"b".to_vec() }),
    ];
    let mut written: Vec<u8> = Vec::new();
    for request in arrivals {
        for msg in tab_messages(request) {
            if let PtyAction::Write(stdin) = session.handle_tabrecv(msg) {
                written.extend_from_slice(&stdin.data);
            }
        }
    }
    assert_eq!(written, b"a1b".to_vec());
}

#[test]
fn close_named_tab_end_to_end() {
    let mut manager = TabManager::new();
    manager.create_tab(create("foo"));
    manager.create_tab(create("bar"));
    let steps = match request_step(Request::CloseNamedTab("foo".into())) {
        ClientStep::Send(send) => run_input(Some(send)),
        other => panic!("expected a message to pass on, found: {:?}", other),
    };
    assert_eq!(steps.len(), 1);
    let action = match steps.into_iter().next() {
        Some(Outbound::Manager(msg)) => manager.handle(msg),
        other => panic!("expected a request to the manager, found: {:?}", other),
    };
    assert_eq!(action, ManagerAction::Terminate(TabId(0)));
    let notice = manager.tab_exited(TabId(0)).expect("the tab was live");
    assert_eq!(
        response_of(handle_terminated(notice)),
        Response::TabStopped(TabId(0))
    );
    let state = manager.state();
    assert_eq!(state.tabs.len(), 1);
    assert_eq!(state.tabs[&1].name, "bar");
    assert_eq!(state.tabs[&1].id, TabId(1));
    assert!(state.get(TabId(0)).is_none());
}

#[test]
fn retask_end_to_end() {
    let mut subscribed = SubscriptionSet::new();
    subscribed.subscribe(TabId(0));
    let unsubscribed = SubscriptionSet::new();
    let asked = tab_messages(Request::Retask(TabId(0), TabId(1)));
    assert_eq!(asked, vec![TabRecv::Retask(TabId(0), TabId(1))]);
    let broadcast = retask(&asked[0]).expect("retasks are announced");
    assert_eq!(broadcast, TabSend::Retask(TabId(0), TabId(1)));
    assert_eq!(
        handle_tabsend(broadcast.clone(), &subscribed).map(response_of),
        Some(Response::Retask(TabId(0), TabId(1)))
    );
    assert_eq!(handle_tabsend(broadcast, &unsubscribed), None);
}

#[test]
fn wrong_token_gets_no_response() {
    let token = "f3a9".to_string();
    let first = Request::Auth("wrong".into());
    assert!(!authenticate(&first, &token));
    assert!(authenticate(&Request::Auth("f3a9".into()), &token));
}

#[test]
fn global_shutdown_end_to_end() {
    let mut manager = TabManager::new();
    let mut sessions: Vec<PtySession> = Vec::new();
    for name in ["foo", "bar", "baz"] {
        match manager.create_tab(create(name)) {
            Created::Started(tab) => sessions.push(PtySession::new(tab.id, 16)),
            other => panic!("expected a new tab, found: {:?}", other),
        }
    }
    let client = SubscriptionSet::new();

    let steps = match request_step(Request::GlobalShutdown) {
        ClientStep::Send(CliSend::GlobalShutdown) => run_input(Some(CliSend::GlobalShutdown)),
        other => panic!("expected a shutdown, found: {:?}", other),
    };
    assert_eq!(steps.len(), 3);
    assert_eq!(steps[0], Outbound::Tab(TabRecv::TerminateAll));
    assert!(matches!(steps[1], Outbound::Listener(_)));
    assert_eq!(steps[2], Outbound::Hold(50));

    let mut stopped: Vec<TabId> = Vec::new();
    for session in &sessions {
        assert_eq!(
            session.handle_tabrecv(TabRecv::TerminateAll),
            PtyAction::Close
        );
        match handle_tabsend(session.exited(), &client) {
            Some(CliRecv::TabStopped(id)) => stopped.push(id),
            other => panic!("expected a stopped tab, found: {:?}", other),
        }
        assert!(manager.tab_exited(session.id()).is_some());
    }
    assert_eq!(stopped, vec![TabId(0), TabId(1), TabId(2)]);
    assert!(manager.state().tabs.is_empty());
}
