use std::sync::Arc;
use tab_core::chunk::{InputChunk, OutputChunk};
use tab_core::cli::{
    handle_tabsend, handle_terminated, run_input, run_output, Outbound, SHUTDOWN_HOLD_MILLIS,
};
use tab_core::message::{
    CliRecv, CliSend, CliShutdown, ListenerShutdown, TabInput, TabManagerRecv, TabManagerSend,
    TabOutput, TabRecv, TabScrollback, TabSend,
};
use tab_core::scrollback::ScrollbackBuffer;
use tab_core::subscription::{Subscription, SubscriptionSet};
use tab_core::tab::{CreateTabMetadata, TabId, TabMetadata};

fn output(id: u64, index: u64, data: &[u8]) -> TabSend {
    TabSend::Output(TabOutput {
        id: TabId(id),
        stdout: Arc::new(OutputChunk {
            index,
            data: data.to_vec(),
        }),
    })
}

#[test]
fn started() {
    let subscription = SubscriptionSet::new();
    let started = TabMetadata {
        id: TabId(0),
        name: "name".into(),
        dimensions: (1, 1),
        shell: "bash".into(),
        dir: "dir".into(),
    };

    let msg = handle_tabsend(TabSend::Started(started.clone()), &subscription);
    assert!(msg.is_some());
    assert_eq!(CliRecv::TabStarted(started), msg.unwrap());
}

#[test]
fn stopped() {
    let subscription = SubscriptionSet::new();
    let msg = handle_tabsend(TabSend::Stopped(TabId(0)), &subscription);
    assert!(msg.is_some());
    assert_eq!(CliRecv::TabStopped(TabId(0)), msg.unwrap());
}

#[test]
fn scrollback_is_forwarded() {
    let subscription = SubscriptionSet::new();
    let mut buffer = ScrollbackBuffer::new();
    assert_eq!(
        buffer.push(OutputChunk {
            index: 0,
            data: vec![0, 1],
        }),
        Ok(())
    );
    assert_eq!(
        buffer.push(OutputChunk {
            index: 2,
            data: vec![1, 2],
        }),
        Ok(())
    );
    let scrollback = TabScrollback {
        id: TabId(0),
        scrollback: buffer.snapshot(),
    };

    let msg = handle_tabsend(TabSend::Scrollback(scrollback), &subscription);
    assert!(msg.is_some());
    if let CliRecv::Scrollback(scroll) = msg.unwrap() {
        assert_eq!(scroll.id, TabId(0));
        assert_eq!(
            OutputChunk {
                index: 0,
                data: vec![0, 1, 1, 2]
            },
            scroll.scrollback
        );
        assert_eq!(scroll.scrollback.end(), 4);
    } else {
        panic!("Expected CliRecv::Scrollback, found None");
    }
}

#[test]
fn output_subscribed() {
    let mut subscription = SubscriptionSet::new();
    subscription.apply(Subscription::Subscribe(TabId(0)));

    let msg = handle_tabsend(output(0, 0, &[0, 1, 2]), &subscription);
    if let Some(CliRecv::Output(id, chunk)) = msg {
        assert_eq!(TabId(0), id);
        assert_eq!(
            OutputChunk {
                index: 0,
                data: vec![0, 1, 2],
            },
            chunk
        );
    } else {
        panic!("expected CliRecv::Output, found: {:?}", msg)
    }
}

#[test]
fn output_unsubscribed() {
    let subscription = SubscriptionSet::new();
    let msg = handle_tabsend(output(0, 0, &[0, 1, 2]), &subscription);
    assert_eq!(msg, None);
}

#[test]
fn output_for_another_tab_is_withheld() {
    let mut subscription = SubscriptionSet::new();
    subscription.subscribe(TabId(1));
    assert_eq!(handle_tabsend(output(0, 0, &[0]), &subscription), None);
    assert!(handle_tabsend(output(1, 0, &[0]), &subscription).is_some());
}

#[test]
fn retask_subscribed() {
    let mut subscription = SubscriptionSet::new();
    subscription.apply(Subscription::Subscribe(TabId(0)));
    let msg = handle_tabsend(TabSend::Retask(TabId(0), TabId(1)), &subscription);
    assert!(msg.is_some());
    assert_eq!(CliRecv::Retask(TabId(0), TabId(1)), msg.unwrap());
}

#[test]
fn retask_unsubscribed() {
    let subscription = SubscriptionSet::new();
    let msg = handle_tabsend(TabSend::Retask(TabId(0), TabId(1)), &subscription);
    assert_eq!(msg, None);
}

#[test]
fn retask_goes_by_the_tab_left_behind() {
    let mut subscription = SubscriptionSet::new();
    subscription.subscribe(TabId(1));
    assert_eq!(
        handle_tabsend(TabSend::Retask(TabId(0), TabId(1)), &subscription),
        None
    );
    assert_eq!(
        handle_tabsend(TabSend::Retask(TabId(1), TabId(0)), &subscription),
        Some(CliRecv::Retask(TabId(1), TabId(0)))
    );
}

#[test]
fn retask_reaches_the_subscribers_and_no_others() {
    let mut clients: Vec<SubscriptionSet> = Vec::new();
    for client in 0u64..8 {
        let mut subscription = SubscriptionSet::new();
        for tab in 0u64..3 {
            if client & (1 << tab) != 0 {
                subscription.subscribe(TabId(tab));
            }
        }
        clients.push(subscription);
    }
    for (client, subscription) in clients.iter().enumerate() {
        let sent = handle_tabsend(TabSend::Retask(TabId(1), TabId(2)), subscription);
        if client & 2 != 0 {
            assert_eq!(sent, Some(CliRecv::Retask(TabId(1), TabId(2))));
        } else {
            assert_eq!(sent, None);
        }
    }
}

#[test]
fn never_subscribed_never_sees_output() {
    let mut subscription = SubscriptionSet::new();
    let requests = [
        Subscription::Subscribe(TabId(1)),
        Subscription::Unsubscribe(TabId(0)),
        Subscription::Subscribe(TabId(2)),
        Subscription::UnsubscribeAll,
        Subscription::Subscribe(TabId(3)),
    ];
    for request in requests {
        subscription.apply(request);
        assert_eq!(handle_tabsend(output(0, 0, &[1]), &subscription), None);
        assert_eq!(
            handle_tabsend(TabSend::Retask(TabId(0), TabId(9)), &subscription),
            None
        );
    }
}

#[test]
fn unsubscribing_withholds_output_again() {
    let mut subscription = SubscriptionSet::new();
    subscription.apply(Subscription::Subscribe(TabId(0)));
    assert!(handle_tabsend(output(0, 0, &[1]), &subscription).is_some());
    subscription.apply(Subscription::Unsubscribe(TabId(0)));
    assert_eq!(handle_tabsend(output(0, 1, &[2]), &subscription), None);
}

#[test]
fn create_tab() {
    let create = CreateTabMetadata {
        name: "name".into(),
        shell: "bash".into(),
        dimensions: (1, 1),
        dir: "dir".into(),
    };

    let steps = run_input(Some(CliSend::CreateTab(create.clone())));
    assert_eq!(steps.len(), 1);
    assert_eq!(
        Outbound::Manager(TabManagerRecv::CreateTab(create)),
        steps[0]
    );
}

#[test]
fn close_tab() {
    let steps = run_input(Some(CliSend::CloseTab(TabId(0))));
    assert_eq!(steps.len(), 1);
    assert_eq!(Outbound::Manager(TabManagerRecv::CloseTab(TabId(0))), steps[0]);
}

#[test]
fn close_named_tab() {
    let steps = run_input(Some(CliSend::CloseNamedTab("foo".into())));
    assert_eq!(steps.len(), 1);
    assert_eq!(
        Outbound::Manager(TabManagerRecv::CloseNamedTab("foo".into())),
        steps[0]
    );
}

#[test]
fn request_scrollback() {
    let steps = run_input(Some(CliSend::RequestScrollback(TabId(0))));
    assert_eq!(steps.len(), 1);
    assert_eq!(Outbound::Tab(TabRecv::Scrollback(TabId(0))), steps[0]);
}

#[test]
fn input() {
    let steps = run_input(Some(CliSend::Input(
        TabId(0),
        InputChunk { data: vec![0] },
    )));
    assert_eq!(steps.len(), 1);
    assert_eq!(
        Outbound::Tab(TabRecv::Input(TabInput::new(TabId(0), vec![0u8]))),
        steps[0]
    );
}

#[test]
fn resize() {
    let steps = run_input(Some(CliSend::ResizeTab(TabId(0), (1, 2))));
    assert_eq!(steps.len(), 1);
    assert_eq!(Outbound::Tab(TabRecv::Resize(TabId(0), (1, 2))), steps[0]);
}

#[test]
fn retask() {
    let steps = run_input(Some(CliSend::Retask(TabId(0), TabId(1))));
    assert_eq!(steps.len(), 1);
    assert_eq!(Outbound::Tab(TabRecv::Retask(TabId(0), TabId(1))), steps[0]);
}

#[test]
fn global_shutdown() {
    let steps = run_input(Some(CliSend::GlobalShutdown));
    assert_eq!(
        steps,
        vec![
            Outbound::Tab(TabRecv::TerminateAll),
            Outbound::Listener(ListenerShutdown {}),
            Outbound::Hold(50),
        ]
    );
    assert_eq!(SHUTDOWN_HOLD_MILLIS, 50);
}

#[test]
fn closed_connection_ends_the_session() {
    assert_eq!(run_input(None), vec![Outbound::Closed(CliShutdown {})]);
}

#[test]
fn cli_retask() {
    let msg = handle_terminated(TabManagerSend::TabTerminated(TabId(0)));
    assert_eq!(CliRecv::TabStopped(TabId(0)), msg);
}

#[test]
fn tab_stopped_may_arrive_twice() {
    let subscription = SubscriptionSet::new();
    let by_exit = handle_tabsend(TabSend::Stopped(TabId(4)), &subscription);
    let by_manager = handle_terminated(TabManagerSend::TabTerminated(TabId(4)));
    assert_eq!(by_exit, Some(by_manager));
}

#[test]
fn subscription_set_operations() {
    let mut subscription = SubscriptionSet::new();
    assert!(!subscription.contains(&TabId(0)));
    subscription.subscribe(TabId(0));
    subscription.subscribe(TabId(0));
    subscription.subscribe(TabId(5));
    assert!(subscription.contains(&TabId(0)));
    assert!(subscription.contains(&TabId(5)));
    assert!(!subscription.contains(&TabId(1)));
    subscription.unsubscribe(TabId(0));
    assert!(!subscription.contains(&TabId(0)));
    assert!(subscription.contains(&TabId(5)));
    subscription.unsubscribe(TabId(7));
    assert!(subscription.contains(&TabId(5)));
    subscription.unsubscribe_all();
    assert!(!subscription.contains(&TabId(5)));
    subscription.apply(Subscription::Subscribe(TabId(2)));
    assert!(subscription.contains(&TabId(2)));
    subscription.apply(Subscription::UnsubscribeAll);
    assert!(!subscription.contains(&TabId(2)));
}

#[test]
fn messages_clone_equal() {
    let input = TabRecv::Input(TabInput::new(TabId(3), vec![1, 2]));
    assert_eq!(input.clone(), input);
    let resize = TabRecv::Resize(TabId(3), (80, 24));
    assert_eq!(resize.clone(), resize);
    let send = CliSend::Input(TabId(1), InputChunk { data: vec![9] });
    assert_eq!(send.clone(), send);
    let named = CliSend::CloseNamedTab("foo".into());
    assert_eq!(named.clone(), named);
}

#[test]
fn run_of_messages_keeps_its_order() {
    let mut subscription = SubscriptionSet::new();
    subscription.subscribe(TabId(0));
    let scrollback = TabScrollback {
        id: TabId(0),
        scrollback: OutputChunk {
            index: 0,
            data: (0..100).collect(),
        },
    };
    let run = vec![
        TabSend::Scrollback(scrollback.clone()),
        output(0, 100, &[1]),
        output(1, 7, &[9]),
        output(0, 101, &[2, 3]),
        TabSend::Retask(TabId(1), TabId(0)),
        TabSend::Stopped(TabId(1)),
        output(0, 103, &[4]),
    ];
    assert_eq!(
        run_output(run, &subscription),
        vec![
            CliRecv::Scrollback(scrollback),
            CliRecv::Output(
                TabId(0),
                OutputChunk {
                    index: 100,
                    data: vec![1]
                }
            ),
            CliRecv::Output(
                TabId(0),
                OutputChunk {
                    index: 101,
                    data: vec![2, 3]
                }
            ),
            CliRecv::TabStopped(TabId(1)),
            CliRecv::Output(
                TabId(0),
                OutputChunk {
                    index: 103,
                    data: vec![4]
                }
            ),
        ]
    );
}

#[test]
fn empty_run_sends_nothing() {
    let subscription = SubscriptionSet::new();
    assert_eq!(run_output(vec![], &subscription), vec![]);
    assert_eq!(
        run_output(vec![output(0, 0, &[1]), output(1, 0, &[1])], &subscription),
        vec![]
    );
}
