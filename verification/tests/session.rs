use tcp_pty::session::{Directive, Event, Fork, Session, Stage};

/// Reports `events` to a new session and returns where it stands, the
/// descriptors it had the caller close and the children it had the caller
/// wait for.
fn run(events: Vec<Event<String>>) -> (Stage, Vec<i32>, Vec<i32>) {
    let mut session = Session::new();
    let mut closed: Vec<i32> = Vec::new();
    let mut reaped: Vec<i32> = Vec::new();
    for event in events {
        match session.step(event) {
            Some(Directive::Release { master }) => closed.push(master),
            Some(Directive::Abandon { master, .. }) => closed.push(master),
            Some(Directive::Reap { child }) => reaped.push(child),
            _ => {}
        }
    }
    (session.stage(), closed, reaped)
}

/// The events of a session that bridges and is put away, for the given
/// child and master descriptor.
fn whole_life(child: i32, master: i32) -> Vec<Event<String>> {
    vec![
        Event::Forked(Ok(Fork::Parent { child, master })),
        Event::AdapterBuilt(Ok(())),
        Event::BridgeEnded(Ok((8, 40))),
        Event::MasterClosed,
        Event::ChildReaped(Ok(())),
    ]
}

#[test]
fn new_session_holds_nothing() {
    let session = Session::new();
    assert_eq!(session.stage(), Stage::Created);
}

#[test]
fn session_runs_from_fork_to_closed() {
    let mut session = Session::new();

    let directive = session.step::<String>(Event::Forked(Ok(Fork::Parent { child: 4242, master: 7 })));
    assert_eq!(directive, Some(Directive::Wrap { master: 7 }));
    assert_eq!(session.stage(), Stage::Wrapping { child: 4242, master: 7 });

    let directive = session.step::<String>(Event::AdapterBuilt(Ok(())));
    assert_eq!(directive, Some(Directive::Bridge));
    assert_eq!(session.stage(), Stage::Bridging { child: 4242, master: 7 });

    let directive = session.step::<String>(Event::BridgeEnded(Ok((8, 40))));
    assert_eq!(directive, Some(Directive::Release { master: 7 }));
    assert_eq!(session.stage(), Stage::Releasing { child: 4242, master: 7 });

    let directive = session.step::<String>(Event::MasterClosed);
    assert_eq!(directive, Some(Directive::Reap { child: 4242 }));
    assert_eq!(session.stage(), Stage::Reaping { child: 4242 });

    let directive = session.step::<String>(Event::ChildReaped(Ok(())));
    assert_eq!(directive, Some(Directive::Finish { reap_error: None }));
    assert_eq!(session.stage(), Stage::Closed);
}

#[test]
fn failed_process_creation_is_reported_and_nothing_released() {
    let mut session = Session::new();
    let directive = session.step(Event::Forked(Err("ENOMEM".to_string())));
    assert_eq!(directive, Some(Directive::Report("ENOMEM".to_string())));
    assert_eq!(session.stage(), Stage::Abandoned);

    let (stage, closed, reaped) = run(vec![
        Event::Forked(Err("ENOMEM".to_string())),
        Event::AdapterBuilt(Ok(())),
        Event::BridgeEnded(Ok((0, 0))),
        Event::MasterClosed,
        Event::ChildReaped(Ok(())),
    ]);
    assert_eq!(stage, Stage::Abandoned);
    assert_eq!(closed, Vec::<i32>::new());
    assert_eq!(reaped, Vec::<i32>::new());
}

#[test]
fn child_becomes_the_program_or_exits() {
    let mut session = Session::new();
    let directive = session.step::<String>(Event::Forked(Ok(Fork::Child)));
    assert_eq!(directive, Some(Directive::Exec));
    assert_eq!(session.stage(), Stage::ChildImage);

    let directive = session.step(Event::ExecFailed("ENOENT".to_string()));
    assert_eq!(directive, Some(Directive::Exit));
    assert_eq!(session.stage(), Stage::ChildImage);

    assert_eq!(session.step::<String>(Event::AdapterBuilt(Ok(()))), None);
    assert_eq!(session.step::<String>(Event::BridgeEnded(Ok((0, 0)))), None);
    assert_eq!(session.step::<String>(Event::MasterClosed), None);
    assert_eq!(session.step::<String>(Event::ChildReaped(Ok(()))), None);
    assert_eq!(session.stage(), Stage::ChildImage);
}

#[test]
fn exec_failure_means_nothing_to_the_parent() {
    let mut session = Session::new();
    assert_eq!(session.step(Event::ExecFailed("ENOENT".to_string())), None);
    session.step::<String>(Event::Forked(Ok(Fork::Parent { child: 10, master: 5 })));
    assert_eq!(session.step(Event::ExecFailed("ENOENT".to_string())), None);
    assert_eq!(session.stage(), Stage::Wrapping { child: 10, master: 5 });
}

#[test]
fn adapter_failure_closes_the_raw_descriptor_and_reaps() {
    let mut session = Session::new();
    session.step::<String>(Event::Forked(Ok(Fork::Parent { child: 10, master: 5 })));
    let directive = session.step(Event::AdapterBuilt(Err("EBADF".to_string())));
    assert_eq!(directive, Some(Directive::Abandon { master: 5, error: "EBADF".to_string() }));
    assert_eq!(session.stage(), Stage::Releasing { child: 10, master: 5 });
    assert_eq!(session.step::<String>(Event::BridgeEnded(Ok((0, 0)))), None);

    let directive = session.step::<String>(Event::MasterClosed);
    assert_eq!(directive, Some(Directive::Reap { child: 10 }));
    let directive = session.step::<String>(Event::ChildReaped(Ok(())));
    assert_eq!(directive, Some(Directive::Finish { reap_error: None }));
    assert_eq!(session.stage(), Stage::Closed);

    let (stage, closed, reaped) = run(vec![
        Event::Forked(Ok(Fork::Parent { child: 10, master: 5 })),
        Event::AdapterBuilt(Err("EBADF".to_string())),
        Event::MasterClosed,
        Event::ChildReaped(Ok(())),
    ]);
    assert_eq!(stage, Stage::Closed);
    assert_eq!(closed, vec![5]);
    assert_eq!(reaped, vec![10]);
}

#[test]
fn dropped_connection_still_closes_and_reaps() {
    let mut session = Session::new();
    session.step::<String>(Event::Forked(Ok(Fork::Parent { child: 77, master: 9 })));
    session.step::<String>(Event::AdapterBuilt(Ok(())));

    let directive = session.step(Event::BridgeEnded(Err("ECONNRESET".to_string())));
    assert_eq!(directive, Some(Directive::Release { master: 9 }));
    let directive = session.step::<String>(Event::MasterClosed);
    assert_eq!(directive, Some(Directive::Reap { child: 77 }));
    let directive = session.step::<String>(Event::ChildReaped(Ok(())));
    assert_eq!(directive, Some(Directive::Finish { reap_error: None }));
    assert_eq!(session.stage(), Stage::Closed);

    let (stage, closed, reaped) = run(vec![
        Event::Forked(Ok(Fork::Parent { child: 77, master: 9 })),
        Event::AdapterBuilt(Ok(())),
        Event::BridgeEnded(Err("ECONNRESET".to_string())),
        Event::MasterClosed,
        Event::ChildReaped(Ok(())),
    ]);
    assert_eq!(stage, Stage::Closed);
    assert_eq!(closed, vec![9]);
    assert_eq!(reaped, vec![77]);
}

#[test]
fn failed_wait_is_logged_and_not_tried_again() {
    let mut session = Session::new();
    session.step::<String>(Event::Forked(Ok(Fork::Parent { child: 77, master: 9 })));
    session.step::<String>(Event::AdapterBuilt(Ok(())));
    session.step::<String>(Event::BridgeEnded(Ok((1, 2))));
    session.step::<String>(Event::MasterClosed);

    let directive = session.step(Event::ChildReaped(Err("ECHILD".to_string())));
    assert_eq!(directive, Some(Directive::Finish { reap_error: Some("ECHILD".to_string()) }));
    assert_eq!(session.stage(), Stage::Closed);
    assert_eq!(session.step::<String>(Event::ChildReaped(Ok(()))), None);
    assert_eq!(session.step::<String>(Event::MasterClosed), None);
    assert_eq!(session.stage(), Stage::Closed);
}

#[test]
fn events_out_of_turn_change_nothing() {
    let mut session = Session::new();
    assert_eq!(session.step::<String>(Event::AdapterBuilt(Ok(()))), None);
    assert_eq!(session.step::<String>(Event::BridgeEnded(Ok((0, 0)))), None);
    assert_eq!(session.step::<String>(Event::MasterClosed), None);
    assert_eq!(session.step::<String>(Event::ChildReaped(Ok(()))), None);
    assert_eq!(session.stage(), Stage::Created);

    session.step::<String>(Event::Forked(Ok(Fork::Parent { child: 1, master: 2 })));
    assert_eq!(session.step::<String>(Event::Forked(Ok(Fork::Parent { child: 3, master: 4 }))), None);
    assert_eq!(session.step::<String>(Event::BridgeEnded(Ok((0, 0)))), None);
    assert_eq!(session.stage(), Stage::Wrapping { child: 1, master: 2 });

    session.step::<String>(Event::AdapterBuilt(Ok(())));
    assert_eq!(session.step::<String>(Event::ChildReaped(Ok(()))), None);
    assert_eq!(session.step::<String>(Event::MasterClosed), None);
    assert_eq!(session.step(Event::AdapterBuilt(Err("late".to_string()))), None);
    assert_eq!(session.stage(), Stage::Bridging { child: 1, master: 2 });

    session.step::<String>(Event::BridgeEnded(Ok((0, 0))));
    assert_eq!(session.step::<String>(Event::ChildReaped(Ok(()))), None);
    assert_eq!(session.step::<String>(Event::BridgeEnded(Ok((0, 0)))), None);
    assert_eq!(session.stage(), Stage::Releasing { child: 1, master: 2 });
}

#[test]
fn master_stays_open_while_bridging() {
    let (stage, closed, reaped) = run(vec![
        Event::Forked(Ok(Fork::Parent { child: 21, master: 6 })),
        Event::AdapterBuilt(Ok(())),
        Event::MasterClosed,
        Event::ChildReaped(Ok(())),
    ]);
    assert_eq!(stage, Stage::Bridging { child: 21, master: 6 });
    assert_eq!(closed, Vec::<i32>::new());
    assert_eq!(reaped, Vec::<i32>::new());
}

#[test]
fn child_is_not_waited_for_before_the_master_is_closed() {
    let (stage, closed, reaped) = run(vec![
        Event::Forked(Ok(Fork::Parent { child: 21, master: 6 })),
        Event::AdapterBuilt(Ok(())),
        Event::BridgeEnded(Ok((3, 4))),
        Event::ChildReaped(Ok(())),
    ]);
    assert_eq!(stage, Stage::Releasing { child: 21, master: 6 });
    assert_eq!(closed, vec![6]);
    assert_eq!(reaped, Vec::<i32>::new());
}

#[test]
fn closed_session_ignores_everything() {
    let mut events = whole_life(30, 12);
    events.extend(whole_life(31, 13));
    events.push(Event::BridgeEnded(Err("late".to_string())));
    events.push(Event::ChildReaped(Err("late".to_string())));
    let (stage, closed, reaped) = run(events);
    assert_eq!(stage, Stage::Closed);
    assert_eq!(closed, vec![12]);
    assert_eq!(reaped, vec![30]);
}

#[test]
fn fifty_sessions_do_not_mix() {
    let mut sessions: Vec<Session> = Vec::new();
    for _ in 0..50 {
        sessions.push(Session::new());
    }
    let mut index: i32 = 0;
    for session in sessions.iter_mut() {
        let directive = session.step::<String>(Event::Forked(Ok(Fork::Parent {
            child: 1000 + index,
            master: 100 + index,
        })));
        assert_eq!(directive, Some(Directive::Wrap { master: 100 + index }));
        index += 1;
    }
    for session in sessions.iter_mut().rev() {
        assert_eq!(session.step::<String>(Event::AdapterBuilt(Ok(()))), Some(Directive::Bridge));
    }
    index = 0;
    for session in sessions.iter_mut() {
        let ended: Event<String> = if index % 2 == 0 {
            Event::BridgeEnded(Ok((index as u64, 0)))
        } else {
            Event::BridgeEnded(Err(format!("marker {}", index)))
        };
        assert_eq!(session.step(ended), Some(Directive::Release { master: 100 + index }));
        index += 1;
    }
    index = 49;
    for session in sessions.iter_mut().rev() {
        assert_eq!(
            session.step::<String>(Event::MasterClosed),
            Some(Directive::Reap { child: 1000 + index })
        );
        assert_eq!(session.stage(), Stage::Reaping { child: 1000 + index });
        index -= 1;
    }
    for session in sessions.iter_mut() {
        assert_eq!(
            session.step::<String>(Event::ChildReaped(Ok(()))),
            Some(Directive::Finish { reap_error: None })
        );
        assert_eq!(session.stage(), Stage::Closed);
    }
}

#[test]
fn as_many_closed_and_reaped_as_sessions() {
    let mut closed: Vec<i32> = Vec::new();
    let mut reaped: Vec<i32> = Vec::new();
    let count: i32 = 20;
    for index in 0..count {
        let (stage, masters, children) = run(whole_life(500 + index, 50 + index));
        assert_eq!(stage, Stage::Closed);
        closed.extend(masters);
        reaped.extend(children);
    }
    let masters: Vec<i32> = (0..count).map(|index| 50 + index).collect();
    let children: Vec<i32> = (0..count).map(|index| 500 + index).collect();
    assert_eq!(closed, masters);
    assert_eq!(reaped, children);
}
