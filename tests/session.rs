use causeway::codec::{encode, Command};
use causeway::holder::LiveSessionHolder;
use causeway::session::{finish_call, Delivery, SessionCore, SessionState};
use causeway::CdpError;

fn open_session<S>() -> SessionCore<S> {
    let mut s = SessionCore::new();
    s.mark_open();
    s
}

fn send(s: &mut SessionCore<usize>, tag: usize) -> Command {
    match s.begin_send("Runtime.evaluate".to_string(), "{}".to_string(), tag) {
        Ok(cmd) => cmd,
        Err(e) => panic!("send refused: {}", e.describe()),
    }
}

#[test]
fn new_session_is_connecting_and_refuses_sends() {
    let mut s: SessionCore<usize> = SessionCore::new();
    assert!(s.state() == SessionState::Connecting);
    let r = s.begin_send("Page.enable".to_string(), "{}".to_string(), 0);
    assert!(matches!(r, Err(CdpError::SendFailed)));
    assert_eq!(s.pending_count(), 0);
}

#[test]
fn ids_start_at_one_and_increase() {
    let mut s = open_session();
    let a = send(&mut s, 10);
    let b = send(&mut s, 11);
    assert_eq!(a.id, 1);
    assert_eq!(b.id, 2);
    assert_eq!(a.method, "Runtime.evaluate");
    assert_eq!(s.pending_count(), 2);
}

#[test]
fn responses_out_of_order_reach_their_own_callers() {
    let mut s = open_session();
    let mut ids = Vec::new();
    for tag in 0..5usize {
        ids.push((send(&mut s, tag).id, tag));
    }
    for &(id, tag) in ids.iter().rev() {
        let frame = format!("{{\"id\":{},\"result\":{{\"n\":{}}}}}", id, id);
        match s.on_text(&frame) {
            Delivery::Resolved { slot, outcome } => {
                assert_eq!(slot, tag);
                assert_eq!(outcome.ok().unwrap(), format!("{{\"n\":{}}}", id));
            }
            _ => panic!("response was not matched"),
        }
    }
    assert_eq!(s.pending_count(), 0);
}

#[test]
fn interleaved_arrival_order_still_correlates() {
    let mut s = open_session();
    let cmds: Vec<Command> = (0..6usize).map(|t| send(&mut s, t * 100)).collect();
    for &k in &[3usize, 0, 5, 1, 4, 2] {
        let id = cmds[k].id;
        match s.on_text(&format!("{{\"id\":{},\"result\":true}}", id)) {
            Delivery::Resolved { slot, .. } => assert_eq!(slot, k * 100),
            _ => panic!("response was not matched"),
        }
    }
}

#[test]
fn error_response_becomes_protocol_error() {
    let mut s = open_session();
    let id = send(&mut s, 7).id;
    let frame = format!("{{\"id\":{},\"error\":{{\"code\":-32601,\"message\":\"no such method\"}}}}", id);
    match s.on_text(&frame) {
        Delivery::Resolved { slot, outcome } => {
            assert_eq!(slot, 7);
            match finish_call(Some(outcome)) {
                Err(CdpError::ResponseError { code, message }) => {
                    assert_eq!(code, -32601);
                    assert_eq!(message, "no such method");
                }
                _ => panic!("expected a protocol error"),
            }
        }
        _ => panic!("response was not matched"),
    }
}

#[test]
fn response_for_unknown_id_is_ignored() {
    let mut s = open_session();
    send(&mut s, 1);
    assert!(matches!(s.on_text("{\"id\":99,\"result\":{}}"), Delivery::Unmatched));
    assert_eq!(s.pending_count(), 1);
}

#[test]
fn second_response_for_same_id_is_ignored() {
    let mut s = open_session();
    let id = send(&mut s, 1).id;
    let frame = format!("{{\"id\":{},\"result\":1}}", id);
    assert!(matches!(s.on_text(&frame), Delivery::Resolved { .. }));
    assert!(matches!(s.on_text(&frame), Delivery::Unmatched));
}

#[test]
fn teardown_fails_all_pending_calls() {
    let mut s = open_session();
    for tag in 0..4usize {
        send(&mut s, tag);
    }
    let abandoned = s.fail();
    assert_eq!(abandoned, vec![0, 1, 2, 3]);
    assert_eq!(s.pending_count(), 0);
    assert!(s.state() == SessionState::Failed);
    for _ in abandoned {
        assert!(matches!(finish_call(None), Err(CdpError::ResponseDropped)));
    }
    let r = s.begin_send("Page.enable".to_string(), "{}".to_string(), 9);
    assert!(matches!(r, Err(CdpError::SendFailed)));
}

#[test]
fn terminate_hands_out_slots_and_refuses_sends() {
    let mut s = open_session();
    send(&mut s, 5);
    assert_eq!(s.terminate(), vec![5]);
    assert!(s.state() == SessionState::Terminated);
    assert!(matches!(
        s.begin_send("X".to_string(), "{}".to_string(), 1),
        Err(CdpError::SendFailed)
    ));
}

#[test]
fn closing_session_refuses_new_sends_but_takes_answers() {
    let mut s = open_session();
    let id = send(&mut s, 3).id;
    s.begin_closing();
    assert!(s.state() == SessionState::Closing);
    assert!(matches!(
        s.begin_send("X".to_string(), "{}".to_string(), 1),
        Err(CdpError::SendFailed)
    ));
    let frame = format!("{{\"id\":{},\"result\":null}}", id);
    match s.on_text(&frame) {
        Delivery::Resolved { slot, outcome } => {
            assert_eq!(slot, 3);
            assert_eq!(outcome.ok().unwrap(), "null");
        }
        _ => panic!("response was not matched"),
    }
}

#[test]
fn swap_installs_new_session_and_old_calls_fail() {
    let mut holder = LiveSessionHolder::new(open_session::<usize>());
    let in_flight = holder.current().pending_count();
    assert_eq!(in_flight, 0);
    let stale_cmd = {
        let mut stale = holder.swap(open_session());
        let cmd = send(&mut stale, 1);
        let dropped = stale.terminate();
        assert_eq!(dropped, vec![1]);
        assert!(matches!(finish_call(None), Err(CdpError::ResponseDropped)));
        cmd
    };
    assert_eq!(stale_cmd.id, 1);
    assert!(holder.current().state() == SessionState::Open);
    assert_eq!(holder.current().pending_count(), 0);
}

#[test]
fn both_handles_work_when_nothing_is_in_flight() {
    let mut first: SessionCore<usize> = open_session();
    assert!(first.begin_send("A".to_string(), "{}".to_string(), 0).is_ok());
    let mut holder = LiveSessionHolder::new(1u32);
    assert_eq!(*holder.current(), 1);
    let old = holder.swap(2);
    assert_eq!(old, 1);
    assert_eq!(*holder.current(), 2);
    let mut second: SessionCore<usize> = open_session();
    let cmd = second.begin_send("B".to_string(), "{}".to_string(), 0).ok().unwrap();
    assert_eq!(cmd.id, 1);
}

#[test]
fn thousand_commands_get_distinct_ids() {
    let mut s = open_session();
    let mut ids: Vec<u64> = (0..1000usize).map(|t| send(&mut s, t).id).collect();
    assert_eq!(s.pending_count(), 1000);
    ids.sort();
    ids.dedup();
    assert_eq!(ids.len(), 1000);
}

#[test]
fn event_resolves_no_pending_slot() {
    let mut s = open_session();
    for tag in 0..3usize {
        send(&mut s, tag);
    }
    match s.on_text("{\"method\":\"Page.loadEventFired\",\"params\":{\"timestamp\":1}}") {
        Delivery::Publish(ev) => {
            assert_eq!(ev.method, "Page.loadEventFired");
            assert_eq!(ev.params, "{\"timestamp\":1}");
        }
        _ => panic!("event was not published"),
    }
    assert_eq!(s.pending_count(), 3);
}

#[test]
fn undecodable_frame_is_skipped() {
    let mut s = open_session();
    send(&mut s, 0);
    assert!(matches!(s.on_text("not json"), Delivery::Skipped(_)));
    assert_eq!(s.pending_count(), 1);
}

#[test]
fn echo_transport_fifty_commands() {
    let mut s = open_session();
    let cmds: Vec<Command> = (0..50usize).map(|t| send(&mut s, t)).collect();
    let mut seen = vec![false; 50];
    for cmd in cmds.iter().rev() {
        let wire = encode(cmd);
        assert!(wire.starts_with(&format!("{{\"id\":{},", cmd.id)));
        let echo = format!("{{\"id\":{},\"result\":{{\"ok\":true}}}}", cmd.id);
        match s.on_text(&echo) {
            Delivery::Resolved { slot, outcome } => {
                assert_eq!(slot as u64 + 1, cmd.id);
                let value = finish_call(Some(outcome)).ok().unwrap();
                assert_eq!(value, "{\"ok\":true}");
                seen[slot] = true;
            }
            _ => panic!("echo was not matched"),
        }
    }
    assert!(seen.iter().all(|&b| b));
    assert_eq!(s.pending_count(), 0);
}
