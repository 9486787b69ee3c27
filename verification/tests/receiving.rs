use orangeirc::classify::Classified;
use orangeirc::receiver::{closed_event, on_read_failure, probe_flush_failure,
    probe_send_failure, ReadFailure, Receiver};
use orangeirc::session::IrcClient;

#[test]
fn scenario_register_join_and_answer_probe() {
    // Identity bob: connect, register, join #test; the server then probes.
    let mut client = IrcClient::new(b"bob");
    client.connect_established(b"irc.example.net");
    let (nick, user) = client.register().expect("connected");
    assert_eq!(nick, b"NICK bob\r\n".to_vec());
    assert_eq!(user, b"USER bob 0 * :bob\r\n".to_vec());
    let join = client.join_channel(b"#test").expect("connected");
    assert_eq!(join, b"JOIN #test\r\n".to_vec());
    client.join_sent(b"#test");
    assert_eq!(client.current_channel, b"#test".to_vec());

    let mut rx = Receiver::new(b"bob");
    let out = rx.on_chunk(b"PING :abc\r\n");
    assert_eq!(out.len(), 1);
    match &out[0] {
        Classified::Probe { reply, event } => {
            assert_eq!(reply, &b"PONG :abc\r\n".to_vec());
            assert_eq!(event, &b">>> Server ping: PING :abc".to_vec());
        }
        _ => panic!("probe not recognized"),
    }
}

#[test]
fn chunks_split_lines_across_reads() {
    let mut rx = Receiver::new(b"bob");
    let out = rx.on_chunk(b"PING :a\r\nhello wor");
    assert_eq!(out.len(), 1);
    assert!(matches!(&out[0], Classified::Probe { .. }));
    let out = rx.on_chunk(b"ld\r\n");
    assert_eq!(out.len(), 1);
    match &out[0] {
        Classified::Plain { event } => assert_eq!(event, &b"hello world".to_vec()),
        _ => panic!("expected plain forwarding"),
    }
}

#[test]
fn timeout_retries_without_event() {
    let step = on_read_failure(&ReadFailure::TimedOut);
    assert!(!step.stop);
    assert!(step.event.is_none());
}

#[test]
fn closure_and_loss_stop_quietly() {
    let step = on_read_failure(&ReadFailure::Closed);
    assert!(step.stop);
    assert!(step.event.is_none());
    let step = on_read_failure(&ReadFailure::ConnectionLost);
    assert!(step.stop);
    assert!(step.event.is_none());
}

#[test]
fn other_read_errors_stop_with_one_event() {
    let step = on_read_failure(&ReadFailure::Failed { detail: b"boom".to_vec() });
    assert!(step.stop);
    assert_eq!(step.event, Some(b"Error reading from server: boom".to_vec()));
}

#[test]
fn final_and_failure_events_read_exactly() {
    assert_eq!(closed_event(), b"Connection to server closed.".to_vec());
    assert_eq!(probe_send_failure(b"broken pipe"), b"Failed to send PONG: broken pipe".to_vec());
    assert_eq!(probe_flush_failure(b"broken pipe"), b"Failed to flush PONG: broken pipe".to_vec());
}
