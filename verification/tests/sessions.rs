use orangeirc::session::{IrcClient, IrcError};

#[test]
fn register_before_connect_is_refused() {
    let client = IrcClient::new(b"bob");
    match client.register() {
        Err(IrcError::NotConnected) => {}
        _ => panic!("registration without a connection must be refused"),
    }
    let err = IrcError::NotConnected;
    assert_eq!(err.text(), b"Not connected to server".to_vec());
}

#[test]
fn register_encodes_both_commands() {
    let mut client = IrcClient::new(b"bob");
    client.connect_established(b"irc.example.net");
    let (nick, user) = client.register().expect("connected");
    assert_eq!(nick, b"NICK bob\r\n".to_vec());
    assert_eq!(user, b"USER bob 0 * :bob\r\n".to_vec());
}

#[test]
fn second_connect_tears_the_first_down() {
    let mut client = IrcClient::new(b"bob");
    client.connect_established(b"irc.first.net");
    let ch = client.join_channel(b"#a").expect("connected");
    assert_eq!(ch, b"JOIN #a\r\n".to_vec());
    client.join_sent(b"#a");
    // A renewed connect first performs an orderly disconnect of the old
    // connection: the parting command goes to the old stream only.
    let quit = client.disconnect();
    assert_eq!(quit, Some(b"QUIT :Leaving\r\n".to_vec()));
    assert!(!client.connected);
    assert_eq!(client.server, b"".to_vec());
    assert_eq!(client.current_channel, b"".to_vec());
    client.connect_established(b"irc.second.net");
    assert_eq!(client.server, b"irc.second.net".to_vec());
    assert_eq!(client.current_channel, b"".to_vec());
    // Traffic now encodes against the new connection's session only.
    let msg = client.send_message(b"#b", b"hi").expect("connected");
    assert_eq!(msg, b"PRIVMSG #b :hi\r\n".to_vec());
}

#[test]
fn disconnect_without_connection_is_a_no_op() {
    let mut client = IrcClient::new(b"bob");
    assert_eq!(client.disconnect(), None);
    assert!(!client.connected);
}

#[test]
fn join_updates_channel_only_after_send() {
    let mut client = IrcClient::new(b"bob");
    client.connect_established(b"irc.example.net");
    let line = client.join_channel(b"#test").expect("connected");
    assert_eq!(line, b"JOIN #test\r\n".to_vec());
    assert_eq!(client.current_channel, b"".to_vec());
    client.join_sent(b"#test");
    assert_eq!(client.current_channel, b"#test".to_vec());
}

#[test]
fn send_paths_encode_exactly() {
    let mut client = IrcClient::new(b"bob");
    client.connect_established(b"irc.example.net");
    assert_eq!(
        client.send_message(b"#test", b"hello world").expect("connected"),
        b"PRIVMSG #test :hello world\r\n".to_vec()
    );
    assert_eq!(
        client.send_raw(b"WHOIS bob").expect("connected"),
        b"WHOIS bob\r\n".to_vec()
    );
    assert_eq!(client.quit().expect("connected"), b"QUIT :Leaving\r\n".to_vec());
}

#[test]
fn outbound_operations_need_a_connection() {
    let client = IrcClient::new(b"bob");
    assert!(matches!(client.join_channel(b"#test"), Err(IrcError::NotConnected)));
    assert!(matches!(client.send_message(b"a", b"b"), Err(IrcError::NotConnected)));
    assert!(matches!(client.send_raw(b"x"), Err(IrcError::NotConnected)));
    assert!(matches!(client.quit(), Err(IrcError::NotConnected)));
}
