use orangeirc::classify::{classify, Classified};

#[test]
fn probe_is_answered_and_annotated() {
    match classify(b"PING :abc", b"bob") {
        Classified::Probe { reply, event } => {
            assert_eq!(reply, b"PONG :abc\r\n".to_vec());
            assert_eq!(event, b">>> Server ping: PING :abc".to_vec());
        }
        _ => panic!("probe not recognized"),
    }
}

#[test]
fn probe_keyword_alone() {
    match classify(b"PING", b"bob") {
        Classified::Probe { reply, event } => {
            assert_eq!(reply, b"PONG\r\n".to_vec());
            assert_eq!(event, b">>> Server ping: PING".to_vec());
        }
        _ => panic!("probe not recognized"),
    }
}

#[test]
fn longer_first_token_is_no_probe() {
    match classify(b"PINGX :abc", b"bob") {
        Classified::Plain { event } => {
            assert_eq!(event, b"PINGX :abc".to_vec());
        }
        _ => panic!("expected plain forwarding"),
    }
}

#[test]
fn service_notice_to_me_is_important() {
    match classify(b":NickServ!x@services NOTICE myname :hello", b"myname") {
        Classified::Service { event } => {
            assert_eq!(
                event,
                b"!!! NICKSERV: :NickServ!x@services NOTICE myname :hello".to_vec()
            );
        }
        _ => panic!("expected important forwarding"),
    }
}

#[test]
fn service_notice_to_someone_else_is_plain() {
    match classify(b":NickServ!x@services NOTICE someoneelse :hello", b"myname") {
        Classified::Plain { event } => {
            assert_eq!(event, b":NickServ!x@services NOTICE someoneelse :hello".to_vec());
        }
        _ => panic!("expected plain forwarding"),
    }
}

#[test]
fn service_privmsg_is_important() {
    match classify(b":NickServ!x@services PRIVMSG myname :identify", b"myname") {
        Classified::Service { event } => {
            assert_eq!(
                event,
                b"!!! NICKSERV: :NickServ!x@services PRIVMSG myname :identify".to_vec()
            );
        }
        _ => panic!("expected important forwarding"),
    }
}

#[test]
fn other_sender_is_plain() {
    match classify(b":alice!x@host NOTICE myname :hello", b"myname") {
        Classified::Plain { event } => {
            assert_eq!(event, b":alice!x@host NOTICE myname :hello".to_vec());
        }
        _ => panic!("expected plain forwarding"),
    }
}

#[test]
fn too_few_tokens_is_plain() {
    match classify(b":NickServ NOTICE myname", b"myname") {
        Classified::Plain { event } => {
            assert_eq!(event, b":NickServ NOTICE myname".to_vec());
        }
        _ => panic!("expected plain forwarding"),
    }
}

#[test]
fn other_verb_is_plain() {
    match classify(b":NickServ!x@services INVITE myname :#chan", b"myname") {
        Classified::Plain { event } => {
            assert_eq!(event, b":NickServ!x@services INVITE myname :#chan".to_vec());
        }
        _ => panic!("expected plain forwarding"),
    }
}

#[test]
fn ordinary_text_passes_through() {
    match classify(b":alice!u@h PRIVMSG #chan :hi there", b"bob") {
        Classified::Plain { event } => {
            assert_eq!(event, b":alice!u@h PRIVMSG #chan :hi there".to_vec());
        }
        _ => panic!("expected plain forwarding"),
    }
}
