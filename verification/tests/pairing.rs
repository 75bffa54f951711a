use rendezvous::handler::{ReceiverError, ReceiverHandler, SenderError, SenderHandler};
use rendezvous::registry::Registry;

const ALPHABET: &str = "6789BCDFGHJKLMNPQRTWbcdfghjkmnpqrtwz";

#[test]
fn scenario_pairing_and_relay() {
    let mut reg = Registry::new();
    let mut sender = SenderHandler::new(1);
    let mut receiver = ReceiverHandler::new(2);

    // Sender announces a transfer and gets a code.
    let code = sender
        .create(
            &mut reg,
            "a.txt".to_string(),
            "text/plain".to_string(),
            100,
        )
        .expect("create must succeed on a fresh connection");
    assert_eq!(code.chars().count(), 6);
    assert!(code.chars().all(|c| ALPHABET.contains(c)));

    // Receiver finds the session by code and sees the metadata.
    let info = receiver.find(&reg, &code).expect("find must succeed");
    assert_eq!(info.file_name, "a.txt");
    assert_eq!(info.file_mime, "text/plain");
    assert_eq!(info.file_size, 100);
    assert!(info.available);

    // Receiver claims the slot; the sender connection is reported so both
    // sides can be told they are connected.
    let sender_conn = receiver.connect(&mut reg).expect("connect must succeed");
    assert_eq!(sender_conn, 1);

    // Receiver relays a payload; it is owed verbatim to the sender.
    let d = receiver
        .forward(&reg, "ping".to_string())
        .expect("forward must succeed once paired");
    assert_eq!(d.to, 1);
    assert_eq!(d.payload, "ping");

    // Sender relays a payload; it is owed verbatim to the receiver.
    let d = sender
        .forward(&reg, "pong".to_string())
        .expect("forward must succeed once paired");
    assert_eq!(d.to, 2);
    assert_eq!(d.payload, "pong");

    // Sender disconnects: the receiver is owed a destruction notice and
    // the session is gone for good.
    let notify = sender.disconnect(&mut reg);
    assert_eq!(notify, Some(2));
    let mut third = ReceiverHandler::new(3);
    assert_eq!(third.find(&reg, &code), Err(ReceiverError::NotFound));
}

#[test]
fn no_premature_relay() {
    let mut reg = Registry::new();
    let mut sender = SenderHandler::new(10);

    // Before any session exists the sender cannot relay at all.
    assert_eq!(
        sender.forward(&reg, "x".to_string()).map(|d| d.payload),
        Err(SenderError::NotExists)
    );

    sender
        .create(&mut reg, "f".to_string(), "m".to_string(), 1)
        .expect("create must succeed");

    // With a session but no receiver, forward always fails with
    // "no receiver" and never silently succeeds.
    for _ in 0..3 {
        assert_eq!(
            sender.forward(&reg, "x".to_string()).map(|d| d.payload),
            Err(SenderError::NoReceiver)
        );
    }
}

#[test]
fn idempotent_creation_guard() {
    let mut reg = Registry::new();
    let mut sender = SenderHandler::new(7);

    let code = sender
        .create(&mut reg, "a".to_string(), "b".to_string(), 3)
        .expect("first create must succeed");

    // A second create on the same connection is refused and changes
    // nothing: the original session is still there under its code.
    assert_eq!(
        sender.create(&mut reg, "c".to_string(), "d".to_string(), 4),
        Err(SenderError::Existed)
    );
    let mut probe = ReceiverHandler::new(8);
    let info = probe.find(&reg, &code).expect("session must still exist");
    assert_eq!(info.file_name, "a");
    assert_eq!(info.file_size, 3);
}

#[test]
fn at_most_one_receiver_wins() {
    let mut reg = Registry::new();
    let mut sender = SenderHandler::new(1);
    let code = sender
        .create(&mut reg, "f".to_string(), "m".to_string(), 9)
        .expect("create must succeed");

    // Two receivers race for the same session: both find it available...
    let mut r1 = ReceiverHandler::new(21);
    let mut r2 = ReceiverHandler::new(22);
    assert!(r1.find(&reg, &code).expect("find must succeed").available);
    assert!(r2.find(&reg, &code).expect("find must succeed").available);

    // ...but exactly one claim wins, and the session records the winner.
    assert_eq!(r1.connect(&mut reg), Ok(1));
    assert_eq!(r2.connect(&mut reg), Err(ReceiverError::NotAvailable));
    let sref = r1.candidate.expect("winner holds the candidate");
    assert_eq!(reg.receiver_of(sref), Some(Some(21)));

    // The loser never became active, so it may not relay.
    assert_eq!(
        r2.forward(&reg, "x".to_string()).map(|d| d.payload),
        Err(ReceiverError::NotActive)
    );
}

#[test]
fn destruction_finality_on_receiver_disconnect() {
    let mut reg = Registry::new();
    let mut sender = SenderHandler::new(5);
    let code = sender
        .create(&mut reg, "f".to_string(), "m".to_string(), 2)
        .expect("create must succeed");

    let mut receiver = ReceiverHandler::new(6);
    receiver.find(&reg, &code).expect("find must succeed");
    receiver.connect(&mut reg).expect("connect must succeed");

    // The paired receiver disconnects: the sender is owed a destruction
    // notice, and every later operation observes the session as gone.
    assert_eq!(receiver.disconnect(&mut reg), Some(5));
    assert_eq!(
        sender.forward(&reg, "x".to_string()).map(|d| d.payload),
        Err(SenderError::Destroyed)
    );
    assert_eq!(
        receiver.forward(&reg, "x".to_string()).map(|d| d.payload),
        Err(ReceiverError::Destroyed)
    );
    let mut probe = ReceiverHandler::new(9);
    assert_eq!(probe.find(&reg, &code), Err(ReceiverError::NotFound));

    // Destruction is idempotent: disconnecting again changes nothing and
    // owes nobody a notice.
    assert_eq!(receiver.disconnect(&mut reg), None);
    assert_eq!(sender.disconnect(&mut reg), None);
}

#[test]
fn unclaimed_receiver_has_no_destruction_responsibility() {
    let mut reg = Registry::new();
    let mut sender = SenderHandler::new(30);
    let code = sender
        .create(&mut reg, "f".to_string(), "m".to_string(), 8)
        .expect("create must succeed");

    // A receiver that only found the session disconnects: the session
    // stays available for others.
    let mut browser = ReceiverHandler::new(31);
    browser.find(&reg, &code).expect("find must succeed");
    assert_eq!(browser.disconnect(&mut reg), None);

    let mut late = ReceiverHandler::new(32);
    let info = late.find(&reg, &code).expect("session must still be there");
    assert!(info.available);
    assert_eq!(late.connect(&mut reg), Ok(30));
}

#[test]
fn receiver_pairs_at_most_once() {
    let mut reg = Registry::new();
    let mut s1 = SenderHandler::new(40);
    let mut s2 = SenderHandler::new(41);
    let code1 = s1
        .create(&mut reg, "f".to_string(), "m".to_string(), 1)
        .expect("create must succeed");
    let code2 = s2
        .create(&mut reg, "g".to_string(), "n".to_string(), 2)
        .expect("create must succeed");

    let mut receiver = ReceiverHandler::new(42);
    receiver.find(&reg, &code1).expect("find must succeed");
    receiver.connect(&mut reg).expect("connect must succeed");

    // Once active, the receiver can neither look up nor claim another
    // session.
    assert_eq!(receiver.find(&reg, &code2), Err(ReceiverError::Active));
    assert_eq!(receiver.connect(&mut reg), Err(ReceiverError::Active));
}

#[test]
fn connect_failure_modes() {
    let mut reg = Registry::new();

    // No candidate was ever found.
    let mut r = ReceiverHandler::new(50);
    assert_eq!(r.connect(&mut reg), Err(ReceiverError::NoCandidate));

    // The candidate was destroyed between find and connect.
    let mut sender = SenderHandler::new(51);
    let code = sender
        .create(&mut reg, "f".to_string(), "m".to_string(), 1)
        .expect("create must succeed");
    r.find(&reg, &code).expect("find must succeed");
    sender.disconnect(&mut reg);
    assert_eq!(r.connect(&mut reg), Err(ReceiverError::Destroyed));
}
