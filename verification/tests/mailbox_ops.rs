use wallet_server::mailbox::Mailbox;

#[test]
fn last_write_wins() {
    let mut m: Mailbox<u32> = Mailbox::new();
    m.put(1);
    m.put(2);
    assert_eq!(m.try_take(), Some(2));
    assert_eq!(m.try_take(), None);
}

#[test]
fn take_on_empty_is_idempotent_noop() {
    let mut m: Mailbox<u32> = Mailbox::new();
    assert_eq!(m.try_take(), None);
    assert_eq!(m.try_take(), None);
    assert!(m.peek_is_empty());
}

#[test]
fn single_put_yields_exactly_one_taker() {
    let mut m: Mailbox<u32> = Mailbox::new();
    m.put(7);
    let takes = [m.try_take(), m.try_take(), m.try_take()];
    assert_eq!(takes[0], Some(7));
    assert_eq!(takes[1], None);
    assert_eq!(takes[2], None);
    assert_eq!(takes.iter().filter(|t| t.is_some()).count(), 1);
}

#[test]
fn peek_does_not_consume() {
    let mut m: Mailbox<String> = Mailbox::new();
    assert!(m.peek_is_empty());
    m.put(String::from("v"));
    assert!(!m.peek_is_empty());
    assert!(!m.peek_is_empty());
    assert_eq!(m.try_take(), Some(String::from("v")));
    assert!(m.peek_is_empty());
}
