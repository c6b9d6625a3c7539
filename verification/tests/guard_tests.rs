use conn_pool::AcquireStep;
use conn_pool::Error;
use conn_pool::PoolConfig;
use conn_pool::PoolInternals;
use conn_pool::PooledConnection;

#[test]
fn guard_detach_and_reattach() {
    let config = PoolConfig::new(1, Some(1), 30_000).unwrap();
    let (mut p, _) = PoolInternals::<String>::new(config);
    p.connect_succeeded(String::from("session"), 1);

    let conn = match p.try_acquire() {
        AcquireStep::Checkout { conn, .. } => conn,
        AcquireStep::Wait { .. } => panic!("expected an idle slot"),
    };
    let mut guard = PooledConnection::checkout(conn);
    assert!(guard.is_attached());
    assert_eq!(guard.raw_conn(), "session");

    guard.raw_conn_mut().push('!');
    assert_eq!(guard.raw_conn(), "session!");

    let raw = guard.take_raw_conn();
    assert_eq!(raw, "session!");
    assert!(!guard.is_attached());

    guard.set_raw_conn(raw);
    assert!(guard.is_attached());

    let conn = guard.into_conn();
    assert_eq!(conn.raw.as_deref(), Some("session!"));
    assert_eq!(conn.id, 0);
}

#[test]
fn manager_errors_wrap_as_inner() {
    let e: Error<String> = Error::from(String::from("connect refused"));
    match e {
        Error::Inner(msg) => assert_eq!(msg, "connect refused"),
        Error::Timeout => panic!("a manager error is not a timeout"),
    }
}

#[test]
fn timeout_is_its_own_variant() {
    let e: Error<String> = Error::Timeout;
    assert!(e.is_timeout());
    let e: Error<String> = Error::Inner(String::from("x"));
    assert!(!e.is_timeout());
}
