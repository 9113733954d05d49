use dnf5daemon::daemon::DnfDaemon;
use dnf5daemon::daemon::SessionError;
use dnf5daemon::errors::Error;

#[test]
fn session_open_close_lifecycle() {
    let mut daemon = DnfDaemon::new("/org/rpm/dnf/v0/session/1".to_string());
    assert!(daemon.is_connected());
    assert_eq!(daemon.path(), "/org/rpm/dnf/v0/session/1");

    assert!(daemon.close().is_ok());
    assert!(!daemon.is_connected());
    assert_eq!(daemon.path(), "/org/rpm/dnf/v0/session/1");
}

#[test]
fn session_close_twice_reports_not_connected() {
    let mut daemon = DnfDaemon::new("/org/rpm/dnf/v0/session/2".to_string());
    assert!(daemon.close().is_ok());
    assert!(!daemon.is_connected());
    assert!(matches!(daemon.close(), Err(Error::NotConnected)));
    assert!(!daemon.is_connected());
}

#[test]
fn error_display() {
    let err = Error::TransactionNotResolved("test message".to_string());
    assert_eq!(err.display_string(), "TransactionNotResolved(\"test message\")");

    let err2 = Error::InvalidTransactionAction("invalid action".to_string());
    assert_eq!(err2.display_string(), "InvalidTransactionAction(\"invalid action\")");

    let err3 = Error::DnfDaemon("connection failed".to_string());
    assert_eq!(err3.display_string(), "DnfDaemon(\"connection failed\")");
}

#[test]
fn error_display_without_payload() {
    assert_eq!(Error::NotConnected.display_string(), "NotConnected");
    assert_eq!(Error::InvalidArgument.display_string(), "InvalidArgument");
    let err = Error::MalformedRecord("arch".to_string());
    assert_eq!(err.display_string(), "MalformedRecord(\"arch\")");
}

#[test]
fn session_error_display() {
    assert_eq!(SessionError::Transport.display_string(), "Transport");
    assert_eq!(SessionError::HandshakeFailed.display_string(), "HandshakeFailed");
    let bind = SessionError::InterfaceBindFailed("org.rpm.dnf.v0.Goal".to_string());
    assert_eq!(bind.display_string(), "InterfaceBindFailed(\"org.rpm.dnf.v0.Goal\")");
}
