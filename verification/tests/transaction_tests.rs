use dnf5daemon::attrs::AttrMap;
use dnf5daemon::attrs::AttrValue;
use dnf5daemon::errors::Error;
use dnf5daemon::transaction::StageOp;
use dnf5daemon::transaction::Transaction;
use dnf5daemon::transaction::TransactionAction;
use dnf5daemon::transaction::TransactionItem;
use dnf5daemon::transaction::TransactionMember;
use dnf5daemon::transaction::TransactionResult;
use dnf5daemon::transaction::resolve_failure;

fn tx_pkg(reason: &str, nevra: &str) -> AttrMap {
    let mut m = AttrMap::new();
    m.insert("reason".to_string(), AttrValue::Str(reason.to_string()));
    m.insert("full_nevra".to_string(), AttrValue::Str(nevra.to_string()));
    m
}

fn tx_item(id: &str, action: &str, reason: &str, pkg: AttrMap) -> TransactionItem {
    (id.to_string(), action.to_string(), reason.to_string(), AttrMap::new(), pkg)
}

#[test]
fn transaction_action_from_string() {
    assert_eq!(TransactionAction::from("Install".to_string()), TransactionAction::Install);
    assert_eq!(TransactionAction::from("Upgrade".to_string()), TransactionAction::Upgrade);
    assert_eq!(TransactionAction::from("Downgrade".to_string()), TransactionAction::Downgrade);
    assert_eq!(TransactionAction::from("Reinstall".to_string()), TransactionAction::Reinstall);
    assert_eq!(TransactionAction::from("Remove".to_string()), TransactionAction::Remove);
    assert_eq!(TransactionAction::from("Replaced".to_string()), TransactionAction::Replaced);
    assert_eq!(
        TransactionAction::from("invalid".to_string()),
        TransactionAction::Unknown("invalid".to_string())
    );
}

#[test]
fn transaction_action_ignores_ascii_case() {
    assert_eq!(TransactionAction::from("install".to_string()), TransactionAction::Install);
    assert_eq!(TransactionAction::from("INSTALL".to_string()), TransactionAction::Install);
    assert_eq!(TransactionAction::from("rEmOvE".to_string()), TransactionAction::Remove);
    assert_eq!(
        TransactionAction::from("bogus".to_string()),
        TransactionAction::Unknown("bogus".to_string())
    );
    assert_ne!(
        TransactionAction::from("bogus".to_string()),
        TransactionAction::Unknown("other".to_string())
    );
}

#[test]
fn transaction_member_from() {
    let member = TransactionMember::from(
        "Install".to_string(),
        "user".to_string(),
        &tx_pkg("user", "package-1.0-1.x86_64"),
    );
    assert_eq!(member.action, TransactionAction::Install);
    assert_eq!(member.reason, "user");
    assert_eq!(member.nevra, "package-1.0-1.x86_64");
    assert_eq!(member.sub_action, None);

    let member2 = TransactionMember::from(
        "Install".to_string(),
        "user".to_string(),
        &tx_pkg("dependency", "dep-2.0-1.x86_64"),
    );
    assert_eq!(member2.sub_action, Some("dependency".to_string()));
}

#[test]
fn transaction_member_placeholder_sub_reason_is_dropped() {
    let member = TransactionMember::from(
        "Install".to_string(),
        "user".to_string(),
        &tx_pkg("None", "package-1.0-1.x86_64"),
    );
    assert_eq!(member.sub_action, None);
}

#[test]
fn transaction_result_from_and_methods() {
    let items = vec![tx_item("1", "Install", "user", tx_pkg("user", "package-1.0-1.x86_64"))];
    let result = TransactionResult::from(items, 0).unwrap();
    assert!(result.is_successful());
    assert_eq!(result.result_code, 0);
    assert_eq!(result.tx_members.len(), 1);

    let failed_result = TransactionResult::from(vec![], 1).unwrap();
    assert!(!failed_result.is_successful());
    assert_eq!(failed_result.result_code, 1);
    assert!(failed_result.tx_members.is_empty());
}

#[test]
fn staging_requests_forward_the_specs() {
    let tx = Transaction::new();
    let install = tx.install(vec!["pkgA".to_string()]);
    assert_eq!(install.op, StageOp::Install);
    assert_eq!(install.pkg_specs, vec!["pkgA".to_string()]);

    let remove = tx.remove(vec!["pkgB".to_string(), "pkgC".to_string()]);
    assert_eq!(remove.op, StageOp::Remove);
    assert_eq!(remove.pkg_specs, vec!["pkgB".to_string(), "pkgC".to_string()]);

    let update = tx.update(vec!["pkgD".to_string()]);
    assert_eq!(update.op, StageOp::Upgrade);
    assert_eq!(update.pkg_specs, vec!["pkgD".to_string()]);

    let reinstall = tx.reinstall(vec!["pkgE".to_string()]);
    assert_eq!(reinstall.op, StageOp::Reinstall);
    assert_eq!(reinstall.pkg_specs, vec!["pkgE".to_string()]);
}

#[test]
fn successful_resolve_records_result_and_executes() {
    let mut tx = Transaction::new();
    assert!(tx.transaction_result().is_none());
    assert!(!tx.execute());

    let request = tx.install(vec!["pkgA".to_string()]);
    assert_eq!(request.op, StageOp::Install);
    assert_eq!(request.pkg_specs, vec!["pkgA".to_string()]);

    let items = vec![tx_item("1", "Install", "user", tx_pkg("user", "pkgA-1.0-1.x86_64"))];
    let solver_failed = tx.resolve(Some((items, 0)));
    assert!(!solver_failed);

    let result = tx.transaction_result().as_ref().unwrap();
    assert!(result.is_successful());
    assert_eq!(result.tx_members.len(), 1);
    assert_eq!(result.tx_members[0].action, TransactionAction::Install);
    assert_eq!(result.tx_members[0].reason, "user");
    assert_eq!(result.tx_members[0].nevra, "pkgA-1.0-1.x86_64");
    assert_eq!(result.tx_members[0].sub_action, None);

    assert!(tx.execute());
}

#[test]
fn failed_resolve_reports_problems_and_skips_execute() {
    let mut tx = Transaction::new();
    let solver_failed = tx.resolve(Some((vec![], 1)));
    assert!(solver_failed);

    let result = tx.transaction_result().as_ref().unwrap();
    assert!(!result.is_successful());
    assert!(result.tx_members.is_empty());

    let problems = vec![
        "nothing provides libfoo".to_string(),
        "package pkgA is filtered out".to_string(),
    ];
    match resolve_failure(Some(problems)) {
        Error::TransactionNotResolved(msg) => {
            assert_eq!(msg, "nothing provides libfoo\npackage pkgA is filtered out")
        },
        other => panic!("expected TransactionNotResolved, got {:?}", other),
    }

    assert!(!tx.execute());
}

#[test]
fn failed_problem_retrieval_reports_the_fixed_text() {
    match resolve_failure(None) {
        Error::TransactionNotResolved(msg) => {
            assert_eq!(msg, "Unknown error during transaction resolution")
        },
        other => panic!("expected TransactionNotResolved, got {:?}", other),
    }
    match resolve_failure(Some(vec!["only one".to_string()])) {
        Error::TransactionNotResolved(msg) => assert_eq!(msg, "only one"),
        other => panic!("expected TransactionNotResolved, got {:?}", other),
    }
}

#[test]
fn failed_round_trip_is_skipped_silently() {
    let mut tx = Transaction::new();
    let solver_failed = tx.resolve(None);
    assert!(!solver_failed);
    assert!(tx.transaction_result().is_none());
    assert!(!tx.execute());

    let items = vec![tx_item("1", "Install", "user", tx_pkg("user", "pkgA-1.0-1.x86_64"))];
    assert!(!tx.resolve(Some((items, 0))));
    assert!(!tx.resolve(None));
    assert!(tx.transaction_result().is_some());
    assert!(tx.execute());
}
