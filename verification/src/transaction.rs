//! The transaction state machine: staging package operations, absorbing
//! the remote solver's resolve reply, and deciding the execute step.
//!
//! The remote calls themselves are the caller's: each staging method
//! yields the request to perform against the package-action interface,
//! [`Transaction::resolve`] absorbs the outcome of the goal-resolve round
//! trip, and [`Transaction::execute`] decides whether the do-transaction
//! call is to be issued.  Every remote call carries the empty option map.

use vstd::prelude::*;
use crate::attrs::AttrMap;
use crate::attrs::spec_get_str;
use crate::errors::Error;
use crate::text::eq_ignore_ascii_case;
use crate::text::fold_case;
use crate::text::join_lines;
use crate::text::spec_join_lines;
use crate::text::str_eq;

verus! {

/// One member of the transaction returned by the remote goal-resolve
/// operation: its id, action, reason, item attributes, and per-package
/// attributes.
pub type TransactionItem = (String, String, String, AttrMap, AttrMap);

/// The action the transaction performs on one package.
#[derive(Debug)]
pub enum TransactionAction {
    Install,
    Upgrade,
    Downgrade,
    Reinstall,
    Remove,
    Replaced,
    /// An action string the library does not recognize, carried verbatim
    /// rather than coerced to a default.
    Unknown(String),
}

/// The action denoted by `action`, matched up to ASCII case; an
/// unrecognized string maps to [`TransactionAction::Unknown`] carrying
/// the original text.
pub open spec fn spec_action_from(action: String) -> TransactionAction {
    let s = action@;
    if fold_case(s) == fold_case("INSTALL"@) {
        TransactionAction::Install
    } else if fold_case(s) == fold_case("UPGRADE"@) {
        TransactionAction::Upgrade
    } else if fold_case(s) == fold_case("DOWNGRADE"@) {
        TransactionAction::Downgrade
    } else if fold_case(s) == fold_case("REINSTALL"@) {
        TransactionAction::Reinstall
    } else if fold_case(s) == fold_case("REMOVE"@) {
        TransactionAction::Remove
    } else if fold_case(s) == fold_case("REPLACED"@) {
        TransactionAction::Replaced
    } else {
        TransactionAction::Unknown(action)
    }
}

impl TransactionAction {
    /// Maps a remote-supplied action string to its action, up to ASCII
    /// case.
    pub fn from(action: String) -> (r: TransactionAction)
        ensures
            r == spec_action_from(action),
    {
        let a = action.as_str();
        if eq_ignore_ascii_case(a, "INSTALL") {
            TransactionAction::Install
        } else if eq_ignore_ascii_case(a, "UPGRADE") {
            TransactionAction::Upgrade
        } else if eq_ignore_ascii_case(a, "DOWNGRADE") {
            TransactionAction::Downgrade
        } else if eq_ignore_ascii_case(a, "REINSTALL") {
            TransactionAction::Reinstall
        } else if eq_ignore_ascii_case(a, "REMOVE") {
            TransactionAction::Remove
        } else if eq_ignore_ascii_case(a, "REPLACED") {
            TransactionAction::Replaced
        } else {
            TransactionAction::Unknown(action)
        }
    }
}

impl PartialEq for TransactionAction {
    fn eq(&self, other: &TransactionAction) -> (r: bool) {
        match (self, other) {
            (TransactionAction::Install, TransactionAction::Install) => true,
            (TransactionAction::Upgrade, TransactionAction::Upgrade) => true,
            (TransactionAction::Downgrade, TransactionAction::Downgrade) => true,
            (TransactionAction::Reinstall, TransactionAction::Reinstall) => true,
            (TransactionAction::Remove, TransactionAction::Remove) => true,
            (TransactionAction::Replaced, TransactionAction::Replaced) => true,
            (TransactionAction::Unknown(a), TransactionAction::Unknown(b)) => str_eq(
                a.as_str(),
                b.as_str(),
            ),
            _ => false,
        }
    }
}

impl vstd::std_specs::cmp::PartialEqSpecImpl for TransactionAction {
    open spec fn obeys_eq_spec() -> bool {
        true
    }

    open spec fn eq_spec(&self, other: &TransactionAction) -> bool {
        match (self, other) {
            (TransactionAction::Install, TransactionAction::Install) => true,
            (TransactionAction::Upgrade, TransactionAction::Upgrade) => true,
            (TransactionAction::Downgrade, TransactionAction::Downgrade) => true,
            (TransactionAction::Reinstall, TransactionAction::Reinstall) => true,
            (TransactionAction::Remove, TransactionAction::Remove) => true,
            (TransactionAction::Replaced, TransactionAction::Replaced) => true,
            (TransactionAction::Unknown(a), TransactionAction::Unknown(b)) => a@ == b@,
            _ => false,
        }
    }
}

/// One package-level effect of a resolved transaction.
#[derive(Debug)]
pub struct TransactionMember {
    pub action: TransactionAction,
    pub reason: String,
    pub nevra: String,
    /// The per-package reason the solver reported, when it differs from
    /// the top-level reason; `None` when it equals the top-level reason
    /// or the literal placeholder text.
    pub sub_action: Option<String>,
}

/// Whether a per-package attribute record carries what a transaction
/// member needs: its reason and its full nevra, both as strings.
pub open spec fn member_inputs_ok(tx_pkg: AttrMap) -> bool {
    &&& spec_get_str(tx_pkg, "reason"@) is Some
    &&& spec_get_str(tx_pkg, "full_nevra"@) is Some
}

/// The transaction member denoted by an action string, a top-level
/// reason, and a complete per-package attribute record.
pub open spec fn spec_member_from(action: String, reason: String, tx_pkg: AttrMap) -> TransactionMember {
    let sub_reason = spec_get_str(tx_pkg, "reason"@)->Some_0;
    TransactionMember {
        action: spec_action_from(action),
        reason: reason,
        nevra: spec_get_str(tx_pkg, "full_nevra"@)->Some_0,
        sub_action: if sub_reason@ == "None"@ || sub_reason@ == reason@ {
            None
        } else {
            Some(sub_reason)
        },
    }
}

impl TransactionMember {
    /// Builds a transaction member from one entry of the solver's reply.
    /// The per-package reason becomes `sub_action` only where it differs
    /// from both the top-level reason and the literal placeholder text.
    pub fn from(action: String, reason: String, tx_pkg: &AttrMap) -> (r: TransactionMember)
        requires
            member_inputs_ok(*tx_pkg),
        ensures
            r == spec_member_from(action, reason, *tx_pkg),
    {
        let sub_reason = match tx_pkg.get_str("reason") {
            Some(s) => s.clone(),
            None => vstd::pervasive::unreached(),
        };
        let nevra = match tx_pkg.get_str("full_nevra") {
            Some(s) => s.clone(),
            None => vstd::pervasive::unreached(),
        };
        let sub_action = if str_eq(sub_reason.as_str(), "None") || str_eq(
            sub_reason.as_str(),
            reason.as_str(),
        ) {
            None
        } else {
            Some(sub_reason)
        };
        TransactionMember { action: TransactionAction::from(action), reason, nevra, sub_action }
    }
}

/// The result of one resolve call: the solver's ordered member list and
/// its result code.
#[derive(Debug)]
pub struct TransactionResult {
    pub tx_members: Vec<TransactionMember>,
    pub result_code: u32,
}

/// Whether `r` is the transaction result that the solver reply `items`
/// with code `result_code` denotes: the code kept, and the members
/// mapped in order from each item's action, reason, and per-package
/// attributes.
pub open spec fn result_matches(r: TransactionResult, items: Seq<TransactionItem>, result_code: u32) -> bool {
    &&& r.result_code == result_code
    &&& r.tx_members@.len() == items.len()
    &&& forall|i: int|
        0 <= i < items.len()
            ==> #[trigger] r.tx_members@[i] == spec_member_from(items[i].1, items[i].2, items[i].4)
}

impl TransactionResult {
    /// Builds the transaction result of a resolve reply.
    pub fn from(txmbrs: Vec<TransactionItem>, result_code: u32) -> (r: Option<TransactionResult>)
        requires
            forall|i: int|
                0 <= i < txmbrs@.len() ==> member_inputs_ok(#[trigger] txmbrs@[i].4),
        ensures
            r matches Some(res) && result_matches(res, txmbrs@, result_code),
    {
        let mut members: Vec<TransactionMember> = Vec::new();
        let mut i: usize = 0;
        while i < txmbrs.len()
            invariant
                i <= txmbrs@.len(),
                members@.len() == i,
                forall|k: int|
                    0 <= k < txmbrs@.len() ==> member_inputs_ok(#[trigger] txmbrs@[k].4),
                forall|k: int|
                    0 <= k < i
                        ==> #[trigger] members@[k] == spec_member_from(
                        txmbrs@[k].1,
                        txmbrs@[k].2,
                        txmbrs@[k].4,
                    ),
            decreases txmbrs@.len() - i,
        {
            let item = &txmbrs[i];
            let member = TransactionMember::from(item.1.clone(), item.2.clone(), &item.4);
            members.push(member);
            i = i + 1;
        }
        Some(TransactionResult { tx_members: members, result_code })
    }

    /// Whether the solver reported success.
    pub fn is_successful(&self) -> (r: bool)
        ensures
            r == (self.result_code == 0),
    {
        self.result_code == 0
    }
}

/// A remote operation that stages one package action with the daemon's
/// in-progress goal.
#[derive(Debug, Clone, Copy, PartialEq, Eq, Structural)]
pub enum StageOp {
    Install,
    Remove,
    Upgrade,
    Reinstall,
}

/// A staging request: the remote package-action operation to call, with
/// the package specs to forward and the empty option map.
#[derive(Debug)]
pub struct StageRequest {
    pub op: StageOp,
    pub pkg_specs: Vec<String>,
}

/// One install/remove/upgrade transaction against the remote daemon.
///
/// The transaction starts staged, holds no result until a resolve step
/// records one, and executes only a successfully resolved result.
#[derive(Debug)]
pub struct Transaction {
    transaction_result: Option<TransactionResult>,
}

/// How one resolve step relates the transaction before it, the
/// transaction after it, the outcome of the remote round trip, and the
/// step's report.  A failed round trip (`reply` of `None`) is skipped
/// silently: the recorded result is left as it was and no solver failure
/// is reported.  A reply is recorded as the transaction's result, and
/// solver failure is reported exactly when its code is not zero.
pub open spec fn resolve_spec(
    pre: Transaction,
    post: Transaction,
    reply: Option<(Vec<TransactionItem>, u32)>,
    solver_failed: bool,
) -> bool {
    match reply {
        None => post.result_view() == pre.result_view() && !solver_failed,
        Some((items, code)) => (post.result_view() matches Some(res) && result_matches(
            res,
            items@,
            code,
        )) && solver_failed == (code != 0),
    }
}

/// Whether the execute step of `t` issues the remote do-transaction
/// call: exactly when a recorded result reports success.
pub open spec fn spec_should_execute(t: Transaction) -> bool {
    t.result_view() matches Some(r) && r.result_code == 0
}

impl Transaction {
    /// The result recorded by the most recent resolve step, if any.
    pub closed spec fn result_view(self) -> Option<TransactionResult> {
        self.transaction_result
    }

    /// A fresh transaction: staged, with no recorded result.
    pub fn new() -> (t: Transaction)
        ensures
            t.result_view() is None,
    {
        Transaction { transaction_result: None }
    }

    /// The result recorded by the most recent resolve step, if any.
    pub fn transaction_result(&self) -> (r: &Option<TransactionResult>)
        ensures
            *r == self.result_view(),
    {
        &self.transaction_result
    }

    /// Stages an install of `pkgs`: the caller forwards the request to
    /// the remote install operation, whose own failure is observed and
    /// discarded.
    pub fn install(&self, pkgs: Vec<String>) -> (r: StageRequest)
        ensures
            r.op == StageOp::Install,
            r.pkg_specs == pkgs,
    {
        StageRequest { op: StageOp::Install, pkg_specs: pkgs }
    }

    /// Stages a removal of `pkgs`: the caller forwards the request to
    /// the remote remove operation, whose own failure is observed and
    /// discarded.
    pub fn remove(&self, pkgs: Vec<String>) -> (r: StageRequest)
        ensures
            r.op == StageOp::Remove,
            r.pkg_specs == pkgs,
    {
        StageRequest { op: StageOp::Remove, pkg_specs: pkgs }
    }

    /// Stages an upgrade of `pkgs`: the caller forwards the request to
    /// the remote upgrade operation, whose own failure is observed and
    /// discarded.
    pub fn update(&self, pkgs: Vec<String>) -> (r: StageRequest)
        ensures
            r.op == StageOp::Upgrade,
            r.pkg_specs == pkgs,
    {
        StageRequest { op: StageOp::Upgrade, pkg_specs: pkgs }
    }

    /// Stages a reinstall of `pkgs`: the caller forwards the request to
    /// the remote reinstall operation, whose own failure is observed and
    /// discarded.
    pub fn reinstall(&self, pkgs: Vec<String>) -> (r: StageRequest)
        ensures
            r.op == StageOp::Reinstall,
            r.pkg_specs == pkgs,
    {
        StageRequest { op: StageOp::Reinstall, pkg_specs: pkgs }
    }

    /// Absorbs the outcome of the remote goal-resolve round trip; `None`
    /// stands for a round trip that itself failed.  Returns whether the
    /// solver reported failure; the caller then fetches the problem
    /// descriptions and fails with the error of [`resolve_failure`].
    pub fn resolve(&mut self, reply: Option<(Vec<TransactionItem>, u32)>) -> (solver_failed: bool)
        requires
            reply matches Some(r)
                ==> forall|i: int| 0 <= i < r.0@.len() ==> member_inputs_ok(#[trigger] r.0@[i].4),
        ensures
            resolve_spec(*old(self), *final(self), reply, solver_failed),
    {
        match reply {
            None => false,
            Some((items, code)) => {
                let failed = code != 0;
                match TransactionResult::from(items, code) {
                    Some(res) => {
                        self.transaction_result = Some(res);
                    },
                    None => vstd::pervasive::unreached(),
                }
                failed
            },
        }
    }

    /// Decides the execute step: the caller issues the remote
    /// do-transaction call, with the empty option map, exactly when this
    /// returns true; otherwise the step is a silent no-op, reflecting
    /// that there is nothing to execute.  Note that executing does not
    /// consume the recorded result: a second execute after a successful
    /// one decides to issue the remote call again.
    pub fn execute(&self) -> (issue: bool)
        ensures
            issue == spec_should_execute(*self),
    {
        match &self.transaction_result {
            Some(res) => res.is_successful(),
            None => false,
        }
    }
}

/// The error that a failed resolve reports: the solver's problem
/// descriptions joined line by line, or a fixed text when the problem
/// retrieval itself failed.
pub fn resolve_failure(problems: Option<Vec<String>>) -> (e: Error)
    ensures
        problems matches Some(msgs) ==> (e matches Error::TransactionNotResolved(m) && m@
            == spec_join_lines(msgs@)),
        problems is None ==> (e matches Error::TransactionNotResolved(m) && m@
            == "Unknown error during transaction resolution"@),
{
    match problems {
        Some(msgs) => Error::TransactionNotResolved(join_lines(&msgs)),
        None => Error::TransactionNotResolved(
            String::from_str("Unknown error during transaction resolution"),
        ),
    }
}

/// Resolve before execute: a transaction that has not recorded a result
/// never issues the do-transaction call.
pub proof fn lemma_unresolved_never_executes(t: Transaction)
    requires
        t.result_view() is None,
    ensures
        !spec_should_execute(t),
{
}

/// After a resolve step whose solver reported failure, the execute step
/// issues no do-transaction call.
pub proof fn lemma_failed_resolve_never_executes(
    pre: Transaction,
    post: Transaction,
    reply: Option<(Vec<TransactionItem>, u32)>,
    solver_failed: bool,
)
    requires
        resolve_spec(pre, post, reply, solver_failed),
        solver_failed,
    ensures
        !spec_should_execute(post),
{
}

/// After a resolve step that absorbed a reply without solver failure,
/// the execute step issues the do-transaction call.
pub proof fn lemma_successful_resolve_executes(
    pre: Transaction,
    post: Transaction,
    reply: Option<(Vec<TransactionItem>, u32)>,
    solver_failed: bool,
)
    requires
        resolve_spec(pre, post, reply, solver_failed),
        reply is Some,
        !solver_failed,
    ensures
        spec_should_execute(post),
{
}

} // verus!
