//! The background refresh task's per-tick logic.
//!
//! Once authentication is available, the task polls the service on a fixed
//! interval: the project set, a balance snapshot scoped to the active
//! project's mint, and the automation status. A tick's data is written into
//! the session store as one logical refresh — projects replaced wholesale,
//! then balances applied — so a reader sees either the pre-tick or the
//! fully post-tick state, never data mixed from two ticks. On the first
//! fetch failure the task stops and records the reason; it does not retry
//! or restart itself.

use vstd::prelude::*;
use crate::errors::ServiceError;
use crate::session::ActiveUser;
use crate::session::AppData;
use crate::session::BumpStatus;
use crate::session::Project;
use crate::session::PumpfunBumpStatus;
use crate::session::User;
use crate::session::Wallet;
use crate::session::projects_unique;

verus! {

/// One wallet's row in a balance snapshot.
pub struct WalletBalance {
    pub public_key: String,
    pub sol_balance: u64,
    pub token_balance: Option<u64>,
}

/// A balance snapshot: the fee payer's balance and one row per wallet.
pub struct BalanceSnapshot {
    pub user_sol: u64,
    pub wallets: Vec<WalletBalance>,
}

/// The first snapshot row carrying the given key, if any.
pub open spec fn snap_lookup(entries: Seq<WalletBalance>, key: Seq<char>) -> Option<WalletBalance>
    decreases entries.len(),
{
    if entries.len() == 0 {
        None
    } else if entries[0].public_key@ == key {
        Some(entries[0])
    } else {
        snap_lookup(entries.drop_first(), key)
    }
}

/// The wallet with its balances overwritten from the snapshot, where the
/// snapshot knows its key; untouched otherwise.
pub open spec fn wallet_refreshed(w: Wallet, snap: BalanceSnapshot) -> Wallet {
    match snap_lookup(snap.wallets@, w.public_key@) {
        Some(b) => Wallet { sol_balance: b.sol_balance, token_balance: b.token_balance, ..w },
        None => w,
    }
}

/// One tick's data is fully applied: the project set replaced by `ps`, the
/// user's fee balance and every wallet's balances taken from `snap`, and
/// nothing else changed.
pub open spec fn refresh_applied(
    s0: AppData,
    ps: Seq<Project>,
    snap: BalanceSnapshot,
    s1: AppData,
) -> bool {
    &&& s1.projects@ == ps
    &&& s1.active_project == s0.active_project
    &&& s1.bump_status == s0.bump_status
    &&& s1.authenticated == s0.authenticated
    &&& (s0.user.0 is None ==> s1.user == s0.user)
    &&& (s0.user.0 matches Some(u) ==> s1.user.0 matches Some(u2) && u2.public_key == u.public_key
        && u2.sol_balance == snap.user_sol && u2.wallets@.len() == u.wallets@.len() && forall|
        i: int,
    |
        0 <= i < u.wallets@.len() ==> u2.wallets@[i] == wallet_refreshed(u.wallets@[i], snap))
}

/// The snapshot row for `key` at or after position `i`, as the balance
/// pair the store keeps.
fn find_balance_from(snap: &BalanceSnapshot, i: usize, key: &String) -> (r: Option<
    (u64, Option<u64>),
>)
    requires
        i <= snap.wallets@.len(),
    ensures
        r == match snap_lookup(
            snap.wallets@.subrange(i as int, snap.wallets@.len() as int),
            key@,
        ) {
            Some(b) => Some((b.sol_balance, b.token_balance)),
            None => None::<(u64, Option<u64>)>,
        },
    decreases snap.wallets@.len() - i,
{
    let n = snap.wallets.len();
    if i == n {
        return None;
    }
    let ghost tail = snap.wallets@.subrange(i as int, n as int);
    if snap.wallets[i].public_key == *key {
        assert(tail[0] == snap.wallets@[i as int]);
        Some((snap.wallets[i].sol_balance, snap.wallets[i].token_balance))
    } else {
        let r = find_balance_from(snap, i + 1, key);
        proof {
            assert(tail.drop_first() =~= snap.wallets@.subrange(i + 1, n as int));
        }
        r
    }
}

/// The snapshot row for `key`, as the balance pair the store keeps.
fn find_balance(snap: &BalanceSnapshot, key: &String) -> (r: Option<(u64, Option<u64>)>)
    ensures
        r == match snap_lookup(snap.wallets@, key@) {
            Some(b) => Some((b.sol_balance, b.token_balance)),
            None => None::<(u64, Option<u64>)>,
        },
{
    proof {
        assert(snap.wallets@.subrange(0, snap.wallets@.len() as int) =~= snap.wallets@);
    }
    find_balance_from(snap, 0, key)
}

/// The mint the balance fetch is scoped to: the active project's, read
/// from the tick's own freshly fetched project set — a stale selection
/// that the fetch no longer carries simply scopes nothing.
pub fn mint_for_refresh(store: &AppData, fetched: &Vec<Project>) -> (r: Option<String>)
    ensures
        match store.active_project.0 {
            None => r is None,
            Some(pid) => {
                if exists|i: int| 0 <= i < fetched@.len() && fetched@[i].id == pid {
                    exists|i: int|
                        0 <= i < fetched@.len() && fetched@[i].id == pid && (r matches Some(m)
                            && m@ == fetched@[i].mint_id@)
                } else {
                    r is None
                }
            },
        },
{
    let pid = match store.active_project.0 {
        Some(pid) => pid,
        None => {
            return None;
        },
    };
    let n = fetched.len();
    let mut i: usize = 0;
    while i < n
        invariant
            store.active_project.0 == Some(pid),
            n == fetched@.len(),
            0 <= i <= n,
            forall|j: int| 0 <= j < i ==> fetched@[j].id != pid,
        decreases n - i,
    {
        if fetched[i].id == pid {
            return Some(fetched[i].mint_id.clone());
        }
        i += 1;
    }
    None
}

impl AppData {
    /// Applies one tick's project set and balance snapshot as a single
    /// logical refresh.
    pub fn apply_refresh(&mut self, projects: Vec<Project>, balances: &BalanceSnapshot)
        requires
            old(self).wf(),
            projects_unique(projects@),
        ensures
            final(self).wf(),
            refresh_applied(*old(self), projects@, *balances, *final(self)),
    {
        let ghost ps = projects@;
        self.replace_projects(projects);
        let mut u_opt: Option<User> = None;
        core::mem::swap(&mut self.user.0, &mut u_opt);
        if let Some(mut u) = u_opt {
            let ghost u0 = u;
            let ghost mid = *self;
            let ghost ws0 = u.wallets@;
            u.sol_balance = balances.user_sol;
            let n = u.wallets.len();
            let mut i: usize = 0;
            while i < n
                invariant
                    *self == mid,
                    old(self).user.0 == Some(u0),
                    old(self).wf(),
                    u.public_key == u0.public_key,
                    u.sol_balance == balances.user_sol,
                    ws0 == u0.wallets@,
                    n == u.wallets@.len(),
                    n == ws0.len(),
                    0 <= i <= n,
                    forall|j: int|
                        0 <= j < i ==> u.wallets@[j] == wallet_refreshed(ws0[j], *balances),
                    forall|j: int| i <= j < n ==> u.wallets@[j] == ws0[j],
                decreases n - i,
            {
                let idv = u.wallets[i].id;
                let pk = u.wallets[i].public_key.clone();
                let sol = u.wallets[i].sol_balance;
                let tok = u.wallets[i].token_balance;
                let (new_sol, new_tok) = match find_balance(balances, &pk) {
                    Some((s, t)) => (s, t),
                    None => (sol, tok),
                };
                u.wallets[i] = Wallet {
                    id: idv,
                    public_key: pk,
                    sol_balance: new_sol,
                    token_balance: new_tok,
                };
                i += 1;
            }
            proof {
                assert forall|a: int, b: int|
                    0 <= a < b < u.wallets@.len() implies u.wallets@[a].public_key@
                    != u.wallets@[b].public_key@ by {
                    assert(u.wallets@[a].public_key@ == ws0[a].public_key@);
                    assert(u.wallets@[b].public_key@ == ws0[b].public_key@);
                }
            }
            self.user = ActiveUser(Some(u));
        }
    }

    /// Applies one tick's automation-status poll: a missing status means
    /// the loop was never started; any other failure leaves the store
    /// untouched and hands back the reason the task stops with.
    pub fn apply_bump_status(&mut self, fetched: Result<PumpfunBumpStatus, ServiceError>) -> (r:
        Result<(), String>)
        requires
            old(self).wf(),
        ensures
            final(self).wf(),
            match fetched {
                Ok(st) => *final(self) == (AppData {
                    bump_status: BumpStatus(Some(st)),
                    ..*old(self)
                }) && r is Ok,
                Err(ServiceError::NotFound) => *final(self) == (AppData {
                    bump_status: BumpStatus(None),
                    ..*old(self)
                }) && r is Ok,
                Err(e) => *final(self) == *old(self) && (r matches Err(m) && m@
                    == e.message_spec()),
            },
    {
        match fetched {
            Ok(st) => {
                self.set_bump_status(Some(st));
                Ok(())
            },
            Err(ServiceError::NotFound) => {
                self.set_bump_status(None);
                Ok(())
            },
            Err(e) => Err(e.message()),
        }
    }
}

/// What one poll tick observed. The balance fetch happens only after the
/// project fetch succeeded (it is scoped by [`mint_for_refresh`]), and the
/// status fetch after both.
pub enum RefreshEvent {
    /// The project fetch failed.
    ProjectsFailed(ServiceError),
    /// The balance fetch failed.
    BalancesFailed { projects: Vec<Project>, err: ServiceError },
    /// Both fetches succeeded; the status poll's outcome follows.
    Fetched {
        projects: Vec<Project>,
        balances: BalanceSnapshot,
        bumps: Result<PumpfunBumpStatus, ServiceError>,
    },
}

impl RefreshEvent {
    /// A fetched project set carries distinct ids.
    pub open spec fn wf(self) -> bool {
        match self {
            RefreshEvent::Fetched { projects, .. } => projects_unique(projects@),
            _ => true,
        }
    }
}

/// Consumes one poll tick: a fetch failure stops the task with its reason
/// and writes nothing of that tick's data; a fetched tick is applied as
/// one logical refresh, and only then can the status poll's failure stop
/// the task.
pub fn refresh_tick(store: &mut AppData, ev: RefreshEvent) -> (r: Result<(), String>)
    requires
        old(store).wf(),
        ev.wf(),
    ensures
        final(store).wf(),
        match ev {
            RefreshEvent::ProjectsFailed(e) => *final(store) == *old(store) && (r matches Err(m)
                && m@ == e.message_spec()),
            RefreshEvent::BalancesFailed { err: e, .. } => *final(store) == *old(store) && (
            r matches Err(m) && m@ == e.message_spec()),
            RefreshEvent::Fetched { projects, balances, bumps } => match bumps {
                Ok(st) => refresh_applied(
                    AppData { bump_status: BumpStatus(Some(st)), ..*old(store) },
                    projects@,
                    balances,
                    *final(store),
                ) && r is Ok,
                Err(ServiceError::NotFound) => refresh_applied(
                    AppData { bump_status: BumpStatus(None), ..*old(store) },
                    projects@,
                    balances,
                    *final(store),
                ) && r is Ok,
                Err(e) => refresh_applied(*old(store), projects@, balances, *final(store)) && (
                r matches Err(m) && m@ == e.message_spec()),
            },
        },
{
    match ev {
        RefreshEvent::ProjectsFailed(e) => Err(e.message()),
        RefreshEvent::BalancesFailed { projects: _, err } => Err(err.message()),
        RefreshEvent::Fetched { projects, balances, bumps } => {
            store.apply_refresh(projects, &balances);
            store.apply_bump_status(bumps)
        },
    }
}

} // verus!
