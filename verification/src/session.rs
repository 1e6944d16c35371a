//! The session store: in-memory state shared by the prompt loop and the
//! background refresh task — the current user, the known projects, the
//! active project selection, the automation (bump) status and whether the
//! service handle is authenticated.

use vstd::prelude::*;

verus! {

/// One sniper wallet owned by the current user.
#[derive(Clone, PartialEq, Eq, Debug)]
pub struct Wallet {
    pub id: i32,
    pub public_key: String,
    pub sol_balance: u64,
    pub token_balance: Option<u64>,
}

/// The authenticated account: its fee-funding address and balance, and the
/// sniper wallets it owns.
#[derive(Clone, PartialEq, Eq, Debug)]
pub struct User {
    pub public_key: String,
    pub sol_balance: u64,
    pub wallets: Vec<Wallet>,
}

/// One project known to the service: its identity, display name, deployer
/// address and token mint.
#[derive(Clone, PartialEq, Eq, Debug)]
pub struct Project {
    pub id: i32,
    pub name: String,
    pub deployer: String,
    pub mint_id: String,
}

/// Status of the server-side bump automation loop, polled for the active
/// project; absence in the store means the loop was never started.
#[derive(Clone, PartialEq, Eq, Debug)]
pub enum PumpfunBumpStatus {
    Pending,
    Running,
    Failed(String),
}

/// The active project selection, if any.
#[derive(Clone, PartialEq, Eq, Debug)]
pub struct ActiveProject(pub Option<i32>);

/// The logged-in user, if any.
#[derive(Clone, PartialEq, Eq, Debug)]
pub struct ActiveUser(pub Option<User>);

/// The last polled automation status, if any.
#[derive(Clone, PartialEq, Eq, Debug)]
pub struct BumpStatus(pub Option<PumpfunBumpStatus>);

/// No two wallets share a public key.
pub open spec fn wallets_unique(ws: Seq<Wallet>) -> bool {
    forall|i: int, j: int|
        0 <= i < j < ws.len() ==> ws[i].public_key@ != ws[j].public_key@
}

/// No two projects share an id.
pub open spec fn projects_unique(ps: Seq<Project>) -> bool {
    forall|i: int, j: int| 0 <= i < j < ps.len() ==> ps[i].id != ps[j].id
}

/// `ps1` is `ps0` with `p` inserted: replacing the project that carried its
/// id, or appended when the id is new.
pub open spec fn projects_upserted(ps0: Seq<Project>, ps1: Seq<Project>, p: Project) -> bool {
    if exists|i: int| 0 <= i < ps0.len() && ps0[i].id == p.id {
        &&& ps1.len() == ps0.len()
        &&& forall|i: int|
            0 <= i < ps0.len() ==> ps1[i] == (if ps0[i].id == p.id {
                p
            } else {
                ps0[i]
            })
    } else {
        ps1 == ps0.push(p)
    }
}

/// `ps1` is `ps0` with the project carrying `id` removed, or `ps0` itself
/// when no project carries it.
pub open spec fn project_removed(ps0: Seq<Project>, ps1: Seq<Project>, id: i32) -> bool {
    if exists|i: int| 0 <= i < ps0.len() && ps0[i].id == id {
        exists|i: int| 0 <= i < ps0.len() && ps0[i].id == id && ps1 == ps0.remove(i)
    } else {
        ps1 == ps0
    }
}

/// `ws1` is `ws0` with `w` inserted: replacing the wallet that carried its
/// public key, or appended when the key is new.
pub open spec fn wallets_upserted(ws0: Seq<Wallet>, ws1: Seq<Wallet>, w: Wallet) -> bool {
    if exists|i: int| 0 <= i < ws0.len() && ws0[i].public_key@ == w.public_key@ {
        &&& ws1.len() == ws0.len()
        &&& forall|i: int|
            0 <= i < ws0.len() ==> ws1[i] == (if ws0[i].public_key@ == w.public_key@ {
                w
            } else {
                ws0[i]
            })
    } else {
        ws1 == ws0.push(w)
    }
}

/// `ws1` is `ws0` with the wallet carrying `key` removed, or `ws0` itself
/// when no wallet carries it.
pub open spec fn wallet_removed(ws0: Seq<Wallet>, ws1: Seq<Wallet>, key: Seq<char>) -> bool {
    if exists|i: int| 0 <= i < ws0.len() && ws0[i].public_key@ == key {
        exists|i: int| 0 <= i < ws0.len() && ws0[i].public_key@ == key && ws1 == ws0.remove(i)
    } else {
        ws1 == ws0
    }
}

/// `u1` is `u0` with its wallet sequence rewritten to `u1.wallets` and
/// nothing else changed.
pub open spec fn user_wallets_rewritten(u0: User, u1: User) -> bool {
    u1 == (User { wallets: u1.wallets, ..u0 })
}

/// `s1` is `s0` with the user's wallet set rewritten and nothing else
/// changed; `rel` describes the rewrite. Without a logged-in user the store
/// is untouched.
pub open spec fn store_wallets_rewritten(
    s0: AppData,
    s1: AppData,
    rel: spec_fn(Seq<Wallet>, Seq<Wallet>) -> bool,
) -> bool {
    &&& s1 == (AppData { user: s1.user, ..s0 })
    &&& (s0.user.0 is None ==> s1 == s0)
    &&& (s0.user.0 matches Some(u) ==> s1.user.0 matches Some(u2) && user_wallets_rewritten(u, u2)
        && rel(u.wallets@, u2.wallets@))
}

/// Every wallet's token balance is reset; the rest of the wallet, the user
/// and the store are kept.
pub open spec fn store_tokens_cleared(s0: AppData, s1: AppData) -> bool {
    store_wallets_rewritten(
        s0,
        s1,
        |ws0: Seq<Wallet>, ws1: Seq<Wallet>|
            {
                &&& ws1.len() == ws0.len()
                &&& forall|i: int|
                    0 <= i < ws0.len() ==> ws1[i] == (Wallet { token_balance: None, ..ws0[i] })
            },
    )
}

/// The session store. Readers must tolerate one refresh cycle of staleness:
/// the active selection may briefly point at a project id that the latest
/// refresh no longer carries, so consumers re-check the pair on every read.
#[derive(Clone, PartialEq, Eq, Debug)]
pub struct AppData {
    pub user: ActiveUser,
    pub projects: Vec<Project>,
    pub active_project: ActiveProject,
    pub bump_status: BumpStatus,
    /// Whether the service handle holds an authentication token.
    pub authenticated: bool,
}

impl AppData {
    /// Well-formedness: project ids are unique, and the user's wallets are
    /// keyed by distinct public keys.
    pub open spec fn wf(self) -> bool {
        &&& projects_unique(self.projects@)
        &&& match self.user.0 {
            Some(u) => wallets_unique(u.wallets@),
            None => true,
        }
    }

    /// Whether some project in the store carries the given id.
    pub open spec fn has_project(self, id: i32) -> bool {
        exists|i: int| 0 <= i < self.projects@.len() && self.projects@[i].id == id
    }

    /// Marks the service handle as holding an authentication token.
    pub fn mark_authenticated(&mut self)
        requires
            old(self).wf(),
        ensures
            final(self).wf(),
            *final(self) == (AppData { authenticated: true, ..*old(self) }),
    {
        self.authenticated = true;
    }

    /// Records the logged-in user.
    pub fn set_user(&mut self, u: User)
        requires
            old(self).wf(),
            wallets_unique(u.wallets@),
        ensures
            final(self).wf(),
            *final(self) == (AppData { user: ActiveUser(Some(u)), ..*old(self) }),
    {
        self.user = ActiveUser(Some(u));
    }

    /// Selects the given project id as active.
    pub fn set_active(&mut self, id: i32)
        requires
            old(self).wf(),
        ensures
            final(self).wf(),
            *final(self) == (AppData { active_project: ActiveProject(Some(id)), ..*old(self) }),
    {
        self.active_project = ActiveProject(Some(id));
    }

    /// Clears the active project selection.
    pub fn clear_active(&mut self)
        requires
            old(self).wf(),
        ensures
            final(self).wf(),
            *final(self) == (AppData { active_project: ActiveProject(None), ..*old(self) }),
    {
        self.active_project = ActiveProject(None);
    }

    /// Overwrites the automation status.
    pub fn set_bump_status(&mut self, s: Option<PumpfunBumpStatus>)
        requires
            old(self).wf(),
        ensures
            final(self).wf(),
            *final(self) == (AppData { bump_status: BumpStatus(s), ..*old(self) }),
    {
        self.bump_status = BumpStatus(s);
    }

    /// Replaces the project set wholesale, as one refresh tick does.
    pub fn replace_projects(&mut self, ps: Vec<Project>)
        requires
            old(self).wf(),
            projects_unique(ps@),
        ensures
            final(self).wf(),
            *final(self) == (AppData { projects: ps, ..*old(self) }),
    {
        self.projects = ps;
    }

    /// Inserts the project, replacing any project that already carries its
    /// id.
    pub fn upsert_project(&mut self, p: Project)
        requires
            old(self).wf(),
        ensures
            final(self).wf(),
            *final(self) == (AppData { projects: final(self).projects, ..*old(self) }),
            projects_upserted(old(self).projects@, final(self).projects@, p),
    {
        let n = self.projects.len();
        let mut i: usize = 0;
        while i < n
            invariant
                old(self).wf(),
                *self == *old(self),
                n == self.projects@.len(),
                0 <= i <= n,
                forall|j: int| 0 <= j < i ==> self.projects@[j].id != p.id,
            decreases n - i,
        {
            if self.projects[i].id == p.id {
                let ghost pre = self.projects@;
                self.projects[i] = p;
                proof {
                    assert(self.projects@ == pre.update(i as int, p));
                    assert forall|a: int, b: int|
                        0 <= a < b < self.projects@.len() implies self.projects@[a].id
                        != self.projects@[b].id by {
                        if a != i as int && b != i as int {
                            assert(self.projects@[a] == pre[a] && self.projects@[b] == pre[b]);
                        } else if a == i as int {
                            assert(self.projects@[a].id == pre[a].id && self.projects@[b]
                                == pre[b]);
                        } else {
                            assert(self.projects@[a] == pre[a] && self.projects@[b].id
                                == pre[b].id);
                        }
                    }
                }
                return ;
            }
            i += 1;
        }
        self.projects.push(p);
    }

    /// Removes the project with the given id, if it is known.
    pub fn remove_project(&mut self, id: i32)
        requires
            old(self).wf(),
        ensures
            final(self).wf(),
            *final(self) == (AppData { projects: final(self).projects, ..*old(self) }),
            project_removed(old(self).projects@, final(self).projects@, id),
            !final(self).has_project(id),
    {
        let n = self.projects.len();
        let mut i: usize = 0;
        while i < n
            invariant
                old(self).wf(),
                *self == *old(self),
                n == self.projects@.len(),
                0 <= i <= n,
                forall|j: int| 0 <= j < i ==> self.projects@[j].id != id,
            decreases n - i,
        {
            if self.projects[i].id == id {
                let ghost pre = self.projects@;
                self.projects.remove(i);
                proof {
                    assert(self.projects@ == pre.remove(i as int));
                    assert forall|a: int, b: int|
                        0 <= a < b < self.projects@.len() implies self.projects@[a].id
                        != self.projects@[b].id by {
                        assert(self.projects@[a] == if a < i as int {
                            pre[a]
                        } else {
                            pre[a + 1]
                        });
                        assert(self.projects@[b] == if b < i as int {
                            pre[b]
                        } else {
                            pre[b + 1]
                        });
                    }
                    assert forall|a: int|
                        0 <= a < self.projects@.len() implies self.projects@[a].id != id by {
                        assert(self.projects@[a] == if a < i as int {
                            pre[a]
                        } else {
                            pre[a + 1]
                        });
                    }
                }
                return ;
            }
            i += 1;
        }
    }

    /// Resets every wallet's token balance, as the main menu does before it
    /// presents its prompt: token balances are only meaningful while a
    /// project is being worked on.
    pub fn clear_token_balances(&mut self)
        requires
            old(self).wf(),
        ensures
            final(self).wf(),
            store_tokens_cleared(*old(self), *final(self)),
    {
        let mut u_opt: Option<User> = None;
        core::mem::swap(&mut self.user.0, &mut u_opt);
        if let Some(mut u) = u_opt {
            let ghost u0 = u;
            let ghost ws0 = u.wallets@;
            let n = u.wallets.len();
            let mut i: usize = 0;
            while i < n
                invariant
                    old(self).user.0 == Some(u0),
                    old(self).wf(),
                    *self == (AppData { user: ActiveUser(None), ..*old(self) }),
                    u == (User { wallets: u.wallets, ..u0 }),
                    ws0 == u0.wallets@,
                    n == u.wallets@.len(),
                    n == ws0.len(),
                    0 <= i <= n,
                    forall|j: int|
                        0 <= j < i ==> u.wallets@[j] == (Wallet {
                            token_balance: None,
                            ..ws0[j]
                        }),
                    forall|j: int| i <= j < n ==> u.wallets@[j] == ws0[j],
                decreases n - i,
            {
                let idv = u.wallets[i].id;
                let pk = u.wallets[i].public_key.clone();
                let sol = u.wallets[i].sol_balance;
                u.wallets[i] = Wallet {
                    id: idv,
                    public_key: pk,
                    sol_balance: sol,
                    token_balance: None,
                };
                i += 1;
            }
            proof {
                assert forall|a: int, b: int|
                    0 <= a < b < u.wallets@.len() implies u.wallets@[a].public_key@
                    != u.wallets@[b].public_key@ by {
                    assert(u.wallets@[a].public_key@ == ws0[a].public_key@);
                    assert(u.wallets@[b].public_key@ == ws0[b].public_key@);
                }
            }
            self.user = ActiveUser(Some(u));
        }
    }

    /// Inserts the wallet into the user's set, replacing any wallet that
    /// already carries its public key; without a logged-in user there is
    /// nothing to add to.
    pub fn upsert_wallet(&mut self, w: Wallet)
        requires
            old(self).wf(),
        ensures
            final(self).wf(),
            store_wallets_rewritten(
                *old(self),
                *final(self),
                |ws0: Seq<Wallet>, ws1: Seq<Wallet>| wallets_upserted(ws0, ws1, w),
            ),
    {
        let mut u_opt: Option<User> = None;
        core::mem::swap(&mut self.user.0, &mut u_opt);
        if let Some(mut u) = u_opt {
            let ghost u0 = u;
            let n = u.wallets.len();
            let mut i: usize = 0;
            while i < n
                invariant
                    old(self).user.0 == Some(u0),
                    old(self).wf(),
                    *self == (AppData { user: ActiveUser(None), ..*old(self) }),
                    u == u0,
                    wallets_unique(u.wallets@),
                    n == u.wallets@.len(),
                    0 <= i <= n,
                    forall|j: int| 0 <= j < i ==> u.wallets@[j].public_key@ != w.public_key@,
                decreases n - i,
            {
                if u.wallets[i].public_key == w.public_key {
                    let ghost pre = u.wallets@;
                    u.wallets[i] = w;
                    proof {
                        assert forall|a: int, b: int|
                            0 <= a < b < u.wallets@.len() implies u.wallets@[a].public_key@
                            != u.wallets@[b].public_key@ by {
                            if a != i as int && b != i as int {
                                assert(u.wallets@[a] == pre[a] && u.wallets@[b] == pre[b]);
                            } else if a == i as int {
                                assert(u.wallets@[a].public_key@ == pre[a].public_key@
                                    && u.wallets@[b] == pre[b]);
                            } else {
                                assert(u.wallets@[a] == pre[a] && u.wallets@[b].public_key@
                                    == pre[b].public_key@);
                            }
                        }
                    }
                    self.user = ActiveUser(Some(u));
                    return ;
                }
                i += 1;
            }
            u.wallets.push(w);
            self.user = ActiveUser(Some(u));
        }
    }

    /// Removes the wallet with the given public key from the user's set, if
    /// both exist.
    pub fn remove_wallet(&mut self, key: &String)
        requires
            old(self).wf(),
        ensures
            final(self).wf(),
            store_wallets_rewritten(
                *old(self),
                *final(self),
                |ws0: Seq<Wallet>, ws1: Seq<Wallet>| wallet_removed(ws0, ws1, key@),
            ),
    {
        let mut u_opt: Option<User> = None;
        core::mem::swap(&mut self.user.0, &mut u_opt);
        if let Some(mut u) = u_opt {
            let ghost u0 = u;
            let n = u.wallets.len();
            let mut i: usize = 0;
            while i < n
                invariant
                    old(self).user.0 == Some(u0),
                    old(self).wf(),
                    *self == (AppData { user: ActiveUser(None), ..*old(self) }),
                    u == u0,
                    wallets_unique(u.wallets@),
                    n == u.wallets@.len(),
                    0 <= i <= n,
                    forall|j: int| 0 <= j < i ==> u.wallets@[j].public_key@ != key@,
                decreases n - i,
            {
                if u.wallets[i].public_key == *key {
                    let ghost pre = u.wallets@;
                    u.wallets.remove(i);
                    proof {
                        assert forall|a: int, b: int|
                            0 <= a < b < u.wallets@.len() implies u.wallets@[a].public_key@
                            != u.wallets@[b].public_key@ by {
                            assert(u.wallets@[a] == if a < i as int {
                                pre[a]
                            } else {
                                pre[a + 1]
                            });
                            assert(u.wallets@[b] == if b < i as int {
                                pre[b]
                            } else {
                                pre[b + 1]
                            });
                        }
                    }
                    self.user = ActiveUser(Some(u));
                    return ;
                }
                i += 1;
            }
            self.user = ActiveUser(Some(u));
        }
    }

    /// The active project's record, if the selection still keys into the
    /// project set. The two fields are updated independently, so a stale
    /// selection simply finds nothing — callers re-check on every read.
    pub fn lookup_active(&self) -> (r: Option<&Project>)
        requires
            self.wf(),
        ensures
            match self.active_project.0 {
                None => r is None,
                Some(pid) => {
                    if self.has_project(pid) {
                        exists|i: int|
                            0 <= i < self.projects@.len() && self.projects@[i].id == pid && (
                            r matches Some(p) && *p == self.projects@[i])
                    } else {
                        r is None
                    }
                },
            },
    {
        let pid = match self.active_project.0 {
            Some(pid) => pid,
            None => {
                return None;
            },
        };
        let n = self.projects.len();
        let mut i: usize = 0;
        while i < n
            invariant
                self.active_project.0 == Some(pid),
                n == self.projects@.len(),
                0 <= i <= n,
                forall|j: int| 0 <= j < i ==> self.projects@[j].id != pid,
            decreases n - i,
        {
            if self.projects[i].id == pid {
                return Some(&self.projects[i]);
            }
            i += 1;
        }
        None
    }

    /// The store as created at process start: empty and unauthenticated.
    pub fn new() -> (r: AppData)
        ensures
            r.wf(),
            r.user.0 is None,
            r.projects@.len() == 0,
            r.active_project.0 is None,
            r.bump_status.0 is None,
            !r.authenticated,
    {
        AppData {
            user: ActiveUser(None),
            projects: Vec::new(),
            active_project: ActiveProject(None),
            bump_status: BumpStatus(None),
            authenticated: false,
        }
    }
}

} // verus!
