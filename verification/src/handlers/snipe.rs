//! The snipe screens: creating an automated acquisition and cancelling a
//! pending one.

use vstd::prelude::*;
use crate::dialogue::loader::LoaderError;
use crate::errors::AppError;
use crate::errors::ServiceError;
use crate::handlers::main::MainMenu;
use crate::handlers::project::ProjectMenu;
use crate::menu::HandleResult;
use crate::menu::Menu;
use crate::session::ActiveProject;
use crate::session::AppData;
use crate::session::Project;
use crate::session::User;
use crate::session::projects_upserted;

verus! {

/// The create-snipe screen: asks for a wallet count and a deployer
/// address, submits the snipe, then waits on the pending operation under
/// the cancellable primitive.
pub struct CreateSnipe;

/// The submission's outcome, after the prompts were answered.
pub enum SnipeSubmission {
    /// The creation call itself failed.
    Rejected(ServiceError),
    /// The pending operation was raced against the cancel signal:
    /// completed with a project or a snipe error, cancelled, or lost to a
    /// watcher failure.
    Raced(Result<Option<Result<Project, String>>, LoaderError>),
}

/// What the create-snipe turn observed.
pub enum CreateSnipeEvent {
    /// The wallet-count prompt was aborted.
    CountAborted,
    /// The deployer prompt was aborted.
    DeployerAborted,
    /// Both prompts were answered and the snipe was submitted — unless the
    /// requested count is rejected first.
    Submitted { wallet_count: usize, deployer: String, submission: SnipeSubmission },
}

/// The validation message the wallet-count prompt shows for an excessive
/// request.
pub fn validate_wallet_count(requested: usize, owned: usize) -> (r: Result<(), String>)
    ensures
        requested <= owned <==> r is Ok,
        r matches Err(m) ==> m@ == "Wallet amount exceeds available wallets"@,
{
    if requested > owned {
        Err("Wallet amount exceeds available wallets".to_string())
    } else {
        Ok(())
    }
}

impl CreateSnipe {
    /// How the turn relates store, event and result. Without a logged-in
    /// user the turn fails at once. A count above the owned wallets is
    /// rejected before any external call, whatever the event carries as
    /// submission. Only a completed snipe writes: it records the project
    /// and selects it; a cancellation moves to the cancel-snipe screen
    /// carrying the deployer identity.
    pub open spec fn rel(
        self,
        s0: AppData,
        ev: CreateSnipeEvent,
        s1: AppData,
        r: HandleResult,
    ) -> bool {
        match s0.user.0 {
            None => s1 == s0 && r == Err::<Option<Menu>, (Menu, AppError)>(
                (Menu::Main(MainMenu), AppError::UserNotFound),
            ),
            Some(u) => match ev {
                CreateSnipeEvent::CountAborted => s1 == s0 && r == Ok::<
                    Option<Menu>,
                    (Menu, AppError),
                >(Some(Menu::Main(MainMenu))),
                CreateSnipeEvent::DeployerAborted => s1 == s0 && r == Ok::<
                    Option<Menu>,
                    (Menu, AppError),
                >(Some(Menu::Main(MainMenu))),
                CreateSnipeEvent::Submitted { wallet_count, deployer, submission } => {
                    if wallet_count > u.wallets@.len() {
                        s1 == s0 && r == Err::<Option<Menu>, (Menu, AppError)>(
                            (Menu::Main(MainMenu), AppError::WalletCountExceedsAvailable),
                        )
                    } else {
                        match submission {
                            SnipeSubmission::Rejected(e) => s1 == s0 && r == Err::<
                                Option<Menu>,
                                (Menu, AppError),
                            >((Menu::Main(MainMenu), AppError::Service(e))),
                            SnipeSubmission::Raced(Ok(Some(Ok(p)))) => {
                                &&& s1 == (AppData {
                                    projects: s1.projects,
                                    active_project: ActiveProject(Some(p.id)),
                                    ..s0
                                })
                                &&& projects_upserted(s0.projects@, s1.projects@, p)
                                &&& r == Ok::<Option<Menu>, (Menu, AppError)>(
                                    Some(Menu::ProjectMenu(ProjectMenu)),
                                )
                            },
                            SnipeSubmission::Raced(Ok(Some(Err(msg)))) => s1 == s0 && r == Err::<
                                Option<Menu>,
                                (Menu, AppError),
                            >((Menu::Main(MainMenu), AppError::PendingSnipe(msg))),
                            SnipeSubmission::Raced(Ok(None)) => s1 == s0 && (r matches Ok(
                                Some(Menu::CancelSnipe(cs)),
                            ) && cs.deployer@ == deployer@),
                            SnipeSubmission::Raced(Err(le)) => s1 == s0 && (r matches Err(
                                (Menu::CancelSnipe(cs), err),
                            ) && cs.deployer@ == deployer@ && err == AppError::Loader(le)),
                        }
                    }
                },
            },
        }
    }

    /// Consumes one create-snipe turn's event.
    pub fn handle(&self, store: &mut AppData, ev: CreateSnipeEvent) -> (r: HandleResult)
        requires
            old(store).wf(),
        ensures
            final(store).wf(),
            self.rel(*old(store), ev, *final(store), r),
    {
        let owned = match &store.user.0 {
            Some(u) => u.wallets.len(),
            None => {
                return Err((Menu::Main(MainMenu), AppError::UserNotFound));
            },
        };
        match ev {
            CreateSnipeEvent::CountAborted => Ok(Some(Menu::Main(MainMenu))),
            CreateSnipeEvent::DeployerAborted => Ok(Some(Menu::Main(MainMenu))),
            CreateSnipeEvent::Submitted { wallet_count, deployer, submission } => {
                if wallet_count > owned {
                    return Err((Menu::Main(MainMenu), AppError::WalletCountExceedsAvailable));
                }
                match submission {
                    SnipeSubmission::Rejected(e) => Err(
                        (Menu::Main(MainMenu), AppError::Service(e)),
                    ),
                    SnipeSubmission::Raced(Ok(Some(Ok(p)))) => {
                        let id = p.id;
                        store.upsert_project(p);
                        store.set_active(id);
                        Ok(Some(Menu::ProjectMenu(ProjectMenu)))
                    },
                    SnipeSubmission::Raced(Ok(Some(Err(msg)))) => Err(
                        (Menu::Main(MainMenu), AppError::PendingSnipe(msg)),
                    ),
                    SnipeSubmission::Raced(Ok(None)) => Ok(
                        Some(Menu::CancelSnipe(CancelSnipe { deployer })),
                    ),
                    SnipeSubmission::Raced(Err(le)) => Err(
                        (Menu::CancelSnipe(CancelSnipe { deployer }), AppError::Loader(le)),
                    ),
                }
            },
        }
    }
}

/// The cancel-snipe screen: reached after a cancelled wait; asks the
/// service to cancel the pending acquisition for the carried deployer.
pub struct CancelSnipe {
    pub deployer: String,
}

impl CancelSnipe {
    /// How the turn relates store, event and result: the store is never
    /// written — in particular no project is added for a cancelled snipe.
    pub open spec fn rel(
        self,
        s0: AppData,
        ev: Result<(), ServiceError>,
        s1: AppData,
        r: HandleResult,
    ) -> bool {
        s1 == s0 && match ev {
            Err(e) => r == Err::<Option<Menu>, (Menu, AppError)>(
                (Menu::Main(MainMenu), AppError::Service(e)),
            ),
            Ok(()) => r == Ok::<Option<Menu>, (Menu, AppError)>(Some(Menu::Main(MainMenu))),
        }
    }

    /// Consumes the cancel call's outcome.
    pub fn handle(&self, store: &mut AppData, ev: Result<(), ServiceError>) -> (r: HandleResult)
        requires
            old(store).wf(),
        ensures
            final(store).wf(),
            self.rel(*old(store), ev, *final(store), r),
    {
        match ev {
            Err(e) => Err((Menu::Main(MainMenu), AppError::Service(e))),
            Ok(()) => Ok(Some(Menu::Main(MainMenu))),
        }
    }
}

/// A snipe that asks for more wallets than the user owns is rejected
/// before any external call: the turn fails with
/// `WalletCountExceedsAvailable` and the store — and so the main menu's
/// view of it — is unaffected, whatever the submission would have been.
pub proof fn lemma_snipe_count_rejected(
    s0: AppData,
    u: User,
    wallet_count: usize,
    deployer: String,
    submission: SnipeSubmission,
    s1: AppData,
    r: HandleResult,
)
    requires
        s0.user.0 == Some(u),
        wallet_count > u.wallets@.len(),
        CreateSnipe.rel(
            s0,
            CreateSnipeEvent::Submitted { wallet_count, deployer, submission },
            s1,
            r,
        ),
    ensures
        s1 == s0,
        r == Err::<Option<Menu>, (Menu, AppError)>(
            (Menu::Main(MainMenu), AppError::WalletCountExceedsAvailable),
        ),
{
}

/// A snipe whose wait was cancelled moves to the cancel-snipe screen
/// carrying the deployer identity; a successful cancel call then returns
/// to the main menu, and no project was added anywhere along the way.
pub proof fn lemma_cancelled_snipe_adds_nothing(
    s0: AppData,
    u: User,
    wallet_count: usize,
    deployer: String,
    s1: AppData,
    r1: HandleResult,
    cs: CancelSnipe,
    s2: AppData,
    r2: HandleResult,
)
    requires
        s0.user.0 == Some(u),
        wallet_count <= u.wallets@.len(),
        CreateSnipe.rel(
            s0,
            CreateSnipeEvent::Submitted {
                wallet_count,
                deployer,
                submission: SnipeSubmission::Raced(Ok(None)),
            },
            s1,
            r1,
        ),
        r1 == Ok::<Option<Menu>, (Menu, AppError)>(Some(Menu::CancelSnipe(cs))),
        cs.rel(s1, Ok(()), s2, r2),
    ensures
        s1 == s0,
        s2 == s0,
        cs.deployer@ == deployer@,
        r2 == Ok::<Option<Menu>, (Menu, AppError)>(Some(Menu::Main(MainMenu))),
{
}

} // verus!
