//! The closed set of screens, and what a screen's turn can produce.

use vstd::prelude::*;
use crate::errors::AppError;
use crate::errors::ServiceError;
use crate::handlers::auth::Login;
use crate::handlers::auth::LoginEvent;
use crate::handlers::auth::Signup;
use crate::handlers::auth::SignupEvent;
use crate::handlers::bumps::BumpMenu;
use crate::handlers::bumps::StartBumps;
use crate::handlers::bumps::StopBumps;
use crate::handlers::main::Export;
use crate::handlers::main::MainMenu;
use crate::handlers::project::CreateProject;
use crate::handlers::project::CreateProjectEvent;
use crate::handlers::project::DeleteProject;
use crate::handlers::project::DeleteProjectEvent;
use crate::handlers::project::ProjectMenu;
use crate::handlers::project::SelectProject;
use crate::handlers::snipe::CancelSnipe;
use crate::handlers::snipe::CreateSnipe;
use crate::handlers::snipe::CreateSnipeEvent;
use crate::handlers::trade::Buy;
use crate::handlers::trade::BuyEvent;
use crate::handlers::trade::Sell;
use crate::handlers::trade::SellEvent;
use crate::handlers::wallet::DeleteWallet;
use crate::handlers::wallet::DeleteWalletEvent;
use crate::handlers::wallet::Deposit;
use crate::handlers::wallet::DepositEvent;
use crate::handlers::wallet::ImportWallet;
use crate::handlers::wallet::ImportWalletEvent;
use crate::handlers::wallet::RecoverSol;
use crate::handlers::wallet::RecoverSolEvent;
use crate::handlers::wallet::SendSOL;
use crate::handlers::wallet::SendSOLEvent;
use crate::handlers::wallet::WalletMenu;
use crate::handlers::wallet::WalletMenuEvent;
use crate::handlers::wallet::Withdraw;
use crate::handlers::wallet::WithdrawEvent;
use crate::handlers::bumps::StartBumpsEvent;
use crate::session::AppData;

verus! {

/// Every screen the console can stand on. A screen carries only the
/// minimal context it needs; the variant set is closed, so every
/// transition is enumerable.
pub enum Menu {
    Main(MainMenu),
    Login(Login),
    Bump(BumpMenu),
    Signup(Signup),
    Wallet(WalletMenu),
    Send(SendSOL),
    ImportWallet(ImportWallet),
    DeleteWallet(DeleteWallet),
    Buy(Buy),
    StartBumps(StartBumps),
    StopBumps(StopBumps),
    DeleteProject(DeleteProject),
    CancelSnipe(CancelSnipe),
    CreateSnipe(CreateSnipe),
    Sell(Sell),
    Withdraw(Withdraw),
    Deposit(Deposit),
    ProjectMenu(ProjectMenu),
    CreateProject(CreateProject),
    SelectProject(SelectProject),
    RecoverSol(RecoverSol),
    Export(Export),
}

/// What one screen's turn produces: the next screen, a terminal exit
/// (`Ok(None)`), or an error paired with the screen to resume at.
pub type HandleResult = Result<Option<Menu>, (Menu, AppError)>;

/// One screen's observed event, wrapped for the dispatcher; each variant
/// belongs to the screen of the same name.
pub enum ScreenEvent {
    Main(Result<usize, String>),
    Login(LoginEvent),
    Bump(Result<usize, String>),
    Signup(SignupEvent),
    Wallet(WalletMenuEvent),
    Send(SendSOLEvent),
    ImportWallet(ImportWalletEvent),
    DeleteWallet(DeleteWalletEvent),
    Buy(BuyEvent),
    StartBumps(StartBumpsEvent),
    StopBumps(Result<(), ServiceError>),
    DeleteProject(DeleteProjectEvent),
    CancelSnipe(Result<(), ServiceError>),
    CreateSnipe(CreateSnipeEvent),
    Sell(SellEvent),
    Withdraw(WithdrawEvent),
    Deposit(DepositEvent),
    ProjectMenu(Result<usize, String>),
    CreateProject(CreateProjectEvent),
    SelectProject(usize),
    RecoverSol(RecoverSolEvent),
    Export(Result<String, ServiceError>),
}

/// Whether the event belongs to the screen and meets the screen's own
/// preconditions on the store.
pub open spec fn event_ok(m: Menu, s: AppData, ev: ScreenEvent) -> bool {
    match (m, ev) {
        (Menu::Main(_), ScreenEvent::Main(sel)) => s.active_project.0 is None && (sel matches Ok(i)
            ==> i < 8),
        (Menu::Login(_), ScreenEvent::Login(e)) => e.wf(),
        (Menu::Signup(_), ScreenEvent::Signup(e)) => e.wf(),
        (Menu::Bump(_), ScreenEvent::Bump(sel)) => sel matches Ok(i) ==> i < 3,
        (Menu::ProjectMenu(_), ScreenEvent::ProjectMenu(sel)) => sel matches Ok(i) ==> i < 7,
        (Menu::SelectProject(_), ScreenEvent::SelectProject(i)) => i <= s.projects@.len(),
        (Menu::Wallet(_), ScreenEvent::Wallet(e)) => e matches WalletMenuEvent::Chosen {
            selection: Ok(i),
            ..
        } ==> i < 5,
        (Menu::Sell(h), ScreenEvent::Sell(e)) => (e is WalletBack ==> !h.auto) && (e
            is ProjectMissing ==> s.active_project.0 is None) && (e is Sold ==> s.active_project.0
            is Some),
        (Menu::Buy(h), ScreenEvent::Buy(e)) => (e is WalletBack ==> !h.auto) && (e
            is ProjectMissing ==> s.active_project.0 is None) && (e is Bought ==> s.active_project.0
            is Some),
        (Menu::Withdraw(_), ScreenEvent::Withdraw(e)) => (e is UserMissing ==> s.user.0 is None) && (
        e is Transferred ==> s.user.0 is Some),
        (Menu::StartBumps(_), ScreenEvent::StartBumps(e)) => (e is ProjectMissing
            ==> s.active_project.0 is None) && (e is Enabled ==> s.active_project.0 is Some),
        (Menu::Send(_), ScreenEvent::Send(_)) => true,
        (Menu::ImportWallet(_), ScreenEvent::ImportWallet(_)) => true,
        (Menu::DeleteWallet(_), ScreenEvent::DeleteWallet(_)) => true,
        (Menu::StopBumps(_), ScreenEvent::StopBumps(_)) => true,
        (Menu::DeleteProject(_), ScreenEvent::DeleteProject(_)) => true,
        (Menu::CancelSnipe(_), ScreenEvent::CancelSnipe(_)) => true,
        (Menu::CreateSnipe(_), ScreenEvent::CreateSnipe(_)) => true,
        (Menu::Deposit(_), ScreenEvent::Deposit(_)) => true,
        (Menu::CreateProject(_), ScreenEvent::CreateProject(_)) => true,
        (Menu::RecoverSol(_), ScreenEvent::RecoverSol(_)) => true,
        (Menu::Export(_), ScreenEvent::Export(_)) => true,
        _ => false,
    }
}

/// The dispatcher's transition relation: each screen's own relation,
/// selected by the screen.
pub open spec fn step_rel(m: Menu, s0: AppData, ev: ScreenEvent, s1: AppData, r: HandleResult) -> bool {
    match (m, ev) {
        (Menu::Main(h), ScreenEvent::Main(sel)) => h.rel(s0, sel, s1, r),
        (Menu::Login(h), ScreenEvent::Login(e)) => h.rel(s0, e, s1, r),
        (Menu::Signup(h), ScreenEvent::Signup(e)) => h.rel(s0, e, s1, r),
        (Menu::Bump(h), ScreenEvent::Bump(sel)) => h.rel(s0, sel, s1, r),
        (Menu::ProjectMenu(h), ScreenEvent::ProjectMenu(sel)) => h.rel(s0, sel, s1, r),
        (Menu::SelectProject(h), ScreenEvent::SelectProject(i)) => h.rel(s0, i, s1, r),
        (Menu::Wallet(h), ScreenEvent::Wallet(e)) => h.rel(s0, e, s1, r),
        (Menu::Sell(h), ScreenEvent::Sell(e)) => h.rel(s0, e, s1, r),
        (Menu::Buy(h), ScreenEvent::Buy(e)) => h.rel(s0, e, s1, r),
        (Menu::Withdraw(h), ScreenEvent::Withdraw(e)) => h.rel(s0, e, s1, r),
        (Menu::StartBumps(h), ScreenEvent::StartBumps(e)) => h.rel(s0, e, s1, r),
        (Menu::Send(h), ScreenEvent::Send(e)) => h.rel(s0, e, s1, r),
        (Menu::ImportWallet(h), ScreenEvent::ImportWallet(e)) => h.rel(s0, e, s1, r),
        (Menu::DeleteWallet(h), ScreenEvent::DeleteWallet(e)) => h.rel(s0, e, s1, r),
        (Menu::StopBumps(h), ScreenEvent::StopBumps(e)) => h.rel(s0, e, s1, r),
        (Menu::DeleteProject(h), ScreenEvent::DeleteProject(e)) => h.rel(s0, e, s1, r),
        (Menu::CancelSnipe(h), ScreenEvent::CancelSnipe(e)) => h.rel(s0, e, s1, r),
        (Menu::CreateSnipe(h), ScreenEvent::CreateSnipe(e)) => h.rel(s0, e, s1, r),
        (Menu::Deposit(h), ScreenEvent::Deposit(e)) => h.rel(s0, e, s1, r),
        (Menu::CreateProject(h), ScreenEvent::CreateProject(e)) => h.rel(s0, e, s1, r),
        (Menu::RecoverSol(h), ScreenEvent::RecoverSol(e)) => h.rel(s0, e, s1, r),
        (Menu::Export(h), ScreenEvent::Export(e)) => h.rel(s0, e, s1, r),
        _ => false,
    }
}

/// The store as it stood immediately before the turn's external call could
/// fail: for the login and signup turns that had already authenticated,
/// the token is recorded; for every other turn it is the store unchanged.
pub open spec fn pre_failure_state(m: Menu, s0: AppData, ev: ScreenEvent) -> AppData {
    match (m, ev) {
        (Menu::Login(_), ScreenEvent::Login(LoginEvent::LoggedIn { .. })) => AppData {
            authenticated: true,
            ..s0
        },
        (Menu::Signup(_), ScreenEvent::Signup(SignupEvent::Completed(_))) => AppData {
            authenticated: true,
            ..s0
        },
        _ => s0,
    }
}

impl Menu {
    /// Consumes one turn's event for whichever screen the console stands
    /// on. Besides each screen's own relation, two facts hold of every
    /// screen: the terminal exit is produced only by the main menu, and a
    /// failed turn leaves the store exactly as it stood before the failing
    /// call — no partial writes.
    pub fn handle(&self, store: &mut AppData, ev: ScreenEvent) -> (r: HandleResult)
        requires
            old(store).wf(),
            event_ok(*self, *old(store), ev),
        ensures
            final(store).wf(),
            step_rel(*self, *old(store), ev, *final(store), r),
            r matches Ok(None::<Menu>) ==> self matches Menu::Main(_),
            r is Err ==> *final(store) == pre_failure_state(*self, *old(store), ev),
    {
        match self {
            Menu::Main(h) => match ev {
                ScreenEvent::Main(e) => h.handle(store, e),
                _ => unreached(),
            },
            Menu::Login(h) => match ev {
                ScreenEvent::Login(e) => h.handle(store, e),
                _ => unreached(),
            },
            Menu::Signup(h) => match ev {
                ScreenEvent::Signup(e) => h.handle(store, e),
                _ => unreached(),
            },
            Menu::Bump(h) => match ev {
                ScreenEvent::Bump(e) => h.handle(store, e),
                _ => unreached(),
            },
            Menu::ProjectMenu(h) => match ev {
                ScreenEvent::ProjectMenu(e) => h.handle(store, e),
                _ => unreached(),
            },
            Menu::SelectProject(h) => match ev {
                ScreenEvent::SelectProject(i) => h.handle(store, i),
                _ => unreached(),
            },
            Menu::Wallet(h) => match ev {
                ScreenEvent::Wallet(e) => h.handle(store, e),
                _ => unreached(),
            },
            Menu::Sell(h) => match ev {
                ScreenEvent::Sell(e) => h.handle(store, e),
                _ => unreached(),
            },
            Menu::Buy(h) => match ev {
                ScreenEvent::Buy(e) => h.handle(store, e),
                _ => unreached(),
            },
            Menu::Withdraw(h) => match ev {
                ScreenEvent::Withdraw(e) => h.handle(store, e),
                _ => unreached(),
            },
            Menu::StartBumps(h) => match ev {
                ScreenEvent::StartBumps(e) => h.handle(store, e),
                _ => unreached(),
            },
            Menu::Send(h) => match ev {
                ScreenEvent::Send(e) => h.handle(store, e),
                _ => unreached(),
            },
            Menu::ImportWallet(h) => match ev {
                ScreenEvent::ImportWallet(e) => h.handle(store, e),
                _ => unreached(),
            },
            Menu::DeleteWallet(h) => match ev {
                ScreenEvent::DeleteWallet(e) => h.handle(store, e),
                _ => unreached(),
            },
            Menu::StopBumps(h) => match ev {
                ScreenEvent::StopBumps(e) => h.handle(store, e),
                _ => unreached(),
            },
            Menu::DeleteProject(h) => match ev {
                ScreenEvent::DeleteProject(e) => h.handle(store, e),
                _ => unreached(),
            },
            Menu::CancelSnipe(h) => match ev {
                ScreenEvent::CancelSnipe(e) => h.handle(store, e),
                _ => unreached(),
            },
            Menu::CreateSnipe(h) => match ev {
                ScreenEvent::CreateSnipe(e) => h.handle(store, e),
                _ => unreached(),
            },
            Menu::Deposit(h) => match ev {
                ScreenEvent::Deposit(e) => h.handle(store, e),
                _ => unreached(),
            },
            Menu::CreateProject(h) => match ev {
                ScreenEvent::CreateProject(e) => h.handle(store, e),
                _ => unreached(),
            },
            Menu::RecoverSol(h) => match ev {
                ScreenEvent::RecoverSol(e) => h.handle(store, e),
                _ => unreached(),
            },
            Menu::Export(h) => match ev {
                ScreenEvent::Export(e) => h.handle(store, e),
                _ => unreached(),
            },
        }
    }
}

/// Over every sequence of transitions the machine stays on the closed
/// screen set by construction; the terminal exit is reachable only from
/// the main menu, and only through its explicit exit entry.
pub proof fn lemma_exit_only_from_main(
    m: Menu,
    s0: AppData,
    ev: ScreenEvent,
    s1: AppData,
    r: HandleResult,
)
    requires
        event_ok(m, s0, ev),
        step_rel(m, s0, ev, s1, r),
        r == Ok::<Option<Menu>, (Menu, AppError)>(None),
    ensures
        m matches Menu::Main(_),
        ev matches ScreenEvent::Main(sel) && sel == Ok::<usize, String>(7),
{
}

/// For every failure outcome the store is unchanged relative to its state
/// immediately before the failing external call: the failing call itself
/// wrote nothing, and only an already-successful authentication has
/// landed.
pub proof fn lemma_failure_preserves_store(
    m: Menu,
    s0: AppData,
    ev: ScreenEvent,
    s1: AppData,
    r: HandleResult,
)
    requires
        event_ok(m, s0, ev),
        step_rel(m, s0, ev, s1, r),
        r is Err,
    ensures
        s1 == pre_failure_state(m, s0, ev),
{
}

} // verus!
