//! The manual and automatic buy and sell screens.

use vstd::prelude::*;
use crate::errors::AppError;
use crate::errors::ServiceError;
use crate::handlers::main::MainMenu;
use crate::handlers::project::ProjectMenu;
use crate::menu::HandleResult;
use crate::menu::Menu;
use crate::session::AppData;

verus! {

/// The sell screen: one wallet's holdings (manual) or every wallet's
/// (auto), against the active project.
pub struct Sell {
    pub auto: bool,
}

/// What the sell turn observed.
pub enum SellEvent {
    /// Manual only: the operator backed out of the wallet pick.
    WalletBack,
    /// No active project remained at call time.
    ProjectMissing,
    /// The sell call's outcome.
    Sold(Result<(), ServiceError>),
}

impl Sell {
    /// A sell screen; `auto` sells across every wallet.
    pub fn new(auto: bool) -> (r: Sell)
        ensures
            r == (Sell { auto }),
    {
        Sell { auto }
    }

    /// How the sell turn relates store, event and result: the store is
    /// never written.
    pub open spec fn rel(self, s0: AppData, ev: SellEvent, s1: AppData, r: HandleResult) -> bool {
        s1 == s0 && match ev {
            SellEvent::WalletBack => r == Ok::<Option<Menu>, (Menu, AppError)>(
                Some(Menu::ProjectMenu(ProjectMenu)),
            ),
            SellEvent::ProjectMissing => r == Err::<Option<Menu>, (Menu, AppError)>(
                (Menu::Main(MainMenu), AppError::ProjectNotFound),
            ),
            SellEvent::Sold(Err(e)) => r == Err::<Option<Menu>, (Menu, AppError)>(
                (Menu::ProjectMenu(ProjectMenu), AppError::Service(e)),
            ),
            SellEvent::Sold(Ok(())) => r == Ok::<Option<Menu>, (Menu, AppError)>(
                Some(Menu::ProjectMenu(ProjectMenu)),
            ),
        }
    }

    /// Consumes one sell turn's event. A wallet pick happens only on the
    /// manual path; a sale is only attempted with an active project.
    pub fn handle(&self, store: &mut AppData, ev: SellEvent) -> (r: HandleResult)
        requires
            old(store).wf(),
            ev is WalletBack ==> !self.auto,
            ev is ProjectMissing ==> old(store).active_project.0 is None,
            ev is Sold ==> old(store).active_project.0 is Some,
        ensures
            final(store).wf(),
            self.rel(*old(store), ev, *final(store), r),
    {
        match ev {
            SellEvent::WalletBack => Ok(Some(Menu::ProjectMenu(ProjectMenu))),
            SellEvent::ProjectMissing => Err((Menu::Main(MainMenu), AppError::ProjectNotFound)),
            SellEvent::Sold(Err(e)) => Err((Menu::ProjectMenu(ProjectMenu), AppError::Service(e))),
            SellEvent::Sold(Ok(())) => Ok(Some(Menu::ProjectMenu(ProjectMenu))),
        }
    }
}

/// The buy screen: a prompted amount spent from one wallet (manual) or
/// across every wallet (auto), against the active project.
pub struct Buy {
    pub auto: bool,
}

/// What the buy turn observed.
pub enum BuyEvent {
    /// Manual only: the operator backed out of the wallet pick.
    WalletBack,
    /// No active project remained at call time.
    ProjectMissing,
    /// The amount prompt was aborted.
    AmountAborted,
    /// The buy call's outcome.
    Bought(Result<(), ServiceError>),
}

impl Buy {
    /// A buy screen; `auto` buys across every wallet.
    pub fn new(auto: bool) -> (r: Buy)
        ensures
            r == (Buy { auto }),
    {
        Buy { auto }
    }

    /// How the buy turn relates store, event and result: the store is
    /// never written; a missing project falls back to the main menu.
    pub open spec fn rel(self, s0: AppData, ev: BuyEvent, s1: AppData, r: HandleResult) -> bool {
        s1 == s0 && match ev {
            BuyEvent::WalletBack => r == Ok::<Option<Menu>, (Menu, AppError)>(
                Some(Menu::ProjectMenu(ProjectMenu)),
            ),
            BuyEvent::ProjectMissing => r == Err::<Option<Menu>, (Menu, AppError)>(
                (Menu::Main(MainMenu), AppError::ProjectNotFound),
            ),
            BuyEvent::AmountAborted => r == Ok::<Option<Menu>, (Menu, AppError)>(
                Some(Menu::ProjectMenu(ProjectMenu)),
            ),
            BuyEvent::Bought(Err(e)) => r == Err::<Option<Menu>, (Menu, AppError)>(
                (Menu::ProjectMenu(ProjectMenu), AppError::Service(e)),
            ),
            BuyEvent::Bought(Ok(())) => r == Ok::<Option<Menu>, (Menu, AppError)>(
                Some(Menu::ProjectMenu(ProjectMenu)),
            ),
        }
    }

    /// Consumes one buy turn's event. A wallet pick happens only on the
    /// manual path; a purchase is only attempted with an active project.
    pub fn handle(&self, store: &mut AppData, ev: BuyEvent) -> (r: HandleResult)
        requires
            old(store).wf(),
            ev is WalletBack ==> !self.auto,
            ev is ProjectMissing ==> old(store).active_project.0 is None,
            ev is Bought ==> old(store).active_project.0 is Some,
        ensures
            final(store).wf(),
            self.rel(*old(store), ev, *final(store), r),
    {
        match ev {
            BuyEvent::WalletBack => Ok(Some(Menu::ProjectMenu(ProjectMenu))),
            BuyEvent::ProjectMissing => Err((Menu::Main(MainMenu), AppError::ProjectNotFound)),
            BuyEvent::AmountAborted => Ok(Some(Menu::ProjectMenu(ProjectMenu))),
            BuyEvent::Bought(Err(e)) => Err(
                (Menu::ProjectMenu(ProjectMenu), AppError::Service(e)),
            ),
            BuyEvent::Bought(Ok(())) => Ok(Some(Menu::ProjectMenu(ProjectMenu))),
        }
    }
}

} // verus!
