//! The main menu and the export screen.

use vstd::prelude::*;
use crate::errors::AppError;
use crate::errors::ServiceError;
use crate::handlers::project::CreateProject;
use crate::handlers::project::SelectProject;
use crate::handlers::snipe::CreateSnipe;
use crate::handlers::wallet::ImportWallet;
use crate::handlers::wallet::RecoverSol;
use crate::handlers::wallet::WalletMenu;
use crate::menu::HandleResult;
use crate::menu::Menu;
use crate::session::AppData;
use crate::session::ActiveProject;
use crate::session::store_tokens_cleared;

verus! {

/// The top screen, from which every workflow starts and to which every
/// workflow returns; the only screen that can end the program.
pub struct MainMenu;

/// The main menu's entries, in prompt order.
pub enum MainMenuOptions {
    Snipe,
    NewProject,
    LoadProject,
    Wallets,
    RecoverSOL,
    ImportWallet,
    Export,
    Exit,
}

impl MainMenuOptions {
    /// The entry's prompt label.
    pub open spec fn label_spec(self) -> Seq<char> {
        match self {
            MainMenuOptions::Snipe => "Snipe"@,
            MainMenuOptions::NewProject => "ImportToken"@,
            MainMenuOptions::LoadProject => "Tokens"@,
            MainMenuOptions::Wallets => "Wallets"@,
            MainMenuOptions::ImportWallet => "ImportWallet"@,
            MainMenuOptions::RecoverSOL => "RecoverSOL"@,
            MainMenuOptions::Export => "Export"@,
            MainMenuOptions::Exit => "Exit"@,
        }
    }

    /// The entry's prompt label.
    pub fn to_string(&self) -> (r: String)
        ensures
            r@ == self.label_spec(),
    {
        match self {
            MainMenuOptions::Snipe => "Snipe".to_string(),
            MainMenuOptions::NewProject => "ImportToken".to_string(),
            MainMenuOptions::LoadProject => "Tokens".to_string(),
            MainMenuOptions::Wallets => "Wallets".to_string(),
            MainMenuOptions::ImportWallet => "ImportWallet".to_string(),
            MainMenuOptions::RecoverSOL => "RecoverSOL".to_string(),
            MainMenuOptions::Export => "Export".to_string(),
            MainMenuOptions::Exit => "Exit".to_string(),
        }
    }

    /// The entry at the given prompt index.
    pub open spec fn from_index_spec(value: int) -> Option<MainMenuOptions> {
        if value == 0 {
            Some(MainMenuOptions::Snipe)
        } else if value == 1 {
            Some(MainMenuOptions::NewProject)
        } else if value == 2 {
            Some(MainMenuOptions::LoadProject)
        } else if value == 3 {
            Some(MainMenuOptions::Wallets)
        } else if value == 4 {
            Some(MainMenuOptions::ImportWallet)
        } else if value == 5 {
            Some(MainMenuOptions::RecoverSOL)
        } else if value == 6 {
            Some(MainMenuOptions::Export)
        } else if value == 7 {
            Some(MainMenuOptions::Exit)
        } else {
            None
        }
    }

    /// The entry at the given prompt index, if it is one.
    pub fn from_index(value: usize) -> (r: Option<MainMenuOptions>)
        ensures
            r == Self::from_index_spec(value as int),
    {
        match value {
            0 => Some(MainMenuOptions::Snipe),
            1 => Some(MainMenuOptions::NewProject),
            2 => Some(MainMenuOptions::LoadProject),
            3 => Some(MainMenuOptions::Wallets),
            4 => Some(MainMenuOptions::ImportWallet),
            5 => Some(MainMenuOptions::RecoverSOL),
            6 => Some(MainMenuOptions::Export),
            7 => Some(MainMenuOptions::Exit),
            _ => None,
        }
    }
}

impl MainMenu {
    /// Where each prompt index leads; index 7 is the explicit exit, the
    /// only terminal transition of the whole machine.
    pub open spec fn route_spec(i: int) -> Option<Menu> {
        match Self::from_index_spec(i) {
            Some(MainMenuOptions::Snipe) => Some(Menu::CreateSnipe(CreateSnipe)),
            Some(MainMenuOptions::NewProject) => Some(Menu::CreateProject(CreateProject)),
            Some(MainMenuOptions::LoadProject) => Some(Menu::SelectProject(SelectProject)),
            Some(MainMenuOptions::Wallets) => Some(Menu::Wallet(WalletMenu)),
            Some(MainMenuOptions::ImportWallet) => Some(Menu::ImportWallet(ImportWallet)),
            Some(MainMenuOptions::RecoverSOL) => Some(Menu::RecoverSol(RecoverSol)),
            Some(MainMenuOptions::Export) => Some(Menu::Export(Export)),
            _ => None,
        }
    }

    /// The prompt index of a main-menu entry.
    pub open spec fn from_index_spec(i: int) -> Option<MainMenuOptions> {
        MainMenuOptions::from_index_spec(i)
    }

    /// What runs before the prompt: a still-active project selection is
    /// cleared and the main menu re-entered at once — a void transition
    /// with a side effect, forcing a return to the top after project work —
    /// and otherwise the stale token balances are reset.
    pub fn prepare(&self, store: &mut AppData) -> (r: Option<Menu>)
        requires
            old(store).wf(),
        ensures
            final(store).wf(),
            old(store).active_project.0 is Some ==> r == Some(Menu::Main(MainMenu))
                && *final(store) == (AppData {
                active_project: ActiveProject(None),
                ..*old(store)
            }),
            old(store).active_project.0 is None ==> r is None && store_tokens_cleared(
                *old(store),
                *final(store),
            ),
    {
        if store.active_project.0.is_some() {
            store.clear_active();
            return Some(Menu::Main(MainMenu));
        }
        store.clear_token_balances();
        None
    }

    /// How the prompted selection relates store, event and result. The
    /// store is already prepared, so the selection turn writes nothing.
    pub open spec fn rel(
        self,
        s0: AppData,
        ev: Result<usize, String>,
        s1: AppData,
        r: HandleResult,
    ) -> bool {
        s1 == s0 && match ev {
            Err(msg) => r matches Err((Menu::Main(MainMenu), AppError::Dialogue(m))) && m@ == msg@,
            Ok(i) => r == Ok::<Option<Menu>, (Menu, AppError)>(Self::route_spec(i as int)),
        }
    }

    /// Consumes the prompt's selection. The caller ran [`Self::prepare`]
    /// first, so no active selection remains; an index is one the prompt
    /// can produce.
    pub fn handle(&self, store: &mut AppData, ev: Result<usize, String>) -> (r: HandleResult)
        requires
            old(store).wf(),
            old(store).active_project.0 is None,
            ev matches Ok(i) ==> i < 8,
        ensures
            final(store).wf(),
            self.rel(*old(store), ev, *final(store), r),
            r matches Ok(None::<Menu>) ==> ev == Ok::<usize, String>(7),
    {
        match ev {
            Err(msg) => Err((Menu::Main(MainMenu), AppError::Dialogue(msg))),
            Ok(i) => match MainMenuOptions::from_index(i) {
                Some(MainMenuOptions::Snipe) => Ok(Some(Menu::CreateSnipe(CreateSnipe))),
                Some(MainMenuOptions::NewProject) => Ok(Some(Menu::CreateProject(CreateProject))),
                Some(MainMenuOptions::LoadProject) => Ok(Some(Menu::SelectProject(SelectProject))),
                Some(MainMenuOptions::Wallets) => Ok(Some(Menu::Wallet(WalletMenu))),
                Some(MainMenuOptions::ImportWallet) => Ok(Some(Menu::ImportWallet(ImportWallet))),
                Some(MainMenuOptions::RecoverSOL) => Ok(Some(Menu::RecoverSol(RecoverSol))),
                Some(MainMenuOptions::Export) => Ok(Some(Menu::Export(Export))),
                Some(MainMenuOptions::Exit) => Ok(None),
                None => unreached(),
            },
        }
    }
}

/// The export screen: asks the service for the account's export blob; the
/// caller renders it and waits for acknowledgment.
pub struct Export;

impl Export {
    /// How the export turn relates store, event and result: the store is
    /// never written, a failure falls back to the main menu.
    pub open spec fn rel(
        self,
        s0: AppData,
        ev: Result<String, ServiceError>,
        s1: AppData,
        r: HandleResult,
    ) -> bool {
        s1 == s0 && match ev {
            Err(e) => r == Err::<Option<Menu>, (Menu, AppError)>(
                (Menu::Main(MainMenu), AppError::Service(e)),
            ),
            Ok(_) => r == Ok::<Option<Menu>, (Menu, AppError)>(Some(Menu::Main(MainMenu))),
        }
    }

    /// Consumes the export call's outcome.
    pub fn handle(&self, store: &mut AppData, ev: Result<String, ServiceError>) -> (r: HandleResult)
        requires
            old(store).wf(),
        ensures
            final(store).wf(),
            self.rel(*old(store), ev, *final(store), r),
    {
        match ev {
            Err(e) => Err((Menu::Main(MainMenu), AppError::Service(e))),
            Ok(_) => Ok(Some(Menu::Main(MainMenu))),
        }
    }
}

} // verus!
