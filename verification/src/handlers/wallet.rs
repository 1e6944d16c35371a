//! The wallet screens: the wallet menu and pick, import, delete, recovery
//! and the three transfer directions.

use vstd::prelude::*;
use crate::errors::AppError;
use crate::errors::ServiceError;
use crate::handlers::main::MainMenu;
use crate::menu::HandleResult;
use crate::menu::Menu;
use crate::session::AppData;
use crate::session::Wallet;
use crate::session::wallet_removed;
use crate::session::wallets_upserted;
use crate::session::store_wallets_rewritten;

verus! {

/// How many wallets the pick prompt lists.
pub open spec fn wallet_count(s: AppData) -> int {
    match s.user.0 {
        Some(u) => u.wallets@.len() as int,
        None => 0,
    }
}

/// The wallet picked at the given prompt index, or `None` for the closing
/// `Back` entry. The labels the prompt showed are rendered by the caller;
/// their order is the store's wallet order.
pub fn select_wallet(store: &AppData, index: usize) -> (r: Option<Wallet>)
    requires
        index <= wallet_count(*store),
    ensures
        index as int == wallet_count(*store) ==> r is None,
        (index as int) < wallet_count(*store) ==> (store.user.0 matches Some(u) && r matches Some(
            w,
        ) && w == u.wallets@[index as int]),
{
    match &store.user.0 {
        Some(u) => {
            if index < u.wallets.len() {
                let w = &u.wallets[index];
                Some(
                    Wallet {
                        id: w.id,
                        public_key: w.public_key.clone(),
                        sol_balance: w.sol_balance,
                        token_balance: w.token_balance,
                    },
                )
            } else {
                None
            }
        },
        None => None,
    }
}

/// The wallet menu's entries, in prompt order.
pub enum WalletMenuOptions {
    Withdraw,
    Deposit,
    Send,
    Delete,
    Back,
}

impl WalletMenuOptions {
    /// The entry's prompt label.
    pub open spec fn label_spec(self) -> Seq<char> {
        match self {
            WalletMenuOptions::Withdraw => "Withdraw"@,
            WalletMenuOptions::Deposit => "Deposit"@,
            WalletMenuOptions::Send => "Send"@,
            WalletMenuOptions::Delete => "Delete"@,
            WalletMenuOptions::Back => "Back"@,
        }
    }

    /// The entry's prompt label.
    pub fn to_string(&self) -> (r: String)
        ensures
            r@ == self.label_spec(),
    {
        match self {
            WalletMenuOptions::Withdraw => "Withdraw".to_string(),
            WalletMenuOptions::Deposit => "Deposit".to_string(),
            WalletMenuOptions::Send => "Send".to_string(),
            WalletMenuOptions::Delete => "Delete".to_string(),
            WalletMenuOptions::Back => "Back".to_string(),
        }
    }

    /// The entry at the given prompt index.
    pub open spec fn from_index_spec(value: int) -> Option<WalletMenuOptions> {
        if value == 0 {
            Some(WalletMenuOptions::Withdraw)
        } else if value == 1 {
            Some(WalletMenuOptions::Deposit)
        } else if value == 2 {
            Some(WalletMenuOptions::Send)
        } else if value == 3 {
            Some(WalletMenuOptions::Delete)
        } else if value == 4 {
            Some(WalletMenuOptions::Back)
        } else {
            None
        }
    }

    /// The entry at the given prompt index, if it is one.
    pub fn from_index(value: usize) -> (r: Option<WalletMenuOptions>)
        ensures
            r == Self::from_index_spec(value as int),
    {
        match value {
            0 => Some(WalletMenuOptions::Withdraw),
            1 => Some(WalletMenuOptions::Deposit),
            2 => Some(WalletMenuOptions::Send),
            3 => Some(WalletMenuOptions::Delete),
            4 => Some(WalletMenuOptions::Back),
            _ => None,
        }
    }
}

/// The wallet menu: one wallet is picked, then an operation on it.
pub struct WalletMenu;

/// What the wallet-menu turn observed.
pub enum WalletMenuEvent {
    /// The operator backed out of the wallet pick.
    Back,
    /// A wallet was picked; the operation prompt's outcome follows.
    Chosen { wallet: Wallet, selection: Result<usize, String> },
}

impl WalletMenu {
    /// Where each prompt index leads, carrying the picked wallet.
    pub open spec fn route_spec(w: Wallet, i: int) -> Option<Menu> {
        match WalletMenuOptions::from_index_spec(i) {
            Some(WalletMenuOptions::Withdraw) => Some(Menu::Withdraw(Withdraw { wallet: w })),
            Some(WalletMenuOptions::Deposit) => Some(Menu::Deposit(Deposit { wallet: w })),
            Some(WalletMenuOptions::Send) => Some(Menu::Send(SendSOL { wallet: w })),
            Some(WalletMenuOptions::Delete) => Some(Menu::DeleteWallet(DeleteWallet { wallet: w })),
            Some(WalletMenuOptions::Back) => Some(Menu::Main(MainMenu)),
            None => None,
        }
    }

    /// How the turn relates store, event and result: pure routing, the
    /// store is never written.
    pub open spec fn rel(
        self,
        s0: AppData,
        ev: WalletMenuEvent,
        s1: AppData,
        r: HandleResult,
    ) -> bool {
        s1 == s0 && match ev {
            WalletMenuEvent::Back => r == Ok::<Option<Menu>, (Menu, AppError)>(
                Some(Menu::Main(MainMenu)),
            ),
            WalletMenuEvent::Chosen { wallet, selection } => match selection {
                Err(msg) => r == Err::<Option<Menu>, (Menu, AppError)>(
                    (Menu::Main(MainMenu), AppError::Dialogue(msg)),
                ),
                Ok(i) => r == Ok::<Option<Menu>, (Menu, AppError)>(
                    Self::route_spec(wallet, i as int),
                ),
            },
        }
    }

    /// Consumes one wallet-menu turn's event; an index is one the prompt
    /// can produce.
    pub fn handle(&self, store: &mut AppData, ev: WalletMenuEvent) -> (r: HandleResult)
        requires
            old(store).wf(),
            ev matches WalletMenuEvent::Chosen { selection: Ok(i), .. } ==> i < 5,
        ensures
            final(store).wf(),
            self.rel(*old(store), ev, *final(store), r),
    {
        match ev {
            WalletMenuEvent::Back => Ok(Some(Menu::Main(MainMenu))),
            WalletMenuEvent::Chosen { wallet, selection } => match selection {
                Err(msg) => Err((Menu::Main(MainMenu), AppError::Dialogue(msg))),
                Ok(i) => match WalletMenuOptions::from_index(i) {
                    Some(WalletMenuOptions::Withdraw) => Ok(
                        Some(Menu::Withdraw(Withdraw { wallet })),
                    ),
                    Some(WalletMenuOptions::Deposit) => Ok(Some(Menu::Deposit(Deposit { wallet }))),
                    Some(WalletMenuOptions::Send) => Ok(Some(Menu::Send(SendSOL { wallet }))),
                    Some(WalletMenuOptions::Delete) => Ok(
                        Some(Menu::DeleteWallet(DeleteWallet { wallet })),
                    ),
                    Some(WalletMenuOptions::Back) => Ok(Some(Menu::Main(MainMenu))),
                    None => unreached(),
                },
            },
        }
    }
}

/// The import-wallet screen: a private key is entered and the service adds
/// the wallet to the account.
pub struct ImportWallet;

/// What the import-wallet turn observed.
pub enum ImportWalletEvent {
    /// The key prompt was aborted.
    Aborted,
    /// The import call's outcome.
    Imported(Result<Wallet, ServiceError>),
}

impl ImportWallet {
    /// How the turn relates store, event and result: only a successful
    /// import writes, adding (or replacing) the wallet under its public
    /// key.
    pub open spec fn rel(
        self,
        s0: AppData,
        ev: ImportWalletEvent,
        s1: AppData,
        r: HandleResult,
    ) -> bool {
        match ev {
            ImportWalletEvent::Aborted => s1 == s0 && r == Ok::<Option<Menu>, (Menu, AppError)>(
                Some(Menu::Main(MainMenu)),
            ),
            ImportWalletEvent::Imported(Err(e)) => s1 == s0 && r == Err::<
                Option<Menu>,
                (Menu, AppError),
            >((Menu::Main(MainMenu), AppError::Service(e))),
            ImportWalletEvent::Imported(Ok(w)) => {
                &&& store_wallets_rewritten(
                    s0,
                    s1,
                    |ws0: Seq<Wallet>, ws1: Seq<Wallet>| wallets_upserted(ws0, ws1, w),
                )
                &&& r == Ok::<Option<Menu>, (Menu, AppError)>(Some(Menu::Main(MainMenu)))
            },
        }
    }

    /// Consumes one import-wallet turn's event.
    pub fn handle(&self, store: &mut AppData, ev: ImportWalletEvent) -> (r: HandleResult)
        requires
            old(store).wf(),
        ensures
            final(store).wf(),
            self.rel(*old(store), ev, *final(store), r),
    {
        match ev {
            ImportWalletEvent::Aborted => Ok(Some(Menu::Main(MainMenu))),
            ImportWalletEvent::Imported(Err(e)) => Err(
                (Menu::Main(MainMenu), AppError::Service(e)),
            ),
            ImportWalletEvent::Imported(Ok(w)) => {
                store.upsert_wallet(w);
                Ok(Some(Menu::Main(MainMenu)))
            },
        }
    }
}

/// The delete-wallet screen: asks for confirmation, issues the delete, and
/// only on success removes the wallet from the store.
pub struct DeleteWallet {
    pub wallet: Wallet,
}

/// What the delete-wallet turn observed.
pub enum DeleteWalletEvent {
    /// The operator declined the confirmation.
    Declined,
    /// The operator confirmed; the delete call's outcome.
    Confirmed(Result<(), ServiceError>),
}

impl DeleteWallet {
    /// How the turn relates store, event and result: only a confirmed,
    /// successful delete removes the wallet, keyed by its public key.
    pub open spec fn rel(
        self,
        s0: AppData,
        ev: DeleteWalletEvent,
        s1: AppData,
        r: HandleResult,
    ) -> bool {
        match ev {
            DeleteWalletEvent::Declined => s1 == s0 && r == Ok::<Option<Menu>, (Menu, AppError)>(
                Some(Menu::Wallet(WalletMenu)),
            ),
            DeleteWalletEvent::Confirmed(Err(e)) => s1 == s0 && r == Err::<
                Option<Menu>,
                (Menu, AppError),
            >((Menu::Wallet(WalletMenu), AppError::Service(e))),
            DeleteWalletEvent::Confirmed(Ok(())) => {
                &&& store_wallets_rewritten(
                    s0,
                    s1,
                    |ws0: Seq<Wallet>, ws1: Seq<Wallet>|
                        wallet_removed(ws0, ws1, self.wallet.public_key@),
                )
                &&& r == Ok::<Option<Menu>, (Menu, AppError)>(Some(Menu::Main(MainMenu)))
            },
        }
    }

    /// Consumes one delete-wallet turn's event.
    pub fn handle(&self, store: &mut AppData, ev: DeleteWalletEvent) -> (r: HandleResult)
        requires
            old(store).wf(),
        ensures
            final(store).wf(),
            self.rel(*old(store), ev, *final(store), r),
    {
        match ev {
            DeleteWalletEvent::Declined => Ok(Some(Menu::Wallet(WalletMenu))),
            DeleteWalletEvent::Confirmed(Err(e)) => Err(
                (Menu::Wallet(WalletMenu), AppError::Service(e)),
            ),
            DeleteWalletEvent::Confirmed(Ok(())) => {
                store.remove_wallet(&self.wallet.public_key);
                Ok(Some(Menu::Main(MainMenu)))
            },
        }
    }
}

/// The recover screen: sends all sniper balances back to the fee payer,
/// after confirmation.
pub struct RecoverSol;

/// What the recover turn observed.
pub enum RecoverSolEvent {
    /// The operator declined the confirmation.
    Declined,
    /// The operator confirmed; the recovery call's outcome.
    Confirmed(Result<(), ServiceError>),
}

impl RecoverSol {
    /// How the turn relates store, event and result: the store is never
    /// written — balances change server-side and arrive with the next
    /// refresh.
    pub open spec fn rel(
        self,
        s0: AppData,
        ev: RecoverSolEvent,
        s1: AppData,
        r: HandleResult,
    ) -> bool {
        s1 == s0 && match ev {
            RecoverSolEvent::Declined => r == Ok::<Option<Menu>, (Menu, AppError)>(
                Some(Menu::Main(MainMenu)),
            ),
            RecoverSolEvent::Confirmed(Err(e)) => r == Err::<Option<Menu>, (Menu, AppError)>(
                (Menu::Main(MainMenu), AppError::Service(e)),
            ),
            RecoverSolEvent::Confirmed(Ok(())) => r == Ok::<Option<Menu>, (Menu, AppError)>(
                Some(Menu::Main(MainMenu)),
            ),
        }
    }

    /// Consumes one recover turn's event.
    pub fn handle(&self, store: &mut AppData, ev: RecoverSolEvent) -> (r: HandleResult)
        requires
            old(store).wf(),
        ensures
            final(store).wf(),
            self.rel(*old(store), ev, *final(store), r),
    {
        match ev {
            RecoverSolEvent::Declined => Ok(Some(Menu::Main(MainMenu))),
            RecoverSolEvent::Confirmed(Err(e)) => Err(
                (Menu::Main(MainMenu), AppError::Service(e)),
            ),
            RecoverSolEvent::Confirmed(Ok(())) => Ok(Some(Menu::Main(MainMenu))),
        }
    }
}

/// The withdraw screen: moves a prompted amount from the carried wallet to
/// the fee payer.
pub struct Withdraw {
    pub wallet: Wallet,
}

/// What the withdraw turn observed.
pub enum WithdrawEvent {
    /// The amount prompt was aborted.
    Aborted,
    /// No logged-in user remained to receive the funds.
    UserMissing,
    /// The transfer call's outcome.
    Transferred(Result<(), ServiceError>),
}

impl Withdraw {
    /// How the turn relates store, event and result: the store is never
    /// written.
    pub open spec fn rel(
        self,
        s0: AppData,
        ev: WithdrawEvent,
        s1: AppData,
        r: HandleResult,
    ) -> bool {
        s1 == s0 && match ev {
            WithdrawEvent::Aborted => r == Ok::<Option<Menu>, (Menu, AppError)>(
                Some(Menu::Wallet(WalletMenu)),
            ),
            WithdrawEvent::UserMissing => r == Err::<Option<Menu>, (Menu, AppError)>(
                (Menu::Main(MainMenu), AppError::UserNotFound),
            ),
            WithdrawEvent::Transferred(Err(e)) => r == Err::<Option<Menu>, (Menu, AppError)>(
                (Menu::Main(MainMenu), AppError::Service(e)),
            ),
            WithdrawEvent::Transferred(Ok(())) => r == Ok::<Option<Menu>, (Menu, AppError)>(
                Some(Menu::Main(MainMenu)),
            ),
        }
    }

    /// Consumes one withdraw turn's event. The transfer needs the user's
    /// address as receiver, so it is only attempted with a logged-in user.
    pub fn handle(&self, store: &mut AppData, ev: WithdrawEvent) -> (r: HandleResult)
        requires
            old(store).wf(),
            ev is UserMissing ==> old(store).user.0 is None,
            ev is Transferred ==> old(store).user.0 is Some,
        ensures
            final(store).wf(),
            self.rel(*old(store), ev, *final(store), r),
    {
        match ev {
            WithdrawEvent::Aborted => Ok(Some(Menu::Wallet(WalletMenu))),
            WithdrawEvent::UserMissing => Err((Menu::Main(MainMenu), AppError::UserNotFound)),
            WithdrawEvent::Transferred(Err(e)) => Err(
                (Menu::Main(MainMenu), AppError::Service(e)),
            ),
            WithdrawEvent::Transferred(Ok(())) => Ok(Some(Menu::Main(MainMenu))),
        }
    }
}

/// The deposit screen: moves a prompted amount from the fee payer to the
/// carried wallet.
pub struct Deposit {
    pub wallet: Wallet,
}

/// What the deposit turn observed.
pub enum DepositEvent {
    /// The amount prompt was aborted.
    Aborted,
    /// The transfer call's outcome.
    Transferred(Result<(), ServiceError>),
}

impl Deposit {
    /// How the turn relates store, event and result: the store is never
    /// written.
    pub open spec fn rel(self, s0: AppData, ev: DepositEvent, s1: AppData, r: HandleResult) -> bool {
        s1 == s0 && match ev {
            DepositEvent::Aborted => r == Ok::<Option<Menu>, (Menu, AppError)>(
                Some(Menu::Wallet(WalletMenu)),
            ),
            DepositEvent::Transferred(Err(e)) => r == Err::<Option<Menu>, (Menu, AppError)>(
                (Menu::Main(MainMenu), AppError::Service(e)),
            ),
            DepositEvent::Transferred(Ok(())) => r == Ok::<Option<Menu>, (Menu, AppError)>(
                Some(Menu::Main(MainMenu)),
            ),
        }
    }

    /// Consumes one deposit turn's event.
    pub fn handle(&self, store: &mut AppData, ev: DepositEvent) -> (r: HandleResult)
        requires
            old(store).wf(),
        ensures
            final(store).wf(),
            self.rel(*old(store), ev, *final(store), r),
    {
        match ev {
            DepositEvent::Aborted => Ok(Some(Menu::Wallet(WalletMenu))),
            DepositEvent::Transferred(Err(e)) => Err((Menu::Main(MainMenu), AppError::Service(e))),
            DepositEvent::Transferred(Ok(())) => Ok(Some(Menu::Main(MainMenu))),
        }
    }
}

/// The send screen: moves a prompted amount from the carried wallet to a
/// prompted receiver address.
pub struct SendSOL {
    pub wallet: Wallet,
}

/// What the send turn observed.
pub enum SendSOLEvent {
    /// The receiver prompt was aborted.
    ReceiverAborted,
    /// The amount prompt was aborted.
    AmountAborted,
    /// The transfer call's outcome.
    Transferred(Result<(), ServiceError>),
}

impl SendSOL {
    /// How the turn relates store, event and result: the store is never
    /// written.
    pub open spec fn rel(self, s0: AppData, ev: SendSOLEvent, s1: AppData, r: HandleResult) -> bool {
        s1 == s0 && match ev {
            SendSOLEvent::ReceiverAborted => r == Ok::<Option<Menu>, (Menu, AppError)>(
                Some(Menu::Wallet(WalletMenu)),
            ),
            SendSOLEvent::AmountAborted => r == Ok::<Option<Menu>, (Menu, AppError)>(
                Some(Menu::Wallet(WalletMenu)),
            ),
            SendSOLEvent::Transferred(Err(e)) => r == Err::<Option<Menu>, (Menu, AppError)>(
                (Menu::Main(MainMenu), AppError::Service(e)),
            ),
            SendSOLEvent::Transferred(Ok(())) => r == Ok::<Option<Menu>, (Menu, AppError)>(
                Some(Menu::Main(MainMenu)),
            ),
        }
    }

    /// Consumes one send turn's event.
    pub fn handle(&self, store: &mut AppData, ev: SendSOLEvent) -> (r: HandleResult)
        requires
            old(store).wf(),
        ensures
            final(store).wf(),
            self.rel(*old(store), ev, *final(store), r),
    {
        match ev {
            SendSOLEvent::ReceiverAborted => Ok(Some(Menu::Wallet(WalletMenu))),
            SendSOLEvent::AmountAborted => Ok(Some(Menu::Wallet(WalletMenu))),
            SendSOLEvent::Transferred(Err(e)) => Err((Menu::Main(MainMenu), AppError::Service(e))),
            SendSOLEvent::Transferred(Ok(())) => Ok(Some(Menu::Main(MainMenu))),
        }
    }
}

} // verus!
