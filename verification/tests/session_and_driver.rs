//! The session store's operations, the wallet screens, and the driver's
//! routing.

use moonbois_cli::driver::DriverStep;
use moonbois_cli::driver::interpret_outcome;
use moonbois_cli::driver::total_sniper_sol;
use moonbois_cli::driver::total_sniper_tokens;
use moonbois_cli::errors::AppError;
use moonbois_cli::errors::ServiceError;
use moonbois_cli::handlers::bumps::BumpMenu;
use moonbois_cli::handlers::bumps::StartBumps;
use moonbois_cli::handlers::bumps::StartBumpsEvent;
use moonbois_cli::handlers::bumps::StopBumps;
use moonbois_cli::handlers::main::Export;
use moonbois_cli::handlers::main::MainMenu;
use moonbois_cli::handlers::project::ProjectMenu;
use moonbois_cli::handlers::trade::Buy;
use moonbois_cli::handlers::trade::BuyEvent;
use moonbois_cli::handlers::trade::Sell;
use moonbois_cli::handlers::trade::SellEvent;
use moonbois_cli::handlers::wallet::DeleteWallet;
use moonbois_cli::handlers::wallet::DeleteWalletEvent;
use moonbois_cli::handlers::wallet::ImportWallet;
use moonbois_cli::handlers::wallet::ImportWalletEvent;
use moonbois_cli::handlers::wallet::RecoverSol;
use moonbois_cli::handlers::wallet::RecoverSolEvent;
use moonbois_cli::handlers::wallet::WalletMenu;
use moonbois_cli::handlers::wallet::WalletMenuEvent;
use moonbois_cli::handlers::wallet::select_wallet;
use moonbois_cli::handlers::wallet::Deposit;
use moonbois_cli::handlers::wallet::DepositEvent;
use moonbois_cli::handlers::wallet::SendSOL;
use moonbois_cli::handlers::wallet::SendSOLEvent;
use moonbois_cli::handlers::wallet::Withdraw;
use moonbois_cli::handlers::wallet::WithdrawEvent;
use moonbois_cli::menu::Menu;
use moonbois_cli::session::AppData;
use moonbois_cli::session::User;
use moonbois_cli::session::Wallet;

fn wallet(n: u32) -> Wallet {
    Wallet {
        id: n as i32,
        public_key: format!("wallet-{n}"),
        sol_balance: (n as u64) * 100,
        token_balance: if n % 2 == 0 { Some(n as u64) } else { None },
    }
}

fn store_with_wallets(n: u32) -> AppData {
    let mut store = AppData::new();
    store.mark_authenticated();
    store.set_user(User {
        public_key: "fee-payer".to_string(),
        sol_balance: 7,
        wallets: (0..n).map(wallet).collect(),
    });
    store
}

#[test]
fn import_wallet_upserts_under_its_key() {
    let mut store = store_with_wallets(2);
    let new_wallet = Wallet {
        id: 9,
        public_key: "brand-new".to_string(),
        sol_balance: 5,
        token_balance: None,
    };
    let r = ImportWallet.handle(&mut store, ImportWalletEvent::Imported(Ok(new_wallet)));
    assert!(matches!(r, Ok(Some(Menu::Main(_)))));
    assert_eq!(store.user.0.as_ref().unwrap().wallets.len(), 3);
    // Importing a wallet under an existing key replaces it.
    let replacement = Wallet {
        id: 9,
        public_key: "wallet-0".to_string(),
        sol_balance: 42,
        token_balance: None,
    };
    let r = ImportWallet.handle(&mut store, ImportWalletEvent::Imported(Ok(replacement)));
    assert!(matches!(r, Ok(Some(Menu::Main(_)))));
    let u = store.user.0.as_ref().unwrap();
    assert_eq!(u.wallets.len(), 3);
    assert_eq!(u.wallets[0].sol_balance, 42);
}

#[test]
fn delete_wallet_removes_by_key_only_after_success() {
    let mut store = store_with_wallets(2);
    let screen = DeleteWallet { wallet: wallet(1) };
    let before = store.clone();
    let r = screen.handle(
        &mut store,
        DeleteWalletEvent::Confirmed(Err(ServiceError::Rejected("busy".to_string()))),
    );
    assert!(matches!(r, Err((Menu::Wallet(_), AppError::Service(_)))));
    assert_eq!(store, before);
    let r = screen.handle(&mut store, DeleteWalletEvent::Confirmed(Ok(())));
    assert!(matches!(r, Ok(Some(Menu::Main(_)))));
    let u = store.user.0.as_ref().unwrap();
    assert_eq!(u.wallets.len(), 1);
    assert_eq!(u.wallets[0].public_key, "wallet-0");
}

#[test]
fn wallet_pick_maps_indexes_to_wallets_and_back_entry() {
    let store = store_with_wallets(2);
    let w = select_wallet(&store, 1).unwrap();
    assert_eq!(w.public_key, "wallet-1");
    assert!(select_wallet(&store, 2).is_none());
}

#[test]
fn wallet_menu_routes_carry_the_picked_wallet() {
    let mut store = store_with_wallets(2);
    let r = WalletMenu.handle(
        &mut store,
        WalletMenuEvent::Chosen { wallet: wallet(1), selection: Ok(0) },
    );
    match r {
        Ok(Some(Menu::Withdraw(w))) => assert_eq!(w.wallet.public_key, "wallet-1"),
        _ => panic!("index 0 must lead to the withdraw screen"),
    }
    let r = WalletMenu.handle(&mut store, WalletMenuEvent::Back);
    assert!(matches!(r, Ok(Some(Menu::Main(_)))));
}

#[test]
fn trade_screens_report_missing_project() {
    let mut store = store_with_wallets(1);
    let r = Sell::new(false).handle(&mut store, SellEvent::ProjectMissing);
    assert!(matches!(r, Err((Menu::Main(_), AppError::ProjectNotFound))));
    let r = Buy::new(true).handle(&mut store, BuyEvent::ProjectMissing);
    assert!(matches!(r, Err((Menu::Main(_), AppError::ProjectNotFound))));
    let r = Buy::new(false).handle(&mut store, BuyEvent::ProjectMissing);
    assert!(matches!(r, Err((Menu::Main(_), AppError::ProjectNotFound))));
}

#[test]
fn successful_trades_return_to_project_menu() {
    let mut store = store_with_wallets(1);
    store.set_active(3);
    let r = Sell::new(true).handle(&mut store, SellEvent::Sold(Ok(())));
    assert!(matches!(r, Ok(Some(Menu::ProjectMenu(_)))));
    let r = Buy::new(false).handle(&mut store, BuyEvent::Bought(Ok(())));
    assert!(matches!(r, Ok(Some(Menu::ProjectMenu(_)))));
}

#[test]
fn start_bumps_records_pending_only_on_success() {
    let mut store = store_with_wallets(1);
    store.set_active(3);
    let before = store.clone();
    let r = StartBumps.handle(
        &mut store,
        StartBumpsEvent::Enabled(Err(ServiceError::Rejected("nope".to_string()))),
    );
    assert!(matches!(r, Err((Menu::Bump(_), AppError::Service(_)))));
    assert_eq!(store, before);
    let r = StartBumps.handle(&mut store, StartBumpsEvent::Enabled(Ok(())));
    assert!(matches!(r, Ok(Some(Menu::Bump(_)))));
    assert!(store.bump_status.0.is_some());
}

#[test]
fn stop_bumps_leaves_status_to_the_next_poll() {
    let mut store = store_with_wallets(1);
    let before = store.clone();
    let r = StopBumps.handle(&mut store, Ok(()));
    assert!(matches!(r, Ok(Some(Menu::Bump(_)))));
    assert_eq!(store, before);
}

#[test]
fn bump_menu_routes() {
    let mut store = store_with_wallets(1);
    assert!(matches!(BumpMenu.handle(&mut store, Ok(0)), Ok(Some(Menu::StartBumps(_)))));
    assert!(matches!(BumpMenu.handle(&mut store, Ok(1)), Ok(Some(Menu::StopBumps(_)))));
    assert!(matches!(BumpMenu.handle(&mut store, Ok(2)), Ok(Some(Menu::ProjectMenu(_)))));
}

#[test]
fn recover_and_export_round_trip_to_main() {
    let mut store = store_with_wallets(1);
    let before = store.clone();
    let r = RecoverSol.handle(&mut store, RecoverSolEvent::Confirmed(Ok(())));
    assert!(matches!(r, Ok(Some(Menu::Main(_)))));
    let r = Export.handle(&mut store, Ok("blob".to_string()));
    assert!(matches!(r, Ok(Some(Menu::Main(_)))));
    assert_eq!(store, before);
}

#[test]
fn transfer_screens_round_trip() {
    let mut store = store_with_wallets(2);
    let before = store.clone();
    let withdraw = Withdraw { wallet: wallet(0) };
    assert!(matches!(
        withdraw.handle(&mut store, WithdrawEvent::Aborted),
        Ok(Some(Menu::Wallet(_)))
    ));
    assert!(matches!(
        withdraw.handle(&mut store, WithdrawEvent::Transferred(Ok(()))),
        Ok(Some(Menu::Main(_)))
    ));
    let deposit = Deposit { wallet: wallet(0) };
    assert!(matches!(
        deposit.handle(&mut store, DepositEvent::Transferred(Err(ServiceError::NotFound))),
        Err((Menu::Main(_), AppError::Service(ServiceError::NotFound)))
    ));
    let send = SendSOL { wallet: wallet(0) };
    assert!(matches!(
        send.handle(&mut store, SendSOLEvent::ReceiverAborted),
        Ok(Some(Menu::Wallet(_)))
    ));
    assert!(matches!(
        send.handle(&mut store, SendSOLEvent::Transferred(Ok(()))),
        Ok(Some(Menu::Main(_)))
    ));
    // None of these turns writes the store.
    assert_eq!(store, before);
}

#[test]
fn delete_wallet_declined_changes_nothing() {
    let mut store = store_with_wallets(2);
    let before = store.clone();
    let screen = DeleteWallet { wallet: wallet(0) };
    let r = screen.handle(&mut store, DeleteWalletEvent::Declined);
    assert!(matches!(r, Ok(Some(Menu::Wallet(_)))));
    assert_eq!(store, before);
}

#[test]
fn missing_auth_forces_reset_to_login() {
    let outcome = Err((
        Menu::ProjectMenu(ProjectMenu),
        AppError::Service(ServiceError::MissingAuth),
    ));
    match interpret_outcome(outcome) {
        DriverStep::ShowError(Menu::Login(_), AppError::Service(ServiceError::MissingAuth)) => {},
        _ => panic!("a missing token must reset to the login screen"),
    }
}

#[test]
fn missing_user_resumes_at_the_fallback() {
    let outcome = Err((Menu::Main(MainMenu), AppError::UserNotFound));
    match interpret_outcome(outcome) {
        DriverStep::ShowError(Menu::Main(_), AppError::UserNotFound) => {},
        _ => panic!("a missing user must resume at the designated fallback"),
    }
}

#[test]
fn other_failures_resume_at_the_fallback() {
    let outcome = Err((Menu::ProjectMenu(ProjectMenu), AppError::ProjectNotFound));
    match interpret_outcome(outcome) {
        DriverStep::ShowError(Menu::ProjectMenu(_), AppError::ProjectNotFound) => {},
        _ => panic!("ordinary failures must resume at the fallback screen"),
    }
    match interpret_outcome(Ok(None)) {
        DriverStep::Quit => {},
        _ => panic!("the explicit exit must quit"),
    }
    match interpret_outcome(Ok(Some(Menu::Export(Export)))) {
        DriverStep::Continue(Menu::Export(_)) => {},
        _ => panic!("a next screen must continue"),
    }
}

#[test]
fn banner_sums_add_up() {
    // wallets 0..4: sol 0,100,200,300; tokens Some(0),None,Some(2),None.
    let u = User {
        public_key: "fee-payer".to_string(),
        sol_balance: 7,
        wallets: (0..4).map(wallet).collect(),
    };
    assert_eq!(total_sniper_sol(&u), 600);
    assert_eq!(total_sniper_tokens(&u), 2);
    let empty = User { public_key: "p".to_string(), sol_balance: 0, wallets: vec![] };
    assert_eq!(total_sniper_sol(&empty), 0);
    assert_eq!(total_sniper_tokens(&empty), 0);
}

#[test]
fn banner_active_project_lookup_tolerates_staleness() {
    let mut store = store_with_wallets(1);
    store.replace_projects(vec![moonbois_cli::session::Project {
        id: 5,
        name: "five".to_string(),
        deployer: "dep".to_string(),
        mint_id: "mint".to_string(),
    }]);
    assert!(store.lookup_active().is_none());
    store.set_active(5);
    assert_eq!(store.lookup_active().unwrap().name, "five");
    // A stale selection that the refresh no longer carries reads as "no
    // such project yet".
    store.set_active(6);
    assert!(store.lookup_active().is_none());
}
