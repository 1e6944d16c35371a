//! The option enums' labels and index mappings, and the dispatcher.

use moonbois_cli::errors::ServiceError;
use moonbois_cli::handlers::auth::Login;
use moonbois_cli::handlers::auth::LoginEvent;
use moonbois_cli::handlers::bumps::BumpMenuOptions;
use moonbois_cli::handlers::main::MainMenu;
use moonbois_cli::handlers::main::MainMenuOptions;
use moonbois_cli::handlers::project::ProjectMenuOptions;
use moonbois_cli::handlers::wallet::WalletMenuOptions;
use moonbois_cli::menu::Menu;
use moonbois_cli::menu::ScreenEvent;
use moonbois_cli::session::AppData;
use moonbois_cli::session::User;

#[test]
fn main_menu_labels_in_prompt_order() {
    let labels: Vec<String> = (0..8)
        .map(|i| MainMenuOptions::from_index(i).unwrap().to_string())
        .collect();
    assert_eq!(
        labels,
        vec!["Snipe", "ImportToken", "Tokens", "Wallets", "ImportWallet", "RecoverSOL", "Export", "Exit"]
    );
    assert!(MainMenuOptions::from_index(8).is_none());
}

#[test]
fn project_menu_labels_in_prompt_order() {
    let labels: Vec<String> = (0..7)
        .map(|i| ProjectMenuOptions::from_index(i).unwrap().to_string())
        .collect();
    assert_eq!(labels, vec!["Buy", "Sell", "AutoBuy", "AutoSell", "Bumps", "Delete", "Back"]);
    assert!(ProjectMenuOptions::from_index(7).is_none());
}

#[test]
fn wallet_menu_labels_in_prompt_order() {
    let labels: Vec<String> = (0..5)
        .map(|i| WalletMenuOptions::from_index(i).unwrap().to_string())
        .collect();
    assert_eq!(labels, vec!["Withdraw", "Deposit", "Send", "Delete", "Back"]);
    assert!(WalletMenuOptions::from_index(5).is_none());
}

#[test]
fn bump_menu_labels_in_prompt_order() {
    let labels: Vec<String> = (0..3)
        .map(|i| BumpMenuOptions::from_index(i).unwrap().to_string())
        .collect();
    assert_eq!(labels, vec!["StartBumps", "StopBumps", "Back"]);
    assert!(BumpMenuOptions::from_index(3).is_none());
}

#[test]
fn dispatcher_runs_a_login_to_exit_session() {
    let mut store = AppData::new();
    // Log in.
    let screen = Menu::Login(Login);
    let r = screen.handle(
        &mut store,
        ScreenEvent::Login(LoginEvent::LoggedIn {
            key: "key".to_string(),
            fetch_user: Ok(User {
                public_key: "fee-payer".to_string(),
                sol_balance: 0,
                wallets: vec![],
            }),
        }),
    );
    let screen = match r {
        Ok(Some(next)) => next,
        _ => panic!("login must reach the main menu"),
    };
    assert!(matches!(screen, Menu::Main(_)));
    // The main menu's explicit exit ends the session.
    if let Menu::Main(h) = &screen {
        assert!(h.prepare(&mut store).is_none());
    }
    let r = screen.handle(&mut store, ScreenEvent::Main(Ok(7)));
    assert!(matches!(r, Ok(None)));
}

#[test]
fn dispatcher_routes_failures_with_their_fallback() {
    let mut store = AppData::new();
    let screen = Menu::Login(Login);
    let before = store.clone();
    let r = screen.handle(
        &mut store,
        ScreenEvent::Login(LoginEvent::AuthFailed {
            key: "key".to_string(),
            err: ServiceError::Transport("offline".to_string()),
        }),
    );
    assert!(matches!(r, Err((Menu::Login(_), _))));
    assert_eq!(store, before);
}

#[test]
fn prepare_runs_before_the_main_prompt() {
    // `prepare` is part of the main menu's turn: no selection may remain
    // when the prompt is shown.
    let mut store = AppData::new();
    store.set_active(3);
    let r = MainMenu.prepare(&mut store);
    assert!(matches!(r, Some(Menu::Main(_))));
    assert_eq!(store.active_project.0, None);
}
