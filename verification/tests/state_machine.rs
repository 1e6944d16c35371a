//! Scenario tests over the menu state machine: exit reachability, failure
//! outcomes, and the representative workflows.

use moonbois_cli::errors::AppError;
use moonbois_cli::errors::ServiceError;
use moonbois_cli::handlers::auth::Login;
use moonbois_cli::handlers::auth::LoginEvent;
use moonbois_cli::handlers::auth::SignupEvent;
use moonbois_cli::handlers::main::MainMenu;
use moonbois_cli::handlers::project::CreateProject;
use moonbois_cli::handlers::project::CreateProjectEvent;
use moonbois_cli::handlers::project::DeleteProject;
use moonbois_cli::handlers::project::DeleteProjectEvent;
use moonbois_cli::handlers::project::ProjectMenu;
use moonbois_cli::handlers::project::SelectProject;
use moonbois_cli::handlers::snipe::CancelSnipe;
use moonbois_cli::handlers::snipe::CreateSnipe;
use moonbois_cli::handlers::snipe::CreateSnipeEvent;
use moonbois_cli::handlers::snipe::SnipeSubmission;
use moonbois_cli::handlers::snipe::validate_wallet_count;
use moonbois_cli::menu::Menu;
use moonbois_cli::session::AppData;
use moonbois_cli::session::Project;
use moonbois_cli::session::User;
use moonbois_cli::session::Wallet;
use moonbois_cli::dialogue::loader::LoaderError;

fn wallet(n: u32) -> Wallet {
    Wallet {
        id: n as i32,
        public_key: format!("wallet-{n}"),
        sol_balance: 1_000_000_000,
        token_balance: None,
    }
}

fn user_with_wallets(n: u32) -> User {
    User {
        public_key: "fee-payer".to_string(),
        sol_balance: 5_000_000_000,
        wallets: (0..n).map(wallet).collect(),
    }
}

fn project(id: i32, name: &str) -> Project {
    Project {
        id,
        name: name.to_string(),
        deployer: format!("deployer-{id}"),
        mint_id: format!("mint-{id}"),
    }
}

fn logged_in_store(wallets: u32) -> AppData {
    let mut store = AppData::new();
    store.mark_authenticated();
    store.set_user(user_with_wallets(wallets));
    store
}

#[test]
fn exit_is_only_reachable_from_main_menu() {
    let mut store = logged_in_store(2);
    // The main menu's explicit exit entry ends the program.
    let r = MainMenu.handle(&mut store, Ok(7));
    assert!(matches!(r, Ok(None)));
    // Every other index of the main menu moves to a screen.
    for i in 0..7usize {
        let r = MainMenu.handle(&mut store, Ok(i));
        assert!(matches!(r, Ok(Some(_))));
    }
    // Another screen's turns never produce the exit.
    for i in 0..7usize {
        let r = ProjectMenu.handle(&mut store, Ok(i));
        assert!(matches!(r, Ok(Some(_))));
    }
}

#[test]
fn main_menu_clears_stale_selection_as_a_void_transition() {
    let mut store = logged_in_store(1);
    store.replace_projects(vec![project(9, "nine")]);
    store.set_active(9);
    let r = MainMenu.prepare(&mut store);
    assert!(matches!(r, Some(Menu::Main(_))));
    assert_eq!(store.active_project.0, None);
    // A second prepare finds nothing to clear and falls through to the
    // prompt.
    let r = MainMenu.prepare(&mut store);
    assert!(r.is_none());
}

#[test]
fn main_menu_prepare_resets_token_balances() {
    let mut store = logged_in_store(0);
    let mut u = user_with_wallets(2);
    u.wallets[0].token_balance = Some(500);
    u.wallets[1].token_balance = Some(700);
    store.set_user(u);
    let r = MainMenu.prepare(&mut store);
    assert!(r.is_none());
    let u = store.user.0.as_ref().unwrap();
    assert!(u.wallets.iter().all(|w| w.token_balance.is_none()));
}

#[test]
fn failed_external_call_leaves_store_unchanged() {
    let mut store = logged_in_store(3);
    store.replace_projects(vec![project(1, "one")]);
    let before = store.clone();
    let r = CreateProject.handle(
        &mut store,
        CreateProjectEvent::Created(Err(ServiceError::Transport("timeout".to_string()))),
    );
    assert!(matches!(r, Err((Menu::Main(_), AppError::Service(ServiceError::Transport(_))))));
    assert_eq!(store, before);
}

#[test]
fn unknown_credentials_then_declined_signup_returns_to_login() {
    let mut store = AppData::new();
    let before = store.clone();
    let r = Login.handle(
        &mut store,
        LoginEvent::AuthFailed { key: "some-key".to_string(), err: ServiceError::NotFound },
    );
    let signup = match r {
        Ok(Some(Menu::Signup(sg))) => sg,
        _ => panic!("unknown credentials must lead to the signup prompt"),
    };
    assert_eq!(signup.credentials.private_key, "some-key");
    assert_eq!(store, before);
    let r = signup.handle(&mut store, SignupEvent::Declined);
    assert!(matches!(r, Ok(Some(Menu::Login(_)))));
    assert_eq!(store, before);
}

#[test]
fn login_success_records_user_and_moves_to_main() {
    let mut store = AppData::new();
    let r = Login.handle(
        &mut store,
        LoginEvent::LoggedIn {
            key: "some-key".to_string(),
            fetch_user: Ok(user_with_wallets(2)),
        },
    );
    assert!(matches!(r, Ok(Some(Menu::Main(_)))));
    assert!(store.authenticated);
    assert_eq!(store.user.0.as_ref().unwrap().wallets.len(), 2);
}

#[test]
fn login_fetch_failure_returns_to_login_keeping_token() {
    let mut store = AppData::new();
    let r = Login.handle(
        &mut store,
        LoginEvent::LoggedIn {
            key: "some-key".to_string(),
            fetch_user: Err(ServiceError::Transport("reset".to_string())),
        },
    );
    assert!(matches!(r, Err((Menu::Login(_), AppError::Service(_)))));
    assert!(store.authenticated);
    assert!(store.user.0.is_none());
}

#[test]
fn snipe_over_wallet_count_is_rejected_before_any_call() {
    let mut store = logged_in_store(5);
    let before = store.clone();
    let r = CreateSnipe.handle(
        &mut store,
        CreateSnipeEvent::Submitted {
            wallet_count: 10,
            deployer: "dep".to_string(),
            // Even a submission that would have succeeded is never
            // consulted for an over-count request.
            submission: SnipeSubmission::Raced(Ok(Some(Ok(project(3, "three"))))),
        },
    );
    assert!(matches!(r, Err((Menu::Main(_), AppError::WalletCountExceedsAvailable))));
    assert_eq!(store, before);
}

#[test]
fn wallet_count_validator_matches_ownership() {
    assert!(validate_wallet_count(5, 5).is_ok());
    assert!(validate_wallet_count(0, 5).is_ok());
    let msg = validate_wallet_count(6, 5).unwrap_err();
    assert_eq!(msg, "Wallet amount exceeds available wallets");
}

#[test]
fn completed_snipe_records_project_and_enters_project_menu() {
    let mut store = logged_in_store(5);
    let r = CreateSnipe.handle(
        &mut store,
        CreateSnipeEvent::Submitted {
            wallet_count: 3,
            deployer: "dep".to_string(),
            submission: SnipeSubmission::Raced(Ok(Some(Ok(project(3, "three"))))),
        },
    );
    assert!(matches!(r, Ok(Some(Menu::ProjectMenu(_)))));
    assert_eq!(store.active_project.0, Some(3));
    assert_eq!(store.projects.len(), 1);
    assert_eq!(store.projects[0].id, 3);
}

#[test]
fn cancelled_snipe_carries_deployer_and_adds_no_project() {
    let mut store = logged_in_store(5);
    let before = store.clone();
    let r = CreateSnipe.handle(
        &mut store,
        CreateSnipeEvent::Submitted {
            wallet_count: 3,
            deployer: "the-deployer".to_string(),
            submission: SnipeSubmission::Raced(Ok(None)),
        },
    );
    let cancel = match r {
        Ok(Some(Menu::CancelSnipe(cs))) => cs,
        _ => panic!("a cancelled wait must move to the cancel-snipe screen"),
    };
    assert_eq!(cancel.deployer, "the-deployer");
    assert_eq!(store, before);
    // Issuing the service cancel succeeds and returns to the main menu;
    // still no project was added.
    let r = cancel.handle(&mut store, Ok(()));
    assert!(matches!(r, Ok(Some(Menu::Main(_)))));
    assert_eq!(store, before);
}

#[test]
fn snipe_error_after_completion_is_surfaced_with_main_fallback() {
    let mut store = logged_in_store(5);
    let before = store.clone();
    let r = CreateSnipe.handle(
        &mut store,
        CreateSnipeEvent::Submitted {
            wallet_count: 3,
            deployer: "dep".to_string(),
            submission: SnipeSubmission::Raced(Ok(Some(Err("slot missed".to_string())))),
        },
    );
    match r {
        Err((Menu::Main(_), AppError::PendingSnipe(m))) => assert_eq!(m, "slot missed"),
        _ => panic!("a failed pending snipe must surface as a pending-snipe error"),
    }
    assert_eq!(store, before);
}

#[test]
fn delete_project_twice_yields_project_not_found() {
    let mut store = logged_in_store(1);
    store.replace_projects(vec![project(4, "four"), project(5, "five")]);
    store.set_active(4);
    let r = DeleteProject.handle(&mut store, DeleteProjectEvent::Confirmed(Ok(())));
    assert!(matches!(r, Ok(Some(Menu::Main(_)))));
    assert_eq!(store.active_project.0, None);
    assert_eq!(store.projects.len(), 1);
    assert_eq!(store.projects[0].id, 5);
    // The second attempt finds no active project: a recoverable error,
    // not a crash.
    let before = store.clone();
    let r = DeleteProject.handle(&mut store, DeleteProjectEvent::Confirmed(Ok(())));
    assert!(matches!(r, Err((Menu::Main(_), AppError::ProjectNotFound))));
    assert_eq!(store, before);
}

#[test]
fn delete_project_declined_changes_nothing() {
    let mut store = logged_in_store(1);
    store.replace_projects(vec![project(4, "four")]);
    store.set_active(4);
    let before = store.clone();
    let r = DeleteProject.handle(&mut store, DeleteProjectEvent::Declined);
    assert!(matches!(r, Ok(Some(Menu::ProjectMenu(_)))));
    assert_eq!(store, before);
}

#[test]
fn snipe_without_user_reports_user_not_found() {
    let mut store = AppData::new();
    let before = store.clone();
    let r = CreateSnipe.handle(&mut store, CreateSnipeEvent::CountAborted);
    assert!(matches!(r, Err((Menu::Main(_), AppError::UserNotFound))));
    assert_eq!(store, before);
}

#[test]
fn watcher_failure_during_snipe_falls_back_to_cancel_screen() {
    let mut store = logged_in_store(5);
    let before = store.clone();
    let r = CreateSnipe.handle(
        &mut store,
        CreateSnipeEvent::Submitted {
            wallet_count: 2,
            deployer: "the-deployer".to_string(),
            submission: SnipeSubmission::Raced(Err(LoaderError::ChildProcessError)),
        },
    );
    match r {
        Err((Menu::CancelSnipe(cs), AppError::Loader(LoaderError::ChildProcessError))) => {
            assert_eq!(cs.deployer, "the-deployer")
        },
        _ => panic!("a watcher failure must fall back to the cancel-snipe screen"),
    }
    assert_eq!(store, before);
}

#[test]
fn aborted_login_prompt_is_a_recoverable_error_not_an_exit() {
    let mut store = AppData::new();
    let before = store.clone();
    let r = Login.handle(&mut store, LoginEvent::Aborted);
    assert!(matches!(r, Err((Menu::Login(_), AppError::PromptAborted))));
    assert_eq!(store, before);
}

#[test]
fn select_project_sets_selection_and_lists_names() {
    let mut store = logged_in_store(1);
    store.replace_projects(vec![project(7, "seven"), project(8, "eight")]);
    let labels = SelectProject.labels(&store);
    assert_eq!(labels, vec!["seven".to_string(), "eight".to_string(), "Back".to_string()]);
    let r = SelectProject.handle(&mut store, 1);
    assert!(matches!(r, Ok(Some(Menu::ProjectMenu(_)))));
    assert_eq!(store.active_project.0, Some(8));
    // The closing index backs out without a selection.
    let r = SelectProject.handle(&mut store, 2);
    assert!(matches!(r, Ok(Some(Menu::Main(_)))));
}
