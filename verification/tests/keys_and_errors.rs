//! Private-key classification and the error taxonomy's rendering.

use moonbois_cli::errors::AppError;
use moonbois_cli::errors::ServiceError;
use moonbois_cli::dialogue::loader::LoaderError;
use moonbois_cli::keys::PrivateKey;
use moonbois_cli::keys::classify_private_key;

#[test]
fn json_byte_array_keys_are_decoded() {
    match classify_private_key("[1, 2, 3, 255]") {
        PrivateKey::JsonBytes(v) => assert_eq!(v, vec![1, 2, 3, 255]),
        PrivateKey::Base58(_) => panic!("a JSON byte array must decode to bytes"),
    }
}

#[test]
fn other_keys_are_taken_as_base58() {
    match classify_private_key("5Kb8kLf9zgWQnogidDA76MzPL6TsZZY36hWXMssSzNydYXYB9KF") {
        PrivateKey::Base58(s) => {
            assert_eq!(s, "5Kb8kLf9zgWQnogidDA76MzPL6TsZZY36hWXMssSzNydYXYB9KF")
        },
        PrivateKey::JsonBytes(_) => panic!("plain text must stay base58"),
    }
}

#[test]
fn out_of_range_json_entries_fall_back_to_base58() {
    // 999 is no byte, so the text does not decode as a byte array.
    assert!(matches!(classify_private_key("[1, 2, 999]"), PrivateKey::Base58(_)));
    assert!(matches!(classify_private_key("[]"), PrivateKey::JsonBytes(_)));
}

#[test]
fn headlines_name_each_category() {
    assert_eq!(
        AppError::Service(ServiceError::NotFound).headline(),
        "Requested resource was not found"
    );
    assert_eq!(AppError::Service(ServiceError::MissingAuth).headline(), "Authorization failed");
    assert_eq!(
        AppError::Service(ServiceError::MalformedResponse("x".to_string())).headline(),
        "Malformed server response"
    );
    assert_eq!(
        AppError::Service(ServiceError::Transport("x".to_string())).headline(),
        "Transport error"
    );
    assert_eq!(
        AppError::Service(ServiceError::Rejected("x".to_string())).headline(),
        "Not accepted"
    );
    assert_eq!(
        AppError::Service(ServiceError::UnhandledServer("x".to_string())).headline(),
        "Unhandled server error occurred"
    );
    assert_eq!(AppError::PendingSnipe("x".to_string()).headline(), "Pending snipe failed");
    assert_eq!(AppError::Loader(LoaderError::ChildProcessError).headline(), "Load failed");
    assert_eq!(AppError::Dialogue("x".to_string()).headline(), "Dialogue error occurred");
    assert_eq!(AppError::PromptAborted.headline(), "Input aborted");
    assert_eq!(AppError::ProjectNotFound.headline(), "Project not found");
    assert_eq!(AppError::UserNotFound.headline(), "Unable to find user");
    assert_eq!(
        AppError::WalletCountExceedsAvailable.headline(),
        "Wallet amount exceeds available wallets"
    );
    assert_eq!(AppError::Unhandled("x".to_string()).headline(), "Unhandled error occurred");
}

#[test]
fn details_surface_the_carried_message() {
    let e = AppError::Service(ServiceError::Transport("connection reset".to_string()));
    assert_eq!(e.detail().unwrap(), "connection reset");
    assert!(AppError::ProjectNotFound.detail().is_none());
    let e = AppError::Loader(LoaderError::IoError("missing watcher".to_string()));
    assert_eq!(e.detail().unwrap(), "missing watcher");
    assert!(AppError::Loader(LoaderError::ChildProcessError).detail().is_none());
}

#[test]
fn messages_join_category_and_detail() {
    assert_eq!(
        ServiceError::Transport("connection reset".to_string()).message(),
        "transport error: connection reset"
    );
    assert_eq!(ServiceError::NotFound.message(), "not found");
    assert_eq!(ServiceError::MissingAuth.message(), "missing authentication token");
}

#[test]
fn categories_name_each_service_error() {
    assert_eq!(ServiceError::NotFound.category(), "not found");
    assert_eq!(ServiceError::MissingAuth.category(), "missing authentication token");
    assert_eq!(
        ServiceError::MalformedResponse("x".to_string()).category(),
        "malformed response"
    );
    assert_eq!(ServiceError::Transport("x".to_string()).category(), "transport error");
    assert_eq!(ServiceError::Rejected("x".to_string()).category(), "rejected by server");
    assert_eq!(
        ServiceError::UnhandledServer("x".to_string()).category(),
        "unhandled server error"
    );
}
