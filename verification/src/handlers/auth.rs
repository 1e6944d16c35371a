//! The login and signup screens.

use vstd::prelude::*;
use crate::errors::AppError;
use crate::errors::ServiceError;
use crate::handlers::main::MainMenu;
use crate::keys::Credentials;
use crate::menu::HandleResult;
use crate::menu::Menu;
use crate::session::ActiveUser;
use crate::session::AppData;
use crate::session::User;
use crate::session::wallets_unique;

verus! {

/// The initial screen: the operator enters a private key and the handle is
/// authenticated against the service.
pub struct Login;

/// What the login turn observed.
pub enum LoginEvent {
    /// The key prompt was aborted.
    Aborted,
    /// The authentication call failed with `err`.
    AuthFailed { key: String, err: ServiceError },
    /// Authentication succeeded; `fetch_user` is the follow-up fetch of the
    /// account.
    LoggedIn { key: String, fetch_user: Result<User, ServiceError> },
}

impl LoginEvent {
    /// A fetched account carries wallets keyed by distinct public keys.
    pub open spec fn wf(self) -> bool {
        match self {
            LoginEvent::LoggedIn { fetch_user: Ok(u), .. } => wallets_unique(u.wallets@),
            _ => true,
        }
    }
}

impl Login {
    /// How one login turn relates the store before (`s0`) and after (`s1`),
    /// the observed event and the produced result.
    pub open spec fn rel(self, s0: AppData, ev: LoginEvent, s1: AppData, r: HandleResult) -> bool {
        match ev {
            LoginEvent::Aborted => s1 == s0 && r == Err::<Option<Menu>, (Menu, AppError)>(
                (Menu::Login(Login), AppError::PromptAborted),
            ),
            LoginEvent::AuthFailed { key, err } => s1 == s0 && match err {
                // An unknown account is an invitation to create one, with
                // the entered key carried over.
                ServiceError::NotFound => (r matches Ok(Some(Menu::Signup(sg)))
                    && sg.credentials.private_key@ == key@),
                _ => r == Err::<Option<Menu>, (Menu, AppError)>(
                    (Menu::Login(Login), AppError::Service(err)),
                ),
            },
            LoginEvent::LoggedIn { key: _, fetch_user } => match fetch_user {
                Err(e) => s1 == (AppData { authenticated: true, ..s0 }) && r == Err::<
                    Option<Menu>,
                    (Menu, AppError),
                >((Menu::Login(Login), AppError::Service(e))),
                Ok(u) => s1 == (AppData {
                    user: ActiveUser(Some(u)),
                    authenticated: true,
                    ..s0
                }) && r == Ok::<Option<Menu>, (Menu, AppError)>(Some(Menu::Main(MainMenu))),
            },
        }
    }

    /// Consumes one login turn's event.
    pub fn handle(&self, store: &mut AppData, ev: LoginEvent) -> (r: HandleResult)
        requires
            old(store).wf(),
            ev.wf(),
        ensures
            final(store).wf(),
            self.rel(*old(store), ev, *final(store), r),
    {
        match ev {
            LoginEvent::Aborted => Err((Menu::Login(Login), AppError::PromptAborted)),
            LoginEvent::AuthFailed { key, err } => match err {
                ServiceError::NotFound => Ok(
                    Some(Menu::Signup(Signup { credentials: Credentials { private_key: key } })),
                ),
                _ => Err((Menu::Login(Login), AppError::Service(err))),
            },
            LoginEvent::LoggedIn { key: _, fetch_user } => {
                store.mark_authenticated();
                match fetch_user {
                    Err(e) => Err((Menu::Login(Login), AppError::Service(e))),
                    Ok(u) => {
                        store.set_user(u);
                        Ok(Some(Menu::Main(MainMenu)))
                    },
                }
            },
        }
    }
}

/// The signup screen: reached from login when the account is unknown; the
/// operator confirms or declines creating it.
pub struct Signup {
    pub credentials: Credentials,
}

/// What the signup turn observed.
pub enum SignupEvent {
    /// The operator declined to create the account.
    Declined,
    /// The creation call failed.
    CreateFailed(ServiceError),
    /// Creation succeeded, the follow-up login failed.
    LoginFailed(ServiceError),
    /// Creation and login succeeded; the fetch of the fresh account.
    Completed(Result<User, ServiceError>),
}

impl SignupEvent {
    /// A fetched account carries wallets keyed by distinct public keys.
    pub open spec fn wf(self) -> bool {
        match self {
            SignupEvent::Completed(Ok(u)) => wallets_unique(u.wallets@),
            _ => true,
        }
    }
}

impl Signup {
    /// How one signup turn relates store, event and result.
    pub open spec fn rel(self, s0: AppData, ev: SignupEvent, s1: AppData, r: HandleResult) -> bool {
        match ev {
            // Declining leaves the store exactly as it was and returns to
            // the login screen.
            SignupEvent::Declined => s1 == s0 && r == Ok::<Option<Menu>, (Menu, AppError)>(
                Some(Menu::Login(Login)),
            ),
            SignupEvent::CreateFailed(e) => s1 == s0 && (r matches Err((Menu::Signup(sg), err))
                && sg.credentials.private_key@ == self.credentials.private_key@ && err
                == AppError::Service(e)),
            SignupEvent::LoginFailed(e) => s1 == s0 && (r matches Err((Menu::Signup(sg), err))
                && sg.credentials.private_key@ == self.credentials.private_key@ && err
                == AppError::Service(e)),
            SignupEvent::Completed(fetch_user) => match fetch_user {
                Err(e) => s1 == (AppData { authenticated: true, ..s0 }) && r == Err::<
                    Option<Menu>,
                    (Menu, AppError),
                >((Menu::Login(Login), AppError::Service(e))),
                Ok(u) => s1 == (AppData {
                    user: ActiveUser(Some(u)),
                    authenticated: true,
                    ..s0
                }) && r == Ok::<Option<Menu>, (Menu, AppError)>(Some(Menu::Main(MainMenu))),
            },
        }
    }

    /// Consumes one signup turn's event.
    pub fn handle(&self, store: &mut AppData, ev: SignupEvent) -> (r: HandleResult)
        requires
            old(store).wf(),
            ev.wf(),
        ensures
            final(store).wf(),
            self.rel(*old(store), ev, *final(store), r),
    {
        match ev {
            SignupEvent::Declined => Ok(Some(Menu::Login(Login))),
            SignupEvent::CreateFailed(e) => {
                let fallback = Signup {
                    credentials: Credentials { private_key: self.credentials.private_key.clone() },
                };
                Err((Menu::Signup(fallback), AppError::Service(e)))
            },
            SignupEvent::LoginFailed(e) => {
                let fallback = Signup {
                    credentials: Credentials { private_key: self.credentials.private_key.clone() },
                };
                Err((Menu::Signup(fallback), AppError::Service(e)))
            },
            SignupEvent::Completed(fetch_user) => {
                store.mark_authenticated();
                match fetch_user {
                    Err(e) => Err((Menu::Login(Login), AppError::Service(e))),
                    Ok(u) => {
                        store.set_user(u);
                        Ok(Some(Menu::Main(MainMenu)))
                    },
                }
            },
        }
    }
}

/// Logging in with unknown credentials leads to the signup prompt with
/// the entered key carried over; declining the creation returns to the
/// login screen; neither turn mutates the session store.
pub proof fn lemma_decline_signup_roundtrip(
    s0: AppData,
    key: String,
    s1: AppData,
    r1: HandleResult,
    sg: Signup,
    s2: AppData,
    r2: HandleResult,
)
    requires
        Login.rel(s0, LoginEvent::AuthFailed { key, err: ServiceError::NotFound }, s1, r1),
        r1 == Ok::<Option<Menu>, (Menu, AppError)>(Some(Menu::Signup(sg))),
        sg.rel(s1, SignupEvent::Declined, s2, r2),
    ensures
        s1 == s0,
        s2 == s0,
        sg.credentials.private_key@ == key@,
        r2 == Ok::<Option<Menu>, (Menu, AppError)>(Some(Menu::Login(Login))),
{
}

} // verus!
