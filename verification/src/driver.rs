//! The top-level driver's decisions.
//!
//! Each iteration the driver renders a status banner from the session
//! store, checks whether the background refresh task has died, and
//! otherwise runs the current screen's turn and interprets its outcome:
//! the next screen, the terminal exit, or an error to render before
//! resuming at a fallback screen. The loop never terminates involuntarily
//! on a business error.

use vstd::prelude::*;
use crate::errors::AppError;
use crate::errors::ServiceError;
use crate::handlers::auth::Login;
use crate::menu::HandleResult;
use crate::menu::Menu;
use crate::session::User;
use crate::session::Wallet;

verus! {

/// What the driver does next with one turn's outcome.
pub enum DriverStep {
    /// Move on to this screen.
    Continue(Menu),
    /// Render this error, wait for acknowledgment, then resume at this
    /// screen.
    ShowError(Menu, AppError),
    /// The operator chose to exit.
    Quit,
}

/// Where a failed turn resumes. A missing authentication token forces a
/// reset to the login screen whatever screen raised it, since the session
/// is no longer valid; every other error resumes at the turn's designated
/// fallback.
pub open spec fn route_failure_spec(fallback: Menu, err: AppError) -> Menu {
    match err {
        AppError::Service(ServiceError::MissingAuth) => Menu::Login(Login),
        _ => fallback,
    }
}

/// Interprets one turn's outcome, routing a failure to the screen it
/// resumes at.
pub fn interpret_outcome(outcome: HandleResult) -> (r: DriverStep)
    ensures
        match outcome {
            Ok(Some(m)) => r == DriverStep::Continue(m),
            Ok(None) => r == DriverStep::Quit,
            Err((fb, e)) => r == DriverStep::ShowError(route_failure_spec(fb, e), e),
        },
{
    match outcome {
        Ok(Some(m)) => DriverStep::Continue(m),
        Ok(None) => DriverStep::Quit,
        Err((fb, e)) => {
            let next = match &e {
                AppError::Service(ServiceError::MissingAuth) => Menu::Login(Login),
                _ => fb,
            };
            DriverStep::ShowError(next, e)
        },
    }
}

/// The lamports held by the wallets at and after position `i`.
pub open spec fn sum_sol_from(ws: Seq<Wallet>, i: int) -> int
    decreases ws.len() - i,
{
    if i < 0 || i >= ws.len() {
        0
    } else {
        ws[i].sol_balance + sum_sol_from(ws, i + 1)
    }
}

/// The lamports held by all sniper wallets together.
pub open spec fn sum_sol(ws: Seq<Wallet>) -> int {
    sum_sol_from(ws, 0)
}

/// The token units held by the wallets at and after position `i`; a
/// wallet without a token balance counts as zero.
pub open spec fn sum_tokens_from(ws: Seq<Wallet>, i: int) -> int
    decreases ws.len() - i,
{
    if i < 0 || i >= ws.len() {
        0
    } else {
        (match ws[i].token_balance {
            Some(t) => t as int,
            None => 0,
        }) + sum_tokens_from(ws, i + 1)
    }
}

/// The token units held by all sniper wallets together.
pub open spec fn sum_tokens(ws: Seq<Wallet>) -> int {
    sum_tokens_from(ws, 0)
}

/// The banner's combined sniper balance, in lamports.
pub fn total_sniper_sol(u: &User) -> (r: u128)
    ensures
        r as int == sum_sol(u.wallets@),
{
    let n = u.wallets.len();
    let mut acc: u128 = 0;
    let mut i: usize = 0;
    while i < n
        invariant
            n == u.wallets@.len(),
            0 <= i <= n,
            acc as int + sum_sol_from(u.wallets@, i as int) == sum_sol(u.wallets@),
            acc as int <= i as int * 0xffff_ffff_ffff_ffff,
        decreases n - i,
    {
        acc = acc + u.wallets[i].sol_balance as u128;
        i += 1;
    }
    acc
}

/// The banner's combined sniper token balance.
pub fn total_sniper_tokens(u: &User) -> (r: u128)
    ensures
        r as int == sum_tokens(u.wallets@),
{
    let n = u.wallets.len();
    let mut acc: u128 = 0;
    let mut i: usize = 0;
    while i < n
        invariant
            n == u.wallets@.len(),
            0 <= i <= n,
            acc as int + sum_tokens_from(u.wallets@, i as int) == sum_tokens(u.wallets@),
            acc as int <= i as int * 0xffff_ffff_ffff_ffff,
        decreases n - i,
    {
        let t = match u.wallets[i].token_balance {
            Some(t) => t,
            None => 0,
        };
        acc = acc + t as u128;
        i += 1;
    }
    acc
}

} // verus!
