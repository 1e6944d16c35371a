//! The bump screens: the bump menu and the start/stop of the server-side
//! bump automation loop for the active project.

use vstd::prelude::*;
use crate::errors::AppError;
use crate::errors::ServiceError;
use crate::handlers::main::MainMenu;
use crate::handlers::project::ProjectMenu;
use crate::menu::HandleResult;
use crate::menu::Menu;
use crate::session::AppData;
use crate::session::BumpStatus;
use crate::session::PumpfunBumpStatus;

verus! {

/// The bump menu's entries, in prompt order.
pub enum BumpMenuOptions {
    Start,
    Stop,
    Back,
}

impl BumpMenuOptions {
    /// The entry's prompt label.
    pub open spec fn label_spec(self) -> Seq<char> {
        match self {
            BumpMenuOptions::Start => "StartBumps"@,
            BumpMenuOptions::Stop => "StopBumps"@,
            BumpMenuOptions::Back => "Back"@,
        }
    }

    /// The entry's prompt label.
    pub fn to_string(&self) -> (r: String)
        ensures
            r@ == self.label_spec(),
    {
        match self {
            BumpMenuOptions::Start => "StartBumps".to_string(),
            BumpMenuOptions::Stop => "StopBumps".to_string(),
            BumpMenuOptions::Back => "Back".to_string(),
        }
    }

    /// The entry at the given prompt index.
    pub open spec fn from_index_spec(value: int) -> Option<BumpMenuOptions> {
        if value == 0 {
            Some(BumpMenuOptions::Start)
        } else if value == 1 {
            Some(BumpMenuOptions::Stop)
        } else if value == 2 {
            Some(BumpMenuOptions::Back)
        } else {
            None
        }
    }

    /// The entry at the given prompt index, if it is one.
    pub fn from_index(value: usize) -> (r: Option<BumpMenuOptions>)
        ensures
            r == Self::from_index_spec(value as int),
    {
        match value {
            0 => Some(BumpMenuOptions::Start),
            1 => Some(BumpMenuOptions::Stop),
            2 => Some(BumpMenuOptions::Back),
            _ => None,
        }
    }
}

/// The bump menu: start or stop the automation loop, or go back.
pub struct BumpMenu;

impl BumpMenu {
    /// Where each prompt index leads.
    pub open spec fn route_spec(i: int) -> Option<Menu> {
        match BumpMenuOptions::from_index_spec(i) {
            Some(BumpMenuOptions::Start) => Some(Menu::StartBumps(StartBumps)),
            Some(BumpMenuOptions::Stop) => Some(Menu::StopBumps(StopBumps)),
            Some(BumpMenuOptions::Back) => Some(Menu::ProjectMenu(ProjectMenu)),
            None => None,
        }
    }

    /// How the menu turn relates store, event and result: pure routing,
    /// the store is never written.
    pub open spec fn rel(
        self,
        s0: AppData,
        ev: Result<usize, String>,
        s1: AppData,
        r: HandleResult,
    ) -> bool {
        s1 == s0 && match ev {
            Err(msg) => r == Err::<Option<Menu>, (Menu, AppError)>(
                (Menu::ProjectMenu(ProjectMenu), AppError::Dialogue(msg)),
            ),
            Ok(i) => r == Ok::<Option<Menu>, (Menu, AppError)>(Self::route_spec(i as int)),
        }
    }

    /// Consumes the prompt's selection; an index is one the prompt can
    /// produce.
    pub fn handle(&self, store: &mut AppData, ev: Result<usize, String>) -> (r: HandleResult)
        requires
            old(store).wf(),
            ev matches Ok(i) ==> i < 3,
        ensures
            final(store).wf(),
            self.rel(*old(store), ev, *final(store), r),
    {
        match ev {
            Err(msg) => Err((Menu::ProjectMenu(ProjectMenu), AppError::Dialogue(msg))),
            Ok(i) => match BumpMenuOptions::from_index(i) {
                Some(BumpMenuOptions::Start) => Ok(Some(Menu::StartBumps(StartBumps))),
                Some(BumpMenuOptions::Stop) => Ok(Some(Menu::StopBumps(StopBumps))),
                Some(BumpMenuOptions::Back) => Ok(Some(Menu::ProjectMenu(ProjectMenu))),
                None => unreached(),
            },
        }
    }
}

/// The start-bumps screen: asks for an interval and an amount, then
/// enables the automation loop for the active project.
pub struct StartBumps;

/// What the start-bumps turn observed.
pub enum StartBumpsEvent {
    /// No active project remained.
    ProjectMissing,
    /// The interval prompt was aborted.
    IntervalAborted,
    /// The amount prompt was aborted.
    AmountAborted,
    /// The enable call's outcome.
    Enabled(Result<(), ServiceError>),
}

impl StartBumps {
    /// How the turn relates store, event and result: only a successful
    /// enable writes, recording the loop as pending until the next poll.
    pub open spec fn rel(
        self,
        s0: AppData,
        ev: StartBumpsEvent,
        s1: AppData,
        r: HandleResult,
    ) -> bool {
        match ev {
            StartBumpsEvent::ProjectMissing => s1 == s0 && r == Err::<
                Option<Menu>,
                (Menu, AppError),
            >((Menu::Main(MainMenu), AppError::ProjectNotFound)),
            StartBumpsEvent::IntervalAborted => s1 == s0 && r == Ok::<
                Option<Menu>,
                (Menu, AppError),
            >(Some(Menu::Bump(BumpMenu))),
            StartBumpsEvent::AmountAborted => s1 == s0 && r == Ok::<Option<Menu>, (Menu, AppError)>(
                Some(Menu::Bump(BumpMenu)),
            ),
            StartBumpsEvent::Enabled(Err(e)) => s1 == s0 && r == Err::<
                Option<Menu>,
                (Menu, AppError),
            >((Menu::Bump(BumpMenu), AppError::Service(e))),
            StartBumpsEvent::Enabled(Ok(())) => s1 == (AppData {
                bump_status: BumpStatus(Some(PumpfunBumpStatus::Pending)),
                ..s0
            }) && r == Ok::<Option<Menu>, (Menu, AppError)>(Some(Menu::Bump(BumpMenu))),
        }
    }

    /// Consumes one start-bumps turn's event. The enable call names the
    /// active project, so it is only attempted when one is selected.
    pub fn handle(&self, store: &mut AppData, ev: StartBumpsEvent) -> (r: HandleResult)
        requires
            old(store).wf(),
            ev is ProjectMissing ==> old(store).active_project.0 is None,
            ev is Enabled ==> old(store).active_project.0 is Some,
        ensures
            final(store).wf(),
            self.rel(*old(store), ev, *final(store), r),
    {
        match ev {
            StartBumpsEvent::ProjectMissing => Err(
                (Menu::Main(MainMenu), AppError::ProjectNotFound),
            ),
            StartBumpsEvent::IntervalAborted => Ok(Some(Menu::Bump(BumpMenu))),
            StartBumpsEvent::AmountAborted => Ok(Some(Menu::Bump(BumpMenu))),
            StartBumpsEvent::Enabled(Err(e)) => Err((Menu::Bump(BumpMenu), AppError::Service(e))),
            StartBumpsEvent::Enabled(Ok(())) => {
                store.set_bump_status(Some(PumpfunBumpStatus::Pending));
                Ok(Some(Menu::Bump(BumpMenu)))
            },
        }
    }
}

/// The stop-bumps screen: disables the automation loop.
pub struct StopBumps;

impl StopBumps {
    /// How the turn relates store, event and result: the store is never
    /// written — the status change arrives with the next poll.
    pub open spec fn rel(
        self,
        s0: AppData,
        ev: Result<(), ServiceError>,
        s1: AppData,
        r: HandleResult,
    ) -> bool {
        s1 == s0 && match ev {
            Err(e) => r == Err::<Option<Menu>, (Menu, AppError)>(
                (Menu::Bump(BumpMenu), AppError::Service(e)),
            ),
            Ok(()) => r == Ok::<Option<Menu>, (Menu, AppError)>(Some(Menu::Bump(BumpMenu))),
        }
    }

    /// Consumes the disable call's outcome.
    pub fn handle(&self, store: &mut AppData, ev: Result<(), ServiceError>) -> (r: HandleResult)
        requires
            old(store).wf(),
        ensures
            final(store).wf(),
            self.rel(*old(store), ev, *final(store), r),
    {
        match ev {
            Err(e) => Err((Menu::Bump(BumpMenu), AppError::Service(e))),
            Ok(()) => Ok(Some(Menu::Bump(BumpMenu))),
        }
    }
}

} // verus!
