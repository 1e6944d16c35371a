//! The project screens: the per-project menu, selection, creation and
//! deletion.

use vstd::prelude::*;
use crate::errors::AppError;
use crate::errors::ServiceError;
use crate::handlers::bumps::BumpMenu;
use crate::handlers::main::MainMenu;
use crate::handlers::trade::Buy;
use crate::handlers::trade::Sell;
use crate::menu::HandleResult;
use crate::menu::Menu;
use crate::session::ActiveProject;
use crate::session::AppData;
use crate::session::Project;
use crate::session::project_removed;
use crate::session::projects_upserted;

verus! {

/// The per-project menu's entries, in prompt order.
pub enum ProjectMenuOptions {
    Buy,
    Sell,
    AutoBuy,
    AutoSell,
    Bumps,
    Delete,
    Back,
}

impl ProjectMenuOptions {
    /// The entry's prompt label.
    pub open spec fn label_spec(self) -> Seq<char> {
        match self {
            ProjectMenuOptions::Buy => "Buy"@,
            ProjectMenuOptions::Sell => "Sell"@,
            ProjectMenuOptions::AutoBuy => "AutoBuy"@,
            ProjectMenuOptions::AutoSell => "AutoSell"@,
            ProjectMenuOptions::Bumps => "Bumps"@,
            ProjectMenuOptions::Delete => "Delete"@,
            ProjectMenuOptions::Back => "Back"@,
        }
    }

    /// The entry's prompt label.
    pub fn to_string(&self) -> (r: String)
        ensures
            r@ == self.label_spec(),
    {
        match self {
            ProjectMenuOptions::Buy => "Buy".to_string(),
            ProjectMenuOptions::Sell => "Sell".to_string(),
            ProjectMenuOptions::AutoBuy => "AutoBuy".to_string(),
            ProjectMenuOptions::AutoSell => "AutoSell".to_string(),
            ProjectMenuOptions::Bumps => "Bumps".to_string(),
            ProjectMenuOptions::Delete => "Delete".to_string(),
            ProjectMenuOptions::Back => "Back".to_string(),
        }
    }

    /// The entry at the given prompt index.
    pub open spec fn from_index_spec(value: int) -> Option<ProjectMenuOptions> {
        if value == 0 {
            Some(ProjectMenuOptions::Buy)
        } else if value == 1 {
            Some(ProjectMenuOptions::Sell)
        } else if value == 2 {
            Some(ProjectMenuOptions::AutoBuy)
        } else if value == 3 {
            Some(ProjectMenuOptions::AutoSell)
        } else if value == 4 {
            Some(ProjectMenuOptions::Bumps)
        } else if value == 5 {
            Some(ProjectMenuOptions::Delete)
        } else if value == 6 {
            Some(ProjectMenuOptions::Back)
        } else {
            None
        }
    }

    /// The entry at the given prompt index, if it is one.
    pub fn from_index(value: usize) -> (r: Option<ProjectMenuOptions>)
        ensures
            r == Self::from_index_spec(value as int),
    {
        match value {
            0 => Some(ProjectMenuOptions::Buy),
            1 => Some(ProjectMenuOptions::Sell),
            2 => Some(ProjectMenuOptions::AutoBuy),
            3 => Some(ProjectMenuOptions::AutoSell),
            4 => Some(ProjectMenuOptions::Bumps),
            5 => Some(ProjectMenuOptions::Delete),
            6 => Some(ProjectMenuOptions::Back),
            _ => None,
        }
    }
}

/// The per-project menu: routes to trading, bumps, deletion or back to the
/// top.
pub struct ProjectMenu;

impl ProjectMenu {
    /// Where each prompt index leads.
    pub open spec fn route_spec(i: int) -> Option<Menu> {
        match ProjectMenuOptions::from_index_spec(i) {
            Some(ProjectMenuOptions::Buy) => Some(Menu::Buy(Buy { auto: false })),
            Some(ProjectMenuOptions::Sell) => Some(Menu::Sell(Sell { auto: false })),
            Some(ProjectMenuOptions::AutoBuy) => Some(Menu::Buy(Buy { auto: true })),
            Some(ProjectMenuOptions::AutoSell) => Some(Menu::Sell(Sell { auto: true })),
            Some(ProjectMenuOptions::Bumps) => Some(Menu::Bump(BumpMenu)),
            Some(ProjectMenuOptions::Delete) => Some(Menu::DeleteProject(DeleteProject)),
            Some(ProjectMenuOptions::Back) => Some(Menu::Main(MainMenu)),
            None => None,
        }
    }

    /// How the menu turn relates store, event and result: pure routing,
    /// the store is never written.
    pub open spec fn rel(
        self,
        s0: AppData,
        ev: Result<usize, String>,
        s1: AppData,
        r: HandleResult,
    ) -> bool {
        s1 == s0 && match ev {
            Err(msg) => r == Err::<Option<Menu>, (Menu, AppError)>(
                (Menu::Main(MainMenu), AppError::Dialogue(msg)),
            ),
            Ok(i) => r == Ok::<Option<Menu>, (Menu, AppError)>(Self::route_spec(i as int)),
        }
    }

    /// Consumes the prompt's selection; an index is one the prompt can
    /// produce.
    pub fn handle(&self, store: &mut AppData, ev: Result<usize, String>) -> (r: HandleResult)
        requires
            old(store).wf(),
            ev matches Ok(i) ==> i < 7,
        ensures
            final(store).wf(),
            self.rel(*old(store), ev, *final(store), r),
    {
        match ev {
            Err(msg) => Err((Menu::Main(MainMenu), AppError::Dialogue(msg))),
            Ok(i) => match ProjectMenuOptions::from_index(i) {
                Some(ProjectMenuOptions::Buy) => Ok(Some(Menu::Buy(Buy { auto: false }))),
                Some(ProjectMenuOptions::Sell) => Ok(Some(Menu::Sell(Sell { auto: false }))),
                Some(ProjectMenuOptions::AutoBuy) => Ok(Some(Menu::Buy(Buy { auto: true }))),
                Some(ProjectMenuOptions::AutoSell) => Ok(Some(Menu::Sell(Sell { auto: true }))),
                Some(ProjectMenuOptions::Bumps) => Ok(Some(Menu::Bump(BumpMenu))),
                Some(ProjectMenuOptions::Delete) => Ok(Some(Menu::DeleteProject(DeleteProject))),
                Some(ProjectMenuOptions::Back) => Ok(Some(Menu::Main(MainMenu))),
                None => unreached(),
            },
        }
    }
}

/// The project picker: the operator chooses one of the known projects, or
/// backs out.
pub struct SelectProject;

impl SelectProject {
    /// The prompt's entries: one label per known project, in store order,
    /// with a closing `Back` entry.
    pub fn labels(&self, store: &AppData) -> (r: Vec<String>)
        ensures
            r@.len() == store.projects@.len() + 1,
            forall|i: int| 0 <= i < store.projects@.len() ==> r@[i]@ == store.projects@[i].name@,
            r@[store.projects@.len() as int]@ == "Back"@,
    {
        let mut out: Vec<String> = Vec::new();
        let n = store.projects.len();
        let mut i: usize = 0;
        while i < n
            invariant
                n == store.projects@.len(),
                0 <= i <= n,
                out@.len() == i,
                forall|j: int| 0 <= j < i ==> out@[j]@ == store.projects@[j].name@,
            decreases n - i,
        {
            out.push(store.projects[i].name.clone());
            i += 1;
        }
        out.push("Back".to_string());
        out
    }

    /// How the picker turn relates store, event and result: the chosen
    /// index becomes the active selection; the closing index backs out.
    pub open spec fn rel(self, s0: AppData, index: usize, s1: AppData, r: HandleResult) -> bool {
        if index as int == s0.projects@.len() {
            s1 == s0 && r == Ok::<Option<Menu>, (Menu, AppError)>(Some(Menu::Main(MainMenu)))
        } else {
            s1 == (AppData {
                active_project: ActiveProject(Some(s0.projects@[index as int].id)),
                ..s0
            }) && r == Ok::<Option<Menu>, (Menu, AppError)>(Some(Menu::ProjectMenu(ProjectMenu)))
        }
    }

    /// Consumes the prompt's selection: an index into [`Self::labels`].
    pub fn handle(&self, store: &mut AppData, index: usize) -> (r: HandleResult)
        requires
            old(store).wf(),
            index <= old(store).projects@.len(),
        ensures
            final(store).wf(),
            self.rel(*old(store), index, *final(store), r),
    {
        if index == store.projects.len() {
            return Ok(Some(Menu::Main(MainMenu)));
        }
        let id = store.projects[index].id;
        store.set_active(id);
        Ok(Some(Menu::ProjectMenu(ProjectMenu)))
    }
}

/// The import-token screen: the operator enters a mint address and the
/// service creates a project around it.
pub struct CreateProject;

/// What the import-token turn observed.
pub enum CreateProjectEvent {
    /// The mint prompt was aborted.
    Aborted,
    /// The creation call's outcome.
    Created(Result<Project, ServiceError>),
}

impl CreateProject {
    /// How the turn relates store, event and result: only a successful
    /// creation writes, recording the project and selecting it.
    pub open spec fn rel(
        self,
        s0: AppData,
        ev: CreateProjectEvent,
        s1: AppData,
        r: HandleResult,
    ) -> bool {
        match ev {
            CreateProjectEvent::Aborted => s1 == s0 && r == Ok::<Option<Menu>, (Menu, AppError)>(
                Some(Menu::Main(MainMenu)),
            ),
            CreateProjectEvent::Created(Err(e)) => s1 == s0 && r == Err::<
                Option<Menu>,
                (Menu, AppError),
            >((Menu::Main(MainMenu), AppError::Service(e))),
            CreateProjectEvent::Created(Ok(p)) => {
                &&& s1 == (AppData {
                    projects: s1.projects,
                    active_project: ActiveProject(Some(p.id)),
                    ..s0
                })
                &&& projects_upserted(s0.projects@, s1.projects@, p)
                &&& r == Ok::<Option<Menu>, (Menu, AppError)>(Some(Menu::ProjectMenu(ProjectMenu)))
            },
        }
    }

    /// Consumes one import-token turn's event.
    pub fn handle(&self, store: &mut AppData, ev: CreateProjectEvent) -> (r: HandleResult)
        requires
            old(store).wf(),
        ensures
            final(store).wf(),
            self.rel(*old(store), ev, *final(store), r),
    {
        match ev {
            CreateProjectEvent::Aborted => Ok(Some(Menu::Main(MainMenu))),
            CreateProjectEvent::Created(Err(e)) => Err(
                (Menu::Main(MainMenu), AppError::Service(e)),
            ),
            CreateProjectEvent::Created(Ok(p)) => {
                let id = p.id;
                store.upsert_project(p);
                store.set_active(id);
                Ok(Some(Menu::ProjectMenu(ProjectMenu)))
            },
        }
    }
}

/// The delete-project screen: asks for confirmation, issues the delete,
/// and only on success removes the project from the store.
pub struct DeleteProject;

/// What the delete-project turn observed.
pub enum DeleteProjectEvent {
    /// The operator declined the confirmation.
    Declined,
    /// The operator confirmed; the delete call's outcome.
    Confirmed(Result<(), ServiceError>),
}

impl DeleteProject {
    /// How the turn relates store, event and result. Without an active
    /// project the turn fails at once, whatever the event claims; only a
    /// confirmed, successful delete removes the project and clears the
    /// selection.
    pub open spec fn rel(
        self,
        s0: AppData,
        ev: DeleteProjectEvent,
        s1: AppData,
        r: HandleResult,
    ) -> bool {
        match s0.active_project.0 {
            None => s1 == s0 && r == Err::<Option<Menu>, (Menu, AppError)>(
                (Menu::Main(MainMenu), AppError::ProjectNotFound),
            ),
            Some(id) => match ev {
                DeleteProjectEvent::Declined => s1 == s0 && r == Ok::<
                    Option<Menu>,
                    (Menu, AppError),
                >(Some(Menu::ProjectMenu(ProjectMenu))),
                DeleteProjectEvent::Confirmed(Err(e)) => s1 == s0 && r == Err::<
                    Option<Menu>,
                    (Menu, AppError),
                >((Menu::Main(MainMenu), AppError::Service(e))),
                DeleteProjectEvent::Confirmed(Ok(())) => {
                    &&& s1 == (AppData {
                        projects: s1.projects,
                        active_project: ActiveProject(None),
                        ..s0
                    })
                    &&& project_removed(s0.projects@, s1.projects@, id)
                    &&& r == Ok::<Option<Menu>, (Menu, AppError)>(Some(Menu::Main(MainMenu)))
                },
            },
        }
    }

    /// Consumes one delete-project turn's event.
    pub fn handle(&self, store: &mut AppData, ev: DeleteProjectEvent) -> (r: HandleResult)
        requires
            old(store).wf(),
        ensures
            final(store).wf(),
            self.rel(*old(store), ev, *final(store), r),
    {
        let id = match store.active_project.0 {
            Some(id) => id,
            None => {
                return Err((Menu::Main(MainMenu), AppError::ProjectNotFound));
            },
        };
        match ev {
            DeleteProjectEvent::Declined => Ok(Some(Menu::ProjectMenu(ProjectMenu))),
            DeleteProjectEvent::Confirmed(Err(e)) => Err(
                (Menu::Main(MainMenu), AppError::Service(e)),
            ),
            DeleteProjectEvent::Confirmed(Ok(())) => {
                store.remove_project(id);
                store.clear_active();
                Ok(Some(Menu::Main(MainMenu)))
            },
        }
    }
}

/// Deleting a project is idempotent in the safe sense: once a confirmed
/// delete has succeeded and cleared the selection, a second attempt —
/// whatever its event claims — reports `ProjectNotFound` and leaves the
/// store untouched, rather than failing any harder.
pub proof fn lemma_delete_project_idempotent(
    s0: AppData,
    s1: AppData,
    r1: HandleResult,
    ev2: DeleteProjectEvent,
    s2: AppData,
    r2: HandleResult,
)
    requires
        s0.active_project.0 is Some,
        DeleteProject.rel(s0, DeleteProjectEvent::Confirmed(Ok(())), s1, r1),
        DeleteProject.rel(s1, ev2, s2, r2),
    ensures
        r1 == Ok::<Option<Menu>, (Menu, AppError)>(Some(Menu::Main(MainMenu))),
        r2 == Err::<Option<Menu>, (Menu, AppError)>(
            (Menu::Main(MainMenu), AppError::ProjectNotFound),
        ),
        s2 == s1,
{
}

} // verus!
