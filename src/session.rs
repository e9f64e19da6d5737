//! An open edit session, and the protocols that end it: save and discard.
use vstd::prelude::*;

use crate::error::{ErrorView, InPlaceError, InPlaceErrorKind};
use crate::protocol::{Action, ActionView, Event, EventView};

verus! {

/// A file that is being edited in place: its resolved path, and the path,
/// if any, where its original content is kept once the edit is saved.
///
/// The driver holds the reader on the original file and the temporary file
/// that receives the new content beside it.
#[derive(Debug)]
pub struct InPlaceFile {
    path: String,
    backup_path: Option<String>,
}

/// A session as contracts see it.
pub struct FileView {
    pub path: Seq<char>,
    pub backup_path: Option<Seq<char>>,
}

impl View for InPlaceFile {
    type V = FileView;

    closed spec fn view(&self) -> FileView {
        FileView {
            path: self.path@,
            backup_path: match self.backup_path {
                Some(b) => Some(b@),
                None => None,
            },
        }
    }
}

/// The stages of saving and discarding.
#[derive(Debug)]
enum Phase {
    /// The edited file is being moved to the backup path.
    Backup,
    /// The temporary file is being moved to the edited path.
    Persist,
    /// Persisting failed with this error; the backup is being moved back.
    Rollback(InPlaceError),
    /// The save failed with this error; the temporary file is being deleted.
    Cleanup(InPlaceError),
    /// The temporary file is being deleted to discard the edit.
    Remove,
}

/// A stage as contracts see it.
pub enum CloseStageView {
    Backup,
    Persist,
    Rollback(ErrorView),
    Cleanup(ErrorView),
    Remove,
}

impl View for Phase {
    type V = CloseStageView;

    closed spec fn view(&self) -> CloseStageView {
        match self {
            Phase::Backup => CloseStageView::Backup,
            Phase::Persist => CloseStageView::Persist,
            Phase::Rollback(e) => CloseStageView::Rollback(e@),
            Phase::Cleanup(e) => CloseStageView::Cleanup(e@),
            Phase::Remove => CloseStageView::Remove,
        }
    }
}

/// Where a save or discard stands, awaiting the outcome of its last
/// action. Only `InPlaceFile::save`, `InPlaceFile::discard` and
/// `InPlaceFile::close_step` make one.
#[derive(Debug)]
pub struct CloseStage {
    phase: Phase,
}

impl View for CloseStage {
    type V = CloseStageView;

    closed spec fn view(&self) -> CloseStageView {
        self.phase@
    }
}

/// What a save or discard does next: an action to perform, or its result.
#[derive(Debug)]
pub enum CloseStep {
    Next(CloseStage, Action),
    Done(Result<(), InPlaceError>),
}

/// A step as contracts see it.
pub enum CloseStepView {
    Next(CloseStageView, ActionView),
    Done(Result<(), ErrorView>),
}

impl View for CloseStep {
    type V = CloseStepView;

    open spec fn view(&self) -> CloseStepView {
        match self {
            CloseStep::Next(s, a) => CloseStepView::Next(s@, a@),
            CloseStep::Done(Ok(())) => CloseStepView::Done(Ok(())),
            CloseStep::Done(Err(e)) => CloseStepView::Done(Err(e@)),
        }
    }
}

/// The first step of saving: move the edited file to the backup path if
/// there is one, else move the temporary file over it.
pub open spec fn save_start(file: FileView) -> CloseStepView {
    match file.backup_path {
        Some(b) => CloseStepView::Next(CloseStageView::Backup, ActionView::Rename(file.path, b)),
        None => CloseStepView::Next(CloseStageView::Persist, ActionView::PersistTemp(file.path)),
    }
}

/// The first step of discarding: delete the temporary file.
pub open spec fn discard_start() -> CloseStepView {
    CloseStepView::Next(CloseStageView::Remove, ActionView::RemoveTemp)
}

/// The step that follows `stage` when its action went as `event` says.
///
/// A failed move to the backup path leaves everything where it was; a
/// failed persist moves the backup back, whatever comes of that. Either way
/// the temporary file is then deleted, whatever comes of that, and the first
/// failure is reported.
pub open spec fn close_next(
    file: FileView,
    stage: CloseStageView,
    event: EventView,
) -> CloseStepView {
    match stage {
        CloseStageView::Backup => match event {
            EventView::Failed(e) => CloseStepView::Next(
                CloseStageView::Cleanup((InPlaceErrorKind::SaveBackup, Some(e))),
                ActionView::RemoveTemp,
            ),
            _ => CloseStepView::Next(CloseStageView::Persist, ActionView::PersistTemp(file.path)),
        },
        CloseStageView::Persist => match event {
            EventView::Failed(e) => match file.backup_path {
                Some(b) => CloseStepView::Next(
                    CloseStageView::Rollback((InPlaceErrorKind::PersistTemp, Some(e))),
                    ActionView::Rename(b, file.path),
                ),
                None => CloseStepView::Next(
                    CloseStageView::Cleanup((InPlaceErrorKind::PersistTemp, Some(e))),
                    ActionView::RemoveTemp,
                ),
            },
            _ => CloseStepView::Done(Ok(())),
        },
        CloseStageView::Rollback(err) => CloseStepView::Next(
            CloseStageView::Cleanup(err),
            ActionView::RemoveTemp,
        ),
        CloseStageView::Cleanup(err) => CloseStepView::Done(Err(err)),
        CloseStageView::Remove => match event {
            EventView::Failed(e) => CloseStepView::Done(Err((InPlaceErrorKind::Rmtemp, Some(e)))),
            _ => CloseStepView::Done(Ok(())),
        },
    }
}

/// The step that performs `action` and then awaits its outcome in `phase`.
fn next(phase: Phase, action: Action) -> (r: CloseStep)
    ensures
        r@ == CloseStepView::Next(phase@, action@),
{
    CloseStep::Next(CloseStage { phase }, action)
}

impl InPlaceFile {
    pub(crate) fn new(path: String, backup_path: Option<String>) -> (r: InPlaceFile)
        ensures
            r@.path == path@,
            r@.backup_path == match backup_path {
                Some(b) => Some(b@),
                None => None::<Seq<char>>,
            },
    {
        InPlaceFile { path, backup_path }
    }

    /// The edited path: canonical when symlinks were followed, else only
    /// absolute.
    pub fn path(&self) -> (r: &str)
        ensures
            r@ == self@.path,
    {
        self.path.as_str()
    }

    /// The absolute path, if any, where the edited file is moved on save.
    pub fn backup_path(&self) -> (r: Option<&str>)
        ensures
            match r {
                Some(b) => self@.backup_path == Some(b@),
                None => self@.backup_path is None,
            },
    {
        match &self.backup_path {
            Some(b) => Some(b.as_str()),
            None => None,
        }
    }

    /// Begins saving the edit; the driver closes the reader first.
    pub fn save(&self) -> (r: CloseStep)
        ensures
            r@ == save_start(self@),
    {
        match &self.backup_path {
            Some(b) => next(
                Phase::Backup,
                Action::Rename(self.path.clone(), b.clone()),
            ),
            None => next(Phase::Persist, Action::PersistTemp(self.path.clone())),
        }
    }

    /// Begins discarding the edit, leaving the edited file as it was.
    pub fn discard(&self) -> (r: CloseStep)
        ensures
            r@ == discard_start(),
    {
        next(Phase::Remove, Action::RemoveTemp)
    }

    /// Continues a save or discard, given how the last action went.
    pub fn close_step(&self, stage: CloseStage, event: Event) -> (r: CloseStep)
        ensures
            r@ == close_next(self@, stage@, event@),
    {
        match stage.phase {
            Phase::Backup => match event {
                Event::Failed(e) => next(
                    Phase::Cleanup(InPlaceError::save_backup(e)),
                    Action::RemoveTemp,
                ),
                _ => next(Phase::Persist, Action::PersistTemp(self.path.clone())),
            },
            Phase::Persist => match event {
                Event::Failed(e) => match &self.backup_path {
                    Some(b) => next(
                        Phase::Rollback(InPlaceError::persist(e)),
                        Action::Rename(b.clone(), self.path.clone()),
                    ),
                    None => next(
                        Phase::Cleanup(InPlaceError::persist(e)),
                        Action::RemoveTemp,
                    ),
                },
                _ => CloseStep::Done(Ok(())),
            },
            Phase::Rollback(err) => next(Phase::Cleanup(err), Action::RemoveTemp),
            Phase::Cleanup(err) => CloseStep::Done(Err(err)),
            Phase::Remove => match event {
                Event::Failed(e) => CloseStep::Done(Err(InPlaceError::rmtemp(e))),
                _ => CloseStep::Done(Ok(())),
            },
        }
    }
}

} // verus!
