//! The request to edit a file, and the protocol that opens it.
use vstd::prelude::*;

use crate::backup::Backup;
use crate::error::{ErrorView, InPlaceError, InPlaceErrorKind};
use crate::path::{is_absolute, join, parent, path_is_absolute, path_join, path_parent};
use crate::protocol::{Action, ActionView, Event, EventView};
use crate::session::{FileView, InPlaceFile};

verus! {

/// A request to edit a file in place: the edited path, where to back it up,
/// and whether to follow symlinks in the edited path.
#[derive(Clone, Debug, PartialEq, Eq)]
pub struct InPlace {
    path: String,
    backup: Option<Backup>,
    follow_symlinks: bool,
}

/// A request as contracts see it.
pub struct InPlaceView {
    pub path: Seq<char>,
    pub backup: Option<Backup>,
    pub follow_symlinks: bool,
}

impl View for InPlace {
    type V = InPlaceView;

    closed spec fn view(&self) -> InPlaceView {
        InPlaceView {
            path: self.path@,
            backup: self.backup,
            follow_symlinks: self.follow_symlinks,
        }
    }
}

/// The stages of opening.
#[derive(Debug)]
enum Phase {
    /// The edited path is being canonicalized.
    Canonical,
    /// The current directory is fetched to make the edited path absolute.
    TargetCwd,
    /// The current directory is fetched to make the backup path (second)
    /// absolute; the first is the resolved edited path.
    BackupCwd(String, String),
    /// The resolved edited path and the backup path are being compared.
    Identity(String, String),
    /// The temporary file is being created.
    Temp(String, Option<String>),
    /// The edited file's metadata is being read.
    Metadata(String, Option<String>),
    /// Permissions are being copied to the temporary file.
    Permissions(String, Option<String>),
    /// The edited file is being opened for reading.
    Reader(String, Option<String>),
    /// Opening failed with this error; the temporary file is being deleted.
    Cleanup(InPlaceError),
}

/// A stage as contracts see it.
pub enum OpenStageView {
    Canonical,
    TargetCwd,
    BackupCwd(Seq<char>, Seq<char>),
    Identity(Seq<char>, Seq<char>),
    Temp(Seq<char>, Option<Seq<char>>),
    Metadata(Seq<char>, Option<Seq<char>>),
    Permissions(Seq<char>, Option<Seq<char>>),
    Reader(Seq<char>, Option<Seq<char>>),
    Cleanup(ErrorView),
}

/// An optional path as contracts see it.
pub open spec fn opt_view(o: Option<String>) -> Option<Seq<char>> {
    match o {
        Some(s) => Some(s@),
        None => None,
    }
}

impl View for Phase {
    type V = OpenStageView;

    closed spec fn view(&self) -> OpenStageView {
        match self {
            Phase::Canonical => OpenStageView::Canonical,
            Phase::TargetCwd => OpenStageView::TargetCwd,
            Phase::BackupCwd(p, b) => OpenStageView::BackupCwd(p@, b@),
            Phase::Identity(p, b) => OpenStageView::Identity(p@, b@),
            Phase::Temp(p, b) => OpenStageView::Temp(p@, opt_view(*b)),
            Phase::Metadata(p, b) => OpenStageView::Metadata(p@, opt_view(*b)),
            Phase::Permissions(p, b) => OpenStageView::Permissions(p@, opt_view(*b)),
            Phase::Reader(p, b) => OpenStageView::Reader(p@, opt_view(*b)),
            Phase::Cleanup(e) => OpenStageView::Cleanup(e@),
        }
    }
}

/// Where opening stands, awaiting the outcome of its last action. Only
/// `InPlace::open` and `InPlace::open_step` make one.
#[derive(Debug)]
pub struct OpenStage {
    phase: Phase,
}

impl View for OpenStage {
    type V = OpenStageView;

    closed spec fn view(&self) -> OpenStageView {
        self.phase@
    }
}

/// Whether `event` is a reply that the action pending at `stage` can get.
pub open spec fn awaits(stage: OpenStageView, event: EventView) -> bool {
    match stage {
        OpenStageView::Canonical
        | OpenStageView::TargetCwd
        | OpenStageView::BackupCwd(_, _) => event is Resolved || event is Failed,
        OpenStageView::Identity(_, _) => event is SameFile,
        OpenStageView::Metadata(_, _) => event is IsSymlink || event is Failed,
        OpenStageView::Cleanup(_) => true,
        _ => event is Succeeded || event is Failed,
    }
}

/// What opening does next: an action to perform, or its result.
#[derive(Debug)]
pub enum OpenStep {
    Next(OpenStage, Action),
    Opened(InPlaceFile),
    Failed(InPlaceError),
}

/// A step as contracts see it.
pub enum OpenStepView {
    Next(OpenStageView, ActionView),
    Opened(FileView),
    Failed(ErrorView),
}

impl View for OpenStep {
    type V = OpenStepView;

    open spec fn view(&self) -> OpenStepView {
        match self {
            OpenStep::Next(s, a) => OpenStepView::Next(s@, a@),
            OpenStep::Opened(f) => OpenStepView::Opened(f@),
            OpenStep::Failed(e) => OpenStepView::Failed(e@),
        }
    }
}

/// With the resolved edited path and the final backup path settled: create
/// the temporary file in the edited file's directory.
pub open spec fn open_make_temp(path: Seq<char>, backup: Option<Seq<char>>) -> OpenStepView {
    match path_parent(path) {
        Some(dir) => OpenStepView::Next(
            OpenStageView::Temp(path, backup),
            ActionView::CreateTemp(dir),
        ),
        None => OpenStepView::Failed((InPlaceErrorKind::NoParent, None)),
    }
}

/// With the edited path resolved: work out the backup path.
///
/// An extension that the file already has gives the edited path itself;
/// that means no backup. Any other backup path is made absolute and then
/// compared with the edited file.
pub open spec fn open_with_target(cfg: InPlaceView, path: Seq<char>) -> OpenStepView {
    match cfg.backup {
        None => open_make_temp(path, None),
        Some(spec) => match spec.spec_apply(path) {
            Err(kind) => OpenStepView::Failed((kind, None)),
            Ok(b) => if spec is Extension && b == path {
                open_make_temp(path, None)
            } else if path_is_absolute(b) {
                OpenStepView::Next(
                    OpenStageView::Identity(path, b),
                    ActionView::CompareFiles(path, b),
                )
            } else {
                OpenStepView::Next(OpenStageView::BackupCwd(path, b), ActionView::CurrentDir)
            },
        },
    }
}

/// The first step of opening: resolve the edited path.
pub open spec fn open_start(cfg: InPlaceView) -> OpenStepView {
    if cfg.follow_symlinks {
        OpenStepView::Next(OpenStageView::Canonical, ActionView::Canonicalize(cfg.path))
    } else if path_is_absolute(cfg.path) {
        open_with_target(cfg, cfg.path)
    } else {
        OpenStepView::Next(OpenStageView::TargetCwd, ActionView::CurrentDir)
    }
}

/// The step that follows `stage` when its action went as `event` says.
///
/// Once the temporary file exists, every failure deletes it before it is
/// reported; the edited file is only ever read.
pub open spec fn open_next(
    cfg: InPlaceView,
    stage: OpenStageView,
    event: EventView,
) -> OpenStepView {
    match stage {
        OpenStageView::Canonical => match event {
            EventView::Resolved(p) => open_with_target(cfg, p),
            EventView::Failed(e) => OpenStepView::Failed((InPlaceErrorKind::Canonicalize, Some(e))),
            _ => arbitrary(),
        },
        OpenStageView::TargetCwd => match event {
            EventView::Resolved(cwd) => open_with_target(cfg, path_join(cwd, cfg.path)),
            EventView::Failed(e) => OpenStepView::Failed((InPlaceErrorKind::CurrentDir, Some(e))),
            _ => arbitrary(),
        },
        OpenStageView::BackupCwd(p, b) => match event {
            EventView::Resolved(cwd) => {
                let b2 = path_join(cwd, b);
                OpenStepView::Next(OpenStageView::Identity(p, b2), ActionView::CompareFiles(p, b2))
            },
            EventView::Failed(e) => OpenStepView::Failed((InPlaceErrorKind::CurrentDir, Some(e))),
            _ => arbitrary(),
        },
        OpenStageView::Identity(p, b) => match event {
            EventView::SameFile(true) => OpenStepView::Failed((InPlaceErrorKind::SameFile, None)),
            EventView::SameFile(false) => open_make_temp(p, Some(b)),
            _ => arbitrary(),
        },
        OpenStageView::Temp(p, b) => match event {
            EventView::Succeeded => OpenStepView::Next(
                OpenStageView::Metadata(p, b),
                ActionView::ReadMetadata(p, cfg.follow_symlinks),
            ),
            EventView::Failed(e) => OpenStepView::Failed((InPlaceErrorKind::Mktemp, Some(e))),
            _ => arbitrary(),
        },
        OpenStageView::Metadata(p, b) => match event {
            EventView::IsSymlink(false) => OpenStepView::Next(
                OpenStageView::Permissions(p, b),
                ActionView::CopyPermissions,
            ),
            EventView::IsSymlink(true) => OpenStepView::Next(
                OpenStageView::Reader(p, b),
                ActionView::OpenReader(p),
            ),
            EventView::Failed(e) => OpenStepView::Next(
                OpenStageView::Cleanup((InPlaceErrorKind::GetMetadata, Some(e))),
                ActionView::RemoveTemp,
            ),
            _ => arbitrary(),
        },
        OpenStageView::Permissions(p, b) => match event {
            EventView::Succeeded => OpenStepView::Next(
                OpenStageView::Reader(p, b),
                ActionView::OpenReader(p),
            ),
            EventView::Failed(e) => OpenStepView::Next(
                OpenStageView::Cleanup((InPlaceErrorKind::SetMetadata, Some(e))),
                ActionView::RemoveTemp,
            ),
            _ => arbitrary(),
        },
        OpenStageView::Reader(p, b) => match event {
            EventView::Succeeded => OpenStepView::Opened(FileView { path: p, backup_path: b }),
            EventView::Failed(e) => OpenStepView::Next(
                OpenStageView::Cleanup((InPlaceErrorKind::Open, Some(e))),
                ActionView::RemoveTemp,
            ),
            _ => arbitrary(),
        },
        OpenStageView::Cleanup(err) => OpenStepView::Failed(err),
    }
}

/// The step that performs `action` and then awaits its outcome in `phase`.
fn next(phase: Phase, action: Action) -> (r: OpenStep)
    ensures
        r@ == OpenStepView::Next(phase@, action@),
{
    OpenStep::Next(OpenStage { phase }, action)
}

impl InPlace {
    /// A request to edit `path`, with no backup, following symlinks.
    pub fn new(path: &str) -> (r: InPlace)
        ensures
            r@.path == path@,
            r@.backup is None,
            r@.follow_symlinks,
    {
        InPlace { path: path.to_string(), backup: None, follow_symlinks: true }
    }

    /// Back up the edited file as `backup` says when the edit is saved.
    /// Parent directories of the backup path are not created.
    pub fn backup(&mut self, backup: Backup) -> (r: &mut Self)
        ensures
            r@.path == old(self)@.path,
            r@.backup == Some(backup),
            r@.follow_symlinks == old(self)@.follow_symlinks,
            *final(self) == *final(r),
    {
        self.backup = Some(backup);
        self
    }

    /// Do not back up the edited file (the default).
    pub fn no_backup(&mut self) -> (r: &mut Self)
        ensures
            r@.path == old(self)@.path,
            r@.backup is None,
            r@.follow_symlinks == old(self)@.follow_symlinks,
            *final(self) == *final(r),
    {
        self.backup = None;
        self
    }

    /// Whether to canonicalize the edited path, resolving symlinks, before
    /// opening it (the default). Otherwise the path is only made absolute,
    /// and a configured backup moves the symlink itself.
    pub fn follow_symlinks(&mut self, flag: bool) -> (r: &mut Self)
        ensures
            r@.path == old(self)@.path,
            r@.backup == old(self)@.backup,
            r@.follow_symlinks == flag,
            *final(self) == *final(r),
    {
        self.follow_symlinks = flag;
        self
    }

    fn make_temp(path: String, backup: Option<String>) -> (r: OpenStep)
        ensures
            r@ == open_make_temp(path@, opt_view(backup)),
    {
        match parent(path.as_str()) {
            Some(dir) => next(Phase::Temp(path, backup), Action::CreateTemp(dir)),
            None => OpenStep::Failed(InPlaceError::no_parent()),
        }
    }

    fn with_target(&self, path: String) -> (r: OpenStep)
        ensures
            r@ == open_with_target(self@, path@),
    {
        match &self.backup {
            None => Self::make_temp(path, None),
            Some(spec) => match spec.apply(path.as_str()) {
                Err(e) => OpenStep::Failed(e),
                Ok(b) => {
                    let degenerate = match spec {
                        Backup::Extension(_) => b == path,
                        _ => false,
                    };
                    if degenerate {
                        Self::make_temp(path, None)
                    } else if is_absolute(b.as_str()) {
                        let action = Action::CompareFiles(path.clone(), b.clone());
                        next(Phase::Identity(path, b), action)
                    } else {
                        next(Phase::BackupCwd(path, b), Action::CurrentDir)
                    }
                },
            },
        }
    }

    /// Begins opening the edited file.
    pub fn open(&self) -> (r: OpenStep)
        ensures
            r@ == open_start(self@),
    {
        if self.follow_symlinks {
            next(Phase::Canonical, Action::Canonicalize(self.path.clone()))
        } else if is_absolute(self.path.as_str()) {
            self.with_target(self.path.clone())
        } else {
            next(Phase::TargetCwd, Action::CurrentDir)
        }
    }

    /// Continues opening, given how the last action went.
    pub fn open_step(&self, stage: OpenStage, event: Event) -> (r: OpenStep)
        requires
            awaits(stage@, event@),
        ensures
            r@ == open_next(self@, stage@, event@),
    {
        match stage.phase {
            Phase::Canonical => match event {
                Event::Resolved(p) => self.with_target(p),
                Event::Failed(e) => OpenStep::Failed(InPlaceError::canonicalize(e)),
                _ => vstd::pervasive::unreached(),
            },
            Phase::TargetCwd => match event {
                Event::Resolved(cwd) => self.with_target(join(cwd.as_str(), self.path.as_str())),
                Event::Failed(e) => OpenStep::Failed(InPlaceError::cwd(e)),
                _ => vstd::pervasive::unreached(),
            },
            Phase::BackupCwd(p, b) => match event {
                Event::Resolved(cwd) => {
                    let b2 = join(cwd.as_str(), b.as_str());
                    let action = Action::CompareFiles(p.clone(), b2.clone());
                    next(Phase::Identity(p, b2), action)
                },
                Event::Failed(e) => OpenStep::Failed(InPlaceError::cwd(e)),
                _ => vstd::pervasive::unreached(),
            },
            Phase::Identity(p, b) => match event {
                Event::SameFile(same) => if same {
                    OpenStep::Failed(InPlaceError::same_file())
                } else {
                    Self::make_temp(p, Some(b))
                },
                _ => vstd::pervasive::unreached(),
            },
            Phase::Temp(p, b) => match event {
                Event::Succeeded => {
                    let action = Action::ReadMetadata(p.clone(), self.follow_symlinks);
                    next(Phase::Metadata(p, b), action)
                },
                Event::Failed(e) => OpenStep::Failed(InPlaceError::mktemp(e)),
                _ => vstd::pervasive::unreached(),
            },
            Phase::Metadata(p, b) => match event {
                Event::IsSymlink(link) => if link {
                    let action = Action::OpenReader(p.clone());
                    next(Phase::Reader(p, b), action)
                } else {
                    next(Phase::Permissions(p, b), Action::CopyPermissions)
                },
                Event::Failed(e) => next(
                    Phase::Cleanup(InPlaceError::get_metadata(e)),
                    Action::RemoveTemp,
                ),
                _ => vstd::pervasive::unreached(),
            },
            Phase::Permissions(p, b) => match event {
                Event::Succeeded => {
                    let action = Action::OpenReader(p.clone());
                    next(Phase::Reader(p, b), action)
                },
                Event::Failed(e) => next(
                    Phase::Cleanup(InPlaceError::set_metadata(e)),
                    Action::RemoveTemp,
                ),
                _ => vstd::pervasive::unreached(),
            },
            Phase::Reader(p, b) => match event {
                Event::Succeeded => OpenStep::Opened(InPlaceFile::new(p, b)),
                Event::Failed(e) => next(
                    Phase::Cleanup(InPlaceError::open(e)),
                    Action::RemoveTemp,
                ),
                _ => vstd::pervasive::unreached(),
            },
            Phase::Cleanup(err) => OpenStep::Failed(err),
        }
    }
}

impl OpenStage {
    /// Whether `event` is a reply that the action pending at this stage can
    /// get; `InPlace::open_step` takes no other.
    pub fn awaits(&self, event: &Event) -> (r: bool)
        ensures
            r == awaits(self@, event@),
    {
        match &self.phase {
            Phase::Canonical | Phase::TargetCwd | Phase::BackupCwd(_, _) => {
                matches!(event, Event::Resolved(_) | Event::Failed(_))
            },
            Phase::Identity(_, _) => matches!(event, Event::SameFile(_)),
            Phase::Metadata(_, _) => matches!(event, Event::IsSymlink(_) | Event::Failed(_)),
            Phase::Cleanup(_) => true,
            _ => matches!(event, Event::Succeeded | Event::Failed(_)),
        }
    }
}

} // verus!
