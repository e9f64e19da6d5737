//! A model of the filesystem that the protocols act on, and what holds of
//! every run of them against it.
//!
//! The model keeps the content and permission bits at each path, and the
//! content and permission bits of the temporary file while it exists. An
//! action that the driver reports as carried out changes the model as the
//! operation does; a failed one changes nothing (a rename is atomic). The
//! driver's replies are an environment: a function from the model and the
//! action to the event.
use vstd::prelude::*;

use crate::error::{ErrorView, InPlaceErrorKind};
use crate::open::{
    open_next, open_start, InPlaceView, OpenStageView, OpenStepView,
};
use crate::path::{path_is_absolute, path_join};
use crate::protocol::{fits, ActionView, EventView};
use crate::session::{close_next, discard_start, save_start, CloseStepView, FileView};

verus! {

/// The files at each path with their permission bits, the paths among them
/// that are symlinks, the temporary file while it exists, and the
/// permission bits of the metadata last read.
pub struct Fs {
    pub files: Map<Seq<char>, Seq<u8>>,
    pub modes: Map<Seq<char>, nat>,
    pub links: Set<Seq<char>>,
    pub temp: Option<Seq<u8>>,
    pub temp_mode: nat,
    pub read_mode: Option<nat>,
}

/// How the driver answers each action in each state of the filesystem.
pub type Env = spec_fn(Fs, ActionView) -> EventView;

/// Whether the action can be carried out on this filesystem: a moved,
/// inspected or opened file must exist, and so must the temporary file to be
/// moved, changed, or deleted.
pub open spec fn possible(fs: Fs, a: ActionView) -> bool {
    match a {
        ActionView::Rename(from, _) => fs.files.contains_key(from),
        ActionView::OpenReader(p) | ActionView::ReadMetadata(p, _) => fs.files.contains_key(p),
        ActionView::PersistTemp(_) | ActionView::RemoveTemp => fs.temp is Some,
        ActionView::CopyPermissions => fs.temp is Some && fs.read_mode is Some,
        ActionView::CreateTemp(_) => fs.temp is None,
        _ => true,
    }
}

/// The filesystem after the action is carried out.
pub open spec fn effect(fs: Fs, a: ActionView) -> Fs {
    match a {
        ActionView::Rename(from, to) => if from == to {
            fs
        } else {
            Fs {
                files: fs.files.remove(from).insert(to, fs.files[from]),
                modes: fs.modes.remove(from).insert(to, fs.modes[from]),
                links: if fs.links.contains(from) {
                    fs.links.remove(from).insert(to)
                } else {
                    fs.links.remove(to)
                },
                ..fs
            }
        },
        ActionView::PersistTemp(p) => Fs {
            files: fs.files.insert(p, fs.temp.unwrap()),
            modes: fs.modes.insert(p, fs.temp_mode),
            links: fs.links.remove(p),
            temp: None,
            ..fs
        },
        ActionView::RemoveTemp => Fs { temp: None, ..fs },
        ActionView::CreateTemp(_) => Fs { temp: Some(Seq::empty()), ..fs },
        ActionView::ReadMetadata(p, _) => Fs { read_mode: Some(fs.modes[p]), ..fs },
        ActionView::CopyPermissions => Fs { temp_mode: fs.read_mode.unwrap(), ..fs },
        _ => fs,
    }
}

/// The filesystem after the action went as the event says.
pub open spec fn after(fs: Fs, a: ActionView, e: EventView) -> Fs {
    if e is Failed {
        fs
    } else {
        effect(fs, a)
    }
}

/// The driver reports success only for what can be carried out; metadata
/// read through symlinks never describes a symlink, and metadata read
/// without following them describes one exactly at a symlink.
pub open spec fn sound(env: Env) -> bool {
    &&& forall|fs: Fs, a: ActionView| !(#[trigger] env(fs, a) is Failed) ==> possible(fs, a)
    &&& forall|fs: Fs, p: Seq<char>| #[trigger]
        env(fs, ActionView::ReadMetadata(p, true)) != EventView::IsSymlink(true)
    &&& forall|fs: Fs, p: Seq<char>| #[trigger]
        env(fs, ActionView::ReadMetadata(p, false)) is IsSymlink ==> env(
            fs,
            ActionView::ReadMetadata(p, false),
        ) == EventView::IsSymlink(fs.links.contains(p))
}

/// The driver carries out everything that can be carried out.
pub open spec fn reliable(env: Env) -> bool {
    forall|fs: Fs, a: ActionView| possible(fs, a) ==> !(#[trigger] env(fs, a) is Failed)
}

/// The driver replies to each action with an event that action can get.
pub open spec fn fitting(env: Env) -> bool {
    forall|fs: Fs, a: ActionView| fits(a, #[trigger] env(fs, a))
}

/// Runs a save or discard from `step` for at most `fuel` actions: the
/// filesystem at the end, and the result if one was reached.
pub open spec fn close_run(
    file: FileView,
    step: CloseStepView,
    fs: Fs,
    env: Env,
    fuel: nat,
) -> (Fs, Option<Result<(), ErrorView>>)
    decreases fuel,
{
    match step {
        CloseStepView::Done(r) => (fs, Some(r)),
        CloseStepView::Next(stage, a) => if fuel == 0 {
            (fs, None)
        } else {
            let e = env(fs, a);
            close_run(file, close_next(file, stage, e), after(fs, a, e), env, (fuel - 1) as nat)
        },
    }
}

/// A whole save: it takes at most four actions.
pub open spec fn saved(file: FileView, fs: Fs, env: Env) -> (Fs, Option<Result<(), ErrorView>>) {
    close_run(file, save_start(file), fs, env, 4)
}

/// A whole discard: it takes one action.
pub open spec fn discarded(file: FileView, fs: Fs, env: Env) -> (
    Fs,
    Option<Result<(), ErrorView>>,
) {
    close_run(file, discard_start(), fs, env, 1)
}

/// The backup path of a session is not its edited path.
pub open spec fn distinct_backup(file: FileView) -> bool {
    file.backup_path matches Some(b) ==> b != file.path
}

/// A save that succeeds leaves the new content at the edited path and the
/// original content at the backup path, replacing what was there; with a
/// driver that carries out what it can, a save of an existing file succeeds.
pub proof fn lemma_save_keeps_backup(file: FileView, fs: Fs, env: Env)
    requires
        sound(env),
        file.backup_path is Some,
        distinct_backup(file),
        fs.files.contains_key(file.path),
        fs.temp is Some,
    ensures
        ({
            let (fs2, r) = saved(file, fs, env);
            let b = file.backup_path.unwrap();
            &&& r is Some
            &&& r == Some(Ok::<(), ErrorView>(())) ==> fs2.files == fs.files.insert(
                b,
                fs.files[file.path],
            ).insert(file.path, fs.temp.unwrap()) && fs2.temp is None
            &&& reliable(env) ==> r == Some(Ok::<(), ErrorView>(()))
        }),
{
    reveal_with_fuel(close_run, 5);
    let b = file.backup_path.unwrap();
    let content = fs.files[file.path];
    let new = fs.temp.unwrap();
    assert(fs.files.insert(b, content).insert(file.path, new) =~= fs.files.remove(
        file.path,
    ).insert(b, content).insert(file.path, new));
}

/// Saving what was read, unchanged, leaves the edited file's content as it
/// was; with a driver that carries out what it can, the save succeeds.
pub proof fn lemma_round_trip(file: FileView, fs: Fs, env: Env)
    requires
        sound(env),
        distinct_backup(file),
        fs.files.contains_key(file.path),
        fs.temp == Some(fs.files[file.path]),
    ensures
        ({
            let (fs2, r) = saved(file, fs, env);
            &&& r == Some(Ok::<(), ErrorView>(())) ==> fs2.files.contains_key(file.path)
                && fs2.files[file.path] == fs.files[file.path]
            &&& reliable(env) ==> r == Some(Ok::<(), ErrorView>(()))
        }),
{
    reveal_with_fuel(close_run, 5);
}

/// A discard, or dropping a session unsaved, leaves every file and its
/// permission bits as they were: the edited file, and whatever is or is not
/// at the backup path.
pub proof fn lemma_discard_leaves_files(file: FileView, fs: Fs, env: Env)
    ensures
        ({
            let (fs2, r) = discarded(file, fs, env);
            &&& r is Some
            &&& fs2.files == fs.files
            &&& fs2.modes == fs.modes
            &&& (file.backup_path matches Some(b) && !fs.files.contains_key(b))
                ==> !fs2.files.contains_key(file.backup_path.unwrap())
            &&& reliable(env) && fs.temp is Some ==> r == Some(Ok::<(), ErrorView>(()))
                && fs2.temp is None
        }),
{
    reveal_with_fuel(close_run, 2);
}

/// A failed save loses no data: the original content is still at the
/// edited path, or else at the backup path.
pub proof fn lemma_failed_save_keeps_original(file: FileView, fs: Fs, env: Env)
    requires
        sound(env),
        distinct_backup(file),
        fs.files.contains_key(file.path),
        fs.temp is Some,
    ensures
        ({
            let (fs2, r) = saved(file, fs, env);
            r matches Some(Err(_)) ==> {
                ||| fs2.files.contains_key(file.path) && fs2.files[file.path] == fs.files[file.path]
                ||| (file.backup_path matches Some(b) && fs2.files.contains_key(b)
                    && fs2.files[b] == fs.files[file.path])
            }
        }),
{
    reveal_with_fuel(close_run, 5);
}

/// When the edited file was deleted after opening: without a backup the
/// save still puts the new content at the edited path; with one, the save
/// fails to move it, and no file is left renamed.
pub proof fn lemma_save_after_delete(file: FileView, fs: Fs, env: Env)
    requires
        sound(env),
        !fs.files.contains_key(file.path),
        fs.temp is Some,
    ensures
        ({
            let (fs2, r) = saved(file, fs, env);
            &&& file.backup_path is None && reliable(env) ==> r == Some(Ok::<(), ErrorView>(()))
                && fs2.files == fs.files.insert(file.path, fs.temp.unwrap())
            &&& file.backup_path is Some ==> (r matches Some(Err(e))
                && e.0 == InPlaceErrorKind::SaveBackup) && fs2.files == fs.files
            &&& file.backup_path is Some && reliable(env) ==> fs2.temp is None
        }),
{
    reveal_with_fuel(close_run, 5);
}

/// Runs opening from `step` for at most `fuel` actions: the filesystem at
/// the end, and the last step reached.
pub open spec fn open_run(
    cfg: InPlaceView,
    step: OpenStepView,
    fs: Fs,
    env: Env,
    fuel: nat,
) -> (Fs, OpenStepView)
    decreases fuel,
{
    match step {
        OpenStepView::Next(stage, a) => if fuel == 0 {
            (fs, step)
        } else {
            let e = env(fs, a);
            open_run(cfg, open_next(cfg, stage, e), after(fs, a, e), env, (fuel - 1) as nat)
        },
        _ => (fs, step),
    }
}

/// A whole opening: it takes at most eight actions.
pub open spec fn opened(cfg: InPlaceView, fs: Fs, env: Env) -> (Fs, OpenStepView) {
    open_run(cfg, open_start(cfg), fs, env, 8)
}

/// Opening changes no file: it ends, opened or failed, with every file as
/// it was. An opened session has an empty temporary file to write to; a
/// failed opening, with a driver that carries out what it can, leaves no
/// temporary file behind.
#[verifier::rlimit(60)]
pub proof fn lemma_open_touches_no_file(cfg: InPlaceView, fs: Fs, env: Env)
    requires
        fitting(env),
        fs.temp is None,
    ensures
        ({
            let (fs2, r) = opened(cfg, fs, env);
            &&& !(r is Next)
            &&& fs2.files == fs.files
            &&& r is Opened ==> fs2.temp == Some(Seq::<u8>::empty())
            &&& r is Failed && reliable(env) ==> fs2.temp is None
        }),
{
    reveal_with_fuel(open_run, 9);
}

/// The edited path as opening resolves it on this filesystem, if it does.
pub open spec fn resolved_target(cfg: InPlaceView, fs: Fs, env: Env) -> Option<Seq<char>> {
    if cfg.follow_symlinks {
        match env(fs, ActionView::Canonicalize(cfg.path)) {
            EventView::Resolved(p) => Some(p),
            _ => None,
        }
    } else if path_is_absolute(cfg.path) {
        Some(cfg.path)
    } else {
        match env(fs, ActionView::CurrentDir) {
            EventView::Resolved(cwd) => Some(path_join(cwd, cfg.path)),
            _ => None,
        }
    }
}

/// The backup path that opening compares with the resolved edited path
/// `path`, if the specifier gives one, it is not the edited path itself by
/// way of an extension, and it can be made absolute.
pub open spec fn compared_backup(cfg: InPlaceView, path: Seq<char>, fs: Fs, env: Env) -> Option<
    Seq<char>,
> {
    match cfg.backup {
        Some(spec) => match spec.spec_apply(path) {
            Ok(b) => if spec is Extension && b == path {
                None
            } else if path_is_absolute(b) {
                Some(b)
            } else {
                match env(fs, ActionView::CurrentDir) {
                    EventView::Resolved(cwd) => Some(path_join(cwd, b)),
                    _ => None,
                }
            },
            Err(_) => None,
        },
        None => None,
    }
}

/// Opening fails with `SameFile`, and changes nothing, exactly when the
/// backup path it resolves names the same file as the resolved edited path.
pub proof fn lemma_same_file_rejected(
    cfg: InPlaceView,
    fs: Fs,
    env: Env,
    path: Seq<char>,
    backup: Seq<char>,
)
    requires
        fitting(env),
        fs.temp is None,
        resolved_target(cfg, fs, env) == Some(path),
        compared_backup(cfg, path, fs, env) == Some(backup),
    ensures
        ({
            let (fs2, r) = opened(cfg, fs, env);
            let same = env(fs, ActionView::CompareFiles(path, backup)) == EventView::SameFile(true);
            &&& same ==> fs2 == fs && r == OpenStepView::Failed(
                (InPlaceErrorKind::SameFile, None::<std::io::Error>),
            )
            &&& (r matches OpenStepView::Failed(e) && e.0 == InPlaceErrorKind::SameFile) ==> same
        }),
{
    reveal_with_fuel(open_run, 9);
}

/// An extension that the edited file already has means no backup: the
/// session has none, and a successful save leaves no file but the edited
/// one changed.
pub proof fn lemma_same_extension_means_no_backup(
    cfg: InPlaceView,
    fs: Fs,
    env: Env,
    path: Seq<char>,
    content: Seq<u8>,
)
    requires
        fitting(env),
        fs.temp is None,
        resolved_target(cfg, fs, env) == Some(path),
        cfg.backup matches Some(spec) && spec is Extension && spec.spec_apply(path) == Ok::<
            Seq<char>,
            InPlaceErrorKind,
        >(path),
    ensures
        ({
            let (fs1, r) = opened(cfg, fs, env);
            r matches OpenStepView::Opened(f) ==> {
                let (fs2, s) = saved(f, Fs { temp: Some(content), ..fs1 }, env);
                &&& f.path == path
                &&& f.backup_path is None
                &&& s == Some(Ok::<(), ErrorView>(())) ==> fs2.files == fs.files.insert(
                    path,
                    content,
                )
            }
        }),
{
    reveal_with_fuel(open_run, 9);
    reveal_with_fuel(close_run, 5);
}

/// The temporary file gets the edited file's permissions unless the
/// metadata read describes a symlink: the metadata is read through a final
/// symlink exactly when symlinks are followed.
pub proof fn lemma_permissions_follow_metadata(
    cfg: InPlaceView,
    path: Seq<char>,
    backup: Option<Seq<char>>,
)
    ensures
        open_next(cfg, OpenStageView::Temp(path, backup), EventView::Succeeded)
            == OpenStepView::Next(
            OpenStageView::Metadata(path, backup),
            ActionView::ReadMetadata(path, cfg.follow_symlinks),
        ),
        open_next(cfg, OpenStageView::Metadata(path, backup), EventView::IsSymlink(false))
            == OpenStepView::Next(
            OpenStageView::Permissions(path, backup),
            ActionView::CopyPermissions,
        ),
        open_next(cfg, OpenStageView::Metadata(path, backup), EventView::IsSymlink(true))
            == OpenStepView::Next(
            OpenStageView::Reader(path, backup),
            ActionView::OpenReader(path),
        ),
{
}

/// An opened session edits the path as resolved: canonicalized when
/// symlinks are followed, else made absolute against the current directory.
/// Its backup path, if any, was compared with it and names another file.
pub proof fn lemma_opened_paths(cfg: InPlaceView, fs: Fs, env: Env)
    requires
        fitting(env),
        fs.temp is None,
    ensures
        ({
            let (fs2, r) = opened(cfg, fs, env);
            r matches OpenStepView::Opened(f) ==> {
                &&& cfg.follow_symlinks ==> env(fs, ActionView::Canonicalize(cfg.path))
                    == EventView::Resolved(f.path)
                &&& !cfg.follow_symlinks && path_is_absolute(cfg.path) ==> f.path == cfg.path
                &&& !cfg.follow_symlinks && !path_is_absolute(cfg.path) ==> (env(
                    fs,
                    ActionView::CurrentDir,
                ) matches EventView::Resolved(cwd) && f.path == path_join(cwd, cfg.path))
                &&& f.backup_path is Some ==> env(
                    fs,
                    ActionView::CompareFiles(f.path, f.backup_path.unwrap()),
                ) == EventView::SameFile(false)
                &&& cfg.backup is None ==> f.backup_path is None
            }
        }),
{
    reveal_with_fuel(open_run, 9);
}

/// A save that succeeds installs the temporary file at the edited path:
/// its content and its permission bits.
pub proof fn lemma_save_installs_temp(file: FileView, fs: Fs, env: Env)
    requires
        fs.temp is Some,
    ensures
        ({
            let (fs2, r) = saved(file, fs, env);
            r == Some(Ok::<(), ErrorView>(())) ==> {
                &&& fs2.files.contains_key(file.path)
                &&& fs2.files[file.path] == fs.temp.unwrap()
                &&& fs2.modes[file.path] == fs.temp_mode
            }
        }),
{
    reveal_with_fuel(close_run, 5);
}

/// Opening with symlinks followed gives the temporary file the permission
/// bits of the file it resolves to, and changes no file's permission bits.
pub proof fn lemma_open_copies_permissions(cfg: InPlaceView, fs: Fs, env: Env)
    requires
        fitting(env),
        sound(env),
        fs.temp is None,
        cfg.follow_symlinks,
    ensures
        ({
            let (fs1, r) = opened(cfg, fs, env);
            &&& fs1.modes == fs.modes
            &&& r matches OpenStepView::Opened(f) ==> fs1.temp_mode == fs.modes[f.path]
        }),
{
    reveal_with_fuel(open_run, 9);
}

/// Editing with symlinks followed keeps the edited file's permission bits:
/// whatever is written, a successful save leaves it at the edited path with
/// the permission bits that the file had when it was opened.
pub proof fn lemma_permissions_preserved(cfg: InPlaceView, fs: Fs, env: Env, content: Seq<u8>)
    requires
        fitting(env),
        sound(env),
        fs.temp is None,
        cfg.follow_symlinks,
    ensures
        ({
            let (fs1, r) = opened(cfg, fs, env);
            r matches OpenStepView::Opened(f) ==> {
                let (fs2, s) = saved(f, Fs { temp: Some(content), ..fs1 }, env);
                s == Some(Ok::<(), ErrorView>(())) ==> fs2.files[f.path] == content
                    && fs2.modes[f.path] == fs.modes[f.path]
            }
        }),
{
    lemma_open_copies_permissions(cfg, fs, env);
    let (fs1, r) = opened(cfg, fs, env);
    if let OpenStepView::Opened(f) = r {
        lemma_save_installs_temp(f, Fs { temp: Some(content), ..fs1 }, env);
    }
}

/// Opening a file, writing back exactly what it held, and saving leaves
/// the file's content as it was.
pub proof fn lemma_edit_round_trip(cfg: InPlaceView, fs: Fs, env: Env)
    requires
        fitting(env),
        fs.temp is None,
    ensures
        ({
            let (fs1, r) = opened(cfg, fs, env);
            r matches OpenStepView::Opened(f) ==> {
                let (fs2, s) = saved(f, Fs { temp: Some(fs.files[f.path]), ..fs1 }, env);
                s == Some(Ok::<(), ErrorView>(())) ==> fs2.files[f.path] == fs.files[f.path]
            }
        }),
{
    let (fs1, r) = opened(cfg, fs, env);
    if let OpenStepView::Opened(f) = r {
        lemma_save_installs_temp(f, Fs { temp: Some(fs.files[f.path]), ..fs1 }, env);
    }
}

/// Editing a symlink without following it copies no permission bits from
/// the link: a successful save replaces the link itself with a regular file
/// holding what was written, with the temporary file's own permission bits,
/// and leaves every other file, the link's target among them, as it was.
pub proof fn lemma_symlink_edited_in_place(
    cfg: InPlaceView,
    fs: Fs,
    env: Env,
    path: Seq<char>,
    content: Seq<u8>,
)
    requires
        fitting(env),
        sound(env),
        fs.temp is None,
        !cfg.follow_symlinks,
        cfg.backup is None,
        resolved_target(cfg, fs, env) == Some(path),
        fs.links.contains(path),
    ensures
        ({
            let (fs1, r) = opened(cfg, fs, env);
            r matches OpenStepView::Opened(f) ==> {
                let (fs2, s) = saved(f, Fs { temp: Some(content), ..fs1 }, env);
                &&& fs1.temp_mode == fs.temp_mode
                &&& s == Some(Ok::<(), ErrorView>(())) ==> {
                    &&& !fs2.links.contains(path)
                    &&& fs2.files == fs.files.insert(path, content)
                    &&& fs2.modes == fs.modes.insert(path, fs.temp_mode)
                    &&& fs2.links == fs.links.remove(path)
                }
            }
        }),
{
    reveal_with_fuel(open_run, 9);
    reveal_with_fuel(close_run, 5);
}

} // verus!
