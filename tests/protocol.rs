use in_place::{
    Action, Backup, CloseStep, Event, InPlace, InPlaceError, InPlaceErrorKind, InPlaceFile,
    OpenStep,
};
use std::collections::BTreeMap;
use std::io;

const TEXT: &str = "'Twas brillig, and the slithy toves\n\tDid gyre and gimble in the wabe;\nAll mimsy were the borogoves,\n\tAnd the mome raths outgrabe.\n";

const SWAPPED_TEXT: &str = "'tWAS BRILLIG, AND THE SLITHY TOVES\n\tdID GYRE AND GIMBLE IN THE WABE;\naLL MIMSY WERE THE BOROGOVES,\n\taND THE MOME RATHS OUTGRABE.\n";

const FILE: &str = "/work/file.txt";

fn swapcase(s: &str) -> String {
    s.chars()
        .map(|ch| {
            if ch.is_ascii_lowercase() {
                ch.to_ascii_uppercase()
            } else {
                ch.to_ascii_lowercase()
            }
        })
        .collect()
}

fn not_found() -> io::Error {
    io::Error::new(io::ErrorKind::NotFound, "not found")
}

fn denied() -> io::Error {
    io::Error::new(io::ErrorKind::PermissionDenied, "denied")
}

/// An in-memory filesystem that performs the library's actions.
struct FakeFs {
    files: BTreeMap<String, Vec<u8>>,
    dirs: Vec<String>,
    symlinks: Vec<String>,
    cwd: Option<String>,
    temp: Option<Vec<u8>>,
    deny_create_temp: bool,
    deny_chmod: bool,
    deny_read: bool,
    deny_persist: bool,
    deny_remove: bool,
    log: Vec<String>,
}

impl FakeFs {
    fn new() -> FakeFs {
        FakeFs {
            files: BTreeMap::new(),
            dirs: vec!["/".to_string(), "/work".to_string()],
            symlinks: Vec::new(),
            cwd: Some("/work".to_string()),
            temp: None,
            deny_create_temp: false,
            deny_chmod: false,
            deny_read: false,
            deny_persist: false,
            deny_remove: false,
            log: Vec::new(),
        }
    }

    fn with_file(path: &str, content: &str) -> FakeFs {
        let mut fs = FakeFs::new();
        fs.files.insert(path.to_string(), content.as_bytes().to_vec());
        fs
    }

    fn parent_exists(&self, path: &str) -> bool {
        match std::path::Path::new(path).parent() {
            Some(d) => self.dirs.iter().any(|x| x.as_str() == d.to_str().unwrap()),
            None => false,
        }
    }

    fn perform(&mut self, action: &Action) -> Event {
        self.log.push(format!("{:?}", action));
        match action {
            Action::Canonicalize(p) => {
                if self.files.contains_key(p) || self.dirs.contains(p) {
                    Event::Resolved(p.clone())
                } else {
                    Event::Failed(not_found())
                }
            }
            Action::CurrentDir => match &self.cwd {
                Some(c) => Event::Resolved(c.clone()),
                None => Event::Failed(not_found()),
            },
            Action::CompareFiles(a, b) => Event::SameFile(a == b && self.files.contains_key(a)),
            Action::CreateTemp(dir) => {
                if self.deny_create_temp || !self.dirs.contains(dir) {
                    Event::Failed(denied())
                } else {
                    self.temp = Some(Vec::new());
                    Event::Succeeded
                }
            }
            Action::ReadMetadata(p, follow) => {
                if self.files.contains_key(p) {
                    Event::IsSymlink(!*follow && self.symlinks.contains(p))
                } else {
                    Event::Failed(not_found())
                }
            }
            Action::CopyPermissions => {
                if self.deny_chmod {
                    Event::Failed(denied())
                } else {
                    Event::Succeeded
                }
            }
            Action::OpenReader(p) => {
                if self.deny_read {
                    Event::Failed(denied())
                } else if self.files.contains_key(p) {
                    Event::Succeeded
                } else {
                    Event::Failed(not_found())
                }
            }
            Action::Rename(from, to) => {
                if !self.parent_exists(to) {
                    return Event::Failed(not_found());
                }
                match self.files.remove(from) {
                    Some(c) => {
                        self.files.insert(to.clone(), c);
                        Event::Succeeded
                    }
                    None => Event::Failed(not_found()),
                }
            }
            Action::PersistTemp(p) => {
                if self.deny_persist {
                    return Event::Failed(denied());
                }
                match self.temp.take() {
                    Some(c) => {
                        self.files.insert(p.clone(), c);
                        Event::Succeeded
                    }
                    None => Event::Failed(not_found()),
                }
            }
            Action::RemoveTemp => {
                if self.deny_remove {
                    return Event::Failed(denied());
                }
                match self.temp.take() {
                    Some(_) => Event::Succeeded,
                    None => Event::Failed(not_found()),
                }
            }
        }
    }

    fn open(&mut self, inp: &InPlace) -> Result<InPlaceFile, InPlaceError> {
        let mut step = inp.open();
        loop {
            match step {
                OpenStep::Next(stage, action) => {
                    let event = self.perform(&action);
                    assert!(stage.awaits(&event));
                    step = inp.open_step(stage, event);
                }
                OpenStep::Opened(file) => return Ok(file),
                OpenStep::Failed(e) => return Err(e),
            }
        }
    }

    fn finish(&mut self, file: &InPlaceFile, first: CloseStep) -> Result<(), InPlaceError> {
        let mut step = first;
        loop {
            match step {
                CloseStep::Next(stage, action) => {
                    let event = self.perform(&action);
                    step = file.close_step(stage, event);
                }
                CloseStep::Done(r) => return r,
            }
        }
    }

    fn save(&mut self, file: &InPlaceFile) -> Result<(), InPlaceError> {
        let first = file.save();
        self.finish(file, first)
    }

    fn discard(&mut self, file: &InPlaceFile) -> Result<(), InPlaceError> {
        let first = file.discard();
        self.finish(file, first)
    }

    fn write(&mut self, content: &str) {
        self.temp = Some(content.as_bytes().to_vec());
    }

    fn content(&self, path: &str) -> String {
        String::from_utf8(self.files[path].clone()).unwrap()
    }

    fn listing(&self) -> Vec<String> {
        self.files.keys().cloned().collect()
    }
}

fn edit_swapped(fs: &mut FakeFs, inp: &InPlace) -> InPlaceFile {
    let file = fs.open(inp).unwrap();
    let original = fs.content(file.path());
    fs.write(&swapcase(&original));
    file
}

#[test]
fn nobackup() {
    let mut fs = FakeFs::with_file(FILE, TEXT);
    let file = edit_swapped(&mut fs, &InPlace::new(FILE));
    assert_eq!(file.path(), FILE);
    assert_eq!(file.backup_path(), None);
    fs.save(&file).unwrap();
    assert_eq!(fs.listing(), [FILE]);
    assert_eq!(fs.content(FILE), SWAPPED_TEXT);
    assert!(fs.temp.is_none());
}

#[test]
fn relative_path_is_made_absolute() {
    let mut fs = FakeFs::with_file(FILE, TEXT);
    let file = edit_swapped(&mut fs, InPlace::new("file.txt").follow_symlinks(false));
    assert_eq!(file.path(), FILE);
    assert_eq!(fs.log[0], "CurrentDir");
    assert_eq!(fs.log[1], "CreateTemp(\"/work\")");
}

#[test]
fn backup_ext() {
    let mut fs = FakeFs::with_file(FILE, TEXT);
    let inp = InPlace::new(FILE).backup(Backup::Append("~".to_string())).clone();
    let file = edit_swapped(&mut fs, &inp);
    assert_eq!(file.backup_path(), Some("/work/file.txt~"));
    fs.save(&file).unwrap();
    assert_eq!(fs.listing(), [FILE, "/work/file.txt~"]);
    assert_eq!(fs.content(FILE), SWAPPED_TEXT);
    assert_eq!(fs.content("/work/file.txt~"), TEXT);
}

#[test]
fn backup_set_ext() {
    let mut fs = FakeFs::with_file(FILE, TEXT);
    let inp = InPlace::new(FILE).backup(Backup::Extension("bak".to_string())).clone();
    let file = edit_swapped(&mut fs, &inp);
    fs.save(&file).unwrap();
    assert_eq!(fs.listing(), ["/work/file.bak", FILE]);
    assert_eq!(fs.content(FILE), SWAPPED_TEXT);
    assert_eq!(fs.content("/work/file.bak"), TEXT);
}

#[test]
fn backup_filename() {
    let mut fs = FakeFs::with_file(FILE, TEXT);
    let inp = InPlace::new(FILE).backup(Backup::FileName("backup.txt".to_string())).clone();
    let file = edit_swapped(&mut fs, &inp);
    assert_eq!(file.backup_path(), Some("/work/backup.txt"));
    fs.save(&file).unwrap();
    assert_eq!(fs.listing(), ["/work/backup.txt", FILE]);
    assert_eq!(fs.content(FILE), SWAPPED_TEXT);
    assert_eq!(fs.content("/work/backup.txt"), TEXT);
}

#[test]
fn backup_path() {
    let mut fs = FakeFs::with_file(FILE, TEXT);
    let inp = InPlace::new(FILE).backup(Backup::Path("backup.txt".to_string())).clone();
    let file = edit_swapped(&mut fs, &inp);
    assert_eq!(file.backup_path(), Some("/work/backup.txt"));
    fs.save(&file).unwrap();
    assert_eq!(fs.listing(), ["/work/backup.txt", FILE]);
    assert_eq!(fs.content("/work/backup.txt"), TEXT);
}

#[test]
fn backup_nobackup() {
    let mut fs = FakeFs::with_file(FILE, TEXT);
    let inp = InPlace::new(FILE)
        .backup(Backup::Path("backup.txt".to_string()))
        .no_backup()
        .clone();
    let file = edit_swapped(&mut fs, &inp);
    fs.save(&file).unwrap();
    assert_eq!(fs.listing(), [FILE]);
    assert_eq!(fs.content(FILE), SWAPPED_TEXT);
}

fn assert_check_error(r: Result<InPlaceFile, InPlaceError>, kind: InPlaceErrorKind, msg: &str) {
    let e = r.unwrap_err();
    assert_eq!(e.kind(), kind);
    assert_eq!(e.to_string(), msg);
    assert!(e.as_io_error().is_none());
}

fn assert_io_error(r: Result<InPlaceFile, InPlaceError>, kind: InPlaceErrorKind, msg: &str) {
    let e = r.unwrap_err();
    assert_eq!(e.kind(), kind);
    assert_eq!(e.to_string(), msg);
    assert!(e.as_io_error().is_some());
}

#[test]
fn empty_backup_path() {
    let mut fs = FakeFs::with_file(FILE, TEXT);
    let r = fs.open(InPlace::new(FILE).backup(Backup::Path(String::new())));
    assert_check_error(r, InPlaceErrorKind::EmptyBackup, "backup path is empty");
    assert_eq!(fs.listing(), [FILE]);
    assert!(fs.temp.is_none());
}

#[test]
fn empty_backup_filename() {
    let mut fs = FakeFs::with_file(FILE, TEXT);
    let r = fs.open(InPlace::new(FILE).backup(Backup::FileName(String::new())));
    assert_check_error(r, InPlaceErrorKind::EmptyBackup, "backup path is empty");
    assert!(fs.temp.is_none());
}

#[test]
fn append_empty_backup_ext() {
    let mut fs = FakeFs::with_file(FILE, TEXT);
    let r = fs.open(InPlace::new(FILE).backup(Backup::Append(String::new())));
    assert_check_error(r, InPlaceErrorKind::EmptyBackup, "backup path is empty");
    assert!(fs.temp.is_none());
}

#[test]
fn set_same_backup_ext() {
    let mut fs = FakeFs::with_file(FILE, TEXT);
    let inp = InPlace::new(FILE).backup(Backup::Extension("txt".to_string())).clone();
    let file = edit_swapped(&mut fs, &inp);
    assert_eq!(file.backup_path(), None);
    fs.save(&file).unwrap();
    assert_eq!(fs.listing(), [FILE]);
    assert_eq!(fs.content(FILE), SWAPPED_TEXT);
}

#[test]
fn same_backup_filename_is_rejected() {
    let mut fs = FakeFs::with_file(FILE, TEXT);
    let r = fs.open(InPlace::new(FILE).backup(Backup::FileName("file.txt".to_string())));
    assert_check_error(
        r,
        InPlaceErrorKind::SameFile,
        "backup path is the same file as the edited path",
    );
    assert_eq!(fs.listing(), [FILE]);
    assert_eq!(fs.content(FILE), TEXT);
    assert!(fs.temp.is_none());
}

#[test]
fn same_backup_path_is_rejected() {
    let mut fs = FakeFs::with_file(FILE, TEXT);
    let r = fs.open(InPlace::new(FILE).backup(Backup::Path(FILE.to_string())));
    assert_check_error(
        r,
        InPlaceErrorKind::SameFile,
        "backup path is the same file as the edited path",
    );
    assert!(fs.temp.is_none());
}

#[test]
fn nop_nobackup() {
    let mut fs = FakeFs::with_file(FILE, TEXT);
    let file = fs.open(&InPlace::new(FILE)).unwrap();
    fs.save(&file).unwrap();
    assert_eq!(fs.listing(), [FILE]);
    assert_eq!(fs.content(FILE), "");
}

#[test]
fn round_trip_keeps_content() {
    let mut fs = FakeFs::with_file(FILE, TEXT);
    let inp = InPlace::new(FILE).backup(Backup::Append("~".to_string())).clone();
    let file = fs.open(&inp).unwrap();
    let original = fs.content(FILE);
    fs.write(&original);
    fs.save(&file).unwrap();
    assert_eq!(fs.content(FILE), TEXT);
    assert_eq!(fs.content("/work/file.txt~"), TEXT);
}

#[test]
fn strip_vowels() {
    let mut fs = FakeFs::with_file(FILE, "AEIOUaeiou");
    let file = fs.open(&InPlace::new(FILE)).unwrap();
    let mut line = fs.content(FILE);
    line.retain(|ch| !"AEIOUaeiou".contains(ch));
    fs.write(&line);
    fs.save(&file).unwrap();
    assert_eq!(fs.listing(), [FILE]);
    assert_eq!(fs.content(FILE), "");
}

#[test]
fn delete_nobackup() {
    let mut fs = FakeFs::with_file(FILE, TEXT);
    let file = edit_swapped(&mut fs, &InPlace::new(FILE));
    fs.files.remove(FILE);
    fs.save(&file).unwrap();
    assert_eq!(fs.listing(), [FILE]);
    assert_eq!(fs.content(FILE), SWAPPED_TEXT);
}

#[test]
fn delete_backup() {
    let mut fs = FakeFs::with_file(FILE, TEXT);
    let inp = InPlace::new(FILE).backup(Backup::FileName("backup.txt".to_string())).clone();
    let file = edit_swapped(&mut fs, &inp);
    fs.files.remove(FILE);
    let e = fs.save(&file).unwrap_err();
    assert_eq!(e.kind(), InPlaceErrorKind::SaveBackup);
    assert_eq!(e.to_string(), "failed to move file to backup path");
    assert!(fs.listing().is_empty());
    assert!(fs.temp.is_none());
}

#[test]
fn discard_nobackup() {
    let mut fs = FakeFs::with_file(FILE, TEXT);
    let file = edit_swapped(&mut fs, &InPlace::new(FILE));
    fs.discard(&file).unwrap();
    assert_eq!(fs.listing(), [FILE]);
    assert_eq!(fs.content(FILE), TEXT);
    assert!(fs.temp.is_none());
}

#[test]
fn discard_backup() {
    let mut fs = FakeFs::with_file(FILE, TEXT);
    let inp = InPlace::new(FILE).backup(Backup::FileName("backup.txt".to_string())).clone();
    let file = edit_swapped(&mut fs, &inp);
    fs.discard(&file).unwrap();
    assert_eq!(fs.listing(), [FILE]);
    assert_eq!(fs.content(FILE), TEXT);
}

#[test]
fn overwrite_backup() {
    let mut fs = FakeFs::with_file(FILE, TEXT);
    let bkp = "/work/backup.txt";
    fs.files.insert(bkp.to_string(), b"This is not the file you are looking for.\n".to_vec());
    let inp = InPlace::new(FILE).backup(Backup::FileName("backup.txt".to_string())).clone();
    let file = edit_swapped(&mut fs, &inp);
    fs.save(&file).unwrap();
    assert_eq!(fs.listing(), [bkp, FILE]);
    assert_eq!(fs.content(FILE), SWAPPED_TEXT);
    assert_eq!(fs.content(bkp), TEXT);
}

#[test]
fn discard_overwrite_backup() {
    let mut fs = FakeFs::with_file(FILE, TEXT);
    let bkp = "/work/backup.txt";
    let other = "This is not the file you are looking for.\n";
    fs.files.insert(bkp.to_string(), other.as_bytes().to_vec());
    let inp = InPlace::new(FILE).backup(Backup::FileName("backup.txt".to_string())).clone();
    let file = edit_swapped(&mut fs, &inp);
    fs.discard(&file).unwrap();
    assert_eq!(fs.content(FILE), TEXT);
    assert_eq!(fs.content(bkp), other);
}

#[test]
fn different_dir_backup() {
    let mut fs = FakeFs::with_file("/work/filedir/file.txt", TEXT);
    fs.dirs.push("/work/filedir".to_string());
    fs.dirs.push("/work/bkpdir".to_string());
    let inp = InPlace::new("filedir/file.txt")
        .backup(Backup::Path("bkpdir/backup.txt".to_string()))
        .follow_symlinks(false)
        .clone();
    let file = edit_swapped(&mut fs, &inp);
    assert_eq!(file.path(), "/work/filedir/file.txt");
    assert_eq!(file.backup_path(), Some("/work/bkpdir/backup.txt"));
    fs.save(&file).unwrap();
    assert_eq!(fs.content("/work/filedir/file.txt"), SWAPPED_TEXT);
    assert_eq!(fs.content("/work/bkpdir/backup.txt"), TEXT);
}

#[test]
fn backup_nosuchdir() {
    let mut fs = FakeFs::with_file(FILE, TEXT);
    let inp = InPlace::new(FILE)
        .backup(Backup::Path("/work/nonexistent/backup.txt".to_string()))
        .clone();
    let file = fs.open(&inp).unwrap();
    fs.write("This will be discarded.\n");
    let e = fs.save(&file).unwrap_err();
    assert_eq!(e.kind(), InPlaceErrorKind::SaveBackup);
    assert_eq!(e.to_string(), "failed to move file to backup path");
    assert!(e.as_io_error().is_some());
    assert_eq!(fs.listing(), [FILE]);
    assert_eq!(fs.content(FILE), TEXT);
    assert!(fs.temp.is_none());
}

#[test]
fn failed_persist_moves_backup_back() {
    let mut fs = FakeFs::with_file(FILE, TEXT);
    let inp = InPlace::new(FILE).backup(Backup::Append("~".to_string())).clone();
    let file = edit_swapped(&mut fs, &inp);
    fs.deny_persist = true;
    let e = fs.save(&file).unwrap_err();
    assert_eq!(e.kind(), InPlaceErrorKind::PersistTemp);
    assert_eq!(e.to_string(), "failed to save temporary file at path");
    assert!(e.as_io_error().is_some());
    assert_eq!(fs.listing(), [FILE]);
    assert_eq!(fs.content(FILE), TEXT);
    assert!(fs.temp.is_none());
}

#[test]
fn failed_discard_reports_rmtemp() {
    let mut fs = FakeFs::with_file(FILE, TEXT);
    let file = edit_swapped(&mut fs, &InPlace::new(FILE));
    fs.deny_remove = true;
    let e = fs.discard(&file).unwrap_err();
    assert_eq!(e.kind(), InPlaceErrorKind::Rmtemp);
    assert_eq!(e.to_string(), "failed to delete temporary file");
    assert!(e.into_io_error().is_some());
    assert_eq!(fs.content(FILE), TEXT);
}

#[test]
fn edit_nonexistent() {
    let mut fs = FakeFs::new();
    let r = fs.open(&InPlace::new(FILE));
    assert_io_error(r, InPlaceErrorKind::Canonicalize, "failed to canonicalize path");
    assert!(fs.listing().is_empty());
    assert!(fs.temp.is_none());
}

#[test]
fn edit_nonexistent_nofollow() {
    let mut fs = FakeFs::new();
    let r = fs.open(InPlace::new(FILE).follow_symlinks(false));
    assert_io_error(r, InPlaceErrorKind::GetMetadata, "failed to get metadata for path");
    assert!(fs.listing().is_empty());
    assert!(fs.temp.is_none());
}

#[test]
fn no_parent() {
    let mut fs = FakeFs::new();
    let r = fs.open(&InPlace::new("/"));
    assert_check_error(r, InPlaceErrorKind::NoParent, "path does not have a parent directory");
}

#[test]
fn current_dir_failure() {
    let mut fs = FakeFs::with_file(FILE, TEXT);
    fs.cwd = None;
    let r = fs.open(InPlace::new("file.txt").follow_symlinks(false));
    assert_io_error(r, InPlaceErrorKind::CurrentDir, "failed to fetch current directory");
}

#[test]
fn unwritable_dir() {
    let mut fs = FakeFs::with_file(FILE, TEXT);
    fs.deny_create_temp = true;
    let r = fs.open(&InPlace::new(FILE));
    assert_io_error(r, InPlaceErrorKind::Mktemp, "failed to create temporary file");
    assert_eq!(fs.listing(), [FILE]);
    assert_eq!(fs.content(FILE), TEXT);
}

#[test]
fn unreadable_file() {
    let mut fs = FakeFs::with_file(FILE, TEXT);
    fs.deny_read = true;
    let r = fs.open(&InPlace::new(FILE));
    assert_io_error(r, InPlaceErrorKind::Open, "failed to open file for reading");
    assert_eq!(fs.listing(), [FILE]);
    assert!(fs.temp.is_none());
}

#[test]
fn permission_copy_failure() {
    let mut fs = FakeFs::with_file(FILE, TEXT);
    fs.deny_chmod = true;
    let r = fs.open(&InPlace::new(FILE));
    assert_io_error(
        r,
        InPlaceErrorKind::SetMetadata,
        "failed to set metadata on temporary file",
    );
    assert!(fs.temp.is_none());
}

#[test]
fn nofollow_nocopy_symlink_perms() {
    let mut fs = FakeFs::with_file(FILE, TEXT);
    fs.symlinks.push(FILE.to_string());
    let file = fs.open(InPlace::new(FILE).follow_symlinks(false)).unwrap();
    assert!(fs.log.iter().all(|a| a != "CopyPermissions"));
    assert!(fs.log.contains(&format!("ReadMetadata({:?}, false)", FILE)));
    fs.save(&file).unwrap();
}

#[test]
fn copy_executable_perm() {
    let mut fs = FakeFs::with_file(FILE, TEXT);
    fs.symlinks.push(FILE.to_string());
    let file = fs.open(&InPlace::new(FILE)).unwrap();
    assert!(fs.log.iter().any(|a| a == "CopyPermissions"));
    assert!(fs.log.contains(&format!("ReadMetadata({:?}, true)", FILE)));
    fs.discard(&file).unwrap();
}

#[test]
fn append_no_filename_nofollow() {
    let mut fs = FakeFs::new();
    let inp = InPlace::new("/work/..")
        .backup(Backup::Append("/foo".to_string()))
        .follow_symlinks(false)
        .clone();
    let r = fs.open(&inp);
    assert_check_error(r, InPlaceErrorKind::NoFilename, "path does not have a filename");
    assert!(fs.listing().is_empty());
}

#[test]
fn extension_with_separator_fails_open() {
    let mut fs = FakeFs::with_file(FILE, TEXT);
    let r = fs.open(InPlace::new(FILE).backup(Backup::Extension("a/b".to_string())));
    assert_check_error(
        r,
        InPlaceErrorKind::SeparatorInExtension,
        "backup extension contains a path separator",
    );
    assert_eq!(fs.listing(), [FILE]);
    assert!(fs.temp.is_none());
}
