use vstd::prelude::*;

verus! {

/// Declares `std::io::Error` so that it can be carried as the cause of a
/// failure. Nothing is assumed about what is inside it.
#[verifier::external_type_specification]
#[verifier::external_body]
pub struct ExIoError(std::io::Error);

/// The operation or check that failed while opening, saving, or discarding
/// an edited file.
#[derive(Copy, Clone, Debug, PartialEq, Eq, Hash, Structural)]
#[non_exhaustive]
pub enum InPlaceErrorKind {
    /// Resolving the edited path (following symlinks) failed; the path
    /// usually does not exist.
    Canonicalize,
    /// The current directory could not be determined.
    CurrentDir,
    /// The value of a backup specifier other than an extension was empty.
    EmptyBackup,
    /// Reading the edited file's metadata failed.
    GetMetadata,
    /// The temporary file could not be created.
    Mktemp,
    /// An appended backup suffix was given but the edited path has no
    /// file name.
    NoFilename,
    /// The edited path has no parent directory.
    NoParent,
    /// The edited file could not be opened for reading.
    Open,
    /// The edited file's permissions could not be copied to the temporary
    /// file.
    SetMetadata,
    /// The backup path names the same file as the edited path.
    SameFile,
    /// A backup extension holds a path separator.
    SeparatorInExtension,
    /// The temporary file could not be moved to the edited path.
    PersistTemp,
    /// The edited file could not be moved to the backup path.
    SaveBackup,
    /// The temporary file could not be deleted.
    Rmtemp,
}

/// Whether a failure of this kind carries the underlying I/O error.
pub open spec fn has_io_source(kind: InPlaceErrorKind) -> bool {
    !matches!(kind,
        InPlaceErrorKind::EmptyBackup
        | InPlaceErrorKind::NoFilename
        | InPlaceErrorKind::NoParent
        | InPlaceErrorKind::SameFile
        | InPlaceErrorKind::SeparatorInExtension)
}

/// The human-readable text of each kind of failure.
pub open spec fn kind_message(kind: InPlaceErrorKind) -> Seq<char> {
    match kind {
        InPlaceErrorKind::Canonicalize => "failed to canonicalize path"@,
        InPlaceErrorKind::CurrentDir => "failed to fetch current directory"@,
        InPlaceErrorKind::EmptyBackup => "backup path is empty"@,
        InPlaceErrorKind::GetMetadata => "failed to get metadata for path"@,
        InPlaceErrorKind::Mktemp => "failed to create temporary file"@,
        InPlaceErrorKind::NoFilename => "path does not have a filename"@,
        InPlaceErrorKind::NoParent => "path does not have a parent directory"@,
        InPlaceErrorKind::Open => "failed to open file for reading"@,
        InPlaceErrorKind::SetMetadata => "failed to set metadata on temporary file"@,
        InPlaceErrorKind::SameFile => "backup path is the same file as the edited path"@,
        InPlaceErrorKind::SeparatorInExtension => "backup extension contains a path separator"@,
        InPlaceErrorKind::PersistTemp => "failed to save temporary file at path"@,
        InPlaceErrorKind::SaveBackup => "failed to move file to backup path"@,
        InPlaceErrorKind::Rmtemp => "failed to delete temporary file"@,
    }
}

impl InPlaceErrorKind {
    /// The human-readable text of this kind of failure.
    pub fn message(&self) -> (r: &'static str)
        ensures
            r@ == kind_message(*self),
    {
        match self {
            InPlaceErrorKind::Canonicalize => "failed to canonicalize path",
            InPlaceErrorKind::CurrentDir => "failed to fetch current directory",
            InPlaceErrorKind::EmptyBackup => "backup path is empty",
            InPlaceErrorKind::GetMetadata => "failed to get metadata for path",
            InPlaceErrorKind::Mktemp => "failed to create temporary file",
            InPlaceErrorKind::NoFilename => "path does not have a filename",
            InPlaceErrorKind::NoParent => "path does not have a parent directory",
            InPlaceErrorKind::Open => "failed to open file for reading",
            InPlaceErrorKind::SetMetadata => "failed to set metadata on temporary file",
            InPlaceErrorKind::SameFile => "backup path is the same file as the edited path",
            InPlaceErrorKind::SeparatorInExtension => "backup extension contains a path separator",
            InPlaceErrorKind::PersistTemp => "failed to save temporary file at path",
            InPlaceErrorKind::SaveBackup => "failed to move file to backup path",
            InPlaceErrorKind::Rmtemp => "failed to delete temporary file",
        }
    }
}

/// A failure while opening, saving, or discarding an edited file: what
/// failed, and the I/O error that caused it where there is one.
#[derive(Debug)]
pub struct InPlaceError {
    kind: InPlaceErrorKind,
    source: Option<std::io::Error>,
}

/// What an error is, in contracts: its kind and the I/O error behind it.
pub type ErrorView = (InPlaceErrorKind, Option<std::io::Error>);

impl View for InPlaceError {
    type V = ErrorView;

    closed spec fn view(&self) -> ErrorView {
        (self.kind, self.source)
    }
}

impl InPlaceError {
    /// Whether the error is well formed: exactly the kinds caused by a
    /// failed I/O operation carry a source.
    pub open spec fn wf(&self) -> bool {
        has_io_source(self.spec_kind()) == self.spec_source().is_some()
    }

    /// The kind of the failure.
    pub open spec fn spec_kind(&self) -> InPlaceErrorKind {
        self@.0
    }

    /// The I/O error behind the failure, if any.
    pub open spec fn spec_source(&self) -> Option<std::io::Error> {
        self@.1
    }

    /// The operation or check that failed.
    pub fn kind(&self) -> (r: InPlaceErrorKind)
        ensures
            r == self.spec_kind(),
    {
        self.kind
    }

    /// The I/O error that caused the failure, if any.
    pub fn as_io_error(&self) -> (r: Option<&std::io::Error>)
        ensures
            r == match self.spec_source() {
                Some(e) => Some(&e),
                None => None::<&std::io::Error>,
            },
    {
        match &self.source {
            Some(e) => Some(e),
            None => None,
        }
    }

    /// Consumes the error, returning the I/O error that caused it, if any.
    pub fn into_io_error(self) -> (r: Option<std::io::Error>)
        ensures
            r == self.spec_source(),
    {
        self.source
    }

    /// This error is a failure of kind `kind` caused by the I/O error `e`.
    pub open spec fn is_io(&self, kind: InPlaceErrorKind, e: std::io::Error) -> bool {
        self@ == (kind, Some(e))
    }

    /// This error is a failed check of kind `kind`, with no I/O error.
    pub open spec fn is_check(&self, kind: InPlaceErrorKind) -> bool {
        self@ == (kind, None::<std::io::Error>)
    }

    /// Reading the edited file's metadata failed.
    pub(crate) fn get_metadata(source: std::io::Error) -> (r: InPlaceError)
        ensures
            r.is_io(InPlaceErrorKind::GetMetadata, source),
            r.wf(),
    {
        InPlaceError { kind: InPlaceErrorKind::GetMetadata, source: Some(source) }
    }

    /// Copying permissions to the temporary file failed.
    pub(crate) fn set_metadata(source: std::io::Error) -> (r: InPlaceError)
        ensures
            r.is_io(InPlaceErrorKind::SetMetadata, source),
            r.wf(),
    {
        InPlaceError { kind: InPlaceErrorKind::SetMetadata, source: Some(source) }
    }

    /// Creating the temporary file failed.
    pub(crate) fn mktemp(source: std::io::Error) -> (r: InPlaceError)
        ensures
            r.is_io(InPlaceErrorKind::Mktemp, source),
            r.wf(),
    {
        InPlaceError { kind: InPlaceErrorKind::Mktemp, source: Some(source) }
    }

    /// Resolving the edited path failed.
    pub(crate) fn canonicalize(source: std::io::Error) -> (r: InPlaceError)
        ensures
            r.is_io(InPlaceErrorKind::Canonicalize, source),
            r.wf(),
    {
        InPlaceError { kind: InPlaceErrorKind::Canonicalize, source: Some(source) }
    }

    /// Fetching the current directory failed.
    pub(crate) fn cwd(source: std::io::Error) -> (r: InPlaceError)
        ensures
            r.is_io(InPlaceErrorKind::CurrentDir, source),
            r.wf(),
    {
        InPlaceError { kind: InPlaceErrorKind::CurrentDir, source: Some(source) }
    }

    /// Opening the edited file for reading failed.
    pub(crate) fn open(source: std::io::Error) -> (r: InPlaceError)
        ensures
            r.is_io(InPlaceErrorKind::Open, source),
            r.wf(),
    {
        InPlaceError { kind: InPlaceErrorKind::Open, source: Some(source) }
    }

    /// Moving the edited file to the backup path failed.
    pub(crate) fn save_backup(source: std::io::Error) -> (r: InPlaceError)
        ensures
            r.is_io(InPlaceErrorKind::SaveBackup, source),
            r.wf(),
    {
        InPlaceError { kind: InPlaceErrorKind::SaveBackup, source: Some(source) }
    }

    /// Moving the temporary file to the edited path failed.
    pub(crate) fn persist(source: std::io::Error) -> (r: InPlaceError)
        ensures
            r.is_io(InPlaceErrorKind::PersistTemp, source),
            r.wf(),
    {
        InPlaceError { kind: InPlaceErrorKind::PersistTemp, source: Some(source) }
    }

    /// Deleting the temporary file failed.
    pub(crate) fn rmtemp(source: std::io::Error) -> (r: InPlaceError)
        ensures
            r.is_io(InPlaceErrorKind::Rmtemp, source),
            r.wf(),
    {
        InPlaceError { kind: InPlaceErrorKind::Rmtemp, source: Some(source) }
    }

    /// The edited path has no parent directory.
    pub(crate) fn no_parent() -> (r: InPlaceError)
        ensures
            r.is_check(InPlaceErrorKind::NoParent),
            r.wf(),
    {
        InPlaceError { kind: InPlaceErrorKind::NoParent, source: None }
    }

    /// The backup specifier is empty.
    pub(crate) fn empty_backup() -> (r: InPlaceError)
        ensures
            r.is_check(InPlaceErrorKind::EmptyBackup),
            r.wf(),
    {
        InPlaceError { kind: InPlaceErrorKind::EmptyBackup, source: None }
    }

    /// The edited path has no file name to append to.
    pub(crate) fn no_filename() -> (r: InPlaceError)
        ensures
            r.is_check(InPlaceErrorKind::NoFilename),
            r.wf(),
    {
        InPlaceError { kind: InPlaceErrorKind::NoFilename, source: None }
    }

    /// The backup path names the edited file itself.
    pub(crate) fn same_file() -> (r: InPlaceError)
        ensures
            r.is_check(InPlaceErrorKind::SameFile),
            r.wf(),
    {
        InPlaceError { kind: InPlaceErrorKind::SameFile, source: None }
    }

    /// The backup extension holds a path separator.
    pub(crate) fn separator_in_extension() -> (r: InPlaceError)
        ensures
            r.is_check(InPlaceErrorKind::SeparatorInExtension),
            r.wf(),
    {
        InPlaceError { kind: InPlaceErrorKind::SeparatorInExtension, source: None }
    }

    /// The human-readable text of the failure.
    pub fn to_string(&self) -> (r: String)
        ensures
            r@ == kind_message(self.spec_kind()),
    {
        String::from_str(self.kind.message())
    }
}

} // verus!
