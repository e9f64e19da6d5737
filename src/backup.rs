//! Where the edited file is backed up.
use vstd::prelude::*;

use crate::error::{InPlaceError, InPlaceErrorKind};
use crate::path::{
    contains_separator, file_name, has_separator, path_file_name, path_with_extension,
    path_with_file_name, with_extension, with_file_name,
};

verus! {

/// A path, or a computation of one from the edited path, at which to back
/// up the edited file.
#[derive(Clone, Debug, PartialEq, Eq)]
pub enum Backup {
    /// An explicit path.
    Path(String),
    /// The edited path with its file name replaced by this value.
    FileName(String),
    /// The edited path with its extension replaced by this value (which
    /// should generally not start with a period). An extension that the file
    /// already has gives the edited path itself, and then no backup is made.
    /// An extension that holds a path separator is rejected.
    Extension(String),
    /// The edited path with this value appended to its file name.
    Append(String),
}

impl Backup {
    /// The backup path that this specifier gives for the edited path, or the
    /// kind of check that rejects it.
    pub open spec fn spec_apply(&self, path: Seq<char>) -> Result<Seq<char>, InPlaceErrorKind> {
        match self {
            Backup::Path(p) => if p@.len() == 0 {
                Err(InPlaceErrorKind::EmptyBackup)
            } else {
                Ok(p@)
            },
            Backup::FileName(name) => if name@.len() == 0 {
                Err(InPlaceErrorKind::EmptyBackup)
            } else {
                Ok(path_with_file_name(path, name@))
            },
            Backup::Extension(ext) => if has_separator(ext@) {
                Err(InPlaceErrorKind::SeparatorInExtension)
            } else {
                Ok(path_with_extension(path, ext@))
            },
            Backup::Append(suffix) => if suffix@.len() == 0 {
                Err(InPlaceErrorKind::EmptyBackup)
            } else {
                match path_file_name(path) {
                    Some(name) => Ok(path_with_file_name(path, name + suffix@)),
                    None => Err(InPlaceErrorKind::NoFilename),
                }
            },
        }
    }

    /// Computes the backup path for the edited path `path`.
    pub fn apply(&self, path: &str) -> (r: Result<String, InPlaceError>)
        ensures
            match (r, self.spec_apply(path@)) {
                (Ok(b), Ok(v)) => b@ == v,
                (Err(e), Err(k)) => e.is_check(k) && e.wf(),
                _ => false,
            },
    {
        match self {
            Backup::Path(p) => {
                if p.as_str().is_empty() {
                    Err(InPlaceError::empty_backup())
                } else {
                    Ok(p.clone())
                }
            },
            Backup::FileName(name) => {
                if name.as_str().is_empty() {
                    Err(InPlaceError::empty_backup())
                } else {
                    Ok(with_file_name(path, name.as_str()))
                }
            },
            Backup::Extension(ext) => {
                if contains_separator(ext.as_str()) {
                    Err(InPlaceError::separator_in_extension())
                } else {
                    Ok(with_extension(path, ext.as_str()))
                }
            },
            Backup::Append(suffix) => {
                if suffix.as_str().is_empty() {
                    Err(InPlaceError::empty_backup())
                } else {
                    match file_name(path) {
                        Some(name) => {
                            let mut name = name;
                            name.append(suffix.as_str());
                            Ok(with_file_name(path, name.as_str()))
                        },
                        None => Err(InPlaceError::no_filename()),
                    }
                }
            },
        }
    }
}

} // verus!
