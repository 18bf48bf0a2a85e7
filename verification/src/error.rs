//! The one error type of the crate, and the kind of each error.
use vstd::prelude::*;

verus! {

#[verifier::external_type_specification]
#[verifier::external_body]
pub struct ExIoError(std::io::Error);

#[verifier::external_type_specification]
#[verifier::external_body]
pub struct ExXPathError(xpath_reader::Error);

#[verifier::external_type_specification]
#[verifier::external_body]
pub struct ExSemVerError(semver::SemVerError);

/// One of the three fields that a descriptor must hold.
#[derive(Clone, Copy, Debug, PartialEq, Eq, Structural)]
pub enum Field {
    Id,
    Name,
    Version,
}

/// Why no `AppInfo` could be produced.
#[derive(Debug)]
pub enum AppInfoError {
    /// The app directory holds no `appinfo/info.xml`.
    InfoXmlMissing,
    /// The descriptor exists but could not be read.
    IO(std::io::Error),
    /// The text is no XML document (`field` is `None`), or it lacks the
    /// field that `field` names.
    Xml { err: xpath_reader::Error, field: Option<Field> },
    /// The version field is not a semantic version.
    SemVer(semver::SemVerError),
}

/// An `AppInfoError` without its cause: what callers branch on.
#[derive(Clone, Copy, Debug, PartialEq, Eq)]
pub enum ErrorKind {
    InfoXmlMissing,
    IO,
    Xml { field: Option<Field> },
    SemVer,
}

impl AppInfoError {
    pub open spec fn spec_kind(&self) -> ErrorKind {
        match self {
            AppInfoError::InfoXmlMissing => ErrorKind::InfoXmlMissing,
            AppInfoError::IO(_) => ErrorKind::IO,
            AppInfoError::Xml { field, .. } => ErrorKind::Xml { field: *field },
            AppInfoError::SemVer(_) => ErrorKind::SemVer,
        }
    }

    /// The kind of this error.
    #[verifier::when_used_as_spec(spec_kind)]
    pub fn kind(&self) -> (k: ErrorKind)
        ensures
            k == self.spec_kind(),
    {
        match self {
            AppInfoError::InfoXmlMissing => ErrorKind::InfoXmlMissing,
            AppInfoError::IO(_) => ErrorKind::IO,
            AppInfoError::Xml { field, .. } => ErrorKind::Xml { field: *field },
            AppInfoError::SemVer(_) => ErrorKind::SemVer,
        }
    }
}

} // verus!
