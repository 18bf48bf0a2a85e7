//! From the text of an `info.xml` to an `AppInfo`: which fields are read,
//! in which order, and which failure each step is reported as.
use crate::document::{
    field_text, open_reader, read_field, reader_error, xml_parses, ID_QUERY, NAME_QUERY,
    VERSION_QUERY,
};
use crate::error::{AppInfoError, ErrorKind, Field};
use crate::version::{parsed, Version, VersionView};
use vstd::prelude::*;

verus! {

/// The directory, below an app's root, that holds the descriptor.
pub const APPINFO_DIR: &'static str = "appinfo";

/// The descriptor's file name inside `APPINFO_DIR`.
pub const INFO_XML: &'static str = "info.xml";

/// Identifier, display name and version of an app. A value exists only with
/// all three, and its identifier is never empty.
#[derive(Debug)]
pub struct AppInfo {
    id: String,
    name: String,
    version: Version,
}

impl AppInfo {
    #[verifier::type_invariant]
    spec fn has_identifier(self) -> bool {
        self.id@.len() > 0
    }
}

pub struct AppInfoView {
    pub id: Seq<char>,
    pub name: Seq<char>,
    pub version: VersionView,
}

impl View for AppInfo {
    type V = AppInfoView;

    closed spec fn view(&self) -> AppInfoView {
        AppInfoView { id: self.id@, name: self.name@, version: self.version@ }
    }
}

/// What was found where an app's descriptor is expected.
#[derive(Debug)]
pub enum Descriptor {
    /// No file at `<root>/appinfo/info.xml`.
    Missing,
    /// The file exists, but reading it as text failed.
    Unreadable(std::io::Error),
    /// The file's whole text.
    Text(String),
}

/// A result as contracts speak of it: the record's view, or the error's kind.
pub open spec fn outcome(r: Result<AppInfo, AppInfoError>) -> Result<AppInfoView, ErrorKind> {
    match r {
        Ok(info) => Ok(info@),
        Err(e) => Err(e.kind()),
    }
}

/// The record made of three field texts: an empty identifier is an `Xml`
/// failure that names it, a version text that spells no version a `SemVer`
/// failure; otherwise the identifier and the name are taken as they are.
pub open spec fn assembled(id: Seq<char>, name: Seq<char>, version: Seq<char>) -> Result<
    AppInfoView,
    ErrorKind,
> {
    if id.len() == 0 {
        Err(ErrorKind::Xml { field: Some(Field::Id) })
    } else {
        match parsed(version) {
            Some(v) => Ok(AppInfoView { id, name, version: v }),
            None => Err(ErrorKind::SemVer),
        }
    }
}

/// What a descriptor text yields. Text that is no XML document is an `Xml`
/// failure that names no field; a document that lacks a field, or whose
/// field holds no text, is an `Xml` failure that names the first such field,
/// in the order identifier, name, version; a version field that spells no
/// version is a `SemVer` failure; anything else is the record of the three
/// field texts, taken as they stand: white space around an identifier or a
/// name is kept.
pub open spec fn extraction(xml: Seq<char>) -> Result<AppInfoView, ErrorKind> {
    if !xml_parses(xml) {
        Err(ErrorKind::Xml { field: None })
    } else if field_text(xml, ID_QUERY@) is None || field_text(xml, ID_QUERY@)->0.len() == 0 {
        Err(ErrorKind::Xml { field: Some(Field::Id) })
    } else if field_text(xml, NAME_QUERY@) is None {
        Err(ErrorKind::Xml { field: Some(Field::Name) })
    } else if field_text(xml, VERSION_QUERY@) is None {
        Err(ErrorKind::Xml { field: Some(Field::Version) })
    } else {
        assembled(
            field_text(xml, ID_QUERY@)->0,
            field_text(xml, NAME_QUERY@)->0,
            field_text(xml, VERSION_QUERY@)->0,
        )
    }
}

/// What a look at the descriptor's place yields.
pub open spec fn lookup(descriptor: Descriptor) -> Result<AppInfoView, ErrorKind> {
    match descriptor {
        Descriptor::Missing => Err(ErrorKind::InfoXmlMissing),
        Descriptor::Unreadable(_) => Err(ErrorKind::IO),
        Descriptor::Text(xml) => extraction(xml@),
    }
}

impl AppInfo {
    /// The record of an identifier, a name and a version; none where the
    /// identifier is empty.
    pub fn new(id: String, name: String, version: Version) -> (r: Option<AppInfo>)
        ensures
            r is Some <==> id@.len() > 0,
            r matches Some(info) ==> info@ == (AppInfoView {
                id: id@,
                name: name@,
                version: version@,
            }),
    {
        if id.as_str().is_empty() {
            None
        } else {
            Some(AppInfo { id, name, version })
        }
    }

    /// The record of three field texts, as `assembled` says: fails with kind
    /// `Xml`, naming the identifier, exactly where `id` is empty, and else
    /// with kind `SemVer` exactly where `version` spells no version.
    pub fn from_fields(id: String, name: String, version: &str) -> (r: Result<
        AppInfo,
        AppInfoError,
    >)
        ensures
            outcome(r) == assembled(id@, name@, version@),
    {
        if id.as_str().is_empty() {
            return Err(AppInfoError::Xml { err: reader_error("empty id"), field: Some(Field::Id) });
        }
        match Version::parse(version) {
            Ok(version) => Ok(AppInfo { id, name, version }),
            Err(e) => Err(e),
        }
    }

    /// The identifier, which is never empty.
    pub fn id(&self) -> (r: &String)
        ensures
            r@ == self@.id,
            r@.len() > 0,
    {
        proof {
            use_type_invariant(self);
        }
        &self.id
    }

    pub fn name(&self) -> (r: &String)
        ensures
            r@ == self@.name,
    {
        &self.name
    }

    pub fn version(&self) -> (r: &Version)
        ensures
            r@ == self@.version,
    {
        &self.version
    }
}

/// Reads an `AppInfo` out of the text of a descriptor. The result is what
/// `extraction` says of the text: the record on success, else the kind of
/// the failure. A record that comes back has an identifier that is not
/// empty.
pub fn parse_appinfo(xml: &str) -> (r: Result<AppInfo, AppInfoError>)
    ensures
        outcome(r) == extraction(xml@),
        r matches Ok(info) ==> info@.id.len() > 0,
{
    let reader = match open_reader(xml) {
        Ok(reader) => reader,
        Err(err) => {
            return Err(AppInfoError::Xml { err, field: None });
        },
    };
    let id = match read_field(&reader, ID_QUERY) {
        Ok(id) => id,
        Err(err) => {
            return Err(AppInfoError::Xml { err, field: Some(Field::Id) });
        },
    };
    if id.as_str().is_empty() {
        return Err(AppInfoError::Xml { err: reader_error("empty id"), field: Some(Field::Id) });
    }
    let name = match read_field(&reader, NAME_QUERY) {
        Ok(name) => name,
        Err(err) => {
            return Err(AppInfoError::Xml { err, field: Some(Field::Name) });
        },
    };
    let version = match read_field(&reader, VERSION_QUERY) {
        Ok(version) => version,
        Err(err) => {
            return Err(AppInfoError::Xml { err, field: Some(Field::Version) });
        },
    };
    AppInfo::from_fields(id, name, version.as_str())
}

/// The `AppInfo` of an app, from what was found at its descriptor's place:
/// a missing file and an unreadable one are reported as such, the cause of
/// the latter kept; a text is handed to `parse_appinfo`.
pub fn get_appinfo(descriptor: Descriptor) -> (r: Result<AppInfo, AppInfoError>)
    ensures
        outcome(r) == lookup(descriptor),
        r matches Ok(info) ==> info@.id.len() > 0,
        descriptor matches Descriptor::Unreadable(cause) ==> r matches Err(AppInfoError::IO(e))
            && e == cause,
{
    match descriptor {
        Descriptor::Missing => Err(AppInfoError::InfoXmlMissing),
        Descriptor::Unreadable(cause) => Err(AppInfoError::IO(cause)),
        Descriptor::Text(xml) => parse_appinfo(xml.as_str()),
    }
}

/// A text that is an XML document, holds all three fields with an identifier
/// that is not empty, and whose version field spells a version, yields the
/// record of exactly those three: the identifier and the name as they stand,
/// the version as parsed.
pub proof fn complete_descriptor_yields_its_fields(
    xml: Seq<char>,
    id: Seq<char>,
    name: Seq<char>,
    version: Seq<char>,
    v: VersionView,
)
    requires
        xml_parses(xml),
        field_text(xml, ID_QUERY@) == Some(id),
        id.len() > 0,
        field_text(xml, NAME_QUERY@) == Some(name),
        field_text(xml, VERSION_QUERY@) == Some(version),
        parsed(version) == Some(v),
    ensures
        extraction(xml) == Ok::<AppInfoView, ErrorKind>(AppInfoView { id, name, version: v }),
{
}

/// A text that lacks any of the three fields yields an `Xml` failure, never
/// a record.
pub proof fn missing_field_is_xml_failure(xml: Seq<char>)
    requires
        field_text(xml, ID_QUERY@) is None || field_text(xml, NAME_QUERY@) is None
            || field_text(xml, VERSION_QUERY@) is None,
    ensures
        extraction(xml) matches Err(ErrorKind::Xml { .. }),
{
}

/// A document with all three fields whose version field spells no version
/// yields a `SemVer` failure.
pub proof fn malformed_version_is_semver_failure(xml: Seq<char>, version: Seq<char>)
    requires
        xml_parses(xml),
        field_text(xml, ID_QUERY@) matches Some(id) && id.len() > 0,
        field_text(xml, NAME_QUERY@) is Some,
        field_text(xml, VERSION_QUERY@) == Some(version),
        parsed(version) is None,
    ensures
        extraction(xml) == Err::<AppInfoView, ErrorKind>(ErrorKind::SemVer),
{
}

/// Two results of `parse_appinfo` on the same text agree: the same record,
/// or failures of the same kind.
pub proof fn same_text_same_outcome(
    first: Result<AppInfo, AppInfoError>,
    second: Result<AppInfo, AppInfoError>,
    xml: Seq<char>,
)
    requires
        outcome(first) == extraction(xml),
        outcome(second) == extraction(xml),
    ensures
        outcome(first) == outcome(second),
        first is Ok <==> second is Ok,
        first matches Ok(a) ==> second matches Ok(b) && a@ == b@,
        first matches Err(e) ==> second matches Err(f) && e.kind() == f.kind(),
{
}

} // verus!
