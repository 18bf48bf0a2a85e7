//! Metadata of a Nextcloud app, read from the text of its `appinfo/info.xml`.
//!
//! The XML and XPath work is done by `xpath_reader` and the version grammar by
//! `semver`; which fields are read, in which order, and which failure each
//! step maps to is decided here, and proved against the contracts of the
//! functions that do it.
pub mod appinfo;
pub mod compare;
pub mod document;
pub mod error;
pub mod version;

pub use appinfo::{get_appinfo, parse_appinfo, AppInfo, Descriptor, APPINFO_DIR, INFO_XML};
pub use error::{AppInfoError, ErrorKind, Field};
pub use version::{Identifier, Precedence, Version};
