use nextcloud_appinfo::{
    get_appinfo, parse_appinfo, AppInfo, AppInfoError, Descriptor, ErrorKind, Field, Identifier,
    Version,
    APPINFO_DIR, INFO_XML,
};
use std::path::Path;

const APPINFO1: &'static str = "<?xml version=\"1.0\"?>
    <info xmlns:xsi= \"http://www.w3.org/2001/XMLSchema-instance\"
      xsi:noNamespaceSchemaLocation=\"https://apps.nextcloud.com/schema/apps/info.xsd\">
	<id>mail</id>
	<name>Mail</name>
	<summary>IMAP web client</summary>
	<description>Easy to use email client which connects to your mail server via IMAP and SMTP.</description>
	<version>0.7.3</version>
	<licence>agpl</licence>
	<author>Christoph Wurst</author>
	<author>Jan-Christoph Borchardt</author>
	<author>Steffen Lindner</author>
	<namespace>Mail</namespace>
	<documentation>
		<admin>https://github.com/nextcloud/mail#readme</admin>
	</documentation>
	<category>social</category>
	<category>office</category>
	<website>https://github.com/nextcloud/mail#readme</website>
	<bugs>https://github.com/nextcloud/mail/issues</bugs>
	<repository type=\"git\">https://github.com/nextcloud/mail.git</repository>
	<screenshot>https://raw.githubusercontent.com/nextcloud/mail/74e94da16618b32ee0834e57bbfc83ff7334f709/screenshots/mail.png</screenshot>
	<dependencies>
		<php min-version=\"5.6\" max-version=\"7.1\" />
		<nextcloud min-version=\"12\" max-version=\"13\" />
	</dependencies>
	<repair-steps>
		<post-migration>
			<step>OCA\\Mail\\Migration\\FixCollectedAddresses</step>
		</post-migration>
	</repair-steps>
</info>";

const MINIMAL: &str = "<info><id>mail</id><name>Mail</name><version>0.7.3</version></info>";

fn kind_of(result: Result<AppInfo, AppInfoError>) -> ErrorKind {
    match result {
        Ok(info) => panic!("expected a failure, got {:?}", info),
        Err(e) => e.kind(),
    }
}

fn descriptor_with_version(version: &str) -> String {
    format!("<info><id>mail</id><name>Mail</name><version>{}</version></info>", version)
}

#[test]
fn it_parses_basic_info() {
    let actual = parse_appinfo(APPINFO1).unwrap();

    assert_eq!("mail", actual.id().as_str());
    assert_eq!("Mail", actual.name().as_str());
    assert_eq!(&Version::parse("0.7.3").unwrap(), actual.version());
}

#[test]
fn it_handles_notfound_errors() {
    // There's no appinfo/info.xml in here
    let path = Path::new(".");

    let found = if path.join(APPINFO_DIR).join(INFO_XML).exists() {
        panic!("the working directory holds a descriptor")
    } else {
        Descriptor::Missing
    };
    let result = get_appinfo(found);

    assert!(matches!(result, Err(AppInfoError::InfoXmlMissing)));
}

#[test]
fn descriptor_location_is_appinfo_info_xml() {
    assert_eq!(APPINFO_DIR, "appinfo");
    assert_eq!(INFO_XML, "info.xml");
}

#[test]
fn minimal_descriptor_gives_all_three_fields() {
    let info = parse_appinfo(MINIMAL).unwrap();
    assert_eq!(info.id().as_str(), "mail");
    assert_eq!(info.name().as_str(), "Mail");
    let expected = Version { major: 0, minor: 7, patch: 3, pre: vec![], build: vec![] };
    assert_eq!(info.version(), &expected);
}

#[test]
fn fields_equal_the_element_texts() {
    let xml = "<info><version>12.0.1-rc.2+abc</version><other>x</other><name>Some App</name><id>some_app</id></info>";
    let info = parse_appinfo(xml).unwrap();
    assert_eq!(info.id().as_str(), "some_app");
    assert_eq!(info.name().as_str(), "Some App");
    assert_eq!(info.version(), &Version::parse("12.0.1-rc.2+abc").unwrap());
    assert_eq!(info.version().major, 12);
    assert_eq!(info.version().minor, 0);
    assert_eq!(info.version().patch, 1);
}

#[test]
fn field_text_is_kept_as_it_stands() {
    let xml = "<info><id> mail </id><name>  My Mail\n</name><version>1.0.0</version></info>";
    let info = parse_appinfo(xml).unwrap();
    assert_eq!(info.id().as_str(), " mail ");
    assert_eq!(info.name().as_str(), "  My Mail\n");
}

#[test]
fn same_text_gives_the_same_result() {
    let first = parse_appinfo(APPINFO1).unwrap();
    let second = parse_appinfo(APPINFO1).unwrap();
    assert_eq!(first.id(), second.id());
    assert_eq!(first.name(), second.name());
    assert_eq!(first.version(), second.version());

    let broken = descriptor_with_version("1.2");
    assert_eq!(kind_of(parse_appinfo(&broken)), kind_of(parse_appinfo(&broken)));
    assert_eq!(kind_of(parse_appinfo("<info>")), kind_of(parse_appinfo("<info>")));
}

#[test]
fn missing_id_is_an_xml_failure() {
    let xml = "<info><name>Mail</name><version>0.7.3</version></info>";
    assert_eq!(kind_of(parse_appinfo(xml)), ErrorKind::Xml { field: Some(Field::Id) });
}

#[test]
fn missing_name_is_an_xml_failure() {
    let xml = "<info><id>mail</id><version>0.7.3</version></info>";
    assert_eq!(kind_of(parse_appinfo(xml)), ErrorKind::Xml { field: Some(Field::Name) });
}

#[test]
fn missing_version_is_an_xml_failure() {
    let xml = "<info><id>mail</id><name>Mail</name></info>";
    assert_eq!(kind_of(parse_appinfo(xml)), ErrorKind::Xml { field: Some(Field::Version) });
}

#[test]
fn missing_field_wins_over_malformed_version() {
    let xml = "<info><id>mail</id><version>abc</version></info>";
    assert_eq!(kind_of(parse_appinfo(xml)), ErrorKind::Xml { field: Some(Field::Name) });
}

#[test]
fn empty_element_counts_as_missing() {
    let xml = "<info><id>mail</id><name>Mail</name><version></version></info>";
    assert_eq!(kind_of(parse_appinfo(xml)), ErrorKind::Xml { field: Some(Field::Version) });
}

#[test]
fn identifier_without_text_counts_as_missing() {
    let xml = "<info><id></id><name>Mail</name><version>0.7.3</version></info>";
    assert_eq!(kind_of(parse_appinfo(xml)), ErrorKind::Xml { field: Some(Field::Id) });
    let xml = "<info><id><![CDATA[]]></id><name>Mail</name><version>0.7.3</version></info>";
    assert_eq!(kind_of(parse_appinfo(xml)), ErrorKind::Xml { field: Some(Field::Id) });
    let xml = "<info><id/><name>Mail</name><version>0.7.3</version></info>";
    assert_eq!(kind_of(parse_appinfo(xml)), ErrorKind::Xml { field: Some(Field::Id) });
}

#[test]
fn extracted_identifier_is_never_empty() {
    for xml in [MINIMAL, APPINFO1, "<info><id> </id><name/><version>1.0.0</version></info>"] {
        match parse_appinfo(xml) {
            Ok(info) => assert!(!info.id().is_empty()),
            Err(e) => assert_ne!(e.kind(), ErrorKind::SemVer),
        }
    }
}

#[test]
fn info_below_another_root_is_not_found() {
    let xml = "<app><info><id>mail</id><name>Mail</name><version>0.7.3</version></info></app>";
    assert_eq!(kind_of(parse_appinfo(xml)), ErrorKind::Xml { field: Some(Field::Id) });
    let xml = "<info><x><id>mail</id></x><name>Mail</name><version>0.7.3</version></info>";
    assert_eq!(kind_of(parse_appinfo(xml)), ErrorKind::Xml { field: Some(Field::Id) });
    let xml = "<info><id>mail</id><x><name>Mail</name></x><version>0.7.3</version></info>";
    assert_eq!(kind_of(parse_appinfo(xml)), ErrorKind::Xml { field: Some(Field::Name) });
}

#[test]
fn field_text_split_by_references_comes_back_whole() {
    let xml = "<info><id>files</id><name>Files &amp; Folders</name><version>1.0.0</version></info>";
    let info = parse_appinfo(xml).unwrap();
    assert_eq!(info.name().as_str(), "Files & Folders");
    let xml = "<info><id>fi<!-- c -->les</id><name>A&lt;B&#33;</name><version>1.<!---->0.0</version></info>";
    let info = parse_appinfo(xml).unwrap();
    assert_eq!(info.id().as_str(), "files");
    assert_eq!(info.name().as_str(), "A<B!");
    assert_eq!(info.version(), &Version::parse("1.0.0").unwrap());
    let xml = "<info><id>a<![CDATA[<b>]]>c</id><name>n</name><version>1.0.0</version></info>";
    assert_eq!(parse_appinfo(xml).unwrap().id().as_str(), "a<b>c");
}

#[test]
fn text_of_child_elements_is_not_part_of_a_field() {
    let xml = "<info><id>ma<b>x</b>il</id><name><b>x</b></name><version>1.0.0</version></info>";
    assert_eq!(kind_of(parse_appinfo(xml)), ErrorKind::Xml { field: Some(Field::Name) });
    let xml = "<info><id>ma<b>x</b>il</id><name>Mail</name><version>1.0.0</version></info>";
    assert_eq!(parse_appinfo(xml).unwrap().id().as_str(), "mail");
}

#[test]
fn first_of_repeated_elements_is_taken() {
    let xml = "<info><id>one</id><id>two</id><name>A</name><name>B</name>\
<version>1.0.0</version><version>2.0.0</version></info>";
    let info = parse_appinfo(xml).unwrap();
    assert_eq!(info.id().as_str(), "one");
    assert_eq!(info.name().as_str(), "A");
    assert_eq!(info.version().major, 1);
}

#[test]
fn no_record_has_an_empty_identifier() {
    let version = Version { major: 1, minor: 0, patch: 0, pre: vec![], build: vec![] };
    assert!(AppInfo::new(String::new(), String::from("Mail"), version.clone()).is_none());
    assert!(AppInfo::new(String::from("m"), String::new(), version).is_some());
    let r = AppInfo::from_fields(String::new(), String::from("Mail"), "1.0.0");
    assert_eq!(kind_of(r), ErrorKind::Xml { field: Some(Field::Id) });
    let r = AppInfo::from_fields(String::new(), String::from("Mail"), "abc");
    assert_eq!(kind_of(r), ErrorKind::Xml { field: Some(Field::Id) });
}

#[test]
fn fields_outside_an_info_element_are_not_found() {
    let xml = "<app><id>mail</id><name>Mail</name><version>0.7.3</version></app>";
    assert_eq!(kind_of(parse_appinfo(xml)), ErrorKind::Xml { field: Some(Field::Id) });
}

#[test]
fn malformed_xml_is_an_xml_failure() {
    assert_eq!(kind_of(parse_appinfo("<info><id>mail</id>")), ErrorKind::Xml { field: None });
    assert_eq!(kind_of(parse_appinfo("")), ErrorKind::Xml { field: None });
    assert_eq!(kind_of(parse_appinfo("not xml at all")), ErrorKind::Xml { field: None });
    assert!(matches!(parse_appinfo("<info"), Err(AppInfoError::Xml { .. })));
}

#[test]
fn malformed_version_in_descriptor_is_a_semver_failure() {
    assert_eq!(kind_of(parse_appinfo(&descriptor_with_version("abc"))), ErrorKind::SemVer);
    assert_eq!(kind_of(parse_appinfo(&descriptor_with_version("1.2"))), ErrorKind::SemVer);
    assert_eq!(kind_of(parse_appinfo(&descriptor_with_version("v1.2.3"))), ErrorKind::SemVer);
    assert_eq!(kind_of(parse_appinfo(&descriptor_with_version("1.02.3"))), ErrorKind::SemVer);
    assert!(matches!(
        parse_appinfo(&descriptor_with_version("1.2.3.4")),
        Err(AppInfoError::SemVer(_))
    ));
}

#[test]
fn version_text_must_be_a_semantic_version() {
    for text in ["abc", "1.2", "", "v1.2.3", "1.0.01", "1.0.foo", "1.0.0foo", "1.0.0+foo_123"] {
        match Version::parse(text) {
            Ok(v) => panic!("{:?} was read as {:?}", text, v),
            Err(e) => assert_eq!(e.kind(), ErrorKind::SemVer),
        }
    }
}

#[test]
fn from_fields_rejects_a_malformed_version() {
    for text in ["abc", "1.2", ""] {
        let r = AppInfo::from_fields(String::from("mail"), String::from("Mail"), text);
        assert_eq!(kind_of(r), ErrorKind::SemVer);
    }
}

#[test]
fn from_fields_keeps_id_and_name() {
    let info = AppInfo::from_fields(String::from("mail"), String::from("Mail"), "0.7.3").unwrap();
    assert_eq!(info.id().as_str(), "mail");
    assert_eq!(info.name().as_str(), "Mail");
    assert_eq!(info.version().major, 0);
    assert_eq!(info.version().minor, 7);
    assert_eq!(info.version().patch, 3);
    assert!(info.version().pre.is_empty());
    assert!(info.version().build.is_empty());
}

#[test]
fn new_keeps_what_it_is_given() {
    let version = Version {
        major: 3,
        minor: 1,
        patch: 4,
        pre: vec![Identifier::AlphaNumeric(String::from("beta"))],
        build: vec![Identifier::Numeric(15)],
    };
    let info = AppInfo::new(String::from("pi"), String::from("Pi"), version.clone()).unwrap();
    assert_eq!(info.id().as_str(), "pi");
    assert_eq!(info.name().as_str(), "Pi");
    assert_eq!(info.version(), &version);
    assert_eq!(info.version().pre, version.pre);
    assert_eq!(info.version().build, version.build);
}

#[test]
fn descriptor_text_is_parsed() {
    let info = get_appinfo(Descriptor::Text(String::from(MINIMAL))).unwrap();
    assert_eq!(info.id().as_str(), "mail");
    assert_eq!(info.name().as_str(), "Mail");
    assert_eq!(info.version(), &Version::parse("0.7.3").unwrap());
    let broken = Descriptor::Text(String::from("<info/>"));
    assert_eq!(kind_of(get_appinfo(broken)), ErrorKind::Xml { field: Some(Field::Id) });
}

#[test]
fn unreadable_descriptor_keeps_its_cause() {
    let cause = std::io::Error::new(std::io::ErrorKind::PermissionDenied, "locked");
    match get_appinfo(Descriptor::Unreadable(cause)) {
        Err(AppInfoError::IO(e)) => {
            assert_eq!(e.kind(), std::io::ErrorKind::PermissionDenied);
            assert_eq!(format!("{}", e), "locked");
        }
        other => panic!("expected an I/O failure, got {:?}", other),
    }
}

#[test]
fn missing_descriptor_is_reported_as_missing() {
    assert_eq!(kind_of(get_appinfo(Descriptor::Missing)), ErrorKind::InfoXmlMissing);
}

#[test]
fn each_error_has_its_kind() {
    assert_eq!(AppInfoError::InfoXmlMissing.kind(), ErrorKind::InfoXmlMissing);
    let io = std::io::Error::new(std::io::ErrorKind::Other, "x");
    assert_eq!(AppInfoError::IO(io).kind(), ErrorKind::IO);
    let sem = semver::SemVerError::ParseError(String::from("x"));
    assert_eq!(AppInfoError::SemVer(sem).kind(), ErrorKind::SemVer);
    let xml = xpath_reader::Error::custom_msg("x");
    let err = AppInfoError::Xml { err: xml, field: Some(Field::Name) };
    assert_eq!(err.kind(), ErrorKind::Xml { field: Some(Field::Name) });
}
