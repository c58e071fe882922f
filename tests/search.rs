use sikula::prelude::Primary;
use vexination::search::Packages;

#[test]
fn value_fields_match_bare_terms() {
    let fields = vec![
        Packages::Dependent(Primary::Partial("a")),
        Packages::Purl(Primary::Equal("pkg:rpm/redhat/openssl")),
        Packages::Type(Primary::Partial("rpm")),
        Packages::Namespace(Primary::Partial("redhat")),
        Packages::Name(Primary::Partial("openssl")),
        Packages::Version(Primary::Partial("1.1")),
        Packages::Description(Primary::Partial("tls")),
        Packages::Digest(Primary::Partial("sha256")),
        Packages::License(Primary::Partial("MIT")),
        Packages::Qualifier(Primary::Partial("arch")),
    ];
    for field in &fields {
        assert!(field.is_default());
    }
}

#[test]
fn predicates_need_a_field_name() {
    let fields = vec![
        Packages::Application,
        Packages::Library,
        Packages::Framework,
        Packages::Container,
        Packages::OperatingSystem,
        Packages::Device,
        Packages::Firmware,
        Packages::File,
    ];
    for field in &fields {
        assert!(!field.is_default());
    }
}

#[test]
fn field_names_are_camel_case() {
    assert_eq!(Packages::Purl(Primary::Equal("x")).field_name(), "purl");
    assert_eq!(Packages::OperatingSystem.field_name(), "operatingSystem");
    assert_eq!(Packages::Container.field_name(), "container");
    assert_eq!(Packages::Dependent(Primary::Partial("x")).field_name(), "dependent");
}

#[test]
fn clone_keeps_the_term() {
    let field = Packages::Name(Primary::Equal("openssl"));
    assert_eq!(field.clone(), field);
}
