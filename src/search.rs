//! The vocabulary of the package search: the fields that the query engine
//! accepts, and which of them a bare term matches.

use vstd::prelude::*;

verus! {

#[verifier::external_type_specification]
#[verifier::external_body]
pub struct ExPrimary<'a>(sikula::prelude::Primary<'a>);

/// Relies on the `Clone` that `sikula` derives for `Primary`: a copy of the
/// variant and of the string slice it refers to.
pub assume_specification<'a>[ <sikula::prelude::Primary<'a> as Clone>::clone ](
    p: &sikula::prelude::Primary<'a>,
) -> (r: sikula::prelude::Primary<'a>)
    ensures
        r == *p,
;

/// A term of a package search. The variants that carry a value are matched
/// by bare terms as well as by qualified ones (`purl:...`); the others are
/// predicates (`is:container`) on the kind of component a document describes.
#[derive(Clone, Debug, PartialEq)]
pub enum Packages<'a> {
    Dependent(sikula::prelude::Primary<'a>),
    Purl(sikula::prelude::Primary<'a>),
    Type(sikula::prelude::Primary<'a>),
    Namespace(sikula::prelude::Primary<'a>),
    Name(sikula::prelude::Primary<'a>),
    Version(sikula::prelude::Primary<'a>),
    Description(sikula::prelude::Primary<'a>),
    Digest(sikula::prelude::Primary<'a>),
    License(sikula::prelude::Primary<'a>),
    Qualifier(sikula::prelude::Primary<'a>),
    Application,
    Library,
    Framework,
    Container,
    OperatingSystem,
    Device,
    Firmware,
    File,
}

impl<'a> Packages<'a> {
    /// Whether a bare term, without a field name, matches this field.
    pub open spec fn spec_is_default(&self) -> bool {
        match self {
            Packages::Dependent(_) | Packages::Purl(_) | Packages::Type(_) | Packages::Namespace(_)
            | Packages::Name(_) | Packages::Version(_) | Packages::Description(_)
            | Packages::Digest(_) | Packages::License(_) | Packages::Qualifier(_) => true,
            _ => false,
        }
    }

    /// The name that selects this field in a query.
    pub open spec fn spec_field_name(&self) -> Seq<char> {
        match self {
            Packages::Dependent(_) => "dependent"@,
            Packages::Purl(_) => "purl"@,
            Packages::Type(_) => "type"@,
            Packages::Namespace(_) => "namespace"@,
            Packages::Name(_) => "name"@,
            Packages::Version(_) => "version"@,
            Packages::Description(_) => "description"@,
            Packages::Digest(_) => "digest"@,
            Packages::License(_) => "license"@,
            Packages::Qualifier(_) => "qualifier"@,
            Packages::Application => "application"@,
            Packages::Library => "library"@,
            Packages::Framework => "framework"@,
            Packages::Container => "container"@,
            Packages::OperatingSystem => "operatingSystem"@,
            Packages::Device => "device"@,
            Packages::Firmware => "firmware"@,
            Packages::File => "file"@,
        }
    }

    /// Whether a bare term, without a field name, matches this field: true
    /// of the ten fields that carry a value, false of the predicates.
    pub fn is_default(&self) -> (r: bool)
        ensures
            r == self.spec_is_default(),
    {
        match self {
            Packages::Dependent(_) | Packages::Purl(_) | Packages::Type(_) | Packages::Namespace(_)
            | Packages::Name(_) | Packages::Version(_) | Packages::Description(_)
            | Packages::Digest(_) | Packages::License(_) | Packages::Qualifier(_) => true,
            _ => false,
        }
    }

    /// The name that selects this field in a query: the variant's name in
    /// camel case.
    pub fn field_name(&self) -> (r: &'static str)
        ensures
            r@ == self.spec_field_name(),
    {
        match self {
            Packages::Dependent(_) => "dependent",
            Packages::Purl(_) => "purl",
            Packages::Type(_) => "type",
            Packages::Namespace(_) => "namespace",
            Packages::Name(_) => "name",
            Packages::Version(_) => "version",
            Packages::Description(_) => "description",
            Packages::Digest(_) => "digest",
            Packages::License(_) => "license",
            Packages::Qualifier(_) => "qualifier",
            Packages::Application => "application",
            Packages::Library => "library",
            Packages::Framework => "framework",
            Packages::Container => "container",
            Packages::OperatingSystem => "operatingSystem",
            Packages::Device => "device",
            Packages::Firmware => "firmware",
            Packages::File => "file",
        }
    }
}

} // verus!
