use vstd::prelude::*;
use crate::text::str_eq;

verus! {

/// Number of field kinds.
pub const FIELD_COUNT: usize = 37;

/// The closed set of metadata fields, in declaration order.
#[derive(Clone, Copy, Debug, PartialEq, Eq, Structural, Hash)]
pub enum Field {
    Name,
    Version,
    Summary,
    Description,
    Homepage,
    Repository,
    RepositoryBrowse,
    License,
    Author,
    BugDatabase,
    BugSubmit,
    Contact,
    CargoCrate,
    SecurityMD,
    SecurityContact,
    Keywords,
    Maintainer,
    Copyright,
    Documentation,
    GoImportPath,
    Download,
    Wiki,
    MailingList,
    SourceForgeProject,
    Archive,
    Demo,
    PeclPackage,
    HaskellPackage,
    Funding,
    Changelog,
    DebianITP,
    Screenshots,
    CiteAs,
    Registry,
    Donation,
    Webservice,
    FAQ,
}

/// The shape that a field's value must have.
#[derive(Clone, Copy, Debug, PartialEq, Eq, Structural, Hash)]
pub enum Shape {
    /// A single piece of text.
    Text,
    /// A list of texts.
    TextList,
    /// A list of people.
    People,
}

/// The canonical name of a field.
pub open spec fn field_name(f: Field) -> Seq<char> {
    match f {
        Field::Name => "Name"@,
        Field::Version => "Version"@,
        Field::Summary => "Summary"@,
        Field::Description => "Description"@,
        Field::Homepage => "Homepage"@,
        Field::Repository => "Repository"@,
        Field::RepositoryBrowse => "Repository-Browse"@,
        Field::License => "License"@,
        Field::Author => "Author"@,
        Field::BugDatabase => "Bug-Database"@,
        Field::BugSubmit => "Bug-Submit"@,
        Field::Contact => "Contact"@,
        Field::CargoCrate => "Cargo-Crate"@,
        Field::SecurityMD => "Security-MD"@,
        Field::SecurityContact => "Security-Contact"@,
        Field::Keywords => "Keywords"@,
        Field::Maintainer => "Maintainer"@,
        Field::Copyright => "Copyright"@,
        Field::Documentation => "Documentation"@,
        Field::GoImportPath => "Go-Import-Path"@,
        Field::Download => "Download"@,
        Field::Wiki => "Wiki"@,
        Field::MailingList => "MailingList"@,
        Field::SourceForgeProject => "SourceForge-Project"@,
        Field::Archive => "Archive"@,
        Field::Demo => "Demo"@,
        Field::PeclPackage => "Pecl-Package"@,
        Field::HaskellPackage => "Haskell-Package"@,
        Field::Funding => "Funding"@,
        Field::Changelog => "Changelog"@,
        Field::DebianITP => "Debian-ITP"@,
        Field::Screenshots => "Screenshots"@,
        Field::CiteAs => "Cite-As"@,
        Field::Registry => "Registry"@,
        Field::Donation => "Donation"@,
        Field::Webservice => "Webservice"@,
        Field::FAQ => "FAQ"@,
    }
}

/// The field whose canonical name is `s`, if any.
pub open spec fn field_of_name(s: Seq<char>) -> Option<Field> {
    if s == "Name"@ {
        Some(Field::Name)
    } else if s == "Version"@ {
        Some(Field::Version)
    } else if s == "Summary"@ {
        Some(Field::Summary)
    } else if s == "Description"@ {
        Some(Field::Description)
    } else if s == "Homepage"@ {
        Some(Field::Homepage)
    } else if s == "Repository"@ {
        Some(Field::Repository)
    } else if s == "Repository-Browse"@ {
        Some(Field::RepositoryBrowse)
    } else if s == "License"@ {
        Some(Field::License)
    } else if s == "Author"@ {
        Some(Field::Author)
    } else if s == "Bug-Database"@ {
        Some(Field::BugDatabase)
    } else if s == "Bug-Submit"@ {
        Some(Field::BugSubmit)
    } else if s == "Contact"@ {
        Some(Field::Contact)
    } else if s == "Cargo-Crate"@ {
        Some(Field::CargoCrate)
    } else if s == "Security-MD"@ {
        Some(Field::SecurityMD)
    } else if s == "Security-Contact"@ {
        Some(Field::SecurityContact)
    } else if s == "Keywords"@ {
        Some(Field::Keywords)
    } else if s == "Maintainer"@ {
        Some(Field::Maintainer)
    } else if s == "Copyright"@ {
        Some(Field::Copyright)
    } else if s == "Documentation"@ {
        Some(Field::Documentation)
    } else if s == "Go-Import-Path"@ {
        Some(Field::GoImportPath)
    } else if s == "Download"@ {
        Some(Field::Download)
    } else if s == "Wiki"@ {
        Some(Field::Wiki)
    } else if s == "MailingList"@ {
        Some(Field::MailingList)
    } else if s == "SourceForge-Project"@ {
        Some(Field::SourceForgeProject)
    } else if s == "Archive"@ {
        Some(Field::Archive)
    } else if s == "Demo"@ {
        Some(Field::Demo)
    } else if s == "Pecl-Package"@ {
        Some(Field::PeclPackage)
    } else if s == "Haskell-Package"@ {
        Some(Field::HaskellPackage)
    } else if s == "Funding"@ {
        Some(Field::Funding)
    } else if s == "Changelog"@ {
        Some(Field::Changelog)
    } else if s == "Debian-ITP"@ {
        Some(Field::DebianITP)
    } else if s == "Screenshots"@ {
        Some(Field::Screenshots)
    } else if s == "Cite-As"@ {
        Some(Field::CiteAs)
    } else if s == "Registry"@ {
        Some(Field::Registry)
    } else if s == "Donation"@ {
        Some(Field::Donation)
    } else if s == "Webservice"@ {
        Some(Field::Webservice)
    } else if s == "FAQ"@ {
        Some(Field::FAQ)
    } else {
        None
    }
}

/// The shape of the values of a field.
pub open spec fn field_shape(f: Field) -> Shape {
    match f {
        Field::Author => Shape::People,
        Field::Keywords => Shape::TextList,
        Field::Maintainer => Shape::People,
        Field::Copyright => Shape::TextList,
        Field::Documentation => Shape::TextList,
        Field::Screenshots => Shape::TextList,
        Field::Registry => Shape::TextList,
        _ => Shape::Text,
    }
}

/// Position of a field in declaration order.
pub open spec fn field_index(f: Field) -> nat {
    match f {
        Field::Name => 0,
        Field::Version => 1,
        Field::Summary => 2,
        Field::Description => 3,
        Field::Homepage => 4,
        Field::Repository => 5,
        Field::RepositoryBrowse => 6,
        Field::License => 7,
        Field::Author => 8,
        Field::BugDatabase => 9,
        Field::BugSubmit => 10,
        Field::Contact => 11,
        Field::CargoCrate => 12,
        Field::SecurityMD => 13,
        Field::SecurityContact => 14,
        Field::Keywords => 15,
        Field::Maintainer => 16,
        Field::Copyright => 17,
        Field::Documentation => 18,
        Field::GoImportPath => 19,
        Field::Download => 20,
        Field::Wiki => 21,
        Field::MailingList => 22,
        Field::SourceForgeProject => 23,
        Field::Archive => 24,
        Field::Demo => 25,
        Field::PeclPackage => 26,
        Field::HaskellPackage => 27,
        Field::Funding => 28,
        Field::Changelog => 29,
        Field::DebianITP => 30,
        Field::Screenshots => 31,
        Field::CiteAs => 32,
        Field::Registry => 33,
        Field::Donation => 34,
        Field::Webservice => 35,
        Field::FAQ => 36,
    }
}

/// The field at a position of the declaration order.
pub open spec fn field_at(i: nat) -> Field
    recommends
        i < FIELD_COUNT,
{
    if i == 0 {
        Field::Name
    } else if i == 1 {
        Field::Version
    } else if i == 2 {
        Field::Summary
    } else if i == 3 {
        Field::Description
    } else if i == 4 {
        Field::Homepage
    } else if i == 5 {
        Field::Repository
    } else if i == 6 {
        Field::RepositoryBrowse
    } else if i == 7 {
        Field::License
    } else if i == 8 {
        Field::Author
    } else if i == 9 {
        Field::BugDatabase
    } else if i == 10 {
        Field::BugSubmit
    } else if i == 11 {
        Field::Contact
    } else if i == 12 {
        Field::CargoCrate
    } else if i == 13 {
        Field::SecurityMD
    } else if i == 14 {
        Field::SecurityContact
    } else if i == 15 {
        Field::Keywords
    } else if i == 16 {
        Field::Maintainer
    } else if i == 17 {
        Field::Copyright
    } else if i == 18 {
        Field::Documentation
    } else if i == 19 {
        Field::GoImportPath
    } else if i == 20 {
        Field::Download
    } else if i == 21 {
        Field::Wiki
    } else if i == 22 {
        Field::MailingList
    } else if i == 23 {
        Field::SourceForgeProject
    } else if i == 24 {
        Field::Archive
    } else if i == 25 {
        Field::Demo
    } else if i == 26 {
        Field::PeclPackage
    } else if i == 27 {
        Field::HaskellPackage
    } else if i == 28 {
        Field::Funding
    } else if i == 29 {
        Field::Changelog
    } else if i == 30 {
        Field::DebianITP
    } else if i == 31 {
        Field::Screenshots
    } else if i == 32 {
        Field::CiteAs
    } else if i == 33 {
        Field::Registry
    } else if i == 34 {
        Field::Donation
    } else if i == 35 {
        Field::Webservice
    } else {
        Field::FAQ
    }
}

/// Every field sits at its own position, below the count.
pub proof fn lemma_field_index(f: Field)
    ensures
        field_index(f) < FIELD_COUNT,
        field_at(field_index(f)) == f,
{
}

impl Field {
    /// The canonical name of this field.
    pub fn name(&self) -> (r: &'static str)
        ensures
            r@ == field_name(*self),
    {
        match self {
            Field::Name => "Name",
            Field::Version => "Version",
            Field::Summary => "Summary",
            Field::Description => "Description",
            Field::Homepage => "Homepage",
            Field::Repository => "Repository",
            Field::RepositoryBrowse => "Repository-Browse",
            Field::License => "License",
            Field::Author => "Author",
            Field::BugDatabase => "Bug-Database",
            Field::BugSubmit => "Bug-Submit",
            Field::Contact => "Contact",
            Field::CargoCrate => "Cargo-Crate",
            Field::SecurityMD => "Security-MD",
            Field::SecurityContact => "Security-Contact",
            Field::Keywords => "Keywords",
            Field::Maintainer => "Maintainer",
            Field::Copyright => "Copyright",
            Field::Documentation => "Documentation",
            Field::GoImportPath => "Go-Import-Path",
            Field::Download => "Download",
            Field::Wiki => "Wiki",
            Field::MailingList => "MailingList",
            Field::SourceForgeProject => "SourceForge-Project",
            Field::Archive => "Archive",
            Field::Demo => "Demo",
            Field::PeclPackage => "Pecl-Package",
            Field::HaskellPackage => "Haskell-Package",
            Field::Funding => "Funding",
            Field::Changelog => "Changelog",
            Field::DebianITP => "Debian-ITP",
            Field::Screenshots => "Screenshots",
            Field::CiteAs => "Cite-As",
            Field::Registry => "Registry",
            Field::Donation => "Donation",
            Field::Webservice => "Webservice",
            Field::FAQ => "FAQ",
        }
    }

    /// Looks a field up by its canonical name.
    pub fn from_name(s: &str) -> (r: Option<Field>)
        ensures
            r == field_of_name(s@),
    {
        if str_eq(s, "Name") {
            Some(Field::Name)
        } else if str_eq(s, "Version") {
            Some(Field::Version)
        } else if str_eq(s, "Summary") {
            Some(Field::Summary)
        } else if str_eq(s, "Description") {
            Some(Field::Description)
        } else if str_eq(s, "Homepage") {
            Some(Field::Homepage)
        } else if str_eq(s, "Repository") {
            Some(Field::Repository)
        } else if str_eq(s, "Repository-Browse") {
            Some(Field::RepositoryBrowse)
        } else if str_eq(s, "License") {
            Some(Field::License)
        } else if str_eq(s, "Author") {
            Some(Field::Author)
        } else if str_eq(s, "Bug-Database") {
            Some(Field::BugDatabase)
        } else if str_eq(s, "Bug-Submit") {
            Some(Field::BugSubmit)
        } else if str_eq(s, "Contact") {
            Some(Field::Contact)
        } else if str_eq(s, "Cargo-Crate") {
            Some(Field::CargoCrate)
        } else if str_eq(s, "Security-MD") {
            Some(Field::SecurityMD)
        } else if str_eq(s, "Security-Contact") {
            Some(Field::SecurityContact)
        } else if str_eq(s, "Keywords") {
            Some(Field::Keywords)
        } else if str_eq(s, "Maintainer") {
            Some(Field::Maintainer)
        } else if str_eq(s, "Copyright") {
            Some(Field::Copyright)
        } else if str_eq(s, "Documentation") {
            Some(Field::Documentation)
        } else if str_eq(s, "Go-Import-Path") {
            Some(Field::GoImportPath)
        } else if str_eq(s, "Download") {
            Some(Field::Download)
        } else if str_eq(s, "Wiki") {
            Some(Field::Wiki)
        } else if str_eq(s, "MailingList") {
            Some(Field::MailingList)
        } else if str_eq(s, "SourceForge-Project") {
            Some(Field::SourceForgeProject)
        } else if str_eq(s, "Archive") {
            Some(Field::Archive)
        } else if str_eq(s, "Demo") {
            Some(Field::Demo)
        } else if str_eq(s, "Pecl-Package") {
            Some(Field::PeclPackage)
        } else if str_eq(s, "Haskell-Package") {
            Some(Field::HaskellPackage)
        } else if str_eq(s, "Funding") {
            Some(Field::Funding)
        } else if str_eq(s, "Changelog") {
            Some(Field::Changelog)
        } else if str_eq(s, "Debian-ITP") {
            Some(Field::DebianITP)
        } else if str_eq(s, "Screenshots") {
            Some(Field::Screenshots)
        } else if str_eq(s, "Cite-As") {
            Some(Field::CiteAs)
        } else if str_eq(s, "Registry") {
            Some(Field::Registry)
        } else if str_eq(s, "Donation") {
            Some(Field::Donation)
        } else if str_eq(s, "Webservice") {
            Some(Field::Webservice)
        } else if str_eq(s, "FAQ") {
            Some(Field::FAQ)
        } else {
            None
        }
    }

    /// The shape of this field's values.
    pub fn shape(&self) -> (r: Shape)
        ensures
            r == field_shape(*self),
    {
        match self {
            Field::Author => Shape::People,
            Field::Keywords => Shape::TextList,
            Field::Maintainer => Shape::People,
            Field::Copyright => Shape::TextList,
            Field::Documentation => Shape::TextList,
            Field::Screenshots => Shape::TextList,
            Field::Registry => Shape::TextList,
            _ => Shape::Text,
        }
    }

    /// Position of this field in declaration order.
    pub fn index(&self) -> (r: usize)
        ensures
            r as nat == field_index(*self),
            r < FIELD_COUNT,
    {
        match self {
            Field::Name => 0,
            Field::Version => 1,
            Field::Summary => 2,
            Field::Description => 3,
            Field::Homepage => 4,
            Field::Repository => 5,
            Field::RepositoryBrowse => 6,
            Field::License => 7,
            Field::Author => 8,
            Field::BugDatabase => 9,
            Field::BugSubmit => 10,
            Field::Contact => 11,
            Field::CargoCrate => 12,
            Field::SecurityMD => 13,
            Field::SecurityContact => 14,
            Field::Keywords => 15,
            Field::Maintainer => 16,
            Field::Copyright => 17,
            Field::Documentation => 18,
            Field::GoImportPath => 19,
            Field::Download => 20,
            Field::Wiki => 21,
            Field::MailingList => 22,
            Field::SourceForgeProject => 23,
            Field::Archive => 24,
            Field::Demo => 25,
            Field::PeclPackage => 26,
            Field::HaskellPackage => 27,
            Field::Funding => 28,
            Field::Changelog => 29,
            Field::DebianITP => 30,
            Field::Screenshots => 31,
            Field::CiteAs => 32,
            Field::Registry => 33,
            Field::Donation => 34,
            Field::Webservice => 35,
            Field::FAQ => 36,
        }
    }

    /// The field at position `i` of the declaration order.
    pub fn at(i: usize) -> (r: Field)
        requires
            i < FIELD_COUNT,
        ensures
            r == field_at(i as nat),
            field_index(r) == i,
    {
        if i == 0 {
            Field::Name
        } else if i == 1 {
            Field::Version
        } else if i == 2 {
            Field::Summary
        } else if i == 3 {
            Field::Description
        } else if i == 4 {
            Field::Homepage
        } else if i == 5 {
            Field::Repository
        } else if i == 6 {
            Field::RepositoryBrowse
        } else if i == 7 {
            Field::License
        } else if i == 8 {
            Field::Author
        } else if i == 9 {
            Field::BugDatabase
        } else if i == 10 {
            Field::BugSubmit
        } else if i == 11 {
            Field::Contact
        } else if i == 12 {
            Field::CargoCrate
        } else if i == 13 {
            Field::SecurityMD
        } else if i == 14 {
            Field::SecurityContact
        } else if i == 15 {
            Field::Keywords
        } else if i == 16 {
            Field::Maintainer
        } else if i == 17 {
            Field::Copyright
        } else if i == 18 {
            Field::Documentation
        } else if i == 19 {
            Field::GoImportPath
        } else if i == 20 {
            Field::Download
        } else if i == 21 {
            Field::Wiki
        } else if i == 22 {
            Field::MailingList
        } else if i == 23 {
            Field::SourceForgeProject
        } else if i == 24 {
            Field::Archive
        } else if i == 25 {
            Field::Demo
        } else if i == 26 {
            Field::PeclPackage
        } else if i == 27 {
            Field::HaskellPackage
        } else if i == 28 {
            Field::Funding
        } else if i == 29 {
            Field::Changelog
        } else if i == 30 {
            Field::DebianITP
        } else if i == 31 {
            Field::Screenshots
        } else if i == 32 {
            Field::CiteAs
        } else if i == 33 {
            Field::Registry
        } else if i == 34 {
            Field::Donation
        } else if i == 35 {
            Field::Webservice
        } else {
            Field::FAQ
        }
    }
}

} // verus!

verus! {

/// Distinct fields sit at distinct positions.
pub proof fn lemma_field_index_injective()
    ensures
        forall|f: Field, g: Field| #[trigger] field_index(f) == #[trigger] field_index(g) ==> f == g,
{
    assert forall|f: Field, g: Field| #[trigger] field_index(f) == #[trigger] field_index(g) implies f
        == g by {
        lemma_field_index(f);
        lemma_field_index(g);
    }
}

} // verus!

verus! {

/// Length, first and last character of a field's name, which tell the
/// fields apart.
pub open spec fn name_key(f: Field) -> (nat, char, char) {
    match f {
        Field::Name => (4, 'N', 'e'),
        Field::Version => (7, 'V', 'n'),
        Field::Summary => (7, 'S', 'y'),
        Field::Description => (11, 'D', 'n'),
        Field::Homepage => (8, 'H', 'e'),
        Field::Repository => (10, 'R', 'y'),
        Field::RepositoryBrowse => (17, 'R', 'e'),
        Field::License => (7, 'L', 'e'),
        Field::Author => (6, 'A', 'r'),
        Field::BugDatabase => (12, 'B', 'e'),
        Field::BugSubmit => (10, 'B', 't'),
        Field::Contact => (7, 'C', 't'),
        Field::CargoCrate => (11, 'C', 'e'),
        Field::SecurityMD => (11, 'S', 'D'),
        Field::SecurityContact => (16, 'S', 't'),
        Field::Keywords => (8, 'K', 's'),
        Field::Maintainer => (10, 'M', 'r'),
        Field::Copyright => (9, 'C', 't'),
        Field::Documentation => (13, 'D', 'n'),
        Field::GoImportPath => (14, 'G', 'h'),
        Field::Download => (8, 'D', 'd'),
        Field::Wiki => (4, 'W', 'i'),
        Field::MailingList => (11, 'M', 't'),
        Field::SourceForgeProject => (19, 'S', 't'),
        Field::Archive => (7, 'A', 'e'),
        Field::Demo => (4, 'D', 'o'),
        Field::PeclPackage => (12, 'P', 'e'),
        Field::HaskellPackage => (15, 'H', 'e'),
        Field::Funding => (7, 'F', 'g'),
        Field::Changelog => (9, 'C', 'g'),
        Field::DebianITP => (10, 'D', 'P'),
        Field::Screenshots => (11, 'S', 's'),
        Field::CiteAs => (7, 'C', 's'),
        Field::Registry => (8, 'R', 'y'),
        Field::Donation => (8, 'D', 'n'),
        Field::Webservice => (10, 'W', 'e'),
        Field::FAQ => (3, 'F', 'Q'),
    }
}

/// The field with a given name key.
pub open spec fn field_of_key(k: (nat, char, char)) -> Option<Field> {
    if k == (4nat, 'N', 'e') {
        Some(Field::Name)
    } else if k == (7nat, 'V', 'n') {
        Some(Field::Version)
    } else if k == (7nat, 'S', 'y') {
        Some(Field::Summary)
    } else if k == (11nat, 'D', 'n') {
        Some(Field::Description)
    } else if k == (8nat, 'H', 'e') {
        Some(Field::Homepage)
    } else if k == (10nat, 'R', 'y') {
        Some(Field::Repository)
    } else if k == (17nat, 'R', 'e') {
        Some(Field::RepositoryBrowse)
    } else if k == (7nat, 'L', 'e') {
        Some(Field::License)
    } else if k == (6nat, 'A', 'r') {
        Some(Field::Author)
    } else if k == (12nat, 'B', 'e') {
        Some(Field::BugDatabase)
    } else if k == (10nat, 'B', 't') {
        Some(Field::BugSubmit)
    } else if k == (7nat, 'C', 't') {
        Some(Field::Contact)
    } else if k == (11nat, 'C', 'e') {
        Some(Field::CargoCrate)
    } else if k == (11nat, 'S', 'D') {
        Some(Field::SecurityMD)
    } else if k == (16nat, 'S', 't') {
        Some(Field::SecurityContact)
    } else if k == (8nat, 'K', 's') {
        Some(Field::Keywords)
    } else if k == (10nat, 'M', 'r') {
        Some(Field::Maintainer)
    } else if k == (9nat, 'C', 't') {
        Some(Field::Copyright)
    } else if k == (13nat, 'D', 'n') {
        Some(Field::Documentation)
    } else if k == (14nat, 'G', 'h') {
        Some(Field::GoImportPath)
    } else if k == (8nat, 'D', 'd') {
        Some(Field::Download)
    } else if k == (4nat, 'W', 'i') {
        Some(Field::Wiki)
    } else if k == (11nat, 'M', 't') {
        Some(Field::MailingList)
    } else if k == (19nat, 'S', 't') {
        Some(Field::SourceForgeProject)
    } else if k == (7nat, 'A', 'e') {
        Some(Field::Archive)
    } else if k == (4nat, 'D', 'o') {
        Some(Field::Demo)
    } else if k == (12nat, 'P', 'e') {
        Some(Field::PeclPackage)
    } else if k == (15nat, 'H', 'e') {
        Some(Field::HaskellPackage)
    } else if k == (7nat, 'F', 'g') {
        Some(Field::Funding)
    } else if k == (9nat, 'C', 'g') {
        Some(Field::Changelog)
    } else if k == (10nat, 'D', 'P') {
        Some(Field::DebianITP)
    } else if k == (11nat, 'S', 's') {
        Some(Field::Screenshots)
    } else if k == (7nat, 'C', 's') {
        Some(Field::CiteAs)
    } else if k == (8nat, 'R', 'y') {
        Some(Field::Registry)
    } else if k == (8nat, 'D', 'n') {
        Some(Field::Donation)
    } else if k == (10nat, 'W', 'e') {
        Some(Field::Webservice)
    } else if k == (3nat, 'F', 'Q') {
        Some(Field::FAQ)
    } else {
        None
    }
}

proof fn lemma_name_key(f: Field)
    ensures
        field_name(f).len() == name_key(f).0,
        field_name(f)[0] == name_key(f).1,
        field_name(f)[field_name(f).len() - 1] == name_key(f).2,
        field_of_key(name_key(f)) == Some(f),
{
    match f {
        Field::Name => reveal_strlit("Name"),
        Field::Version => reveal_strlit("Version"),
        Field::Summary => reveal_strlit("Summary"),
        Field::Description => reveal_strlit("Description"),
        Field::Homepage => reveal_strlit("Homepage"),
        Field::Repository => reveal_strlit("Repository"),
        Field::RepositoryBrowse => reveal_strlit("Repository-Browse"),
        Field::License => reveal_strlit("License"),
        Field::Author => reveal_strlit("Author"),
        Field::BugDatabase => reveal_strlit("Bug-Database"),
        Field::BugSubmit => reveal_strlit("Bug-Submit"),
        Field::Contact => reveal_strlit("Contact"),
        Field::CargoCrate => reveal_strlit("Cargo-Crate"),
        Field::SecurityMD => reveal_strlit("Security-MD"),
        Field::SecurityContact => reveal_strlit("Security-Contact"),
        Field::Keywords => reveal_strlit("Keywords"),
        Field::Maintainer => reveal_strlit("Maintainer"),
        Field::Copyright => reveal_strlit("Copyright"),
        Field::Documentation => reveal_strlit("Documentation"),
        Field::GoImportPath => reveal_strlit("Go-Import-Path"),
        Field::Download => reveal_strlit("Download"),
        Field::Wiki => reveal_strlit("Wiki"),
        Field::MailingList => reveal_strlit("MailingList"),
        Field::SourceForgeProject => reveal_strlit("SourceForge-Project"),
        Field::Archive => reveal_strlit("Archive"),
        Field::Demo => reveal_strlit("Demo"),
        Field::PeclPackage => reveal_strlit("Pecl-Package"),
        Field::HaskellPackage => reveal_strlit("Haskell-Package"),
        Field::Funding => reveal_strlit("Funding"),
        Field::Changelog => reveal_strlit("Changelog"),
        Field::DebianITP => reveal_strlit("Debian-ITP"),
        Field::Screenshots => reveal_strlit("Screenshots"),
        Field::CiteAs => reveal_strlit("Cite-As"),
        Field::Registry => reveal_strlit("Registry"),
        Field::Donation => reveal_strlit("Donation"),
        Field::Webservice => reveal_strlit("Webservice"),
        Field::FAQ => reveal_strlit("FAQ"),
    }
}

/// Distinct fields have distinct names.
pub proof fn lemma_field_name_injective(f: Field, g: Field)
    ensures
        field_name(f) == field_name(g) ==> f == g,
{
    lemma_name_key(f);
    lemma_name_key(g);
}

/// Every field's canonical name is read back as that field, and a
/// recognised name is the canonical name of the field it is read as.
pub proof fn lemma_field_name_round_trip(f: Field, s: Seq<char>)
    ensures
        field_of_name(field_name(f)) == Some(f),
        field_of_name(s) matches Some(g) ==> field_name(g) == s,
{
    let g = field_of_name(field_name(f))->0;
    lemma_field_name_injective(f, g);
}

} // verus!
