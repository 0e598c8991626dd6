//! The generic structured-value model the codec works over: a manifest is a
//! sequence of sections, each a header plus key/value entries. Encoding turns
//! a document into sections; decoding resolves sections, including the
//! shape-discriminated dependency and repository variants, back into a
//! document. Unknown keys and unknown section headers are rejected.

use vstd::prelude::*;
use crate::FygBinaryType;
use crate::config::{
    BinaryV, BuildV, CustomRepoV, DepConfigV, DepValueV, DepsV, DocV, EnabledV, JvmV, NativeV,
    ProjectV, RepoV, TargetsV, TestV, BuildConfig, CustomRepository, DependenciesConfig,
    DependencyConfig, DependencyValue, JvmTarget, NativeBinaryConfig, NativeConfig, ProjectConfig,
    RepositoryConfig, TargetEnabled, TargetsConfig, TestConfig,
};

verus! {

// ---------------------------------------------------------------------------
// Sections and items
// ---------------------------------------------------------------------------

/// The fixed set of recognized section headers.
#[derive(Clone, Copy, Debug, PartialEq, Eq, Structural)]
pub enum SectionPath {
    Project,
    Build,
    Targets,
    TargetsJvm,
    TargetsIosArm64,
    TargetsIosX64,
    TargetsIosSimulatorArm64,
    TargetsLinuxX64,
    TargetsMacosArm64,
    TargetsWindowsX64,
    TargetsNative,
    TargetsNativeBinary,
    Dependencies,
    DependenciesCommon,
    DependenciesJvm,
    DependenciesTest,
    Test,
    Repositories,
}

/// A scalar inside an inline table: a string or a boolean.
#[derive(Clone, Debug, PartialEq)]
pub enum ScalarItem {
    Text(String),
    Flag(bool),
}

/// A value on the right-hand side of an entry.
#[derive(Clone, Debug, PartialEq)]
pub enum Item {
    Text(String),
    Flag(bool),
    List(Vec<String>),
    Table(Vec<(String, ScalarItem)>),
}

/// One section: a recognized header and its entries in order.
#[derive(Clone, Debug, PartialEq)]
pub struct Section {
    pub path: SectionPath,
    pub entries: Vec<(String, Item)>,
}

/// Ghost model of a scalar.
pub ghost enum ScalarV {
    Text(Seq<char>),
    Flag(bool),
}

/// Ghost model of an entry value.
pub ghost enum ItemV {
    Text(Seq<char>),
    Flag(bool),
    List(Seq<Seq<char>>),
    Table(Seq<(Seq<char>, ScalarV)>),
}

/// Ghost model of a section.
pub ghost struct SectionV {
    pub path: SectionPath,
    pub entries: Seq<(Seq<char>, ItemV)>,
}

/// View of an inline table's pairs.
pub open spec fn pairs_view(s: Seq<(String, ScalarItem)>) -> Seq<(Seq<char>, ScalarV)> {
    s.map_values(|p: (String, ScalarItem)| (p.0@, p.1@))
}

impl View for ScalarItem {
    type V = ScalarV;

    open spec fn view(&self) -> ScalarV {
        match self {
            ScalarItem::Text(s) => ScalarV::Text(s@),
            ScalarItem::Flag(b) => ScalarV::Flag(*b),
        }
    }
}

impl View for Item {
    type V = ItemV;

    open spec fn view(&self) -> ItemV {
        match self {
            Item::Text(s) => ItemV::Text(s@),
            Item::Flag(b) => ItemV::Flag(*b),
            Item::List(l) => ItemV::List(l.deep_view()),
            Item::Table(t) => ItemV::Table(pairs_view(t@)),
        }
    }
}

impl View for Section {
    type V = SectionV;

    open spec fn view(&self) -> SectionV {
        SectionV {
            path: self.path,
            entries: entry_list_view(self.entries@),
        }
    }
}

/// View of one entry list as the ghost model's entries.
pub open spec fn entry_list_view(s: Seq<(String, Item)>) -> Seq<(Seq<char>, ItemV)> {
    s.map_values(|p: (String, Item)| (p.0@, p.1@))
}

/// The ghost model of a sequence of sections.
pub open spec fn secs_view(ss: Seq<Section>) -> Seq<SectionV> {
    ss.map_values(|s: Section| s@)
}

// ---------------------------------------------------------------------------
// Format errors
// ---------------------------------------------------------------------------

/// Ghost model of a format error.
pub ghost enum ErrV {
    /// A line that is neither a recognized header, an entry, a comment nor blank.
    Syntax { line: int },
    /// A section header that names no recognized section.
    UnknownSection { line: int },
    /// An entry standing before any section header.
    OrphanEntry { line: int },
    /// A section configured twice.
    DuplicateSection { section: SectionPath },
    /// The named section is required but absent.
    MissingSection { section: SectionPath },
    /// A key the named section does not recognize.
    UnknownKey { section: SectionPath, key: Seq<char> },
    /// A key given twice in one section or table.
    DuplicateKey { section: SectionPath, key: Seq<char> },
    /// A required key absent from the named section.
    MissingField { section: SectionPath, key: Seq<char> },
    /// A value whose shape the named key cannot take.
    WrongShape { section: SectionPath, key: Seq<char> },
}

/// A format error: what failed to decode, and where.
#[derive(Clone, Debug, PartialEq)]
pub enum FormatError {
    Syntax { line: usize },
    UnknownSection { line: usize },
    OrphanEntry { line: usize },
    DuplicateSection { section: SectionPath },
    MissingSection { section: SectionPath },
    UnknownKey { section: SectionPath, key: String },
    DuplicateKey { section: SectionPath, key: String },
    MissingField { section: SectionPath, key: String },
    WrongShape { section: SectionPath, key: String },
}

impl View for FormatError {
    type V = ErrV;

    open spec fn view(&self) -> ErrV {
        match self {
            FormatError::Syntax { line } => ErrV::Syntax { line: *line as int },
            FormatError::UnknownSection { line } => ErrV::UnknownSection { line: *line as int },
            FormatError::OrphanEntry { line } => ErrV::OrphanEntry { line: *line as int },
            FormatError::DuplicateSection { section } => ErrV::DuplicateSection { section: *section },
            FormatError::MissingSection { section } => ErrV::MissingSection { section: *section },
            FormatError::UnknownKey { section, key } => ErrV::UnknownKey { section: *section, key: key@ },
            FormatError::DuplicateKey { section, key } => ErrV::DuplicateKey { section: *section, key: key@ },
            FormatError::MissingField { section, key } => ErrV::MissingField { section: *section, key: key@ },
            FormatError::WrongShape { section, key } => ErrV::WrongShape { section: *section, key: key@ },
        }
    }
}

// ---------------------------------------------------------------------------
// Encoding: document to sections
// ---------------------------------------------------------------------------

/// The canonical external name of a binary kind.
pub open spec fn binary_kind_name(t: FygBinaryType) -> Seq<char> {
    match t {
        FygBinaryType::Executable => "executable"@,
        FygBinaryType::Test => "test"@,
        FygBinaryType::SharedLib => "sharedLib"@,
        FygBinaryType::StaticLib => "staticLib"@,
        FygBinaryType::Framework => "framework"@,
    }
}

/// The binary kind a canonical external name denotes, if any.
pub open spec fn binary_kind_of_name(s: Seq<char>) -> Option<FygBinaryType> {
    if s == "executable"@ {
        Some(FygBinaryType::Executable)
    } else if s == "test"@ {
        Some(FygBinaryType::Test)
    } else if s == "sharedLib"@ {
        Some(FygBinaryType::SharedLib)
    } else if s == "staticLib"@ {
        Some(FygBinaryType::StaticLib)
    } else if s == "framework"@ {
        Some(FygBinaryType::Framework)
    } else {
        None
    }
}

pub open spec fn enc_project(p: ProjectV) -> Seq<(Seq<char>, ItemV)> {
    seq![
        ("name"@, ItemV::Text(p.name)),
        ("group"@, ItemV::Text(p.group)),
        ("version"@, ItemV::Text(p.version)),
    ] + (match p.authors {
        Some(a) => seq![("authors"@, ItemV::List(a))],
        None => Seq::<(Seq<char>, ItemV)>::empty(),
    }) + (match p.description {
        Some(d) => seq![("description"@, ItemV::Text(d))],
        None => Seq::<(Seq<char>, ItemV)>::empty(),
    })
}

pub open spec fn enc_build(b: BuildV) -> Seq<(Seq<char>, ItemV)> {
    (match b.multiplatform {
        Some(m) => seq![("multiplatform"@, ItemV::Flag(m))],
        None => Seq::<(Seq<char>, ItemV)>::empty(),
    }) + (match b.languages {
        Some(l) => seq![("languages"@, ItemV::List(l))],
        None => Seq::<(Seq<char>, ItemV)>::empty(),
    })
}

pub open spec fn enc_jvm(j: JvmV) -> Seq<(Seq<char>, ItemV)> {
    seq![("enabled"@, ItemV::Flag(j.enabled))] + (match j.target {
        Some(t) => seq![("target"@, ItemV::Text(t))],
        None => Seq::<(Seq<char>, ItemV)>::empty(),
    })
}

pub open spec fn enc_enabled(e: EnabledV) -> Seq<(Seq<char>, ItemV)> {
    seq![("enabled"@, ItemV::Flag(e.enabled))]
}

pub open spec fn enc_binary(b: BinaryV) -> Seq<(Seq<char>, ItemV)> {
    seq![("type"@, ItemV::Text(binary_kind_name(b.binary_type)))] + (match b.base_name {
        Some(n) => seq![("base-name"@, ItemV::Text(n))],
        None => Seq::<(Seq<char>, ItemV)>::empty(),
    })
}

pub open spec fn enc_dep_value(v: DepValueV) -> ItemV {
    match v {
        DepValueV::Version(s) => ItemV::Text(s),
        DepValueV::Complex(c) => ItemV::Table(
            (match c.path {
                Some(p) => seq![("path"@, ScalarV::Text(p))],
                None => Seq::<(Seq<char>, ScalarV)>::empty(),
            }) + (match c.workspace {
                Some(w) => seq![("workspace"@, ScalarV::Flag(w))],
                None => Seq::<(Seq<char>, ScalarV)>::empty(),
            }) + (match c.version {
                Some(x) => seq![("version"@, ScalarV::Text(x))],
                None => Seq::<(Seq<char>, ScalarV)>::empty(),
            }),
        ),
    }
}

pub open spec fn enc_scope(s: Seq<(Seq<char>, DepValueV)>) -> Seq<(Seq<char>, ItemV)> {
    s.map_values(|p: (Seq<char>, DepValueV)| (p.0, enc_dep_value(p.1)))
}

pub open spec fn enc_repo(r: RepoV) -> ItemV {
    match r {
        RepoV::Enabled(b) => ItemV::Flag(b),
        RepoV::Custom(c) => ItemV::Table(
            seq![("type"@, ScalarV::Text(c.repo_type)), ("url"@, ScalarV::Text(c.url))],
        ),
    }
}

pub open spec fn enc_repos(s: Seq<(Seq<char>, RepoV)>) -> Seq<(Seq<char>, ItemV)> {
    s.map_values(|p: (Seq<char>, RepoV)| (p.0, enc_repo(p.1)))
}

pub open spec fn enc_test(t: TestV) -> Seq<(Seq<char>, ItemV)> {
    match t.framework {
        Some(f) => seq![("framework"@, ItemV::Text(f))],
        None => Seq::<(Seq<char>, ItemV)>::empty(),
    }
}

pub open spec fn sec(path: SectionPath, entries: Seq<(Seq<char>, ItemV)>) -> SectionV {
    SectionV { path, entries }
}

pub open spec fn no_secs() -> Seq<SectionV> {
    Seq::<SectionV>::empty()
}

pub open spec fn enc_targets(t: TargetsV) -> Seq<SectionV> {
    seq![sec(SectionPath::Targets, Seq::<(Seq<char>, ItemV)>::empty())] + (match t.jvm {
        Some(j) => seq![sec(SectionPath::TargetsJvm, enc_jvm(j))],
        None => no_secs(),
    }) + (match t.ios_arm64 {
        Some(e) => seq![sec(SectionPath::TargetsIosArm64, enc_enabled(e))],
        None => no_secs(),
    }) + (match t.ios_x64 {
        Some(e) => seq![sec(SectionPath::TargetsIosX64, enc_enabled(e))],
        None => no_secs(),
    }) + (match t.ios_simulator_arm64 {
        Some(e) => seq![sec(SectionPath::TargetsIosSimulatorArm64, enc_enabled(e))],
        None => no_secs(),
    }) + (match t.linux_x64 {
        Some(e) => seq![sec(SectionPath::TargetsLinuxX64, enc_enabled(e))],
        None => no_secs(),
    }) + (match t.macos_arm64 {
        Some(e) => seq![sec(SectionPath::TargetsMacosArm64, enc_enabled(e))],
        None => no_secs(),
    }) + (match t.windows_x64 {
        Some(e) => seq![sec(SectionPath::TargetsWindowsX64, enc_enabled(e))],
        None => no_secs(),
    }) + (match t.native {
        Some(n) => seq![sec(SectionPath::TargetsNative, Seq::<(Seq<char>, ItemV)>::empty())]
            + (match n.binary {
                Some(b) => seq![sec(SectionPath::TargetsNativeBinary, enc_binary(b))],
                None => no_secs(),
            }),
        None => no_secs(),
    })
}

pub open spec fn enc_deps(d: DepsV) -> Seq<SectionV> {
    seq![sec(SectionPath::Dependencies, Seq::<(Seq<char>, ItemV)>::empty())] + (match d.common {
        Some(s) => seq![sec(SectionPath::DependenciesCommon, enc_scope(s))],
        None => no_secs(),
    }) + (match d.jvm {
        Some(s) => seq![sec(SectionPath::DependenciesJvm, enc_scope(s))],
        None => no_secs(),
    }) + (match d.test {
        Some(s) => seq![sec(SectionPath::DependenciesTest, enc_scope(s))],
        None => no_secs(),
    })
}

/// Encode a document as its canonical section sequence, in fixed declaration
/// order; absent sections are not emitted.
pub open spec fn enc_doc(d: DocV) -> Seq<SectionV> {
    seq![sec(SectionPath::Project, enc_project(d.project))] + (match d.build {
        Some(b) => seq![sec(SectionPath::Build, enc_build(b))],
        None => no_secs(),
    }) + (match d.targets {
        Some(t) => enc_targets(t),
        None => no_secs(),
    }) + (match d.dependencies {
        Some(x) => enc_deps(x),
        None => no_secs(),
    }) + (match d.test {
        Some(t) => seq![sec(SectionPath::Test, enc_test(t))],
        None => no_secs(),
    }) + (match d.repositories {
        Some(r) => seq![sec(SectionPath::Repositories, enc_repos(r))],
        None => no_secs(),
    })
}

} // verus!

// ---------------------------------------------------------------------------
// Decoding: sections to document (ghost level)
// ---------------------------------------------------------------------------

verus! {

/// Partial project section while its entries are folded.
pub ghost struct ProjAcc {
    pub name: Option<Seq<char>>,
    pub group: Option<Seq<char>>,
    pub version: Option<Seq<char>>,
    pub authors: Option<Seq<Seq<char>>>,
    pub description: Option<Seq<char>>,
}

pub open spec fn empty_proj_acc() -> ProjAcc {
    ProjAcc { name: None, group: None, version: None, authors: None, description: None }
}

/// Fold the entries of `[project]`: each recognized key once, with the right
/// shape; `name`, `group` and `version` must all be present at the end.
pub open spec fn dec_project_at(es: Seq<(Seq<char>, ItemV)>, i: int, a: ProjAcc) -> Result<
    ProjectV,
    ErrV,
>
    decreases es.len() - i,
{
    if i < 0 || i >= es.len() {
        if a.name is None {
            Err(ErrV::MissingField { section: SectionPath::Project, key: "name"@ })
        } else if a.group is None {
            Err(ErrV::MissingField { section: SectionPath::Project, key: "group"@ })
        } else if a.version is None {
            Err(ErrV::MissingField { section: SectionPath::Project, key: "version"@ })
        } else {
            Ok(ProjectV {
                name: a.name->0,
                group: a.group->0,
                version: a.version->0,
                authors: a.authors,
                description: a.description,
            })
        }
    } else {
        let k = es[i].0;
        let item = es[i].1;
        if k == "name"@ {
            if a.name is Some {
                Err(ErrV::DuplicateKey { section: SectionPath::Project, key: k })
            } else {
                match item {
                    ItemV::Text(s) => dec_project_at(es, i + 1, ProjAcc { name: Some(s), ..a }),
                    _ => Err(ErrV::WrongShape { section: SectionPath::Project, key: k }),
                }
            }
        } else if k == "group"@ {
            if a.group is Some {
                Err(ErrV::DuplicateKey { section: SectionPath::Project, key: k })
            } else {
                match item {
                    ItemV::Text(s) => dec_project_at(es, i + 1, ProjAcc { group: Some(s), ..a }),
                    _ => Err(ErrV::WrongShape { section: SectionPath::Project, key: k }),
                }
            }
        } else if k == "version"@ {
            if a.version is Some {
                Err(ErrV::DuplicateKey { section: SectionPath::Project, key: k })
            } else {
                match item {
                    ItemV::Text(s) => dec_project_at(es, i + 1, ProjAcc { version: Some(s), ..a }),
                    _ => Err(ErrV::WrongShape { section: SectionPath::Project, key: k }),
                }
            }
        } else if k == "authors"@ {
            if a.authors is Some {
                Err(ErrV::DuplicateKey { section: SectionPath::Project, key: k })
            } else {
                match item {
                    ItemV::List(l) => dec_project_at(es, i + 1, ProjAcc { authors: Some(l), ..a }),
                    _ => Err(ErrV::WrongShape { section: SectionPath::Project, key: k }),
                }
            }
        } else if k == "description"@ {
            if a.description is Some {
                Err(ErrV::DuplicateKey { section: SectionPath::Project, key: k })
            } else {
                match item {
                    ItemV::Text(s) => dec_project_at(es, i + 1, ProjAcc { description: Some(s), ..a }),
                    _ => Err(ErrV::WrongShape { section: SectionPath::Project, key: k }),
                }
            }
        } else {
            Err(ErrV::UnknownKey { section: SectionPath::Project, key: k })
        }
    }
}

/// Partial build section.
pub ghost struct BuildAcc {
    pub multiplatform: Option<bool>,
    pub languages: Option<Seq<Seq<char>>>,
}

pub open spec fn dec_build_at(es: Seq<(Seq<char>, ItemV)>, i: int, a: BuildAcc) -> Result<
    BuildV,
    ErrV,
>
    decreases es.len() - i,
{
    if i < 0 || i >= es.len() {
        Ok(BuildV { multiplatform: a.multiplatform, languages: a.languages })
    } else {
        let k = es[i].0;
        let item = es[i].1;
        if k == "multiplatform"@ {
            if a.multiplatform is Some {
                Err(ErrV::DuplicateKey { section: SectionPath::Build, key: k })
            } else {
                match item {
                    ItemV::Flag(b) => dec_build_at(es, i + 1, BuildAcc { multiplatform: Some(b), ..a }),
                    _ => Err(ErrV::WrongShape { section: SectionPath::Build, key: k }),
                }
            }
        } else if k == "languages"@ {
            if a.languages is Some {
                Err(ErrV::DuplicateKey { section: SectionPath::Build, key: k })
            } else {
                match item {
                    ItemV::List(l) => dec_build_at(es, i + 1, BuildAcc { languages: Some(l), ..a }),
                    _ => Err(ErrV::WrongShape { section: SectionPath::Build, key: k }),
                }
            }
        } else {
            Err(ErrV::UnknownKey { section: SectionPath::Build, key: k })
        }
    }
}

/// Partial JVM target.
pub ghost struct JvmAcc {
    pub enabled: Option<bool>,
    pub target: Option<Seq<char>>,
}

pub open spec fn dec_jvm_at(es: Seq<(Seq<char>, ItemV)>, i: int, a: JvmAcc) -> Result<JvmV, ErrV>
    decreases es.len() - i,
{
    if i < 0 || i >= es.len() {
        if a.enabled is None {
            Err(ErrV::MissingField { section: SectionPath::TargetsJvm, key: "enabled"@ })
        } else {
            Ok(JvmV { enabled: a.enabled->0, target: a.target })
        }
    } else {
        let k = es[i].0;
        let item = es[i].1;
        if k == "enabled"@ {
            if a.enabled is Some {
                Err(ErrV::DuplicateKey { section: SectionPath::TargetsJvm, key: k })
            } else {
                match item {
                    ItemV::Flag(b) => dec_jvm_at(es, i + 1, JvmAcc { enabled: Some(b), ..a }),
                    _ => Err(ErrV::WrongShape { section: SectionPath::TargetsJvm, key: k }),
                }
            }
        } else if k == "target"@ {
            if a.target is Some {
                Err(ErrV::DuplicateKey { section: SectionPath::TargetsJvm, key: k })
            } else {
                match item {
                    ItemV::Text(s) => dec_jvm_at(es, i + 1, JvmAcc { target: Some(s), ..a }),
                    _ => Err(ErrV::WrongShape { section: SectionPath::TargetsJvm, key: k }),
                }
            }
        } else {
            Err(ErrV::UnknownKey { section: SectionPath::TargetsJvm, key: k })
        }
    }
}

/// Fold a simple platform slot: exactly one recognized key, `enabled`.
pub open spec fn dec_enabled_at(
    section: SectionPath,
    es: Seq<(Seq<char>, ItemV)>,
    i: int,
    a: Option<bool>,
) -> Result<EnabledV, ErrV>
    decreases es.len() - i,
{
    if i < 0 || i >= es.len() {
        if a is None {
            Err(ErrV::MissingField { section, key: "enabled"@ })
        } else {
            Ok(EnabledV { enabled: a->0 })
        }
    } else {
        let k = es[i].0;
        let item = es[i].1;
        if k == "enabled"@ {
            if a is Some {
                Err(ErrV::DuplicateKey { section, key: k })
            } else {
                match item {
                    ItemV::Flag(b) => dec_enabled_at(section, es, i + 1, Some(b)),
                    _ => Err(ErrV::WrongShape { section, key: k }),
                }
            }
        } else {
            Err(ErrV::UnknownKey { section, key: k })
        }
    }
}

/// Partial native binary description.
pub ghost struct BinaryAcc {
    pub binary_type: Option<FygBinaryType>,
    pub base_name: Option<Seq<char>>,
}

pub open spec fn dec_binary_at(es: Seq<(Seq<char>, ItemV)>, i: int, a: BinaryAcc) -> Result<
    BinaryV,
    ErrV,
>
    decreases es.len() - i,
{
    if i < 0 || i >= es.len() {
        if a.binary_type is None {
            Err(ErrV::MissingField { section: SectionPath::TargetsNativeBinary, key: "type"@ })
        } else {
            Ok(BinaryV { binary_type: a.binary_type->0, base_name: a.base_name })
        }
    } else {
        let k = es[i].0;
        let item = es[i].1;
        if k == "type"@ {
            if a.binary_type is Some {
                Err(ErrV::DuplicateKey { section: SectionPath::TargetsNativeBinary, key: k })
            } else {
                match item {
                    ItemV::Text(s) => match binary_kind_of_name(s) {
                        Some(t) => dec_binary_at(es, i + 1, BinaryAcc { binary_type: Some(t), ..a }),
                        None => Err(ErrV::WrongShape { section: SectionPath::TargetsNativeBinary, key: k }),
                    },
                    _ => Err(ErrV::WrongShape { section: SectionPath::TargetsNativeBinary, key: k }),
                }
            }
        } else if k == "base-name"@ {
            if a.base_name is Some {
                Err(ErrV::DuplicateKey { section: SectionPath::TargetsNativeBinary, key: k })
            } else {
                match item {
                    ItemV::Text(s) => dec_binary_at(es, i + 1, BinaryAcc { base_name: Some(s), ..a }),
                    _ => Err(ErrV::WrongShape { section: SectionPath::TargetsNativeBinary, key: k }),
                }
            }
        } else {
            Err(ErrV::UnknownKey { section: SectionPath::TargetsNativeBinary, key: k })
        }
    }
}

pub open spec fn dec_test_at(es: Seq<(Seq<char>, ItemV)>, i: int, a: Option<Seq<char>>) -> Result<
    TestV,
    ErrV,
>
    decreases es.len() - i,
{
    if i < 0 || i >= es.len() {
        Ok(TestV { framework: a })
    } else {
        let k = es[i].0;
        let item = es[i].1;
        if k == "framework"@ {
            if a is Some {
                Err(ErrV::DuplicateKey { section: SectionPath::Test, key: k })
            } else {
                match item {
                    ItemV::Text(s) => dec_test_at(es, i + 1, Some(s)),
                    _ => Err(ErrV::WrongShape { section: SectionPath::Test, key: k }),
                }
            }
        } else {
            Err(ErrV::UnknownKey { section: SectionPath::Test, key: k })
        }
    }
}

/// Partial structured dependency.
pub ghost struct DepAcc {
    pub path: Option<Seq<char>>,
    pub workspace: Option<bool>,
    pub version: Option<Seq<char>>,
}

/// Fold the pairs of a structured dependency's inline table.
pub open spec fn dec_dep_table_at(
    section: SectionPath,
    ps: Seq<(Seq<char>, ScalarV)>,
    i: int,
    a: DepAcc,
) -> Result<DepConfigV, ErrV>
    decreases ps.len() - i,
{
    if i < 0 || i >= ps.len() {
        Ok(DepConfigV { path: a.path, workspace: a.workspace, version: a.version })
    } else {
        let k = ps[i].0;
        let v = ps[i].1;
        if k == "path"@ {
            if a.path is Some {
                Err(ErrV::DuplicateKey { section, key: k })
            } else {
                match v {
                    ScalarV::Text(s) => dec_dep_table_at(section, ps, i + 1, DepAcc { path: Some(s), ..a }),
                    _ => Err(ErrV::WrongShape { section, key: k }),
                }
            }
        } else if k == "workspace"@ {
            if a.workspace is Some {
                Err(ErrV::DuplicateKey { section, key: k })
            } else {
                match v {
                    ScalarV::Flag(b) => dec_dep_table_at(section, ps, i + 1, DepAcc { workspace: Some(b), ..a }),
                    _ => Err(ErrV::WrongShape { section, key: k }),
                }
            }
        } else if k == "version"@ {
            if a.version is Some {
                Err(ErrV::DuplicateKey { section, key: k })
            } else {
                match v {
                    ScalarV::Text(s) => dec_dep_table_at(section, ps, i + 1, DepAcc { version: Some(s), ..a }),
                    _ => Err(ErrV::WrongShape { section, key: k }),
                }
            }
        } else {
            Err(ErrV::UnknownKey { section, key: k })
        }
    }
}

/// Resolve one dependency entry by the shape of its source value: a scalar
/// string is the shorthand version form, an inline table is the structured
/// form, and anything else is a format error.
pub open spec fn dec_dep_value(section: SectionPath, k: Seq<char>, item: ItemV) -> Result<
    DepValueV,
    ErrV,
> {
    match item {
        ItemV::Text(s) => Ok(DepValueV::Version(s)),
        ItemV::Table(ps) => match dec_dep_table_at(
            section,
            ps,
            0,
            DepAcc { path: None, workspace: None, version: None },
        ) {
            Ok(c) => Ok(DepValueV::Complex(c)),
            Err(e) => Err(e),
        },
        _ => Err(ErrV::WrongShape { section, key: k }),
    }
}

/// Whether an association list already binds `k`.
pub open spec fn assoc_has<T>(s: Seq<(Seq<char>, T)>, k: Seq<char>) -> bool {
    exists|j: int| 0 <= j < s.len() && (#[trigger] s[j]).0 == k
}

/// Fold one dependency scope into an association list, rejecting repeated
/// names.
pub open spec fn dec_scope_at(
    section: SectionPath,
    es: Seq<(Seq<char>, ItemV)>,
    i: int,
    acc: Seq<(Seq<char>, DepValueV)>,
) -> Result<Seq<(Seq<char>, DepValueV)>, ErrV>
    decreases es.len() - i,
{
    if i < 0 || i >= es.len() {
        Ok(acc)
    } else {
        let k = es[i].0;
        let item = es[i].1;
        if assoc_has(acc, k) {
            Err(ErrV::DuplicateKey { section, key: k })
        } else {
            match dec_dep_value(section, k, item) {
                Ok(v) => dec_scope_at(section, es, i + 1, acc.push((k, v))),
                Err(e) => Err(e),
            }
        }
    }
}

/// Partial custom repository.
pub ghost struct RepoAcc {
    pub repo_type: Option<Seq<char>>,
    pub url: Option<Seq<char>>,
}

pub open spec fn dec_repo_table_at(ps: Seq<(Seq<char>, ScalarV)>, i: int, a: RepoAcc) -> Result<
    CustomRepoV,
    ErrV,
>
    decreases ps.len() - i,
{
    if i < 0 || i >= ps.len() {
        if a.repo_type is None {
            Err(ErrV::MissingField { section: SectionPath::Repositories, key: "type"@ })
        } else if a.url is None {
            Err(ErrV::MissingField { section: SectionPath::Repositories, key: "url"@ })
        } else {
            Ok(CustomRepoV { repo_type: a.repo_type->0, url: a.url->0 })
        }
    } else {
        let k = ps[i].0;
        let v = ps[i].1;
        if k == "type"@ {
            if a.repo_type is Some {
                Err(ErrV::DuplicateKey { section: SectionPath::Repositories, key: k })
            } else {
                match v {
                    ScalarV::Text(s) => dec_repo_table_at(ps, i + 1, RepoAcc { repo_type: Some(s), ..a }),
                    _ => Err(ErrV::WrongShape { section: SectionPath::Repositories, key: k }),
                }
            }
        } else if k == "url"@ {
            if a.url is Some {
                Err(ErrV::DuplicateKey { section: SectionPath::Repositories, key: k })
            } else {
                match v {
                    ScalarV::Text(s) => dec_repo_table_at(ps, i + 1, RepoAcc { url: Some(s), ..a }),
                    _ => Err(ErrV::WrongShape { section: SectionPath::Repositories, key: k }),
                }
            }
        } else {
            Err(ErrV::UnknownKey { section: SectionPath::Repositories, key: k })
        }
    }
}

/// Resolve one repository entry by shape: a boolean is the enable/disable
/// shorthand, an inline table is a custom repository.
pub open spec fn dec_repo_value(k: Seq<char>, item: ItemV) -> Result<RepoV, ErrV> {
    match item {
        ItemV::Flag(b) => Ok(RepoV::Enabled(b)),
        ItemV::Table(ps) => match dec_repo_table_at(
            ps,
            0,
            RepoAcc { repo_type: None, url: None },
        ) {
            Ok(c) => Ok(RepoV::Custom(c)),
            Err(e) => Err(e),
        },
        _ => Err(ErrV::WrongShape { section: SectionPath::Repositories, key: k }),
    }
}

pub open spec fn dec_repos_at(
    es: Seq<(Seq<char>, ItemV)>,
    i: int,
    acc: Seq<(Seq<char>, RepoV)>,
) -> Result<Seq<(Seq<char>, RepoV)>, ErrV>
    decreases es.len() - i,
{
    if i < 0 || i >= es.len() {
        Ok(acc)
    } else {
        let k = es[i].0;
        let item = es[i].1;
        if assoc_has(acc, k) {
            Err(ErrV::DuplicateKey { section: SectionPath::Repositories, key: k })
        } else {
            match dec_repo_value(k, item) {
                Ok(v) => dec_repos_at(es, i + 1, acc.push((k, v))),
                Err(e) => Err(e),
            }
        }
    }
}

} // verus!

// ---------------------------------------------------------------------------
// Decoding: the section fold
// ---------------------------------------------------------------------------

verus! {

/// Partial document while sections are folded.
pub ghost struct AccV {
    pub project: Option<ProjectV>,
    pub build: Option<BuildV>,
    pub targets: Option<TargetsV>,
    pub dependencies: Option<DepsV>,
    pub test: Option<TestV>,
    pub repositories: Option<Seq<(Seq<char>, RepoV)>>,
}

pub open spec fn empty_acc() -> AccV {
    AccV {
        project: None,
        build: None,
        targets: None,
        dependencies: None,
        test: None,
        repositories: None,
    }
}

pub open spec fn empty_targets() -> TargetsV {
    TargetsV {
        jvm: None,
        ios_arm64: None,
        ios_x64: None,
        ios_simulator_arm64: None,
        linux_x64: None,
        macos_arm64: None,
        windows_x64: None,
        native: None,
    }
}

pub open spec fn or_empty_targets(t: Option<TargetsV>) -> TargetsV {
    match t {
        Some(x) => x,
        None => empty_targets(),
    }
}

pub open spec fn empty_deps() -> DepsV {
    DepsV { common: None, jvm: None, test: None }
}

pub open spec fn or_empty_deps(d: Option<DepsV>) -> DepsV {
    match d {
        Some(x) => x,
        None => empty_deps(),
    }
}

/// A section that only groups subsections may carry no entries of its own.
pub open spec fn require_no_entries(
    path: SectionPath,
    es: Seq<(Seq<char>, ItemV)>,
    ok: AccV,
) -> Result<AccV, ErrV> {
    if es.len() == 0 {
        Ok(ok)
    } else {
        Err(ErrV::UnknownKey { section: path, key: es[0].0 })
    }
}

/// Fold one simple platform slot into the targets under construction.
pub open spec fn put_slot(
    acc: AccV,
    path: SectionPath,
    es: Seq<(Seq<char>, ItemV)>,
    cur: Option<EnabledV>,
    put: spec_fn(TargetsV, EnabledV) -> TargetsV,
) -> Result<AccV, ErrV> {
    let t = or_empty_targets(acc.targets);
    if cur is Some {
        Err(ErrV::DuplicateSection { section: path })
    } else {
        match dec_enabled_at(path, es, 0, None) {
            Ok(e) => Ok(AccV { targets: Some(put(t, e)), ..acc }),
            Err(e) => Err(e),
        }
    }
}

/// Merge one decoded section into the partial document.
pub open spec fn apply_sec(acc: AccV, s: SectionV) -> Result<AccV, ErrV> {
    match s.path {
        SectionPath::Project => {
            if acc.project is Some {
                Err(ErrV::DuplicateSection { section: SectionPath::Project })
            } else {
                match dec_project_at(s.entries, 0, empty_proj_acc()) {
                    Ok(p) => Ok(AccV { project: Some(p), ..acc }),
                    Err(e) => Err(e),
                }
            }
        },
        SectionPath::Build => {
            if acc.build is Some {
                Err(ErrV::DuplicateSection { section: SectionPath::Build })
            } else {
                match dec_build_at(s.entries, 0, BuildAcc { multiplatform: None, languages: None }) {
                    Ok(b) => Ok(AccV { build: Some(b), ..acc }),
                    Err(e) => Err(e),
                }
            }
        },
        SectionPath::Targets => {
            if acc.targets is Some {
                Err(ErrV::DuplicateSection { section: SectionPath::Targets })
            } else {
                require_no_entries(
                    SectionPath::Targets,
                    s.entries,
                    AccV { targets: Some(empty_targets()), ..acc },
                )
            }
        },
        SectionPath::TargetsJvm => {
            let t = or_empty_targets(acc.targets);
            if t.jvm is Some {
                Err(ErrV::DuplicateSection { section: SectionPath::TargetsJvm })
            } else {
                match dec_jvm_at(s.entries, 0, JvmAcc { enabled: None, target: None }) {
                    Ok(j) => Ok(AccV { targets: Some(TargetsV { jvm: Some(j), ..t }), ..acc }),
                    Err(e) => Err(e),
                }
            }
        },
        SectionPath::TargetsIosArm64 => put_slot(
            acc,
            SectionPath::TargetsIosArm64,
            s.entries,
            or_empty_targets(acc.targets).ios_arm64,
            |t: TargetsV, e: EnabledV| TargetsV { ios_arm64: Some(e), ..t },
        ),
        SectionPath::TargetsIosX64 => put_slot(
            acc,
            SectionPath::TargetsIosX64,
            s.entries,
            or_empty_targets(acc.targets).ios_x64,
            |t: TargetsV, e: EnabledV| TargetsV { ios_x64: Some(e), ..t },
        ),
        SectionPath::TargetsIosSimulatorArm64 => put_slot(
            acc,
            SectionPath::TargetsIosSimulatorArm64,
            s.entries,
            or_empty_targets(acc.targets).ios_simulator_arm64,
            |t: TargetsV, e: EnabledV| TargetsV { ios_simulator_arm64: Some(e), ..t },
        ),
        SectionPath::TargetsLinuxX64 => put_slot(
            acc,
            SectionPath::TargetsLinuxX64,
            s.entries,
            or_empty_targets(acc.targets).linux_x64,
            |t: TargetsV, e: EnabledV| TargetsV { linux_x64: Some(e), ..t },
        ),
        SectionPath::TargetsMacosArm64 => put_slot(
            acc,
            SectionPath::TargetsMacosArm64,
            s.entries,
            or_empty_targets(acc.targets).macos_arm64,
            |t: TargetsV, e: EnabledV| TargetsV { macos_arm64: Some(e), ..t },
        ),
        SectionPath::TargetsWindowsX64 => put_slot(
            acc,
            SectionPath::TargetsWindowsX64,
            s.entries,
            or_empty_targets(acc.targets).windows_x64,
            |t: TargetsV, e: EnabledV| TargetsV { windows_x64: Some(e), ..t },
        ),
        SectionPath::TargetsNative => {
            let t = or_empty_targets(acc.targets);
            if t.native is Some {
                Err(ErrV::DuplicateSection { section: SectionPath::TargetsNative })
            } else {
                require_no_entries(
                    SectionPath::TargetsNative,
                    s.entries,
                    AccV {
                        targets: Some(TargetsV { native: Some(NativeV { binary: None }), ..t }),
                        ..acc
                    },
                )
            }
        },
        SectionPath::TargetsNativeBinary => {
            let t = or_empty_targets(acc.targets);
            let n = match t.native {
                Some(x) => x,
                None => NativeV { binary: None },
            };
            if n.binary is Some {
                Err(ErrV::DuplicateSection { section: SectionPath::TargetsNativeBinary })
            } else {
                match dec_binary_at(s.entries, 0, BinaryAcc { binary_type: None, base_name: None }) {
                    Ok(b) => Ok(
                        AccV {
                            targets: Some(
                                TargetsV { native: Some(NativeV { binary: Some(b) }), ..t },
                            ),
                            ..acc
                        },
                    ),
                    Err(e) => Err(e),
                }
            }
        },
        SectionPath::Dependencies => {
            if acc.dependencies is Some {
                Err(ErrV::DuplicateSection { section: SectionPath::Dependencies })
            } else {
                require_no_entries(
                    SectionPath::Dependencies,
                    s.entries,
                    AccV { dependencies: Some(empty_deps()), ..acc },
                )
            }
        },
        SectionPath::DependenciesCommon => {
            let d = or_empty_deps(acc.dependencies);
            if d.common is Some {
                Err(ErrV::DuplicateSection { section: SectionPath::DependenciesCommon })
            } else {
                match dec_scope_at(
                    SectionPath::DependenciesCommon,
                    s.entries,
                    0,
                    Seq::<(Seq<char>, DepValueV)>::empty(),
                ) {
                    Ok(m) => Ok(
                        AccV { dependencies: Some(DepsV { common: Some(m), ..d }), ..acc },
                    ),
                    Err(e) => Err(e),
                }
            }
        },
        SectionPath::DependenciesJvm => {
            let d = or_empty_deps(acc.dependencies);
            if d.jvm is Some {
                Err(ErrV::DuplicateSection { section: SectionPath::DependenciesJvm })
            } else {
                match dec_scope_at(
                    SectionPath::DependenciesJvm,
                    s.entries,
                    0,
                    Seq::<(Seq<char>, DepValueV)>::empty(),
                ) {
                    Ok(m) => Ok(AccV { dependencies: Some(DepsV { jvm: Some(m), ..d }), ..acc }),
                    Err(e) => Err(e),
                }
            }
        },
        SectionPath::DependenciesTest => {
            let d = or_empty_deps(acc.dependencies);
            if d.test is Some {
                Err(ErrV::DuplicateSection { section: SectionPath::DependenciesTest })
            } else {
                match dec_scope_at(
                    SectionPath::DependenciesTest,
                    s.entries,
                    0,
                    Seq::<(Seq<char>, DepValueV)>::empty(),
                ) {
                    Ok(m) => Ok(AccV { dependencies: Some(DepsV { test: Some(m), ..d }), ..acc }),
                    Err(e) => Err(e),
                }
            }
        },
        SectionPath::Test => {
            if acc.test is Some {
                Err(ErrV::DuplicateSection { section: SectionPath::Test })
            } else {
                match dec_test_at(s.entries, 0, None) {
                    Ok(t) => Ok(AccV { test: Some(t), ..acc }),
                    Err(e) => Err(e),
                }
            }
        },
        SectionPath::Repositories => {
            if acc.repositories is Some {
                Err(ErrV::DuplicateSection { section: SectionPath::Repositories })
            } else {
                match dec_repos_at(s.entries, 0, Seq::<(Seq<char>, RepoV)>::empty()) {
                    Ok(r) => Ok(AccV { repositories: Some(r), ..acc }),
                    Err(e) => Err(e),
                }
            }
        },
    }
}

/// Fold a section sequence into a document; the project section is required.
pub open spec fn dec_secs_at(ss: Seq<SectionV>, i: int, acc: AccV) -> Result<DocV, ErrV>
    decreases ss.len() - i,
{
    if i < 0 || i >= ss.len() {
        match acc.project {
            None => Err(ErrV::MissingSection { section: SectionPath::Project }),
            Some(p) => Ok(
                DocV {
                    project: p,
                    build: acc.build,
                    targets: acc.targets,
                    dependencies: acc.dependencies,
                    test: acc.test,
                    repositories: acc.repositories,
                },
            ),
        }
    } else {
        match apply_sec(acc, ss[i]) {
            Ok(a2) => dec_secs_at(ss, i + 1, a2),
            Err(e) => Err(e),
        }
    }
}

/// Decode a section sequence into a document.
pub open spec fn dec_doc(ss: Seq<SectionV>) -> Result<DocV, ErrV> {
    dec_secs_at(ss, 0, empty_acc())
}

} // verus!

// ---------------------------------------------------------------------------
// Executable decoding
// ---------------------------------------------------------------------------

verus! {

pub open spec fn ostr(x: Option<String>) -> Option<Seq<char>> {
    match x {
        Some(s) => Some(s@),
        None => None,
    }
}

pub open spec fn ostrs(x: Option<Vec<String>>) -> Option<Seq<Seq<char>>> {
    match x {
        Some(s) => Some(s.deep_view()),
        None => None,
    }
}

/// String equality over views.
pub fn str_eq(a: &str, b: &str) -> (r: bool)
    ensures
        r == (a@ == b@),
{
    let na = a.unicode_len();
    let nb = b.unicode_len();
    if na != nb {
        return false;
    }
    let mut i: usize = 0;
    while i < na
        invariant
            0 <= i <= na,
            na == a@.len(),
            na == b@.len(),
            forall|j: int| 0 <= j < i ==> a@[j] == b@[j],
        decreases na - i,
    {
        if a.get_char(i) != b.get_char(i) {
            return false;
        }
        i = i + 1;
    }
    proof {
        assert(a@ =~= b@);
    }
    true
}

/// Clone a string list, keeping its contents.
pub(crate) fn clone_strings(v: &Vec<String>) -> (r: Vec<String>)
    ensures
        r.deep_view() == v.deep_view(),
{
    let mut r: Vec<String> = Vec::new();
    let mut i: usize = 0;
    while i < v.len()
        invariant
            0 <= i <= v.len(),
            r.deep_view() =~= v.deep_view().take(i as int),
        decreases v.len() - i,
    {
        let ghost prev = r.deep_view();
        r.push(v[i].clone());
        proof {
            assert(r.deep_view() =~= prev.push(v@[i as int]@));
            assert(prev.push(v@[i as int]@) =~= v.deep_view().take(i as int + 1));
        }
        i = i + 1;
    }
    proof {
        assert(r.deep_view() =~= v.deep_view());
    }
    r
}

pub(crate) fn clone_scalar(v: &ScalarItem) -> (r: ScalarItem)
    ensures
        r@ == v@,
{
    match v {
        ScalarItem::Text(s) => ScalarItem::Text(s.clone()),
        ScalarItem::Flag(b) => ScalarItem::Flag(*b),
    }
}

/// Clone an inline table, keeping its contents.
pub(crate) fn clone_pairs(v: &Vec<(String, ScalarItem)>) -> (r: Vec<(String, ScalarItem)>)
    ensures
        pairs_view(r@) == pairs_view(v@),
{
    let mut r: Vec<(String, ScalarItem)> = Vec::new();
    let mut i: usize = 0;
    while i < v.len()
        invariant
            0 <= i <= v.len(),
            pairs_view(r@) =~= pairs_view(v@).take(i as int),
        decreases v.len() - i,
    {
        let ghost prev = pairs_view(r@);
        let (k, s) = &v[i];
        r.push((k.clone(), clone_scalar(s)));
        proof {
            assert(pairs_view(r@) =~= prev.push((v@[i as int].0@, v@[i as int].1@)));
            assert(prev.push((v@[i as int].0@, v@[i as int].1@)) =~= pairs_view(v@).take(
                i as int + 1,
            ));
        }
        i = i + 1;
    }
    proof {
        assert(r@.map_values(|p: (String, ScalarItem)| (p.0@, p.1@)) =~= v@.map_values(
            |p: (String, ScalarItem)| (p.0@, p.1@),
        ));
    }
    r
}

pub(crate) fn dec_project_x(
    es: &Vec<(String, Item)>,
    i: usize,
    name: Option<String>,
    group: Option<String>,
    version: Option<String>,
    authors: Option<Vec<String>>,
    description: Option<String>,
) -> (r: Result<ProjectConfig, FormatError>)
    ensures
        r matches Ok(p) ==> dec_project_at(
            entry_list_view(es@),
            i as int,
            ProjAcc {
                name: ostr(name),
                group: ostr(group),
                version: ostr(version),
                authors: ostrs(authors),
                description: ostr(description),
            },
        ) == Ok::<ProjectV, ErrV>(p@),
        r matches Err(e) ==> dec_project_at(
            entry_list_view(es@),
            i as int,
            ProjAcc {
                name: ostr(name),
                group: ostr(group),
                version: ostr(version),
                authors: ostrs(authors),
                description: ostr(description),
            },
        ) == Err::<ProjectV, ErrV>(e@),
    decreases es.len() - i,
{
    if i >= es.len() {
        match name {
            None => Err(
                FormatError::MissingField {
                    section: SectionPath::Project,
                    key: "name".to_owned(),
                },
            ),
            Some(n) => match group {
                None => Err(
                    FormatError::MissingField {
                        section: SectionPath::Project,
                        key: "group".to_owned(),
                    },
                ),
                Some(g) => match version {
                    None => Err(
                        FormatError::MissingField {
                            section: SectionPath::Project,
                            key: "version".to_owned(),
                        },
                    ),
                    Some(v) => Ok(
                        ProjectConfig { name: n, group: g, version: v, authors, description },
                    ),
                },
            },
        }
    } else {
        let (k, item) = &es[i];
        if str_eq(k.as_str(), "name") {
            if name.is_some() {
                Err(FormatError::DuplicateKey { section: SectionPath::Project, key: k.clone() })
            } else {
                match item {
                    Item::Text(s) => dec_project_x(
                        es,
                        i + 1,
                        Some(s.clone()),
                        group,
                        version,
                        authors,
                        description,
                    ),
                    _ => Err(
                        FormatError::WrongShape { section: SectionPath::Project, key: k.clone() },
                    ),
                }
            }
        } else if str_eq(k.as_str(), "group") {
            if group.is_some() {
                Err(FormatError::DuplicateKey { section: SectionPath::Project, key: k.clone() })
            } else {
                match item {
                    Item::Text(s) => dec_project_x(
                        es,
                        i + 1,
                        name,
                        Some(s.clone()),
                        version,
                        authors,
                        description,
                    ),
                    _ => Err(
                        FormatError::WrongShape { section: SectionPath::Project, key: k.clone() },
                    ),
                }
            }
        } else if str_eq(k.as_str(), "version") {
            if version.is_some() {
                Err(FormatError::DuplicateKey { section: SectionPath::Project, key: k.clone() })
            } else {
                match item {
                    Item::Text(s) => dec_project_x(
                        es,
                        i + 1,
                        name,
                        group,
                        Some(s.clone()),
                        authors,
                        description,
                    ),
                    _ => Err(
                        FormatError::WrongShape { section: SectionPath::Project, key: k.clone() },
                    ),
                }
            }
        } else if str_eq(k.as_str(), "authors") {
            if authors.is_some() {
                Err(FormatError::DuplicateKey { section: SectionPath::Project, key: k.clone() })
            } else {
                match item {
                    Item::List(l) => dec_project_x(
                        es,
                        i + 1,
                        name,
                        group,
                        version,
                        Some(clone_strings(l)),
                        description,
                    ),
                    _ => Err(
                        FormatError::WrongShape { section: SectionPath::Project, key: k.clone() },
                    ),
                }
            }
        } else if str_eq(k.as_str(), "description") {
            if description.is_some() {
                Err(FormatError::DuplicateKey { section: SectionPath::Project, key: k.clone() })
            } else {
                match item {
                    Item::Text(s) => dec_project_x(
                        es,
                        i + 1,
                        name,
                        group,
                        version,
                        authors,
                        Some(s.clone()),
                    ),
                    _ => Err(
                        FormatError::WrongShape { section: SectionPath::Project, key: k.clone() },
                    ),
                }
            }
        } else {
            Err(FormatError::UnknownKey { section: SectionPath::Project, key: k.clone() })
        }
    }
}

} // verus!

// ---------------------------------------------------------------------------
// Executable decoding of the remaining sections
// ---------------------------------------------------------------------------

verus! {

pub(crate) fn dec_build_x(
    es: &Vec<(String, Item)>,
    i: usize,
    multiplatform: Option<bool>,
    languages: Option<Vec<String>>,
) -> (r: Result<BuildConfig, FormatError>)
    ensures
        r matches Ok(b) ==> dec_build_at(
            entry_list_view(es@),
            i as int,
            BuildAcc { multiplatform, languages: ostrs(languages) },
        ) == Ok::<BuildV, ErrV>(b@),
        r matches Err(e) ==> dec_build_at(
            entry_list_view(es@),
            i as int,
            BuildAcc { multiplatform, languages: ostrs(languages) },
        ) == Err::<BuildV, ErrV>(e@),
    decreases es.len() - i,
{
    if i >= es.len() {
        Ok(BuildConfig { multiplatform, languages })
    } else {
        let (k, item) = &es[i];
        if str_eq(k.as_str(), "multiplatform") {
            if multiplatform.is_some() {
                Err(FormatError::DuplicateKey { section: SectionPath::Build, key: k.clone() })
            } else {
                match item {
                    Item::Flag(b) => dec_build_x(es, i + 1, Some(*b), languages),
                    _ => Err(
                        FormatError::WrongShape { section: SectionPath::Build, key: k.clone() },
                    ),
                }
            }
        } else if str_eq(k.as_str(), "languages") {
            if languages.is_some() {
                Err(FormatError::DuplicateKey { section: SectionPath::Build, key: k.clone() })
            } else {
                match item {
                    Item::List(l) => dec_build_x(es, i + 1, multiplatform, Some(clone_strings(l))),
                    _ => Err(
                        FormatError::WrongShape { section: SectionPath::Build, key: k.clone() },
                    ),
                }
            }
        } else {
            Err(FormatError::UnknownKey { section: SectionPath::Build, key: k.clone() })
        }
    }
}

pub(crate) fn dec_jvm_x(
    es: &Vec<(String, Item)>,
    i: usize,
    enabled: Option<bool>,
    target: Option<String>,
) -> (r: Result<JvmTarget, FormatError>)
    ensures
        r matches Ok(j) ==> dec_jvm_at(
            entry_list_view(es@),
            i as int,
            JvmAcc { enabled, target: ostr(target) },
        ) == Ok::<JvmV, ErrV>(j@),
        r matches Err(e) ==> dec_jvm_at(
            entry_list_view(es@),
            i as int,
            JvmAcc { enabled, target: ostr(target) },
        ) == Err::<JvmV, ErrV>(e@),
    decreases es.len() - i,
{
    if i >= es.len() {
        match enabled {
            None => Err(
                FormatError::MissingField {
                    section: SectionPath::TargetsJvm,
                    key: "enabled".to_owned(),
                },
            ),
            Some(en) => Ok(JvmTarget { enabled: en, target }),
        }
    } else {
        let (k, item) = &es[i];
        if str_eq(k.as_str(), "enabled") {
            if enabled.is_some() {
                Err(FormatError::DuplicateKey { section: SectionPath::TargetsJvm, key: k.clone() })
            } else {
                match item {
                    Item::Flag(b) => dec_jvm_x(es, i + 1, Some(*b), target),
                    _ => Err(
                        FormatError::WrongShape { section: SectionPath::TargetsJvm, key: k.clone() },
                    ),
                }
            }
        } else if str_eq(k.as_str(), "target") {
            if target.is_some() {
                Err(FormatError::DuplicateKey { section: SectionPath::TargetsJvm, key: k.clone() })
            } else {
                match item {
                    Item::Text(s) => dec_jvm_x(es, i + 1, enabled, Some(s.clone())),
                    _ => Err(
                        FormatError::WrongShape { section: SectionPath::TargetsJvm, key: k.clone() },
                    ),
                }
            }
        } else {
            Err(FormatError::UnknownKey { section: SectionPath::TargetsJvm, key: k.clone() })
        }
    }
}

pub(crate) fn dec_enabled_x(section: SectionPath, es: &Vec<(String, Item)>, i: usize, a: Option<bool>) -> (r:
    Result<TargetEnabled, FormatError>)
    ensures
        r matches Ok(e) ==> dec_enabled_at(section, entry_list_view(es@), i as int, a)
            == Ok::<EnabledV, ErrV>(e@),
        r matches Err(e) ==> dec_enabled_at(section, entry_list_view(es@), i as int, a)
            == Err::<EnabledV, ErrV>(e@),
    decreases es.len() - i,
{
    if i >= es.len() {
        match a {
            None => Err(FormatError::MissingField { section, key: "enabled".to_owned() }),
            Some(en) => Ok(TargetEnabled { enabled: en }),
        }
    } else {
        let (k, item) = &es[i];
        if str_eq(k.as_str(), "enabled") {
            if a.is_some() {
                Err(FormatError::DuplicateKey { section, key: k.clone() })
            } else {
                match item {
                    Item::Flag(b) => dec_enabled_x(section, es, i + 1, Some(*b)),
                    _ => Err(FormatError::WrongShape { section, key: k.clone() }),
                }
            }
        } else {
            Err(FormatError::UnknownKey { section, key: k.clone() })
        }
    }
}

/// The binary kind a canonical name denotes, if any.
pub fn binary_kind_of_name_x(s: &str) -> (r: Option<FygBinaryType>)
    ensures
        r == binary_kind_of_name(s@),
{
    if str_eq(s, "executable") {
        Some(FygBinaryType::Executable)
    } else if str_eq(s, "test") {
        Some(FygBinaryType::Test)
    } else if str_eq(s, "sharedLib") {
        Some(FygBinaryType::SharedLib)
    } else if str_eq(s, "staticLib") {
        Some(FygBinaryType::StaticLib)
    } else if str_eq(s, "framework") {
        Some(FygBinaryType::Framework)
    } else {
        None
    }
}

pub(crate) fn dec_binary_x(
    es: &Vec<(String, Item)>,
    i: usize,
    binary_type: Option<FygBinaryType>,
    base_name: Option<String>,
) -> (r: Result<NativeBinaryConfig, FormatError>)
    ensures
        r matches Ok(b) ==> dec_binary_at(
            entry_list_view(es@),
            i as int,
            BinaryAcc { binary_type, base_name: ostr(base_name) },
        ) == Ok::<BinaryV, ErrV>(b@),
        r matches Err(e) ==> dec_binary_at(
            entry_list_view(es@),
            i as int,
            BinaryAcc { binary_type, base_name: ostr(base_name) },
        ) == Err::<BinaryV, ErrV>(e@),
    decreases es.len() - i,
{
    if i >= es.len() {
        match binary_type {
            None => Err(
                FormatError::MissingField {
                    section: SectionPath::TargetsNativeBinary,
                    key: "type".to_owned(),
                },
            ),
            Some(t) => Ok(NativeBinaryConfig { binary_type: t, base_name }),
        }
    } else {
        let (k, item) = &es[i];
        if str_eq(k.as_str(), "type") {
            if binary_type.is_some() {
                Err(
                    FormatError::DuplicateKey {
                        section: SectionPath::TargetsNativeBinary,
                        key: k.clone(),
                    },
                )
            } else {
                match item {
                    Item::Text(s) => match binary_kind_of_name_x(s.as_str()) {
                        Some(t) => dec_binary_x(es, i + 1, Some(t), base_name),
                        None => Err(
                            FormatError::WrongShape {
                                section: SectionPath::TargetsNativeBinary,
                                key: k.clone(),
                            },
                        ),
                    },
                    _ => Err(
                        FormatError::WrongShape {
                            section: SectionPath::TargetsNativeBinary,
                            key: k.clone(),
                        },
                    ),
                }
            }
        } else if str_eq(k.as_str(), "base-name") {
            if base_name.is_some() {
                Err(
                    FormatError::DuplicateKey {
                        section: SectionPath::TargetsNativeBinary,
                        key: k.clone(),
                    },
                )
            } else {
                match item {
                    Item::Text(s) => dec_binary_x(es, i + 1, binary_type, Some(s.clone())),
                    _ => Err(
                        FormatError::WrongShape {
                            section: SectionPath::TargetsNativeBinary,
                            key: k.clone(),
                        },
                    ),
                }
            }
        } else {
            Err(FormatError::UnknownKey { section: SectionPath::TargetsNativeBinary, key: k.clone() })
        }
    }
}

pub(crate) fn dec_test_x(es: &Vec<(String, Item)>, i: usize, a: Option<String>) -> (r: Result<
    TestConfig,
    FormatError,
>)
    ensures
        r matches Ok(t) ==> dec_test_at(entry_list_view(es@), i as int, ostr(a))
            == Ok::<TestV, ErrV>(t@),
        r matches Err(e) ==> dec_test_at(entry_list_view(es@), i as int, ostr(a))
            == Err::<TestV, ErrV>(e@),
    decreases es.len() - i,
{
    if i >= es.len() {
        Ok(TestConfig { framework: a })
    } else {
        let (k, item) = &es[i];
        if str_eq(k.as_str(), "framework") {
            if a.is_some() {
                Err(FormatError::DuplicateKey { section: SectionPath::Test, key: k.clone() })
            } else {
                match item {
                    Item::Text(s) => dec_test_x(es, i + 1, Some(s.clone())),
                    _ => Err(FormatError::WrongShape { section: SectionPath::Test, key: k.clone() }),
                }
            }
        } else {
            Err(FormatError::UnknownKey { section: SectionPath::Test, key: k.clone() })
        }
    }
}

pub(crate) fn dec_dep_table_x(
    section: SectionPath,
    ps: &Vec<(String, ScalarItem)>,
    i: usize,
    path: Option<String>,
    workspace: Option<bool>,
    version: Option<String>,
) -> (r: Result<DependencyConfig, FormatError>)
    ensures
        r matches Ok(c) ==> dec_dep_table_at(
            section,
            pairs_view(ps@),
            i as int,
            DepAcc { path: ostr(path), workspace, version: ostr(version) },
        ) == Ok::<DepConfigV, ErrV>(c@),
        r matches Err(e) ==> dec_dep_table_at(
            section,
            pairs_view(ps@),
            i as int,
            DepAcc { path: ostr(path), workspace, version: ostr(version) },
        ) == Err::<DepConfigV, ErrV>(e@),
    decreases ps.len() - i,
{
    if i >= ps.len() {
        Ok(DependencyConfig { path, workspace, version })
    } else {
        let (k, v) = &ps[i];
        if str_eq(k.as_str(), "path") {
            if path.is_some() {
                Err(FormatError::DuplicateKey { section, key: k.clone() })
            } else {
                match v {
                    ScalarItem::Text(s) => dec_dep_table_x(
                        section,
                        ps,
                        i + 1,
                        Some(s.clone()),
                        workspace,
                        version,
                    ),
                    _ => Err(FormatError::WrongShape { section, key: k.clone() }),
                }
            }
        } else if str_eq(k.as_str(), "workspace") {
            if workspace.is_some() {
                Err(FormatError::DuplicateKey { section, key: k.clone() })
            } else {
                match v {
                    ScalarItem::Flag(b) => dec_dep_table_x(
                        section,
                        ps,
                        i + 1,
                        path,
                        Some(*b),
                        version,
                    ),
                    _ => Err(FormatError::WrongShape { section, key: k.clone() }),
                }
            }
        } else if str_eq(k.as_str(), "version") {
            if version.is_some() {
                Err(FormatError::DuplicateKey { section, key: k.clone() })
            } else {
                match v {
                    ScalarItem::Text(s) => dec_dep_table_x(
                        section,
                        ps,
                        i + 1,
                        path,
                        workspace,
                        Some(s.clone()),
                    ),
                    _ => Err(FormatError::WrongShape { section, key: k.clone() }),
                }
            }
        } else {
            Err(FormatError::UnknownKey { section, key: k.clone() })
        }
    }
}

pub(crate) fn dec_dep_value_x(section: SectionPath, k: &String, item: &Item) -> (r: Result<
    DependencyValue,
    FormatError,
>)
    ensures
        r matches Ok(v) ==> dec_dep_value(section, k@, item@) == Ok::<DepValueV, ErrV>(v@),
        r matches Err(e) ==> dec_dep_value(section, k@, item@) == Err::<DepValueV, ErrV>(e@),
{
    match item {
        Item::Text(s) => Ok(DependencyValue::Version(s.clone())),
        Item::Table(ps) => match dec_dep_table_x(section, ps, 0, None, None, None) {
            Ok(c) => Ok(DependencyValue::Complex(c)),
            Err(e) => Err(e),
        },
        _ => Err(FormatError::WrongShape { section, key: k.clone() }),
    }
}

/// Whether the scope decoded so far already binds `k`.
pub(crate) fn scope_has_x(acc: &Vec<(String, DependencyValue)>, k: &str) -> (r: bool)
    ensures
        r == assoc_has(crate::config::scope_view(acc@), k@),
{
    let mut i: usize = 0;
    while i < acc.len()
        invariant
            0 <= i <= acc.len(),
            forall|j: int| 0 <= j < i ==> crate::config::scope_view(acc@)[j].0 != k@,
        decreases acc.len() - i,
    {
        let (ak, _) = &acc[i];
        if str_eq(ak.as_str(), k) {
            proof {
                assert(crate::config::scope_view(acc@)[i as int].0 == k@);
            }
            return true;
        }
        i = i + 1;
    }
    false
}

pub(crate) fn dec_scope_x(
    section: SectionPath,
    es: &Vec<(String, Item)>,
    i: usize,
    acc: Vec<(String, DependencyValue)>,
) -> (r: Result<Vec<(String, DependencyValue)>, FormatError>)
    ensures
        r matches Ok(m) ==> dec_scope_at(
            section,
            entry_list_view(es@),
            i as int,
            crate::config::scope_view(acc@),
        ) == Ok::<Seq<(Seq<char>, DepValueV)>, ErrV>(crate::config::scope_view(m@)),
        r matches Err(e) ==> dec_scope_at(
            section,
            entry_list_view(es@),
            i as int,
            crate::config::scope_view(acc@),
        ) == Err::<Seq<(Seq<char>, DepValueV)>, ErrV>(e@),
    decreases es.len() - i,
{
    if i >= es.len() {
        Ok(acc)
    } else {
        let (k, item) = &es[i];
        if scope_has_x(&acc, k.as_str()) {
            Err(FormatError::DuplicateKey { section, key: k.clone() })
        } else {
            match dec_dep_value_x(section, k, item) {
                Ok(v) => {
                    let ghost prev = crate::config::scope_view(acc@);
                    let mut acc2 = acc;
                    acc2.push((k.clone(), v));
                    proof {
                        assert(crate::config::scope_view(acc2@) =~= prev.push(
                            (k@, acc2@[acc2@.len() - 1].1@),
                        ));
                    }
                    dec_scope_x(section, es, i + 1, acc2)
                },
                Err(e) => Err(e),
            }
        }
    }
}

pub(crate) fn dec_repo_table_x(
    ps: &Vec<(String, ScalarItem)>,
    i: usize,
    repo_type: Option<String>,
    url: Option<String>,
) -> (r: Result<CustomRepository, FormatError>)
    ensures
        r matches Ok(c) ==> dec_repo_table_at(
            pairs_view(ps@),
            i as int,
            RepoAcc { repo_type: ostr(repo_type), url: ostr(url) },
        ) == Ok::<CustomRepoV, ErrV>(c@),
        r matches Err(e) ==> dec_repo_table_at(
            pairs_view(ps@),
            i as int,
            RepoAcc { repo_type: ostr(repo_type), url: ostr(url) },
        ) == Err::<CustomRepoV, ErrV>(e@),
    decreases ps.len() - i,
{
    if i >= ps.len() {
        match repo_type {
            None => Err(
                FormatError::MissingField {
                    section: SectionPath::Repositories,
                    key: "type".to_owned(),
                },
            ),
            Some(t) => match url {
                None => Err(
                    FormatError::MissingField {
                        section: SectionPath::Repositories,
                        key: "url".to_owned(),
                    },
                ),
                Some(u) => Ok(CustomRepository { repo_type: t, url: u }),
            },
        }
    } else {
        let (k, v) = &ps[i];
        if str_eq(k.as_str(), "type") {
            if repo_type.is_some() {
                Err(FormatError::DuplicateKey { section: SectionPath::Repositories, key: k.clone() })
            } else {
                match v {
                    ScalarItem::Text(s) => dec_repo_table_x(ps, i + 1, Some(s.clone()), url),
                    _ => Err(
                        FormatError::WrongShape {
                            section: SectionPath::Repositories,
                            key: k.clone(),
                        },
                    ),
                }
            }
        } else if str_eq(k.as_str(), "url") {
            if url.is_some() {
                Err(FormatError::DuplicateKey { section: SectionPath::Repositories, key: k.clone() })
            } else {
                match v {
                    ScalarItem::Text(s) => dec_repo_table_x(ps, i + 1, repo_type, Some(s.clone())),
                    _ => Err(
                        FormatError::WrongShape {
                            section: SectionPath::Repositories,
                            key: k.clone(),
                        },
                    ),
                }
            }
        } else {
            Err(FormatError::UnknownKey { section: SectionPath::Repositories, key: k.clone() })
        }
    }
}

pub(crate) fn dec_repo_value_x(k: &String, item: &Item) -> (r: Result<RepositoryConfig, FormatError>)
    ensures
        r matches Ok(v) ==> dec_repo_value(k@, item@) == Ok::<RepoV, ErrV>(v@),
        r matches Err(e) ==> dec_repo_value(k@, item@) == Err::<RepoV, ErrV>(e@),
{
    match item {
        Item::Flag(b) => Ok(RepositoryConfig::Enabled(*b)),
        Item::Table(ps) => match dec_repo_table_x(ps, 0, None, None) {
            Ok(c) => Ok(RepositoryConfig::Custom(c)),
            Err(e) => Err(e),
        },
        _ => Err(FormatError::WrongShape { section: SectionPath::Repositories, key: k.clone() }),
    }
}

pub(crate) fn repos_has_x(acc: &Vec<(String, RepositoryConfig)>, k: &str) -> (r: bool)
    ensures
        r == assoc_has(crate::config::repos_view(acc@), k@),
{
    let mut i: usize = 0;
    while i < acc.len()
        invariant
            0 <= i <= acc.len(),
            forall|j: int| 0 <= j < i ==> crate::config::repos_view(acc@)[j].0 != k@,
        decreases acc.len() - i,
    {
        let (ak, _) = &acc[i];
        if str_eq(ak.as_str(), k) {
            proof {
                assert(crate::config::repos_view(acc@)[i as int].0 == k@);
            }
            return true;
        }
        i = i + 1;
    }
    false
}

pub(crate) fn dec_repos_x(es: &Vec<(String, Item)>, i: usize, acc: Vec<(String, RepositoryConfig)>) -> (r:
    Result<Vec<(String, RepositoryConfig)>, FormatError>)
    ensures
        r matches Ok(m) ==> dec_repos_at(
            entry_list_view(es@),
            i as int,
            crate::config::repos_view(acc@),
        ) == Ok::<Seq<(Seq<char>, RepoV)>, ErrV>(crate::config::repos_view(m@)),
        r matches Err(e) ==> dec_repos_at(
            entry_list_view(es@),
            i as int,
            crate::config::repos_view(acc@),
        ) == Err::<Seq<(Seq<char>, RepoV)>, ErrV>(e@),
    decreases es.len() - i,
{
    if i >= es.len() {
        Ok(acc)
    } else {
        let (k, item) = &es[i];
        if repos_has_x(&acc, k.as_str()) {
            Err(FormatError::DuplicateKey { section: SectionPath::Repositories, key: k.clone() })
        } else {
            match dec_repo_value_x(k, item) {
                Ok(v) => {
                    let ghost prev = crate::config::repos_view(acc@);
                    let mut acc2 = acc;
                    acc2.push((k.clone(), v));
                    proof {
                        assert(crate::config::repos_view(acc2@) =~= prev.push(
                            (k@, acc2@[acc2@.len() - 1].1@),
                        ));
                    }
                    dec_repos_x(es, i + 1, acc2)
                },
                Err(e) => Err(e),
            }
        }
    }
}

} // verus!

// ---------------------------------------------------------------------------
// Executable encoding
// ---------------------------------------------------------------------------

verus! {

pub(crate) fn enc_project_x(p: &ProjectConfig) -> (r: Vec<(String, Item)>)
    ensures
        entry_list_view(r@) == enc_project(p@),
{
    let mut es: Vec<(String, Item)> = Vec::new();
    es.push(("name".to_owned(), Item::Text(p.name.clone())));
    es.push(("group".to_owned(), Item::Text(p.group.clone())));
    es.push(("version".to_owned(), Item::Text(p.version.clone())));
    proof {
        assert(entry_list_view(es@) =~= seq![
            ("name"@, ItemV::Text(p.name@)),
            ("group"@, ItemV::Text(p.group@)),
            ("version"@, ItemV::Text(p.version@)),
        ]);
    }
    let ghost base = entry_list_view(es@);
    match &p.authors {
        Some(a) => {
            es.push(("authors".to_owned(), Item::List(clone_strings(a))));
            proof {
                assert(entry_list_view(es@) =~= base.push(("authors"@, ItemV::List(a.deep_view()))));
            }
        },
        None => {},
    }
    let ghost base2 = entry_list_view(es@);
    match &p.description {
        Some(d) => {
            es.push(("description".to_owned(), Item::Text(d.clone())));
            proof {
                assert(entry_list_view(es@) =~= base2.push(("description"@, ItemV::Text(d@))));
            }
        },
        None => {},
    }
    proof {
        assert(entry_list_view(es@) =~= enc_project(p@));
    }
    es
}

pub(crate) fn enc_build_x(b: &BuildConfig) -> (r: Vec<(String, Item)>)
    ensures
        entry_list_view(r@) == enc_build(b@),
{
    let mut es: Vec<(String, Item)> = Vec::new();
    match b.multiplatform {
        Some(m) => {
            es.push(("multiplatform".to_owned(), Item::Flag(m)));
        },
        None => {},
    }
    let ghost base = entry_list_view(es@);
    match &b.languages {
        Some(l) => {
            es.push(("languages".to_owned(), Item::List(clone_strings(l))));
            proof {
                assert(entry_list_view(es@) =~= base.push(("languages"@, ItemV::List(l.deep_view()))));
            }
        },
        None => {},
    }
    proof {
        assert(entry_list_view(es@) =~= enc_build(b@));
    }
    es
}

pub(crate) fn enc_jvm_x(j: &JvmTarget) -> (r: Vec<(String, Item)>)
    ensures
        entry_list_view(r@) == enc_jvm(j@),
{
    let mut es: Vec<(String, Item)> = Vec::new();
    es.push(("enabled".to_owned(), Item::Flag(j.enabled)));
    match &j.target {
        Some(t) => {
            es.push(("target".to_owned(), Item::Text(t.clone())));
        },
        None => {},
    }
    proof {
        assert(entry_list_view(es@) =~= enc_jvm(j@));
    }
    es
}

pub(crate) fn enc_enabled_x(e: &TargetEnabled) -> (r: Vec<(String, Item)>)
    ensures
        entry_list_view(r@) == enc_enabled(e@),
{
    let mut es: Vec<(String, Item)> = Vec::new();
    es.push(("enabled".to_owned(), Item::Flag(e.enabled)));
    proof {
        assert(entry_list_view(es@) =~= enc_enabled(e@));
    }
    es
}

pub(crate) fn enc_binary_x(b: &NativeBinaryConfig) -> (r: Vec<(String, Item)>)
    ensures
        entry_list_view(r@) == enc_binary(b@),
{
    let mut es: Vec<(String, Item)> = Vec::new();
    es.push(("type".to_owned(), Item::Text(b.binary_type.name())));
    match &b.base_name {
        Some(n) => {
            es.push(("base-name".to_owned(), Item::Text(n.clone())));
        },
        None => {},
    }
    proof {
        assert(entry_list_view(es@) =~= enc_binary(b@));
    }
    es
}

pub(crate) fn enc_test_x(t: &TestConfig) -> (r: Vec<(String, Item)>)
    ensures
        entry_list_view(r@) == enc_test(t@),
{
    let mut es: Vec<(String, Item)> = Vec::new();
    match &t.framework {
        Some(f) => {
            es.push(("framework".to_owned(), Item::Text(f.clone())));
        },
        None => {},
    }
    proof {
        assert(entry_list_view(es@) =~= enc_test(t@));
    }
    es
}

pub(crate) fn enc_dep_value_x(v: &DependencyValue) -> (r: Item)
    ensures
        r@ == enc_dep_value(v@),
{
    match v {
        DependencyValue::Version(s) => Item::Text(s.clone()),
        DependencyValue::Complex(c) => {
            let mut ps: Vec<(String, ScalarItem)> = Vec::new();
            match &c.path {
                Some(p) => {
                    ps.push(("path".to_owned(), ScalarItem::Text(p.clone())));
                },
                None => {},
            }
            let ghost base = pairs_view(ps@);
            match c.workspace {
                Some(w) => {
                    ps.push(("workspace".to_owned(), ScalarItem::Flag(w)));
                    proof {
                        assert(pairs_view(ps@) =~= base.push(("workspace"@, ScalarV::Flag(w))));
                    }
                },
                None => {},
            }
            let ghost base2 = pairs_view(ps@);
            match &c.version {
                Some(x) => {
                    ps.push(("version".to_owned(), ScalarItem::Text(x.clone())));
                    proof {
                        assert(pairs_view(ps@) =~= base2.push(("version"@, ScalarV::Text(x@))));
                    }
                },
                None => {},
            }
            proof {
                assert(enc_dep_value(v@) matches ItemV::Table(w) && pairs_view(ps@) =~= w);
            }
            Item::Table(ps)
        },
    }
}

pub(crate) fn enc_scope_x(s: &Vec<(String, DependencyValue)>) -> (r: Vec<(String, Item)>)
    ensures
        entry_list_view(r@) == enc_scope(crate::config::scope_view(s@)),
{
    let mut es: Vec<(String, Item)> = Vec::new();
    let mut i: usize = 0;
    while i < s.len()
        invariant
            0 <= i <= s.len(),
            entry_list_view(es@) =~= enc_scope(crate::config::scope_view(s@)).take(i as int),
        decreases s.len() - i,
    {
        let (k, v) = &s[i];
        let ghost prev = entry_list_view(es@);
        es.push((k.clone(), enc_dep_value_x(v)));
        proof {
            assert(entry_list_view(es@) =~= prev.push((k@, enc_dep_value(s@[i as int].1@))));
            assert(enc_scope(crate::config::scope_view(s@))[i as int] == (s@[i as int].0@,
                enc_dep_value(s@[i as int].1@)));
            assert(entry_list_view(es@) =~= enc_scope(crate::config::scope_view(s@)).take(
                i as int + 1));
        }
        i = i + 1;
    }
    proof {
        assert(entry_list_view(es@) =~= enc_scope(crate::config::scope_view(s@)));
    }
    es
}

pub(crate) fn enc_repo_value_x(v: &RepositoryConfig) -> (r: Item)
    ensures
        r@ == enc_repo(v@),
{
    match v {
        RepositoryConfig::Enabled(b) => Item::Flag(*b),
        RepositoryConfig::Custom(c) => {
            let mut ps: Vec<(String, ScalarItem)> = Vec::new();
            ps.push(("type".to_owned(), ScalarItem::Text(c.repo_type.clone())));
            ps.push(("url".to_owned(), ScalarItem::Text(c.url.clone())));
            proof {
                assert(pairs_view(ps@) =~= seq![
                    ("type"@, ScalarV::Text(c.repo_type@)),
                    ("url"@, ScalarV::Text(c.url@)),
                ]);
            }
            Item::Table(ps)
        },
    }
}

pub(crate) fn enc_repos_x(s: &Vec<(String, RepositoryConfig)>) -> (r: Vec<(String, Item)>)
    ensures
        entry_list_view(r@) == enc_repos(crate::config::repos_view(s@)),
{
    let mut es: Vec<(String, Item)> = Vec::new();
    let mut i: usize = 0;
    while i < s.len()
        invariant
            0 <= i <= s.len(),
            entry_list_view(es@) =~= enc_repos(crate::config::repos_view(s@)).take(i as int),
        decreases s.len() - i,
    {
        let (k, v) = &s[i];
        let ghost prev = entry_list_view(es@);
        es.push((k.clone(), enc_repo_value_x(v)));
        proof {
            assert(entry_list_view(es@) =~= prev.push((k@, enc_repo(s@[i as int].1@))));
            assert(enc_repos(crate::config::repos_view(s@))[i as int] == (s@[i as int].0@,
                enc_repo(s@[i as int].1@)));
            assert(entry_list_view(es@) =~= enc_repos(crate::config::repos_view(s@)).take(
                i as int + 1));
        }
        i = i + 1;
    }
    proof {
        assert(entry_list_view(es@) =~= enc_repos(crate::config::repos_view(s@)));
    }
    es
}

} // verus!
