//! Schema types for every manifest section, together with their ghost models
//! (views) and the well-formedness predicates the codec contracts use.

use vstd::prelude::*;
use crate::FygBinaryType;

verus! {

// ---------------------------------------------------------------------------
// Ghost models
// ---------------------------------------------------------------------------

/// Ghost model of the required project-metadata section.
pub ghost struct ProjectV {
    pub name: Seq<char>,
    pub group: Seq<char>,
    pub version: Seq<char>,
    pub authors: Option<Seq<Seq<char>>>,
    pub description: Option<Seq<char>>,
}

/// Ghost model of the build-settings section.
pub ghost struct BuildV {
    pub multiplatform: Option<bool>,
    pub languages: Option<Seq<Seq<char>>>,
}

/// Ghost model of the JVM target slot.
pub ghost struct JvmV {
    pub enabled: bool,
    pub target: Option<Seq<char>>,
}

/// Ghost model of a simple platform slot.
pub ghost struct EnabledV {
    pub enabled: bool,
}

/// Ghost model of the native-binary description.
pub ghost struct BinaryV {
    pub binary_type: FygBinaryType,
    pub base_name: Option<Seq<char>>,
}

/// Ghost model of the native target slot.
pub ghost struct NativeV {
    pub binary: Option<BinaryV>,
}

/// Ghost model of the targets section.
pub ghost struct TargetsV {
    pub jvm: Option<JvmV>,
    pub ios_arm64: Option<EnabledV>,
    pub ios_x64: Option<EnabledV>,
    pub ios_simulator_arm64: Option<EnabledV>,
    pub linux_x64: Option<EnabledV>,
    pub macos_arm64: Option<EnabledV>,
    pub windows_x64: Option<EnabledV>,
    pub native: Option<NativeV>,
}

/// Ghost model of a structured dependency entry.
pub ghost struct DepConfigV {
    pub path: Option<Seq<char>>,
    pub workspace: Option<bool>,
    pub version: Option<Seq<char>>,
}

/// Ghost model of a dependency value: bare version string or structured.
pub ghost enum DepValueV {
    Version(Seq<char>),
    Complex(DepConfigV),
}

/// Ghost model of the dependencies section: three optional scopes, each an
/// ordered association list with unique keys.
pub ghost struct DepsV {
    pub common: Option<Seq<(Seq<char>, DepValueV)>>,
    pub jvm: Option<Seq<(Seq<char>, DepValueV)>>,
    pub test: Option<Seq<(Seq<char>, DepValueV)>>,
}

/// Ghost model of the test-settings section.
pub ghost struct TestV {
    pub framework: Option<Seq<char>>,
}

/// Ghost model of a custom repository declaration.
pub ghost struct CustomRepoV {
    pub repo_type: Seq<char>,
    pub url: Seq<char>,
}

/// Ghost model of a repository declaration: boolean flag or structured.
pub ghost enum RepoV {
    Enabled(bool),
    Custom(CustomRepoV),
}

/// Ghost model of a whole manifest document.
pub ghost struct DocV {
    pub project: ProjectV,
    pub build: Option<BuildV>,
    pub targets: Option<TargetsV>,
    pub dependencies: Option<DepsV>,
    pub test: Option<TestV>,
    pub repositories: Option<Seq<(Seq<char>, RepoV)>>,
}

// ---------------------------------------------------------------------------
// Executable schema types
// ---------------------------------------------------------------------------

/// Project metadata: name, group and version are required; `version` defaults
/// to `1.0.0-SNAPSHOT` on fresh construction.
#[derive(Clone, Debug, PartialEq)]
pub struct ProjectConfig {
    pub name: String,
    pub group: String,
    pub version: String,
    pub authors: Option<Vec<String>>,
    pub description: Option<String>,
}

/// Build settings.
#[derive(Clone, Debug, PartialEq)]
pub struct BuildConfig {
    pub multiplatform: Option<bool>,
    pub languages: Option<Vec<String>>,
}

/// The fixed set of platform slots; each is independently optional.
#[derive(Clone, Debug, PartialEq)]
pub struct TargetsConfig {
    pub jvm: Option<JvmTarget>,
    pub ios_arm64: Option<TargetEnabled>,
    pub ios_x64: Option<TargetEnabled>,
    pub ios_simulator_arm64: Option<TargetEnabled>,
    pub linux_x64: Option<TargetEnabled>,
    pub macos_arm64: Option<TargetEnabled>,
    pub windows_x64: Option<TargetEnabled>,
    pub native: Option<NativeConfig>,
}

/// The JVM target slot.
#[derive(Clone, Debug, PartialEq)]
pub struct JvmTarget {
    pub enabled: bool,
    pub target: Option<String>,
}

/// A simple platform slot carrying only an enabled flag.
#[derive(Clone, Debug, PartialEq)]
pub struct TargetEnabled {
    pub enabled: bool,
}

/// The native target slot.
#[derive(Clone, Debug, PartialEq)]
pub struct NativeConfig {
    pub binary: Option<NativeBinaryConfig>,
}

/// Output shape and base name of a native binary.
#[derive(Clone, Debug, PartialEq)]
pub struct NativeBinaryConfig {
    pub binary_type: FygBinaryType,
    pub base_name: Option<String>,
}

/// Dependency scopes. Each scope is an ordered association list from
/// dependency name to value; keys are unique within a scope.
#[derive(Clone, Debug, PartialEq)]
pub struct DependenciesConfig {
    pub common: Option<Vec<(String, DependencyValue)>>,
    pub jvm: Option<Vec<(String, DependencyValue)>>,
    pub test: Option<Vec<(String, DependencyValue)>>,
}

/// A dependency entry: either a bare version string or a structured object.
#[derive(Clone, Debug, PartialEq)]
pub enum DependencyValue {
    Version(String),
    Complex(DependencyConfig),
}

/// A structured dependency entry.
#[derive(Clone, Debug, PartialEq)]
pub struct DependencyConfig {
    pub path: Option<String>,
    pub workspace: Option<bool>,
    pub version: Option<String>,
}

/// Test settings.
#[derive(Clone, Debug, PartialEq)]
pub struct TestConfig {
    pub framework: Option<String>,
}

/// A repository declaration: a boolean flag for a well-known repository, or a
/// structured custom repository.
#[derive(Clone, Debug, PartialEq)]
pub enum RepositoryConfig {
    Enabled(bool),
    Custom(CustomRepository),
}

/// A custom repository with its kind and URL.
#[derive(Clone, Debug, PartialEq)]
pub struct CustomRepository {
    pub repo_type: String,
    pub url: String,
}

// ---------------------------------------------------------------------------
// Views
// ---------------------------------------------------------------------------

impl View for ProjectConfig {
    type V = ProjectV;

    open spec fn view(&self) -> ProjectV {
        ProjectV {
            name: self.name@,
            group: self.group@,
            version: self.version@,
            authors: match self.authors {
                Some(a) => Some(a.deep_view()),
                None => None,
            },
            description: match self.description {
                Some(d) => Some(d@),
                None => None,
            },
        }
    }
}

impl View for BuildConfig {
    type V = BuildV;

    open spec fn view(&self) -> BuildV {
        BuildV {
            multiplatform: self.multiplatform,
            languages: match self.languages {
                Some(l) => Some(l.deep_view()),
                None => None,
            },
        }
    }
}

impl View for JvmTarget {
    type V = JvmV;

    open spec fn view(&self) -> JvmV {
        JvmV {
            enabled: self.enabled,
            target: match self.target {
                Some(t) => Some(t@),
                None => None,
            },
        }
    }
}

impl View for TargetEnabled {
    type V = EnabledV;

    open spec fn view(&self) -> EnabledV {
        EnabledV { enabled: self.enabled }
    }
}

impl View for NativeBinaryConfig {
    type V = BinaryV;

    open spec fn view(&self) -> BinaryV {
        BinaryV {
            binary_type: self.binary_type,
            base_name: match self.base_name {
                Some(b) => Some(b@),
                None => None,
            },
        }
    }
}

impl View for NativeConfig {
    type V = NativeV;

    open spec fn view(&self) -> NativeV {
        NativeV {
            binary: match self.binary {
                Some(b) => Some(b@),
                None => None,
            },
        }
    }
}

impl View for TargetsConfig {
    type V = TargetsV;

    open spec fn view(&self) -> TargetsV {
        TargetsV {
            jvm: match self.jvm {
                Some(j) => Some(j@),
                None => None,
            },
            ios_arm64: match self.ios_arm64 {
                Some(t) => Some(t@),
                None => None,
            },
            ios_x64: match self.ios_x64 {
                Some(t) => Some(t@),
                None => None,
            },
            ios_simulator_arm64: match self.ios_simulator_arm64 {
                Some(t) => Some(t@),
                None => None,
            },
            linux_x64: match self.linux_x64 {
                Some(t) => Some(t@),
                None => None,
            },
            macos_arm64: match self.macos_arm64 {
                Some(t) => Some(t@),
                None => None,
            },
            windows_x64: match self.windows_x64 {
                Some(t) => Some(t@),
                None => None,
            },
            native: match self.native {
                Some(n) => Some(n@),
                None => None,
            },
        }
    }
}

impl View for DependencyConfig {
    type V = DepConfigV;

    open spec fn view(&self) -> DepConfigV {
        DepConfigV {
            path: match self.path {
                Some(p) => Some(p@),
                None => None,
            },
            workspace: self.workspace,
            version: match self.version {
                Some(v) => Some(v@),
                None => None,
            },
        }
    }
}

impl View for DependencyValue {
    type V = DepValueV;

    open spec fn view(&self) -> DepValueV {
        match self {
            DependencyValue::Version(v) => DepValueV::Version(v@),
            DependencyValue::Complex(c) => DepValueV::Complex(c@),
        }
    }
}

/// The ghost model of one dependency scope.
pub open spec fn scope_view(s: Seq<(String, DependencyValue)>) -> Seq<(Seq<char>, DepValueV)> {
    s.map_values(|p: (String, DependencyValue)| (p.0@, p.1@))
}

impl View for DependenciesConfig {
    type V = DepsV;

    open spec fn view(&self) -> DepsV {
        DepsV {
            common: match self.common {
                Some(c) => Some(scope_view(c@)),
                None => None,
            },
            jvm: match self.jvm {
                Some(c) => Some(scope_view(c@)),
                None => None,
            },
            test: match self.test {
                Some(c) => Some(scope_view(c@)),
                None => None,
            },
        }
    }
}

impl View for TestConfig {
    type V = TestV;

    open spec fn view(&self) -> TestV {
        TestV {
            framework: match self.framework {
                Some(f) => Some(f@),
                None => None,
            },
        }
    }
}

impl View for CustomRepository {
    type V = CustomRepoV;

    open spec fn view(&self) -> CustomRepoV {
        CustomRepoV { repo_type: self.repo_type@, url: self.url@ }
    }
}

impl View for RepositoryConfig {
    type V = RepoV;

    open spec fn view(&self) -> RepoV {
        match self {
            RepositoryConfig::Enabled(b) => RepoV::Enabled(*b),
            RepositoryConfig::Custom(c) => RepoV::Custom(c@),
        }
    }
}

/// The ghost model of the repositories section.
pub open spec fn repos_view(s: Seq<(String, RepositoryConfig)>) -> Seq<(Seq<char>, RepoV)> {
    s.map_values(|p: (String, RepositoryConfig)| (p.0@, p.1@))
}

// ---------------------------------------------------------------------------
// Well-formedness
// ---------------------------------------------------------------------------

/// Keys are unique within one scope or repository table.
pub open spec fn unique_keys<T>(s: Seq<(Seq<char>, T)>) -> bool {
    forall|i: int, j: int|
        0 <= i < j < s.len() ==> (#[trigger] s[i]).0 != (#[trigger] s[j]).0
}

/// Map keys are unique within each dependency scope and the repository table.
pub open spec fn unique_doc_keys(d: DocV) -> bool {
    &&& (d.dependencies matches Some(x) ==> {
        &&& (x.common matches Some(s) ==> unique_keys(s))
        &&& (x.jvm matches Some(s) ==> unique_keys(s))
        &&& (x.test matches Some(s) ==> unique_keys(s))
    })
    &&& (d.repositories matches Some(r) ==> unique_keys(r))
}

} // verus!
