//! The manifest document: the root aggregate owning one instance of each
//! optional section, with construction-with-defaults.

use vstd::prelude::*;
use crate::config::{
    repos_view, scope_view, BuildConfig, DependenciesConfig, DependencyValue, DepValueV, DocV,
    NativeConfig, ProjectConfig, ProjectV, RepoV, RepositoryConfig, TargetsConfig, TargetsV,
    TestConfig,
};
use crate::value::{
    apply_sec, dec_binary_x, dec_build_x, dec_enabled_x, dec_jvm_x, dec_project_x, dec_repos_x,
    dec_scope_x, dec_secs_at, dec_test_x, empty_acc, empty_targets, secs_view, AccV, ErrV,
    FormatError, Section, SectionPath, SectionV,
};
use crate::text::{parse_doc, render_doc};
use crate::value::{
    enc_binary_x, enc_build_x, enc_deps, enc_doc, enc_enabled_x, enc_jvm_x, enc_project_x,
    enc_repos, enc_repos_x, enc_scope_x, enc_targets, enc_test_x, entry_list_view, no_secs,
    ItemV, sec,
};
use crate::value::{enc_binary, enc_build, enc_enabled, enc_jvm, enc_project, enc_scope, enc_test};
use crate::default_version;

verus! {

/// A whole manifest document. Absent optional sections are `None`, which is
/// distinct from a present-but-empty section.
#[derive(Clone, Debug, PartialEq)]
pub struct FygToml {
    pub project: ProjectConfig,
    pub build: Option<BuildConfig>,
    pub targets: Option<TargetsConfig>,
    pub dependencies: Option<DependenciesConfig>,
    pub test: Option<TestConfig>,
    pub repositories: Option<Vec<(String, RepositoryConfig)>>,
}

impl View for FygToml {
    type V = DocV;

    open spec fn view(&self) -> DocV {
        DocV {
            project: self.project@,
            build: match self.build {
                Some(b) => Some(b@),
                None => None,
            },
            targets: match self.targets {
                Some(t) => Some(t@),
                None => None,
            },
            dependencies: match self.dependencies {
                Some(x) => Some(x@),
                None => None,
            },
            test: match self.test {
                Some(t) => Some(t@),
                None => None,
            },
            repositories: match self.repositories {
                Some(r) => Some(repos_view(r@)),
                None => None,
            },
        }
    }
}

/// The ghost model of a fresh document: required fields as given, the fixed
/// default version, every optional section and field absent.
pub open spec fn fresh_doc(name: Seq<char>, group: Seq<char>) -> DocV {
    DocV {
        project: ProjectV {
            name: name,
            group: group,
            version: default_version(),
            authors: None,
            description: None,
        },
        build: None,
        targets: None,
        dependencies: None,
        test: None,
        repositories: None,
    }
}

impl FygToml {
    /// Construct a fresh manifest: required fields supplied, version fixed to
    /// the default, every optional section absent. Never fails.
    pub fn new(name: &str, group: &str) -> (r: FygToml)
        ensures
            r@ == fresh_doc(name@, group@),
    {
        let r = FygToml {
            project: ProjectConfig {
                name: name.to_owned(),
                group: group.to_owned(),
                version: "1.0.0-SNAPSHOT".to_owned(),
                authors: None,
                description: None,
            },
            build: None,
            targets: None,
            dependencies: None,
            test: None,
            repositories: None,
        };
        r
    }
}

} // verus!

// ---------------------------------------------------------------------------
// Executable decoding of a section sequence
// ---------------------------------------------------------------------------

verus! {

/// Partial document while sections are folded, executable side.
pub(crate) struct AccX {
    pub(crate) project: Option<ProjectConfig>,
    pub(crate) build: Option<BuildConfig>,
    pub(crate) targets: Option<TargetsConfig>,
    pub(crate) dependencies: Option<DependenciesConfig>,
    pub(crate) test: Option<TestConfig>,
    pub(crate) repositories: Option<Vec<(String, RepositoryConfig)>>,
}

impl View for AccX {
    type V = AccV;

    closed spec fn view(&self) -> AccV {
        AccV {
            project: match self.project {
                Some(p) => Some(p@),
                None => None,
            },
            build: match self.build {
                Some(b) => Some(b@),
                None => None,
            },
            targets: match self.targets {
                Some(t) => Some(t@),
                None => None,
            },
            dependencies: match self.dependencies {
                Some(d) => Some(d@),
                None => None,
            },
            test: match self.test {
                Some(t) => Some(t@),
                None => None,
            },
            repositories: match self.repositories {
                Some(r) => Some(repos_view(r@)),
                None => None,
            },
        }
    }
}

fn empty_targets_x() -> (r: TargetsConfig)
    ensures
        r@ == empty_targets(),
{
    TargetsConfig {
        jvm: None,
        ios_arm64: None,
        ios_x64: None,
        ios_simulator_arm64: None,
        linux_x64: None,
        macos_arm64: None,
        windows_x64: None,
        native: None,
    }
}

/// Merge one targets subsection into the partial document.
#[verifier::rlimit(100)]
fn apply_targets_sec_x(acc: AccX, s: &Section) -> (r: Result<AccX, FormatError>)
    requires
        s.path == SectionPath::TargetsJvm || s.path == SectionPath::TargetsIosArm64 || s.path
            == SectionPath::TargetsIosX64 || s.path == SectionPath::TargetsIosSimulatorArm64
            || s.path == SectionPath::TargetsLinuxX64 || s.path == SectionPath::TargetsMacosArm64
            || s.path == SectionPath::TargetsWindowsX64 || s.path == SectionPath::TargetsNative
            || s.path == SectionPath::TargetsNativeBinary,
    ensures
        r matches Ok(a2) ==> apply_sec(acc@, s@) == Ok::<AccV, ErrV>(a2@),
        r matches Err(e) ==> apply_sec(acc@, s@) == Err::<AccV, ErrV>(e@),
{
    let AccX { project, build, targets, dependencies, test, repositories } = acc;
    match s.path {
        SectionPath::TargetsJvm => {
            let t = match targets {
                Some(x) => x,
                None => empty_targets_x(),
            };
            if t.jvm.is_some() {
                Err(FormatError::DuplicateSection { section: SectionPath::TargetsJvm })
            } else {
                match dec_jvm_x(&s.entries, 0, None, None) {
                    Ok(j) => Ok(
                        AccX {
                            project,
                            build,
                            targets: Some(TargetsConfig { jvm: Some(j), ..t }),
                            dependencies,
                            test,
                            repositories,
                        },
                    ),
                    Err(e) => Err(e),
                }
            }
        },
        SectionPath::TargetsIosArm64 => {
            let t = match targets {
                Some(x) => x,
                None => empty_targets_x(),
            };
            if t.ios_arm64.is_some() {
                Err(FormatError::DuplicateSection { section: SectionPath::TargetsIosArm64 })
            } else {
                match dec_enabled_x(SectionPath::TargetsIosArm64, &s.entries, 0, None) {
                    Ok(e) => Ok(
                        AccX {
                            project,
                            build,
                            targets: Some(TargetsConfig { ios_arm64: Some(e), ..t }),
                            dependencies,
                            test,
                            repositories,
                        },
                    ),
                    Err(e) => Err(e),
                }
            }
        },
        SectionPath::TargetsIosX64 => {
            let t = match targets {
                Some(x) => x,
                None => empty_targets_x(),
            };
            if t.ios_x64.is_some() {
                Err(FormatError::DuplicateSection { section: SectionPath::TargetsIosX64 })
            } else {
                match dec_enabled_x(SectionPath::TargetsIosX64, &s.entries, 0, None) {
                    Ok(e) => Ok(
                        AccX {
                            project,
                            build,
                            targets: Some(TargetsConfig { ios_x64: Some(e), ..t }),
                            dependencies,
                            test,
                            repositories,
                        },
                    ),
                    Err(e) => Err(e),
                }
            }
        },
        SectionPath::TargetsIosSimulatorArm64 => {
            let t = match targets {
                Some(x) => x,
                None => empty_targets_x(),
            };
            if t.ios_simulator_arm64.is_some() {
                Err(
                    FormatError::DuplicateSection {
                        section: SectionPath::TargetsIosSimulatorArm64,
                    },
                )
            } else {
                match dec_enabled_x(SectionPath::TargetsIosSimulatorArm64, &s.entries, 0, None) {
                    Ok(e) => Ok(
                        AccX {
                            project,
                            build,
                            targets: Some(TargetsConfig { ios_simulator_arm64: Some(e), ..t }),
                            dependencies,
                            test,
                            repositories,
                        },
                    ),
                    Err(e) => Err(e),
                }
            }
        },
        SectionPath::TargetsLinuxX64 => {
            let t = match targets {
                Some(x) => x,
                None => empty_targets_x(),
            };
            if t.linux_x64.is_some() {
                Err(FormatError::DuplicateSection { section: SectionPath::TargetsLinuxX64 })
            } else {
                match dec_enabled_x(SectionPath::TargetsLinuxX64, &s.entries, 0, None) {
                    Ok(e) => Ok(
                        AccX {
                            project,
                            build,
                            targets: Some(TargetsConfig { linux_x64: Some(e), ..t }),
                            dependencies,
                            test,
                            repositories,
                        },
                    ),
                    Err(e) => Err(e),
                }
            }
        },
        SectionPath::TargetsMacosArm64 => {
            let t = match targets {
                Some(x) => x,
                None => empty_targets_x(),
            };
            if t.macos_arm64.is_some() {
                Err(FormatError::DuplicateSection { section: SectionPath::TargetsMacosArm64 })
            } else {
                match dec_enabled_x(SectionPath::TargetsMacosArm64, &s.entries, 0, None) {
                    Ok(e) => Ok(
                        AccX {
                            project,
                            build,
                            targets: Some(TargetsConfig { macos_arm64: Some(e), ..t }),
                            dependencies,
                            test,
                            repositories,
                        },
                    ),
                    Err(e) => Err(e),
                }
            }
        },
        SectionPath::TargetsWindowsX64 => {
            let t = match targets {
                Some(x) => x,
                None => empty_targets_x(),
            };
            if t.windows_x64.is_some() {
                Err(FormatError::DuplicateSection { section: SectionPath::TargetsWindowsX64 })
            } else {
                match dec_enabled_x(SectionPath::TargetsWindowsX64, &s.entries, 0, None) {
                    Ok(e) => Ok(
                        AccX {
                            project,
                            build,
                            targets: Some(TargetsConfig { windows_x64: Some(e), ..t }),
                            dependencies,
                            test,
                            repositories,
                        },
                    ),
                    Err(e) => Err(e),
                }
            }
        },
        SectionPath::TargetsNative => {
            let t = match targets {
                Some(x) => x,
                None => empty_targets_x(),
            };
            if t.native.is_some() {
                Err(FormatError::DuplicateSection { section: SectionPath::TargetsNative })
            } else if s.entries.len() == 0 {
                Ok(
                    AccX {
                        project,
                        build,
                        targets: Some(
                            TargetsConfig { native: Some(NativeConfig { binary: None }), ..t },
                        ),
                        dependencies,
                        test,
                        repositories,
                    },
                )
            } else {
                Err(
                    FormatError::UnknownKey {
                        section: SectionPath::TargetsNative,
                        key: s.entries[0].0.clone(),
                    },
                )
            }
        },
        SectionPath::TargetsNativeBinary => {
            let t = match targets {
                Some(x) => x,
                None => empty_targets_x(),
            };
            let TargetsConfig {
                jvm,
                ios_arm64,
                ios_x64,
                ios_simulator_arm64,
                linux_x64,
                macos_arm64,
                windows_x64,
                native,
            } = t;
            let n = match native {
                Some(x) => x,
                None => NativeConfig { binary: None },
            };
            if n.binary.is_some() {
                Err(FormatError::DuplicateSection { section: SectionPath::TargetsNativeBinary })
            } else {
                match dec_binary_x(&s.entries, 0, None, None) {
                    Ok(b) => Ok(
                        AccX {
                            project,
                            build,
                            targets: Some(
                                TargetsConfig {
                                    jvm,
                                    ios_arm64,
                                    ios_x64,
                                    ios_simulator_arm64,
                                    linux_x64,
                                    macos_arm64,
                                    windows_x64,
                                    native: Some(NativeConfig { binary: Some(b) }),
                                },
                            ),
                            dependencies,
                            test,
                            repositories,
                        },
                    ),
                    Err(e) => Err(e),
                }
            }
        },
        _ => {
            proof {
                assert(false);
            }
            Err(FormatError::DuplicateSection { section: SectionPath::Targets })
        },
    }
}

/// Merge one dependency scope into the partial document.
#[verifier::rlimit(100)]
fn apply_deps_sec_x(acc: AccX, s: &Section) -> (r: Result<AccX, FormatError>)
    requires
        s.path == SectionPath::DependenciesCommon || s.path == SectionPath::DependenciesJvm
            || s.path == SectionPath::DependenciesTest,
    ensures
        r matches Ok(a2) ==> apply_sec(acc@, s@) == Ok::<AccV, ErrV>(a2@),
        r matches Err(e) ==> apply_sec(acc@, s@) == Err::<AccV, ErrV>(e@),
{
    let AccX { project, build, targets, dependencies, test, repositories } = acc;
    match s.path {
        SectionPath::DependenciesCommon => {
            let d = match dependencies {
                Some(x) => x,
                None => DependenciesConfig { common: None, jvm: None, test: None },
            };
            if d.common.is_some() {
                Err(FormatError::DuplicateSection { section: SectionPath::DependenciesCommon })
            } else {
                let acc0: Vec<(String, DependencyValue)> = Vec::new();
                proof {
                    assert(scope_view(acc0@) =~= Seq::<(Seq<char>, DepValueV)>::empty());
                }
                match dec_scope_x(SectionPath::DependenciesCommon, &s.entries, 0, acc0) {
                    Ok(m) => Ok(
                        AccX {
                            project,
                            build,
                            targets,
                            dependencies: Some(DependenciesConfig { common: Some(m), ..d }),
                            test,
                            repositories,
                        },
                    ),
                    Err(e) => Err(e),
                }
            }
        },
        SectionPath::DependenciesJvm => {
            let d = match dependencies {
                Some(x) => x,
                None => DependenciesConfig { common: None, jvm: None, test: None },
            };
            if d.jvm.is_some() {
                Err(FormatError::DuplicateSection { section: SectionPath::DependenciesJvm })
            } else {
                let acc0: Vec<(String, DependencyValue)> = Vec::new();
                proof {
                    assert(scope_view(acc0@) =~= Seq::<(Seq<char>, DepValueV)>::empty());
                }
                match dec_scope_x(SectionPath::DependenciesJvm, &s.entries, 0, acc0) {
                    Ok(m) => Ok(
                        AccX {
                            project,
                            build,
                            targets,
                            dependencies: Some(DependenciesConfig { jvm: Some(m), ..d }),
                            test,
                            repositories,
                        },
                    ),
                    Err(e) => Err(e),
                }
            }
        },
        SectionPath::DependenciesTest => {
            let d = match dependencies {
                Some(x) => x,
                None => DependenciesConfig { common: None, jvm: None, test: None },
            };
            if d.test.is_some() {
                Err(FormatError::DuplicateSection { section: SectionPath::DependenciesTest })
            } else {
                let acc0: Vec<(String, DependencyValue)> = Vec::new();
                proof {
                    assert(scope_view(acc0@) =~= Seq::<(Seq<char>, DepValueV)>::empty());
                }
                match dec_scope_x(SectionPath::DependenciesTest, &s.entries, 0, acc0) {
                    Ok(m) => Ok(
                        AccX {
                            project,
                            build,
                            targets,
                            dependencies: Some(DependenciesConfig { test: Some(m), ..d }),
                            test,
                            repositories,
                        },
                    ),
                    Err(e) => Err(e),
                }
            }
        },
        _ => {
            proof {
                assert(false);
            }
            Err(FormatError::DuplicateSection { section: SectionPath::Dependencies })
        },
    }
}

/// Merge one decoded section into the partial document.
#[verifier::rlimit(100)]
fn apply_sec_x(acc: AccX, s: &Section) -> (r: Result<AccX, FormatError>)
    ensures
        r matches Ok(a2) ==> apply_sec(acc@, s@) == Ok::<AccV, ErrV>(a2@),
        r matches Err(e) ==> apply_sec(acc@, s@) == Err::<AccV, ErrV>(e@),
{
    let AccX { project, build, targets, dependencies, test, repositories } = acc;
    match s.path {
        SectionPath::Project => {
            if project.is_some() {
                Err(FormatError::DuplicateSection { section: SectionPath::Project })
            } else {
                match dec_project_x(&s.entries, 0, None, None, None, None, None) {
                    Ok(p) => Ok(
                        AccX { project: Some(p), build, targets, dependencies, test, repositories },
                    ),
                    Err(e) => Err(e),
                }
            }
        },
        SectionPath::Build => {
            if build.is_some() {
                Err(FormatError::DuplicateSection { section: SectionPath::Build })
            } else {
                match dec_build_x(&s.entries, 0, None, None) {
                    Ok(b) => Ok(
                        AccX { project, build: Some(b), targets, dependencies, test, repositories },
                    ),
                    Err(e) => Err(e),
                }
            }
        },
        SectionPath::Targets => {
            if targets.is_some() {
                Err(FormatError::DuplicateSection { section: SectionPath::Targets })
            } else if s.entries.len() == 0 {
                Ok(
                    AccX {
                        project,
                        build,
                        targets: Some(empty_targets_x()),
                        dependencies,
                        test,
                        repositories,
                    },
                )
            } else {
                Err(
                    FormatError::UnknownKey {
                        section: SectionPath::Targets,
                        key: s.entries[0].0.clone(),
                    },
                )
            }
        },
        SectionPath::Dependencies => {
            if dependencies.is_some() {
                Err(FormatError::DuplicateSection { section: SectionPath::Dependencies })
            } else if s.entries.len() == 0 {
                Ok(
                    AccX {
                        project,
                        build,
                        targets,
                        dependencies: Some(
                            DependenciesConfig { common: None, jvm: None, test: None },
                        ),
                        test,
                        repositories,
                    },
                )
            } else {
                Err(
                    FormatError::UnknownKey {
                        section: SectionPath::Dependencies,
                        key: s.entries[0].0.clone(),
                    },
                )
            }
        },
        SectionPath::TargetsJvm
        | SectionPath::TargetsIosArm64
        | SectionPath::TargetsIosX64
        | SectionPath::TargetsIosSimulatorArm64
        | SectionPath::TargetsLinuxX64
        | SectionPath::TargetsMacosArm64
        | SectionPath::TargetsWindowsX64
        | SectionPath::TargetsNative
        | SectionPath::TargetsNativeBinary => apply_targets_sec_x(
            AccX { project, build, targets, dependencies, test, repositories },
            s,
        ),
        SectionPath::DependenciesCommon
        | SectionPath::DependenciesJvm
        | SectionPath::DependenciesTest => apply_deps_sec_x(
            AccX { project, build, targets, dependencies, test, repositories },
            s,
        ),
        SectionPath::Test => {
            if test.is_some() {
                Err(FormatError::DuplicateSection { section: SectionPath::Test })
            } else {
                match dec_test_x(&s.entries, 0, None) {
                    Ok(t) => Ok(
                        AccX { project, build, targets, dependencies, test: Some(t), repositories },
                    ),
                    Err(e) => Err(e),
                }
            }
        },
        SectionPath::Repositories => {
            if repositories.is_some() {
                Err(FormatError::DuplicateSection { section: SectionPath::Repositories })
            } else {
                let acc0: Vec<(String, RepositoryConfig)> = Vec::new();
                proof {
                    assert(repos_view(acc0@) =~= Seq::<(Seq<char>, RepoV)>::empty());
                }
                match dec_repos_x(&s.entries, 0, acc0) {
                    Ok(m) => Ok(
                        AccX {
                            project,
                            build,
                            targets,
                            dependencies,
                            test,
                            repositories: Some(m),
                        },
                    ),
                    Err(e) => Err(e),
                }
            }
        },
    }
}

fn dec_secs_x(ss: &Vec<Section>, i: usize, acc: AccX) -> (r: Result<FygToml, FormatError>)
    ensures
        r matches Ok(d) ==> dec_secs_at(secs_view(ss@), i as int, acc@) == Ok::<DocV, ErrV>(d@),
        r matches Err(e) ==> dec_secs_at(secs_view(ss@), i as int, acc@) == Err::<DocV, ErrV>(e@),
    decreases ss.len() - i,
{
    if i >= ss.len() {
        let AccX { project, build, targets, dependencies, test, repositories } = acc;
        match project {
            None => Err(FormatError::MissingSection { section: SectionPath::Project }),
            Some(p) => Ok(FygToml { project: p, build, targets, dependencies, test, repositories }),
        }
    } else {
        proof {
            assert(secs_view(ss@)[i as int] == ss@[i as int]@);
        }
        match apply_sec_x(acc, &ss[i]) {
            Ok(a2) => dec_secs_x(ss, i + 1, a2),
            Err(e) => Err(e),
        }
    }
}

impl FygToml {
    /// Parse manifest text into a document: sections and entries are decoded
    /// per the grammar, variants resolved by shape, required fields enforced,
    /// unknown keys and unknown sections rejected.
    pub fn from_str(content: &str) -> (r: Result<FygToml, FormatError>)
        ensures
            r matches Ok(d) ==> parse_doc(content@) == Ok::<DocV, ErrV>(d@),
            r matches Err(e) ==> parse_doc(content@) == Err::<DocV, ErrV>(e@),
    {
        let done0: Vec<Section> = Vec::new();
        proof {
            assert(secs_view(done0@) =~= Seq::<SectionV>::empty());
        }
        match crate::text::parse_secs_x(content, 0, 1, None, done0) {
            Ok(ss) => {
                let acc0 = AccX {
                    project: None,
                    build: None,
                    targets: None,
                    dependencies: None,
                    test: None,
                    repositories: None,
                };
                proof {
                    assert(acc0@ == empty_acc());
                }
                dec_secs_x(&ss, 0, acc0)
            },
            Err(e) => Err(e),
        }
    }
}

} // verus!

// ---------------------------------------------------------------------------
// Executable encoding and rendering
// ---------------------------------------------------------------------------

verus! {

/// The grouping header and the first four target slots of the encoding.
spec fn enc_targets_front(t: TargetsV) -> Seq<SectionV> {
    seq![sec(SectionPath::Targets, Seq::<(Seq<char>, ItemV)>::empty())] + (match t.jvm {
        Some(j) => seq![sec(SectionPath::TargetsJvm, enc_jvm(j))],
        None => no_secs(),
    }) + (match t.ios_arm64 {
        Some(e) => seq![sec(SectionPath::TargetsIosArm64, enc_enabled(e))],
        None => no_secs(),
    }) + (match t.ios_x64 {
        Some(e) => seq![sec(SectionPath::TargetsIosX64, enc_enabled(e))],
        None => no_secs(),
    }) + (match t.ios_simulator_arm64 {
        Some(e) => seq![sec(SectionPath::TargetsIosSimulatorArm64, enc_enabled(e))],
        None => no_secs(),
    })
}

/// The last four target slots of the encoding.
spec fn enc_targets_back(t: TargetsV) -> Seq<SectionV> {
    (match t.linux_x64 {
        Some(e) => seq![sec(SectionPath::TargetsLinuxX64, enc_enabled(e))],
        None => no_secs(),
    }) + (match t.macos_arm64 {
        Some(e) => seq![sec(SectionPath::TargetsMacosArm64, enc_enabled(e))],
        None => no_secs(),
    }) + (match t.windows_x64 {
        Some(e) => seq![sec(SectionPath::TargetsWindowsX64, enc_enabled(e))],
        None => no_secs(),
    }) + (match t.native {
        Some(n) => seq![sec(SectionPath::TargetsNative, Seq::<(Seq<char>, ItemV)>::empty())]
            + (match n.binary {
                Some(bin) => seq![sec(SectionPath::TargetsNativeBinary, enc_binary(bin))],
                None => no_secs(),
            }),
        None => no_secs(),
    })
}

proof fn lemma_enc_targets_split(t: TargetsV)
    ensures
        enc_targets(t) == enc_targets_front(t) + enc_targets_back(t),
{
    let h0 = seq![sec(SectionPath::Targets, Seq::<(Seq<char>, ItemV)>::empty())];
    let m1 = (match t.jvm {
        Some(j) => seq![sec(SectionPath::TargetsJvm, enc_jvm(j))],
        None => no_secs(),
    });
    let m2 = (match t.ios_arm64 {
        Some(e) => seq![sec(SectionPath::TargetsIosArm64, enc_enabled(e))],
        None => no_secs(),
    });
    let m3 = (match t.ios_x64 {
        Some(e) => seq![sec(SectionPath::TargetsIosX64, enc_enabled(e))],
        None => no_secs(),
    });
    let m4 = (match t.ios_simulator_arm64 {
        Some(e) => seq![sec(SectionPath::TargetsIosSimulatorArm64, enc_enabled(e))],
        None => no_secs(),
    });
    let m5 = (match t.linux_x64 {
        Some(e) => seq![sec(SectionPath::TargetsLinuxX64, enc_enabled(e))],
        None => no_secs(),
    });
    let m6 = (match t.macos_arm64 {
        Some(e) => seq![sec(SectionPath::TargetsMacosArm64, enc_enabled(e))],
        None => no_secs(),
    });
    let m7 = (match t.windows_x64 {
        Some(e) => seq![sec(SectionPath::TargetsWindowsX64, enc_enabled(e))],
        None => no_secs(),
    });
    let m8 = (match t.native {
        Some(n) => seq![sec(SectionPath::TargetsNative, Seq::<(Seq<char>, ItemV)>::empty())]
            + (match n.binary {
                Some(bin) => seq![sec(SectionPath::TargetsNativeBinary, enc_binary(bin))],
                None => no_secs(),
            }),
        None => no_secs(),
    });
    let f = h0 + m1 + m2 + m3 + m4;
    vstd::seq_lib::lemma_concat_associative(f, m5, m6);
    vstd::seq_lib::lemma_concat_associative(f, m5 + m6, m7);
    vstd::seq_lib::lemma_concat_associative(f, m5 + m6 + m7, m8);
    assert(enc_targets(t) == ((f + m5) + m6) + m7 + m8);
    assert(f + (m5 + m6 + m7 + m8) == enc_targets_front(t) + enc_targets_back(t));
}

/// Append the grouping header and the first four target slots.
#[verifier::rlimit(100)]
fn enc_targets_push_front(ss: &mut Vec<Section>, t: &TargetsConfig)
    ensures
        secs_view(final(ss)@) == secs_view(old(ss)@) + enc_targets_front(t@),
{
    broadcast use Seq::add_empty_right;

    let ghost g0 = secs_view(ss@);
    let th = Section { path: SectionPath::Targets, entries: Vec::new() };
    proof {
        assert(entry_list_view(th.entries@) =~= Seq::<(Seq<char>, ItemV)>::empty());
    }
    ss.push(th);
    let ghost a0 = seq![sec(SectionPath::Targets, Seq::<(Seq<char>, ItemV)>::empty())];
    proof {
        assert(secs_view(ss@) =~= g0 + a0);
    }
    let ghost m1 = (match &t.jvm {
        Some(j) => seq![sec(SectionPath::TargetsJvm, enc_jvm(j@))],
        None => no_secs(),
    });
    match &t.jvm {
        Some(j) => {
            let ghost prev = secs_view(ss@);
            ss.push(Section { path: SectionPath::TargetsJvm, entries: enc_jvm_x(j) });
            proof {
                assert(secs_view(ss@) =~= prev + m1);
            }
        },
        None => {},
    }
    proof {
        vstd::seq_lib::lemma_concat_associative(g0, a0, m1);
    }
    let ghost a1 = a0 + m1;
    proof {
        assert(secs_view(ss@) == g0 + a1);
    }
    let ghost m2 = (match &t.ios_arm64 {
        Some(e) => seq![sec(SectionPath::TargetsIosArm64, enc_enabled(e@))],
        None => no_secs(),
    });
    match &t.ios_arm64 {
        Some(e) => {
            let ghost prev = secs_view(ss@);
            ss.push(Section { path: SectionPath::TargetsIosArm64, entries: enc_enabled_x(e) });
            proof {
                assert(secs_view(ss@) =~= prev + m2);
            }
        },
        None => {},
    }
    proof {
        vstd::seq_lib::lemma_concat_associative(g0, a1, m2);
    }
    let ghost a2 = a1 + m2;
    proof {
        assert(secs_view(ss@) == g0 + a2);
    }
    let ghost m3 = (match &t.ios_x64 {
        Some(e) => seq![sec(SectionPath::TargetsIosX64, enc_enabled(e@))],
        None => no_secs(),
    });
    match &t.ios_x64 {
        Some(e) => {
            let ghost prev = secs_view(ss@);
            ss.push(Section { path: SectionPath::TargetsIosX64, entries: enc_enabled_x(e) });
            proof {
                assert(secs_view(ss@) =~= prev + m3);
            }
        },
        None => {},
    }
    proof {
        vstd::seq_lib::lemma_concat_associative(g0, a2, m3);
    }
    let ghost a3 = a2 + m3;
    proof {
        assert(secs_view(ss@) == g0 + a3);
    }
    let ghost m4 = (match &t.ios_simulator_arm64 {
        Some(e) => seq![sec(SectionPath::TargetsIosSimulatorArm64, enc_enabled(e@))],
        None => no_secs(),
    });
    match &t.ios_simulator_arm64 {
        Some(e) => {
            let ghost prev = secs_view(ss@);
            ss.push(Section { path: SectionPath::TargetsIosSimulatorArm64, entries: enc_enabled_x(e) });
            proof {
                assert(secs_view(ss@) =~= prev + m4);
            }
        },
        None => {},
    }
    proof {
        vstd::seq_lib::lemma_concat_associative(g0, a3, m4);
    }
    let ghost a4 = a3 + m4;
    proof {
        assert(secs_view(ss@) == g0 + a4);
    }
    proof {
        assert(a4 == enc_targets_front(t@));
    }
}

/// Append the last four target slots.
#[verifier::rlimit(100)]
fn enc_targets_push_back(ss: &mut Vec<Section>, t: &TargetsConfig)
    ensures
        secs_view(final(ss)@) == secs_view(old(ss)@) + enc_targets_back(t@),
{
    broadcast use Seq::add_empty_right;
    broadcast use Seq::add_empty_left;

    let ghost g0 = secs_view(ss@);
    let ghost a4 = Seq::<SectionV>::empty();
    proof {
        assert(secs_view(ss@) == g0 + a4);
    }
    let ghost m5 = (match &t.linux_x64 {
        Some(e) => seq![sec(SectionPath::TargetsLinuxX64, enc_enabled(e@))],
        None => no_secs(),
    });
    match &t.linux_x64 {
        Some(e) => {
            let ghost prev = secs_view(ss@);
            ss.push(Section { path: SectionPath::TargetsLinuxX64, entries: enc_enabled_x(e) });
            proof {
                assert(secs_view(ss@) =~= prev + m5);
            }
        },
        None => {},
    }
    proof {
        vstd::seq_lib::lemma_concat_associative(g0, a4, m5);
    }
    let ghost a5 = a4 + m5;
    proof {
        assert(secs_view(ss@) == g0 + a5);
    }
    let ghost m6 = (match &t.macos_arm64 {
        Some(e) => seq![sec(SectionPath::TargetsMacosArm64, enc_enabled(e@))],
        None => no_secs(),
    });
    match &t.macos_arm64 {
        Some(e) => {
            let ghost prev = secs_view(ss@);
            ss.push(Section { path: SectionPath::TargetsMacosArm64, entries: enc_enabled_x(e) });
            proof {
                assert(secs_view(ss@) =~= prev + m6);
            }
        },
        None => {},
    }
    proof {
        vstd::seq_lib::lemma_concat_associative(g0, a5, m6);
    }
    let ghost a6 = a5 + m6;
    proof {
        assert(secs_view(ss@) == g0 + a6);
    }
    let ghost m7 = (match &t.windows_x64 {
        Some(e) => seq![sec(SectionPath::TargetsWindowsX64, enc_enabled(e@))],
        None => no_secs(),
    });
    match &t.windows_x64 {
        Some(e) => {
            let ghost prev = secs_view(ss@);
            ss.push(Section { path: SectionPath::TargetsWindowsX64, entries: enc_enabled_x(e) });
            proof {
                assert(secs_view(ss@) =~= prev + m7);
            }
        },
        None => {},
    }
    proof {
        vstd::seq_lib::lemma_concat_associative(g0, a6, m7);
    }
    let ghost a7 = a6 + m7;
    proof {
        assert(secs_view(ss@) == g0 + a7);
    }
    let ghost m8 = (match &t.native {
        Some(n) => seq![sec(SectionPath::TargetsNative, Seq::<(Seq<char>, ItemV)>::empty())]
            + (match &n.binary {
                Some(bin) => seq![sec(SectionPath::TargetsNativeBinary, enc_binary(bin@))],
                None => no_secs(),
            }),
        None => no_secs(),
    });
    match &t.native {
        Some(n) => {
            let ghost prev = secs_view(ss@);
            let nh = Section { path: SectionPath::TargetsNative, entries: Vec::new() };
            proof {
                assert(entry_list_view(nh.entries@) =~= Seq::<(Seq<char>, ItemV)>::empty());
            }
            ss.push(nh);
            match &n.binary {
                Some(bin) => {
                    ss.push(
                        Section { path: SectionPath::TargetsNativeBinary, entries: enc_binary_x(bin) },
                    );
                    proof {
                        assert(secs_view(ss@) =~= prev + m8);
                    }
                },
                None => {
                    proof {
                        assert(secs_view(ss@) =~= prev + m8);
                    }
                },
            }
        },
        None => {},
    }
    proof {
        vstd::seq_lib::lemma_concat_associative(g0, a7, m8);
    }
    let ghost a8 = a7 + m8;
    proof {
        assert(secs_view(ss@) == g0 + a8);
        assert(a8 =~= enc_targets_back(t@));
    }
}

/// Append the targets block of the canonical encoding.
fn enc_targets_push(ss: &mut Vec<Section>, t: &TargetsConfig)
    ensures
        secs_view(final(ss)@) == secs_view(old(ss)@) + enc_targets(t@),
{
    let ghost g0 = secs_view(ss@);
    enc_targets_push_front(ss, t);
    enc_targets_push_back(ss, t);
    proof {
        vstd::seq_lib::lemma_concat_associative(g0, enc_targets_front(t@), enc_targets_back(t@));
        lemma_enc_targets_split(t@);
    }
}

/// Append the dependencies block of the canonical encoding.
#[verifier::rlimit(100)]
fn enc_deps_push(ss: &mut Vec<Section>, x: &DependenciesConfig)
    ensures
        secs_view(final(ss)@) == secs_view(old(ss)@) + enc_deps(x@),
{
    broadcast use Seq::add_empty_right;

    let ghost g0 = secs_view(ss@);
    let dh = Section { path: SectionPath::Dependencies, entries: Vec::new() };
    proof {
        assert(entry_list_view(dh.entries@) =~= Seq::<(Seq<char>, ItemV)>::empty());
    }
    ss.push(dh);
    let ghost a0 = seq![sec(SectionPath::Dependencies, Seq::<(Seq<char>, ItemV)>::empty())];
    proof {
        assert(secs_view(ss@) =~= g0 + a0);
    }
    let ghost m1 = (match &x.common {
        Some(m) => seq![sec(SectionPath::DependenciesCommon, enc_scope(scope_view(m@)))],
        None => no_secs(),
    });
    match &x.common {
        Some(m) => {
            let ghost prev = secs_view(ss@);
            ss.push(Section { path: SectionPath::DependenciesCommon, entries: enc_scope_x(m) });
            proof {
                assert(secs_view(ss@) =~= prev + m1);
            }
        },
        None => {},
    }
    proof {
        vstd::seq_lib::lemma_concat_associative(g0, a0, m1);
    }
    let ghost a1 = a0 + m1;
    proof {
        assert(secs_view(ss@) == g0 + a1);
    }
    let ghost m2 = (match &x.jvm {
        Some(m) => seq![sec(SectionPath::DependenciesJvm, enc_scope(scope_view(m@)))],
        None => no_secs(),
    });
    match &x.jvm {
        Some(m) => {
            let ghost prev = secs_view(ss@);
            ss.push(Section { path: SectionPath::DependenciesJvm, entries: enc_scope_x(m) });
            proof {
                assert(secs_view(ss@) =~= prev + m2);
            }
        },
        None => {},
    }
    proof {
        vstd::seq_lib::lemma_concat_associative(g0, a1, m2);
    }
    let ghost a2 = a1 + m2;
    proof {
        assert(secs_view(ss@) == g0 + a2);
    }
    let ghost m3 = (match &x.test {
        Some(m) => seq![sec(SectionPath::DependenciesTest, enc_scope(scope_view(m@)))],
        None => no_secs(),
    });
    match &x.test {
        Some(m) => {
            let ghost prev = secs_view(ss@);
            ss.push(Section { path: SectionPath::DependenciesTest, entries: enc_scope_x(m) });
            proof {
                assert(secs_view(ss@) =~= prev + m3);
            }
        },
        None => {},
    }
    proof {
        vstd::seq_lib::lemma_concat_associative(g0, a2, m3);
    }
    let ghost a3 = a2 + m3;
    proof {
        assert(secs_view(ss@) == g0 + a3);
    }
    proof {
        assert(a3 == enc_deps(x@));
    }
}

/// Encode a document as its canonical section sequence.
#[verifier::rlimit(100)]
fn enc_doc_x(d: &FygToml) -> (r: Vec<Section>)
    ensures
        secs_view(r@) == enc_doc(d@),
{
    let mut ss: Vec<Section> = Vec::new();
    ss.push(Section { path: SectionPath::Project, entries: enc_project_x(&d.project) });
    proof {
        assert(secs_view(ss@) =~= seq![sec(SectionPath::Project, enc_project(d@.project))]);
    }
    let ghost g1 = secs_view(ss@);
    match &d.build {
        Some(b) => {
            ss.push(Section { path: SectionPath::Build, entries: enc_build_x(b) });
            proof {
                assert(secs_view(ss@) =~= g1.push(sec(SectionPath::Build, enc_build(b@))));
            }
        },
        None => {},
    }
    let ghost g2 = secs_view(ss@);
    match &d.targets {
        Some(t) => {
            enc_targets_push(&mut ss, t);
            proof {
                assert(secs_view(ss@) == g2 + enc_targets(t@));
            }
        },
        None => {},
    }
    let ghost g3 = secs_view(ss@);
    match &d.dependencies {
        Some(x) => {
            enc_deps_push(&mut ss, x);
            proof {
                assert(secs_view(ss@) == g3 + enc_deps(x@));
            }
        },
        None => {},
    }
    let ghost g4 = secs_view(ss@);
    match &d.test {
        Some(t) => {
            ss.push(Section { path: SectionPath::Test, entries: enc_test_x(t) });
            proof {
                assert(secs_view(ss@) =~= g4.push(sec(SectionPath::Test, enc_test(t@))));
            }
        },
        None => {},
    }
    let ghost g5 = secs_view(ss@);
    match &d.repositories {
        Some(r) => {
            ss.push(Section { path: SectionPath::Repositories, entries: enc_repos_x(r) });
            proof {
                assert(secs_view(ss@) =~= g5.push(
                    sec(SectionPath::Repositories, enc_repos(repos_view(r@)))));
            }
        },
        None => {},
    }
    proof {
        assert(secs_view(ss@) =~= enc_doc(d@));
    }
    ss
}

impl FygToml {
    /// Render the document in the canonical text form: fixed declaration
    /// order, absent sections not written.
    pub fn to_toml_string(&self) -> (r: String)
        ensures
            r@ == render_doc(self@),
    {
        let ss = enc_doc_x(self);
        let mut out = String::new();
        crate::text::push_secs(&mut out, &ss, 0);
        out
    }
}

} // verus!
