//! Inversion of the section codec: decoding the canonical encoding of a
//! document gives the document back. This is the structural half of the
//! round-trip law; the text layer itself stands in `text`.

use vstd::prelude::*;
use crate::FygBinaryType;
use crate::config::{
    BinaryV, BuildV, CustomRepoV, DepConfigV, DepValueV, DepsV, DocV, EnabledV, JvmV, NativeV,
    ProjectV, RepoV, TargetsV, TestV, unique_doc_keys, unique_keys,
};
use crate::value::{
    assoc_has, binary_kind_name, binary_kind_of_name, dec_binary_at, dec_build_at,
    dec_dep_table_at, dec_dep_value, dec_enabled_at, dec_jvm_at, dec_project_at, dec_repo_table_at,
    dec_repo_value, dec_repos_at, dec_scope_at, dec_test_at, empty_proj_acc, enc_binary, enc_build,
    enc_dep_value, enc_enabled, enc_jvm, enc_project, enc_repo, enc_repos, enc_scope, enc_test,
    apply_sec, dec_doc, dec_secs_at, empty_acc, empty_deps, empty_targets, enc_deps, enc_doc,
    enc_targets, no_secs, sec, AccV, BinaryAcc, BuildAcc, DepAcc, ErrV,
    ItemV, JvmAcc, ProjAcc, RepoAcc, ScalarV, SectionPath, SectionV,
};

verus! {

/// The canonical name of each binary kind maps back to that kind.
pub proof fn lemma_binary_kind_round_trip(t: FygBinaryType)
    ensures
        binary_kind_of_name(binary_kind_name(t)) == Some(t),
{
    reveal_strlit("executable");
    reveal_strlit("test");
    reveal_strlit("sharedLib");
    reveal_strlit("staticLib");
    reveal_strlit("framework");
    assert("executable"@.len() == 10);
    assert("test"@.len() == 4);
    assert("sharedLib"@.len() == 9);
    assert("staticLib"@.len() == 9);
    assert("framework"@.len() == 9);
    assert("sharedLib"@[1] == 'h' && "staticLib"@[1] == 't');
    assert("sharedLib"@[0] == 's' && "framework"@[0] == 'f');
    assert("staticLib"@[0] == 's');
}

proof fn lemma_dec_project(p: ProjectV)
    ensures
        dec_project_at(enc_project(p), 0, empty_proj_acc()) == Ok::<ProjectV, ErrV>(p),
{
    reveal_strlit("name");
    reveal_strlit("group");
    reveal_strlit("version");
    reveal_strlit("authors");
    reveal_strlit("description");
    assert("name"@.len() == 4);
    assert("group"@.len() == 5);
    assert("version"@.len() == 7);
    assert("authors"@.len() == 7);
    assert("description"@.len() == 11);
    assert("version"@[0] == 'v' && "authors"@[0] == 'a');
    let es = enc_project(p);
    let a0 = empty_proj_acc();
    assert(es[0] == ("name"@, ItemV::Text(p.name)));
    assert(es[1] == ("group"@, ItemV::Text(p.group)));
    assert(es[2] == ("version"@, ItemV::Text(p.version)));
    let a1 = ProjAcc { name: Some(p.name), ..a0 };
    let a2 = ProjAcc { group: Some(p.group), ..a1 };
    let a3 = ProjAcc { version: Some(p.version), ..a2 };
    assert(dec_project_at(es, 0, a0) == dec_project_at(es, 1, a1));
    assert(dec_project_at(es, 1, a1) == dec_project_at(es, 2, a2));
    assert(dec_project_at(es, 2, a2) == dec_project_at(es, 3, a3));
    let mut i: int = 3;
    let mut a = a3;
    if let Some(au) = p.authors {
        assert(es[i] == ("authors"@, ItemV::List(au)));
        let an = ProjAcc { authors: Some(au), ..a };
        assert(dec_project_at(es, i, a) == dec_project_at(es, i + 1, an));
        i = i + 1;
        a = an;
    }
    if let Some(de) = p.description {
        assert(es[i] == ("description"@, ItemV::Text(de)));
        let an = ProjAcc { description: Some(de), ..a };
        assert(dec_project_at(es, i, a) == dec_project_at(es, i + 1, an));
        i = i + 1;
        a = an;
    }
    assert(i == es.len());
    assert(dec_project_at(es, i, a) == Ok::<ProjectV, ErrV>(p));
}

proof fn lemma_dec_build(b: BuildV)
    ensures
        dec_build_at(enc_build(b), 0, BuildAcc { multiplatform: None, languages: None })
            == Ok::<BuildV, ErrV>(b),
{
    reveal_strlit("multiplatform");
    reveal_strlit("languages");
    assert("multiplatform"@.len() == 13);
    assert("languages"@.len() == 9);
    let es = enc_build(b);
    let mut i: int = 0;
    let mut a = BuildAcc { multiplatform: None, languages: None };
    if let Some(m) = b.multiplatform {
        assert(es[i] == ("multiplatform"@, ItemV::Flag(m)));
        let an = BuildAcc { multiplatform: Some(m), ..a };
        assert(dec_build_at(es, i, a) == dec_build_at(es, i + 1, an));
        i = i + 1;
        a = an;
    }
    if let Some(l) = b.languages {
        assert(es[i] == ("languages"@, ItemV::List(l)));
        let an = BuildAcc { languages: Some(l), ..a };
        assert(dec_build_at(es, i, a) == dec_build_at(es, i + 1, an));
        i = i + 1;
        a = an;
    }
    assert(i == es.len());
    assert(dec_build_at(es, i, a) == Ok::<BuildV, ErrV>(b));
}

proof fn lemma_dec_jvm(j: JvmV)
    ensures
        dec_jvm_at(enc_jvm(j), 0, JvmAcc { enabled: None, target: None }) == Ok::<JvmV, ErrV>(j),
{
    reveal_strlit("enabled");
    reveal_strlit("target");
    assert("enabled"@.len() == 7);
    assert("target"@.len() == 6);
    let es = enc_jvm(j);
    let a0 = JvmAcc { enabled: None, target: None };
    assert(es[0] == ("enabled"@, ItemV::Flag(j.enabled)));
    let a1 = JvmAcc { enabled: Some(j.enabled), ..a0 };
    assert(dec_jvm_at(es, 0, a0) == dec_jvm_at(es, 1, a1));
    let mut i: int = 1;
    let mut a = a1;
    if let Some(t) = j.target {
        assert(es[i] == ("target"@, ItemV::Text(t)));
        let an = JvmAcc { target: Some(t), ..a };
        assert(dec_jvm_at(es, i, a) == dec_jvm_at(es, i + 1, an));
        i = i + 1;
        a = an;
    }
    assert(i == es.len());
    assert(dec_jvm_at(es, i, a) == Ok::<JvmV, ErrV>(j));
}

proof fn lemma_dec_enabled(section: SectionPath, e: EnabledV)
    ensures
        dec_enabled_at(section, enc_enabled(e), 0, None) == Ok::<EnabledV, ErrV>(e),
{
    reveal_strlit("enabled");
    let es = enc_enabled(e);
    assert(es[0] == ("enabled"@, ItemV::Flag(e.enabled)));
    assert(dec_enabled_at(section, es, 0, None) == dec_enabled_at(section, es, 1, Some(e.enabled)));
    assert(dec_enabled_at(section, es, 1, Some(e.enabled)) == Ok::<EnabledV, ErrV>(e));
}

proof fn lemma_dec_binary(b: BinaryV)
    ensures
        dec_binary_at(enc_binary(b), 0, BinaryAcc { binary_type: None, base_name: None })
            == Ok::<BinaryV, ErrV>(b),
{
    reveal_strlit("type");
    reveal_strlit("base-name");
    assert("type"@.len() == 4);
    assert("base-name"@.len() == 9);
    lemma_binary_kind_round_trip(b.binary_type);
    let es = enc_binary(b);
    let a0 = BinaryAcc { binary_type: None, base_name: None };
    assert(es[0] == ("type"@, ItemV::Text(binary_kind_name(b.binary_type))));
    let a1 = BinaryAcc { binary_type: Some(b.binary_type), ..a0 };
    assert(dec_binary_at(es, 0, a0) == dec_binary_at(es, 1, a1));
    let mut i: int = 1;
    let mut a = a1;
    if let Some(n) = b.base_name {
        assert(es[i] == ("base-name"@, ItemV::Text(n)));
        let an = BinaryAcc { base_name: Some(n), ..a };
        assert(dec_binary_at(es, i, a) == dec_binary_at(es, i + 1, an));
        i = i + 1;
        a = an;
    }
    assert(i == es.len());
    assert(dec_binary_at(es, i, a) == Ok::<BinaryV, ErrV>(b));
}

proof fn lemma_dec_test(t: TestV)
    ensures
        dec_test_at(enc_test(t), 0, None) == Ok::<TestV, ErrV>(t),
{
    reveal_strlit("framework");
    assert("framework"@.len() == 9);
    let es = enc_test(t);
    let mut i: int = 0;
    let mut a: Option<Seq<char>> = None;
    if let Some(f) = t.framework {
        assert(es[i] == ("framework"@, ItemV::Text(f)));
        assert(dec_test_at(es, i, a) == dec_test_at(es, i + 1, Some(f)));
        i = i + 1;
        a = Some(f);
    }
    assert(i == es.len());
    assert(dec_test_at(es, i, a) == Ok::<TestV, ErrV>(t));
}

proof fn lemma_dec_dep_table(section: SectionPath, c: DepConfigV)
    ensures
        enc_dep_value(DepValueV::Complex(c)) matches ItemV::Table(ps)
            && dec_dep_table_at(section, ps, 0, DepAcc { path: None, workspace: None, version: None })
            == Ok::<DepConfigV, ErrV>(c),
{
    reveal_strlit("path");
    reveal_strlit("workspace");
    reveal_strlit("version");
    assert("path"@.len() == 4);
    assert("workspace"@.len() == 9);
    assert("version"@.len() == 7);
    let ps = (match c.path {
        Some(p) => seq![("path"@, ScalarV::Text(p))],
        None => Seq::<(Seq<char>, ScalarV)>::empty(),
    }) + (match c.workspace {
        Some(w) => seq![("workspace"@, ScalarV::Flag(w))],
        None => Seq::<(Seq<char>, ScalarV)>::empty(),
    }) + (match c.version {
        Some(x) => seq![("version"@, ScalarV::Text(x))],
        None => Seq::<(Seq<char>, ScalarV)>::empty(),
    });
    assert(enc_dep_value(DepValueV::Complex(c)) == ItemV::Table(ps));
    let mut i: int = 0;
    let mut a = DepAcc { path: None, workspace: None, version: None };
    if let Some(p) = c.path {
        assert(ps[i] == ("path"@, ScalarV::Text(p)));
        let an = DepAcc { path: Some(p), ..a };
        assert(dec_dep_table_at(section, ps, i, a) == dec_dep_table_at(section, ps, i + 1, an));
        i = i + 1;
        a = an;
    }
    if let Some(w) = c.workspace {
        assert(ps[i] == ("workspace"@, ScalarV::Flag(w)));
        let an = DepAcc { workspace: Some(w), ..a };
        assert(dec_dep_table_at(section, ps, i, a) == dec_dep_table_at(section, ps, i + 1, an));
        i = i + 1;
        a = an;
    }
    if let Some(x) = c.version {
        assert(ps[i] == ("version"@, ScalarV::Text(x)));
        let an = DepAcc { version: Some(x), ..a };
        assert(dec_dep_table_at(section, ps, i, a) == dec_dep_table_at(section, ps, i + 1, an));
        i = i + 1;
        a = an;
    }
    assert(i == ps.len());
    assert(dec_dep_table_at(section, ps, i, a) == Ok::<DepConfigV, ErrV>(c));
}

proof fn lemma_dec_dep_value(section: SectionPath, k: Seq<char>, v: DepValueV)
    ensures
        dec_dep_value(section, k, enc_dep_value(v)) == Ok::<DepValueV, ErrV>(v),
{
    match v {
        DepValueV::Version(_) => {},
        DepValueV::Complex(c) => {
            lemma_dec_dep_table(section, c);
        },
    }
}

proof fn lemma_dec_scope_at(section: SectionPath, s: Seq<(Seq<char>, DepValueV)>, i: int)
    requires
        unique_keys(s),
        0 <= i <= s.len(),
    ensures
        dec_scope_at(section, enc_scope(s), i, s.take(i)) == Ok::<Seq<(Seq<char>, DepValueV)>, ErrV>(s),
    decreases s.len() - i,
{
    let es = enc_scope(s);
    assert(es.len() == s.len());
    if i == s.len() {
        assert(s.take(i) =~= s);
    } else {
        assert(es[i] == (s[i].0, enc_dep_value(s[i].1)));
        assert forall|j: int| 0 <= j < s.take(i).len() implies (#[trigger] s.take(i)[j]).0 != s[i].0 by {
            assert(s.take(i)[j] == s[j]);
        }
        assert(!assoc_has(s.take(i), s[i].0));
        lemma_dec_dep_value(section, s[i].0, s[i].1);
        assert(s.take(i).push((s[i].0, s[i].1)) =~= s.take(i + 1));
        lemma_dec_scope_at(section, s, i + 1);
        assert(dec_scope_at(section, es, i, s.take(i))
            == dec_scope_at(section, es, i + 1, s.take(i + 1)));
    }
}

proof fn lemma_dec_scope(section: SectionPath, s: Seq<(Seq<char>, DepValueV)>)
    requires
        unique_keys(s),
    ensures
        dec_scope_at(section, enc_scope(s), 0, Seq::<(Seq<char>, DepValueV)>::empty())
            == Ok::<Seq<(Seq<char>, DepValueV)>, ErrV>(s),
{
    assert(s.take(0) =~= Seq::<(Seq<char>, DepValueV)>::empty());
    lemma_dec_scope_at(section, s, 0);
}

proof fn lemma_dec_repo_table(c: CustomRepoV)
    ensures
        enc_repo(RepoV::Custom(c)) matches ItemV::Table(ps)
            && dec_repo_table_at(ps, 0, RepoAcc { repo_type: None, url: None })
            == Ok::<CustomRepoV, ErrV>(c),
{
    reveal_strlit("type");
    reveal_strlit("url");
    assert("type"@.len() == 4);
    assert("url"@.len() == 3);
    let ps = seq![("type"@, ScalarV::Text(c.repo_type)), ("url"@, ScalarV::Text(c.url))];
    assert(enc_repo(RepoV::Custom(c)) == ItemV::Table(ps));
    let a0 = RepoAcc { repo_type: None, url: None };
    let a1 = RepoAcc { repo_type: Some(c.repo_type), ..a0 };
    let a2 = RepoAcc { url: Some(c.url), ..a1 };
    assert(ps[0] == ("type"@, ScalarV::Text(c.repo_type)));
    assert(ps[1] == ("url"@, ScalarV::Text(c.url)));
    assert(dec_repo_table_at(ps, 0, a0) == dec_repo_table_at(ps, 1, a1));
    assert(dec_repo_table_at(ps, 1, a1) == dec_repo_table_at(ps, 2, a2));
    assert(dec_repo_table_at(ps, 2, a2) == Ok::<CustomRepoV, ErrV>(c));
}

proof fn lemma_dec_repo_value(k: Seq<char>, r: RepoV)
    ensures
        dec_repo_value(k, enc_repo(r)) == Ok::<RepoV, ErrV>(r),
{
    match r {
        RepoV::Enabled(_) => {},
        RepoV::Custom(c) => {
            lemma_dec_repo_table(c);
        },
    }
}

proof fn lemma_dec_repos_at(s: Seq<(Seq<char>, RepoV)>, i: int)
    requires
        unique_keys(s),
        0 <= i <= s.len(),
    ensures
        dec_repos_at(enc_repos(s), i, s.take(i)) == Ok::<Seq<(Seq<char>, RepoV)>, ErrV>(s),
    decreases s.len() - i,
{
    let es = enc_repos(s);
    assert(es.len() == s.len());
    if i == s.len() {
        assert(s.take(i) =~= s);
    } else {
        assert(es[i] == (s[i].0, enc_repo(s[i].1)));
        assert forall|j: int| 0 <= j < s.take(i).len() implies (#[trigger] s.take(i)[j]).0 != s[i].0 by {
            assert(s.take(i)[j] == s[j]);
        }
        assert(!assoc_has(s.take(i), s[i].0));
        lemma_dec_repo_value(s[i].0, s[i].1);
        assert(s.take(i).push((s[i].0, s[i].1)) =~= s.take(i + 1));
        lemma_dec_repos_at(s, i + 1);
        assert(dec_repos_at(es, i, s.take(i)) == dec_repos_at(es, i + 1, s.take(i + 1)));
    }
}

proof fn lemma_dec_repos(s: Seq<(Seq<char>, RepoV)>)
    requires
        unique_keys(s),
    ensures
        dec_repos_at(enc_repos(s), 0, Seq::<(Seq<char>, RepoV)>::empty())
            == Ok::<Seq<(Seq<char>, RepoV)>, ErrV>(s),
{
    assert(s.take(0) =~= Seq::<(Seq<char>, RepoV)>::empty());
    lemma_dec_repos_at(s, 0);
}

} // verus!

// ---------------------------------------------------------------------------
// The section fold over the canonical encoding
// ---------------------------------------------------------------------------

verus! {

/// The section fold reads only the suffix at its index.
proof fn lemma_dec_skip(ss1: Seq<SectionV>, i1: int, ss2: Seq<SectionV>, i2: int, acc: AccV)
    requires
        0 <= i1 <= ss1.len(),
        0 <= i2 <= ss2.len(),
        ss1.skip(i1) == ss2.skip(i2),
    ensures
        dec_secs_at(ss1, i1, acc) == dec_secs_at(ss2, i2, acc),
    decreases ss1.len() - i1,
{
    broadcast use vstd::seq::group_seq_axioms;

    assert(ss1.skip(i1).len() == ss2.skip(i2).len());
    assert(ss1.skip(i1).len() == ss1.len() - i1);
    assert(ss2.skip(i2).len() == ss2.len() - i2);
    if i1 == ss1.len() {
        assert(i2 == ss2.len());
    } else {
        assert(ss1[i1] == ss1.skip(i1)[0]);
        assert(ss2[i2] == ss2.skip(i2)[0]);
        match apply_sec(acc, ss1[i1]) {
            Ok(a2) => {
                assert(ss1.skip(i1 + 1) =~= ss2.skip(i2 + 1)) by {
                    assert forall|j: int| 0 <= j < ss1.skip(i1 + 1).len() implies
                        #[trigger] ss1.skip(i1 + 1)[j] == ss2.skip(i2 + 1)[j] by {
                        assert(ss1.skip(i1 + 1)[j] == ss1.skip(i1)[j + 1]);
                        assert(ss2.skip(i2 + 1)[j] == ss2.skip(i2)[j + 1]);
                    }
                }
                lemma_dec_skip(ss1, i1 + 1, ss2, i2 + 1, a2);
            },
            Err(_) => {},
        }
    }
}

/// Peeling one section off the front of the fold.
proof fn lemma_dec_front_ok(s: SectionV, rest: Seq<SectionV>, acc: AccV, a2: AccV)
    requires
        apply_sec(acc, s) == Ok::<AccV, ErrV>(a2),
    ensures
        dec_secs_at(seq![s] + rest, 0, acc) == dec_secs_at(rest, 0, a2),
{
    broadcast use vstd::seq::group_seq_axioms;

    let ss = seq![s] + rest;
    assert(ss[0] == s);
    assert(ss.skip(1) =~= rest.skip(0));
    lemma_dec_skip(ss, 1, rest, 0, a2);
}

} // verus!

// ---------------------------------------------------------------------------
// The round-trip law, structural half
// ---------------------------------------------------------------------------

verus! {

/// The targets slots already filled after the grouping header and the first
/// four platform slots are folded.
pub open spec fn tv_front(t: TargetsV) -> TargetsV {
    TargetsV {
        jvm: t.jvm,
        ios_arm64: t.ios_arm64,
        ios_x64: t.ios_x64,
        ios_simulator_arm64: t.ios_simulator_arm64,
        linux_x64: None,
        macos_arm64: None,
        windows_x64: None,
        native: None,
    }
}

/// The encoding of the last four target slots.
pub open spec fn enc_targets_tail(t: TargetsV) -> Seq<SectionV> {
    (match t.linux_x64 {
        Some(e) => seq![sec(SectionPath::TargetsLinuxX64, enc_enabled(e))],
        None => no_secs(),
    }) + (match t.macos_arm64 {
        Some(e) => seq![sec(SectionPath::TargetsMacosArm64, enc_enabled(e))],
        None => no_secs(),
    }) + (match t.windows_x64 {
        Some(e) => seq![sec(SectionPath::TargetsWindowsX64, enc_enabled(e))],
        None => no_secs(),
    }) + (match t.native {
        Some(n) => seq![sec(SectionPath::TargetsNative, Seq::<(Seq<char>, ItemV)>::empty())]
            + (match n.binary {
                Some(bin) => seq![sec(SectionPath::TargetsNativeBinary, enc_binary(bin))],
                None => no_secs(),
            }),
        None => no_secs(),
    })
}

/// Folding the grouping header and the first four platform slots.
#[verifier::rlimit(100)]
proof fn lemma_dec_targets_front(t: TargetsV, rest: Seq<SectionV>, old_acc: AccV)
    requires
        old_acc.targets is None,
    ensures
        dec_secs_at(enc_targets(t) + rest, 0, old_acc) == dec_secs_at(
            enc_targets_tail(t) + rest,
            0,
            AccV { targets: Some(tv_front(t)), ..old_acc },
        ),
{
    broadcast use vstd::seq_lib::group_seq_properties;
    broadcast use Seq::add_empty_left;
    broadcast use Seq::add_empty_right;

    let no_entries = Seq::<(Seq<char>, ItemV)>::empty();
    let mut acc = old_acc;
    let h1 = match t.jvm {
        Some(j) => seq![sec(SectionPath::TargetsJvm, enc_jvm(j))],
        None => no_secs(),
    };
    let h2 = match t.ios_arm64 {
        Some(e) => seq![sec(SectionPath::TargetsIosArm64, enc_enabled(e))],
        None => no_secs(),
    };
    let h3 = match t.ios_x64 {
        Some(e) => seq![sec(SectionPath::TargetsIosX64, enc_enabled(e))],
        None => no_secs(),
    };
    let h4 = match t.ios_simulator_arm64 {
        Some(e) => seq![sec(SectionPath::TargetsIosSimulatorArm64, enc_enabled(e))],
        None => no_secs(),
    };
    let h5 = match t.linux_x64 {
        Some(e) => seq![sec(SectionPath::TargetsLinuxX64, enc_enabled(e))],
        None => no_secs(),
    };
    let h6 = match t.macos_arm64 {
        Some(e) => seq![sec(SectionPath::TargetsMacosArm64, enc_enabled(e))],
        None => no_secs(),
    };
    let h7 = match t.windows_x64 {
        Some(e) => seq![sec(SectionPath::TargetsWindowsX64, enc_enabled(e))],
        None => no_secs(),
    };
    let h8 = match t.native {
        Some(n) => seq![sec(SectionPath::TargetsNative, no_entries)] + (match n.binary {
            Some(bin) => seq![sec(SectionPath::TargetsNativeBinary, enc_binary(bin))],
            None => no_secs(),
        }),
        None => no_secs(),
    };
    let w8 = h8 + rest;
    let w7 = h7 + w8;
    let w6 = h6 + w7;
    let w5 = h5 + w6;
    let w4 = h4 + w5;
    let w3 = h3 + w4;
    let w2 = h2 + w3;
    let w1 = h1 + w2;

    let sh = sec(SectionPath::Targets, no_entries);
    let a0 = seq![sh];
    let a1 = a0 + h1;
    let a2x = a1 + h2;
    let a3x = a2x + h3;
    let a4x = a3x + h4;
    let a5x = a4x + h5;
    let a6x = a5x + h6;
    let a7x = a6x + h7;
    assert(enc_targets(t) == a7x + h8);
    vstd::seq_lib::lemma_concat_associative(a6x, h7, w8);
    vstd::seq_lib::lemma_concat_associative(a5x, h6, w7);
    vstd::seq_lib::lemma_concat_associative(a4x, h5, w6);
    vstd::seq_lib::lemma_concat_associative(a3x, h4, w5);
    vstd::seq_lib::lemma_concat_associative(a2x, h3, w4);
    vstd::seq_lib::lemma_concat_associative(a1, h2, w3);
    vstd::seq_lib::lemma_concat_associative(a0, h1, w2);
    vstd::seq_lib::lemma_concat_associative(a7x, h8, rest);
    assert(enc_targets(t) + rest == seq![sh] + w1);
    let mut tv = empty_targets();
    let ah = AccV { targets: Some(tv), ..acc };
    assert(apply_sec(acc, sh) == Ok::<AccV, ErrV>(ah));
    lemma_dec_front_ok(sh, w1, acc, ah);
    acc = ah;
    assert(dec_secs_at(enc_targets(t) + rest, 0, old_acc) == dec_secs_at(w1, 0, acc));

    if let Some(j) = t.jvm {
        let s = sec(SectionPath::TargetsJvm, enc_jvm(j));
        lemma_dec_jvm(j);
        let tv2 = TargetsV { jvm: Some(j), ..tv };
        let a2 = AccV { targets: Some(tv2), ..acc };
        assert(apply_sec(acc, s) == Ok::<AccV, ErrV>(a2));
        assert(w1 == seq![s] + w2);
        lemma_dec_front_ok(s, w2, acc, a2);
        tv = tv2;
        acc = a2;
    } else {
        assert(w1 == w2);
    }
    assert(dec_secs_at(enc_targets(t) + rest, 0, old_acc) == dec_secs_at(w2, 0, acc));

    if let Some(e) = t.ios_arm64 {
        let s = sec(SectionPath::TargetsIosArm64, enc_enabled(e));
        lemma_dec_enabled(SectionPath::TargetsIosArm64, e);
        let tv2 = TargetsV { ios_arm64: Some(e), ..tv };
        let a2 = AccV { targets: Some(tv2), ..acc };
        assert(apply_sec(acc, s) == Ok::<AccV, ErrV>(a2));
        assert(w2 == seq![s] + w3);
        lemma_dec_front_ok(s, w3, acc, a2);
        tv = tv2;
        acc = a2;
    } else {
        assert(w2 == w3);
    }
    assert(dec_secs_at(enc_targets(t) + rest, 0, old_acc) == dec_secs_at(w3, 0, acc));

    if let Some(e) = t.ios_x64 {
        let s = sec(SectionPath::TargetsIosX64, enc_enabled(e));
        lemma_dec_enabled(SectionPath::TargetsIosX64, e);
        let tv2 = TargetsV { ios_x64: Some(e), ..tv };
        let a2 = AccV { targets: Some(tv2), ..acc };
        assert(apply_sec(acc, s) == Ok::<AccV, ErrV>(a2));
        assert(w3 == seq![s] + w4);
        lemma_dec_front_ok(s, w4, acc, a2);
        tv = tv2;
        acc = a2;
    } else {
        assert(w3 == w4);
    }
    assert(dec_secs_at(enc_targets(t) + rest, 0, old_acc) == dec_secs_at(w4, 0, acc));

    if let Some(e) = t.ios_simulator_arm64 {
        let s = sec(SectionPath::TargetsIosSimulatorArm64, enc_enabled(e));
        lemma_dec_enabled(SectionPath::TargetsIosSimulatorArm64, e);
        let tv2 = TargetsV { ios_simulator_arm64: Some(e), ..tv };
        let a2 = AccV { targets: Some(tv2), ..acc };
        assert(apply_sec(acc, s) == Ok::<AccV, ErrV>(a2));
        assert(w4 == seq![s] + w5);
        lemma_dec_front_ok(s, w5, acc, a2);
        tv = tv2;
        acc = a2;
    } else {
        assert(w4 == w5);
    }
    assert(dec_secs_at(enc_targets(t) + rest, 0, old_acc) == dec_secs_at(w5, 0, acc));

    assert(tv == tv_front(t));
    let c1 = h5 + h6;
    let c2 = c1 + h7;
    assert(enc_targets_tail(t) == c2 + h8);
    vstd::seq_lib::lemma_concat_associative(c2, h8, rest);
    vstd::seq_lib::lemma_concat_associative(c1, h7, w8);
    vstd::seq_lib::lemma_concat_associative(h5, h6, w7);
    assert(w5 == enc_targets_tail(t) + rest);
    assert(dec_secs_at(enc_targets(t) + rest, 0, old_acc)
        == dec_secs_at(enc_targets_tail(t) + rest, 0, acc));
}

/// Folding the targets block of the canonical encoding fills in the targets
/// section and leaves the rest of the fold to the remaining sections.
#[verifier::rlimit(100)]
proof fn lemma_dec_targets_block(t: TargetsV, rest: Seq<SectionV>, old_acc: AccV)
    requires
        old_acc.targets is None,
    ensures
        dec_secs_at(enc_targets(t) + rest, 0, old_acc) == dec_secs_at(
            rest,
            0,
            AccV { targets: Some(t), ..old_acc },
        ),
{
    broadcast use vstd::seq_lib::group_seq_properties;
    broadcast use Seq::add_empty_left;
    broadcast use Seq::add_empty_right;

    let no_entries = Seq::<(Seq<char>, ItemV)>::empty();
    lemma_dec_targets_front(t, rest, old_acc);
    let mut tv = tv_front(t);
    let mut acc = AccV { targets: Some(tv), ..old_acc };
    let h5 = match t.linux_x64 {
        Some(e) => seq![sec(SectionPath::TargetsLinuxX64, enc_enabled(e))],
        None => no_secs(),
    };
    let h6 = match t.macos_arm64 {
        Some(e) => seq![sec(SectionPath::TargetsMacosArm64, enc_enabled(e))],
        None => no_secs(),
    };
    let h7 = match t.windows_x64 {
        Some(e) => seq![sec(SectionPath::TargetsWindowsX64, enc_enabled(e))],
        None => no_secs(),
    };
    let h8 = match t.native {
        Some(n) => seq![sec(SectionPath::TargetsNative, no_entries)] + (match n.binary {
            Some(bin) => seq![sec(SectionPath::TargetsNativeBinary, enc_binary(bin))],
            None => no_secs(),
        }),
        None => no_secs(),
    };
    let w8 = h8 + rest;
    let w7 = h7 + w8;
    let w6 = h6 + w7;
    let w5 = h5 + w6;
    let c1 = h5 + h6;
    let c2 = c1 + h7;
    assert(enc_targets_tail(t) == c2 + h8);
    vstd::seq_lib::lemma_concat_associative(c2, h8, rest);
    vstd::seq_lib::lemma_concat_associative(c1, h7, w8);
    vstd::seq_lib::lemma_concat_associative(h5, h6, w7);
    assert(enc_targets_tail(t) + rest == w5);
    assert(dec_secs_at(enc_targets(t) + rest, 0, old_acc) == dec_secs_at(w5, 0, acc));
    if let Some(e) = t.linux_x64 {
        let s = sec(SectionPath::TargetsLinuxX64, enc_enabled(e));
        lemma_dec_enabled(SectionPath::TargetsLinuxX64, e);
        let tv2 = TargetsV { linux_x64: Some(e), ..tv };
        let a2 = AccV { targets: Some(tv2), ..acc };
        assert(apply_sec(acc, s) == Ok::<AccV, ErrV>(a2));
        assert(w5 == seq![s] + w6);
        lemma_dec_front_ok(s, w6, acc, a2);
        tv = tv2;
        acc = a2;
    } else {
        assert(w5 == w6);
    }
    assert(dec_secs_at(enc_targets(t) + rest, 0, old_acc) == dec_secs_at(w6, 0, acc));

    if let Some(e) = t.macos_arm64 {
        let s = sec(SectionPath::TargetsMacosArm64, enc_enabled(e));
        lemma_dec_enabled(SectionPath::TargetsMacosArm64, e);
        let tv2 = TargetsV { macos_arm64: Some(e), ..tv };
        let a2 = AccV { targets: Some(tv2), ..acc };
        assert(apply_sec(acc, s) == Ok::<AccV, ErrV>(a2));
        assert(w6 == seq![s] + w7);
        lemma_dec_front_ok(s, w7, acc, a2);
        tv = tv2;
        acc = a2;
    } else {
        assert(w6 == w7);
    }
    assert(dec_secs_at(enc_targets(t) + rest, 0, old_acc) == dec_secs_at(w7, 0, acc));

    if let Some(e) = t.windows_x64 {
        let s = sec(SectionPath::TargetsWindowsX64, enc_enabled(e));
        lemma_dec_enabled(SectionPath::TargetsWindowsX64, e);
        let tv2 = TargetsV { windows_x64: Some(e), ..tv };
        let a2 = AccV { targets: Some(tv2), ..acc };
        assert(apply_sec(acc, s) == Ok::<AccV, ErrV>(a2));
        assert(w7 == seq![s] + w8);
        lemma_dec_front_ok(s, w8, acc, a2);
        tv = tv2;
        acc = a2;
    } else {
        assert(w7 == w8);
    }
    assert(dec_secs_at(enc_targets(t) + rest, 0, old_acc) == dec_secs_at(w8, 0, acc));

    if let Some(n) = t.native {
        let hb = match n.binary {
            Some(bin) => seq![sec(SectionPath::TargetsNativeBinary, enc_binary(bin))],
            None => no_secs(),
        };
        let sn = sec(SectionPath::TargetsNative, no_entries);
        let tvn = TargetsV { native: Some(NativeV { binary: None }), ..tv };
        let an = AccV { targets: Some(tvn), ..acc };
        assert(apply_sec(acc, sn) == Ok::<AccV, ErrV>(an));
        assert(w8 == (seq![sn] + hb) + rest);
        vstd::seq_lib::lemma_concat_associative(seq![sn], hb, rest);
        assert(w8 == seq![sn] + (hb + rest));
        lemma_dec_front_ok(sn, hb + rest, acc, an);
        tv = tvn;
        acc = an;
        if let Some(bin) = n.binary {
            let sb = sec(SectionPath::TargetsNativeBinary, enc_binary(bin));
            lemma_dec_binary(bin);
            let tvb = TargetsV { native: Some(NativeV { binary: Some(bin) }), ..tv };
            let ab = AccV { targets: Some(tvb), ..acc };
            assert(apply_sec(acc, sb) == Ok::<AccV, ErrV>(ab));
            assert(hb + rest == seq![sb] + rest);
            lemma_dec_front_ok(sb, rest, acc, ab);
            tv = tvb;
            acc = ab;
        } else {
            assert(hb + rest == rest);
        }
        assert(NativeV { binary: n.binary } == n);
    } else {
        assert(w8 == rest);
    }
    assert(tv == t);
    assert(acc == AccV { targets: Some(t), ..old_acc });
    assert(dec_secs_at(enc_targets(t) + rest, 0, old_acc) == dec_secs_at(rest, 0, acc));
}

/// Folding the dependencies block of the canonical encoding fills in the
/// dependencies section and leaves the rest of the fold untouched.
#[verifier::rlimit(100)]
proof fn lemma_dec_deps_block(x: DepsV, rest: Seq<SectionV>, old_acc: AccV)
    requires
        old_acc.dependencies is None,
        x.common matches Some(s) ==> unique_keys(s),
        x.jvm matches Some(s) ==> unique_keys(s),
        x.test matches Some(s) ==> unique_keys(s),
    ensures
        dec_secs_at(enc_deps(x) + rest, 0, old_acc) == dec_secs_at(
            rest,
            0,
            AccV { dependencies: Some(x), ..old_acc },
        ),
{
    broadcast use vstd::seq_lib::group_seq_properties;
    broadcast use Seq::add_empty_left;
    broadcast use Seq::add_empty_right;

    let no_entries = Seq::<(Seq<char>, ItemV)>::empty();
    let mut acc = old_acc;
    let k1 = match x.common {
        Some(s) => seq![sec(SectionPath::DependenciesCommon, enc_scope(s))],
        None => no_secs(),
    };
    let k2 = match x.jvm {
        Some(s) => seq![sec(SectionPath::DependenciesJvm, enc_scope(s))],
        None => no_secs(),
    };
    let k3 = match x.test {
        Some(s) => seq![sec(SectionPath::DependenciesTest, enc_scope(s))],
        None => no_secs(),
    };
    let v1 = k1 + k2 + k3 + rest;
    let v2 = k2 + k3 + rest;
    let v3 = k3 + rest;

    let sd = sec(SectionPath::Dependencies, no_entries);
    let mut dv = empty_deps();
    let ad = AccV { dependencies: Some(dv), ..acc };
    assert(apply_sec(acc, sd) == Ok::<AccV, ErrV>(ad));
    assert(enc_deps(x) + rest =~= seq![sd] + v1);
    lemma_dec_front_ok(sd, v1, acc, ad);
    acc = ad;
    assert(dec_secs_at(enc_deps(x) + rest, 0, old_acc) == dec_secs_at(v1, 0, acc));

    if let Some(s) = x.common {
        let se = sec(SectionPath::DependenciesCommon, enc_scope(s));
        lemma_dec_scope(SectionPath::DependenciesCommon, s);
        let dv2 = DepsV { common: Some(s), ..dv };
        let a2 = AccV { dependencies: Some(dv2), ..acc };
        assert(apply_sec(acc, se) == Ok::<AccV, ErrV>(a2));
        assert(v1 =~= seq![se] + v2);
        lemma_dec_front_ok(se, v2, acc, a2);
        dv = dv2;
        acc = a2;
    } else {
        assert(v1 == v2);
    }
    assert(dec_secs_at(enc_deps(x) + rest, 0, old_acc) == dec_secs_at(v2, 0, acc));

    if let Some(s) = x.jvm {
        let se = sec(SectionPath::DependenciesJvm, enc_scope(s));
        lemma_dec_scope(SectionPath::DependenciesJvm, s);
        let dv2 = DepsV { jvm: Some(s), ..dv };
        let a2 = AccV { dependencies: Some(dv2), ..acc };
        assert(apply_sec(acc, se) == Ok::<AccV, ErrV>(a2));
        assert(v2 =~= seq![se] + v3);
        lemma_dec_front_ok(se, v3, acc, a2);
        dv = dv2;
        acc = a2;
    } else {
        assert(v2 == v3);
    }
    assert(dec_secs_at(enc_deps(x) + rest, 0, old_acc) == dec_secs_at(v3, 0, acc));

    if let Some(s) = x.test {
        let se = sec(SectionPath::DependenciesTest, enc_scope(s));
        lemma_dec_scope(SectionPath::DependenciesTest, s);
        let dv2 = DepsV { test: Some(s), ..dv };
        let a2 = AccV { dependencies: Some(dv2), ..acc };
        assert(apply_sec(acc, se) == Ok::<AccV, ErrV>(a2));
        assert(v3 =~= seq![se] + rest);
        lemma_dec_front_ok(se, rest, acc, a2);
        dv = dv2;
        acc = a2;
    } else {
        assert(v3 == rest);
    }
    assert(dv == x);
    assert(acc == AccV { dependencies: Some(x), ..old_acc });
    assert(dec_secs_at(enc_deps(x) + rest, 0, old_acc) == dec_secs_at(rest, 0, acc));
}

/// Round-trip law at the structural level: decoding the canonical section
/// encoding of any document whose map keys are unique within their tables
/// yields exactly that document, with absent sections still absent.
#[verifier::rlimit(100)]
pub proof fn lemma_dec_enc_doc(d: DocV)
    requires
        unique_doc_keys(d),
    ensures
        dec_doc(enc_doc(d)) == Ok::<DocV, ErrV>(d),
{
    broadcast use vstd::seq_lib::group_seq_properties;
    broadcast use Seq::add_empty_left;
    broadcast use Seq::add_empty_right;

    let ss = enc_doc(d);
    let no_entries = Seq::<(Seq<char>, ItemV)>::empty();
    let g_build = match d.build {
        Some(b) => seq![sec(SectionPath::Build, enc_build(b))],
        None => no_secs(),
    };
    let g_t = match d.targets {
        Some(t) => enc_targets(t),
        None => no_secs(),
    };
    let g_dp = match d.dependencies {
        Some(x) => enc_deps(x),
        None => no_secs(),
    };
    let g_test = match d.test {
        Some(t) => seq![sec(SectionPath::Test, enc_test(t))],
        None => no_secs(),
    };
    let g_rep = match d.repositories {
        Some(r) => seq![sec(SectionPath::Repositories, enc_repos(r))],
        None => no_secs(),
    };
    let r6 = no_secs();
    let r5 = g_rep + r6;
    let r4 = g_test + r5;
    let r3 = g_dp + r4;
    let r2 = g_t + r3;
    let r1 = g_build + r2;

    let s0 = sec(SectionPath::Project, enc_project(d.project));
    lemma_dec_project(d.project);
    let acc0 = empty_acc();
    let acc1 = AccV { project: Some(d.project), ..acc0 };
    assert(apply_sec(acc0, s0) == Ok::<AccV, ErrV>(acc1));
    let b0 = seq![s0];
    let b1 = b0 + g_build;
    let b2 = b1 + g_t;
    let b3 = b2 + g_dp;
    let b4 = b3 + g_test;
    assert(ss == b4 + g_rep);
    vstd::seq_lib::lemma_concat_associative(b3, g_test, r5);
    vstd::seq_lib::lemma_concat_associative(b2, g_dp, r4);
    vstd::seq_lib::lemma_concat_associative(b1, g_t, r3);
    vstd::seq_lib::lemma_concat_associative(b0, g_build, r2);
    assert(ss == seq![s0] + r1);
    lemma_dec_front_ok(s0, r1, acc0, acc1);
    assert(dec_secs_at(ss, 0, acc0) == dec_secs_at(r1, 0, acc1));

    let mut acc = acc1;
    if let Some(b) = d.build {
        let s = sec(SectionPath::Build, enc_build(b));
        lemma_dec_build(b);
        let a2 = AccV { build: Some(b), ..acc };
        assert(apply_sec(acc, s) == Ok::<AccV, ErrV>(a2));
        assert(r1 == seq![s] + r2);
        lemma_dec_front_ok(s, r2, acc, a2);
        acc = a2;
    } else {
        assert(r1 == r2);
    }
    assert(dec_secs_at(ss, 0, acc0) == dec_secs_at(r2, 0, acc));

    if let Some(t) = d.targets {
        lemma_dec_targets_block(t, r3, acc);
        assert(r2 == enc_targets(t) + r3);
        acc = AccV { targets: Some(t), ..acc };
    } else {
        assert(r2 == r3);
    }
    assert(dec_secs_at(ss, 0, acc0) == dec_secs_at(r3, 0, acc));
    assert(acc.targets == d.targets);

    if let Some(x) = d.dependencies {
        lemma_dec_deps_block(x, r4, acc);
        assert(r3 == enc_deps(x) + r4);
        acc = AccV { dependencies: Some(x), ..acc };
    } else {
        assert(r3 == r4);
    }
    assert(dec_secs_at(ss, 0, acc0) == dec_secs_at(r4, 0, acc));
    assert(acc.dependencies == d.dependencies);

    if let Some(t) = d.test {
        let s = sec(SectionPath::Test, enc_test(t));
        lemma_dec_test(t);
        let a2 = AccV { test: Some(t), ..acc };
        assert(apply_sec(acc, s) == Ok::<AccV, ErrV>(a2));
        assert(r4 == seq![s] + r5);
        lemma_dec_front_ok(s, r5, acc, a2);
        acc = a2;
    } else {
        assert(r4 == r5);
    }
    assert(dec_secs_at(ss, 0, acc0) == dec_secs_at(r5, 0, acc));

    if let Some(r) = d.repositories {
        let s = sec(SectionPath::Repositories, enc_repos(r));
        lemma_dec_repos(r);
        let a2 = AccV { repositories: Some(r), ..acc };
        assert(apply_sec(acc, s) == Ok::<AccV, ErrV>(a2));
        assert(r5 == seq![s] + r6);
        lemma_dec_front_ok(s, r6, acc, a2);
        acc = a2;
    } else {
        assert(r5 == r6);
    }
    assert(dec_secs_at(ss, 0, acc0) == dec_secs_at(r6, 0, acc));

    assert(r6.len() == 0);
    assert(dec_secs_at(r6, 0, acc) == Ok::<DocV, ErrV>(d));
}

} // verus!
