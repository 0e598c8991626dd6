//! A project-descriptor model for a JVM/native build tool: schema types for
//! the manifest, a verified codec between documents and the manifest's text
//! form, and the path derivation behind project scaffolding.

pub mod config;
pub mod value;
pub mod roundtrip;
pub mod text;
pub mod toml;

use vstd::prelude::*;

verus! {

/// The output shape of a compiled native artifact. Each variant has a fixed
/// lowerCamelCase external name used in the manifest file.
#[derive(Clone, Copy, Debug, PartialEq, Eq, Structural)]
pub enum FygBinaryType {
    Executable,
    Test,
    SharedLib,
    StaticLib,
    Framework,
}

impl FygBinaryType {
    /// The canonical lowerCamelCase external name of this kind, as it stands
    /// in the manifest file.
    pub fn name(&self) -> (r: String)
        ensures
            r@ == crate::value::binary_kind_name(*self),
    {
        match self {
            FygBinaryType::Executable => "executable".to_owned(),
            FygBinaryType::Test => "test".to_owned(),
            FygBinaryType::SharedLib => "sharedLib".to_owned(),
            FygBinaryType::StaticLib => "staticLib".to_owned(),
            FygBinaryType::Framework => "framework".to_owned(),
        }
    }
}

/// The errors a build-tool operation can report besides format errors.
#[derive(Clone, Copy, Debug, PartialEq, Eq, Structural)]
pub enum FygError {
    /// The build engine that consumes the manifest is not implemented.
    Unimplemented,
}

/// The build tool's entry points over a manifest document.
pub struct Fyg;

impl Fyg {
    /// The source root relative to the project directory: the fixed language
    /// source segment joined with the group, every `.` a path separator.
    pub fn source_root_rel(group: &str) -> (r: String)
        ensures
            r@ == "src/kotlin/"@ + dots_to_slashes(group@),
    {
        let mut out = String::from_str("src/kotlin/");
        let n = group.unicode_len();
        let mut i: usize = 0;
        while i < n
            invariant
                0 <= i <= n,
                n == group@.len(),
                out@ == "src/kotlin/"@ + dots_to_slashes(group@.take(i as int)),
            decreases n - i,
        {
            let c = group.get_char(i);
            if c == '.' {
                out.append("/");
            } else {
                out.append(group.substring_char(i, i + 1));
            }
            proof {
                reveal_strlit("/");
                assert("/"@ =~= seq!['/']);
                assert(dots_to_slashes(group@.take(i as int + 1)) =~= dots_to_slashes(
                    group@.take(i as int),
                ).push(if group@[i as int] == '.' {
                    '/'
                } else {
                    group@[i as int]
                }));
                assert(group@.subrange(i as int, i as int + 1) =~= seq![group@[i as int]]);
                assert(out@ =~= "src/kotlin/"@ + dots_to_slashes(group@.take(i as int + 1)));
            }
            i = i + 1;
        }
        proof {
            assert(group@.take(n as int) =~= group@);
        }
        out
    }

    /// Building is pending a build-execution engine; every call reports so.
    pub fn build(_config_file_path: &str) -> (r: Result<(), FygError>)
        ensures
            r == Err::<(), FygError>(FygError::Unimplemented),
    {
        Err(FygError::Unimplemented)
    }
}

/// The group with every `.` replaced by a path separator.
pub open spec fn dots_to_slashes(s: Seq<char>) -> Seq<char> {
    s.map_values(|c: char| if c == '.' { '/' } else { c })
}

/// The fixed default version a freshly constructed manifest carries.
pub open spec fn default_version() -> Seq<char> {
    "1.0.0-SNAPSHOT"@
}

} // verus!
