//! The per-language command table: for each supported language, the source
//! file extension, the compile container image and toolchain invocation,
//! and the shared container-engine invocation that every phase uses.

use vstd::prelude::*;
use vstd::string::StringExecFns;

verus! {

/// The fixed in-container path to which every workspace is bind-mounted.
/// Toolchain invocations refer to files below it by the relative prefix
/// `mnt/`.
pub open spec fn spec_mount_path() -> Seq<char> {
    "/home/sandbox/mnt/"@
}

/// Returns the fixed in-container mount path.
pub fn mount_path() -> (r: &'static str)
    ensures
        r@ == spec_mount_path(),
{
    "/home/sandbox/mnt/"
}

/// The languages the sandbox accepts. The enumeration is closed: every
/// variant has a compile mapping, and all variants share one execute image.
#[derive(Clone, Copy, PartialEq, Eq, Structural, Debug)]
pub enum Language {
    C,
    Cpp,
    Rust,
    Go,
}

impl Language {
    /// The source file extension belonging to this language.
    pub open spec fn spec_extension(self) -> Seq<char> {
        match self {
            Language::C => "c"@,
            Language::Cpp => "cpp"@,
            Language::Rust => "rs"@,
            Language::Go => "go"@,
        }
    }

    /// Returns the source file extension for this language.
    pub fn extension(self) -> (r: &'static str)
        ensures
            r@ == self.spec_extension(),
    {
        match self {
            Language::C => "c",
            Language::Cpp => "cpp",
            Language::Rust => "rs",
            Language::Go => "go",
        }
    }
}

/// Name of the source file inside the workspace: `input.<ext>`.
pub open spec fn spec_source_file_name(language: Language) -> Seq<char> {
    "input."@ + language.spec_extension()
}

/// Returns the name of the source file that the workspace must hold for
/// the given language.
pub fn source_file_name(language: Language) -> (r: String)
    ensures
        r@ == spec_source_file_name(language),
{
    let mut name: String = "input.".to_owned();
    name.append(language.extension());
    name
}

/// Name of the artifact a successful compile must leave in the workspace.
pub open spec fn spec_artifact_file_name() -> Seq<char> {
    "output"@
}

/// Returns the name of the compiled artifact inside the workspace.
pub fn artifact_file_name() -> (r: &'static str)
    ensures
        r@ == spec_artifact_file_name(),
{
    "output"
}

/// The views of the strings of an argument vector.
pub open spec fn argv_views(argv: Seq<String>) -> Seq<Seq<char>> {
    argv.map_values(|s: String| s@)
}

/// The shared prefix of every container-engine invocation: run a container,
/// remove it on exit, and bind-mount the workspace to the fixed in-container
/// mount path.
pub open spec fn spec_base_command(workspace: Seq<char>) -> Seq<Seq<char>> {
    seq!["docker"@, "run"@, "--rm"@, "--volume"@, workspace + ":"@ + spec_mount_path()]
}

/// The full compile invocation for a language: the shared prefix, the
/// language's sandbox image, and its toolchain invocation compiling
/// `mnt/input.<ext>` into `mnt/output`.
pub open spec fn spec_compile_command(workspace: Seq<char>, language: Language) -> Seq<Seq<char>> {
    spec_base_command(workspace) + (match language {
        Language::C => seq!["sandbox-c"@, "clang"@, "-o"@, "mnt/output"@, "mnt/input.c"@],
        Language::Cpp => seq![
            "sandbox-cpp"@,
            "clang++"@,
            "-o"@,
            "mnt/output"@,
            "mnt/input.cpp"@,
        ],
        Language::Rust => seq![
            "sandbox-rust"@,
            "rustc"@,
            "-o"@,
            "mnt/output"@,
            "mnt/input.rs"@,
        ],
        Language::Go => seq![
            "sandbox-go"@,
            "go"@,
            "build"@,
            "-o"@,
            "mnt/output"@,
            "mnt/input.go"@,
        ],
    })
}

/// The full execute invocation: the shared prefix, the C-family image
/// (a compiled native binary needs no per-language toolchain), and the
/// artifact to run.
pub open spec fn spec_execute_command(workspace: Seq<char>) -> Seq<Seq<char>> {
    spec_base_command(workspace) + seq!["sandbox-c"@, "mnt/output"@]
}

/// Builds the shared container-engine prefix for the given host workspace.
pub fn base_command(workspace: &str) -> (argv: Vec<String>)
    ensures
        argv_views(argv@) == spec_base_command(workspace@),
{
    let mut volume: String = workspace.to_owned();
    volume.append(":");
    volume.append(mount_path());
    let mut argv: Vec<String> = Vec::new();
    argv.push("docker".to_owned());
    argv.push("run".to_owned());
    argv.push("--rm".to_owned());
    argv.push("--volume".to_owned());
    argv.push(volume);
    proof {
        assert(argv_views(argv@) =~~= spec_base_command(workspace@));
    }
    argv
}

/// Builds the compile invocation for C source.
pub fn compile_c_command(workspace: &str) -> (argv: Vec<String>)
    ensures
        argv_views(argv@) == spec_compile_command(workspace@, Language::C),
{
    let mut argv = base_command(workspace);
    argv.push("sandbox-c".to_owned());
    argv.push("clang".to_owned());
    argv.push("-o".to_owned());
    argv.push("mnt/output".to_owned());
    argv.push("mnt/input.c".to_owned());
    proof {
        assert(argv_views(argv@) =~~= spec_compile_command(workspace@, Language::C));
    }
    argv
}

/// Builds the compile invocation for C++ source.
pub fn compile_cpp_command(workspace: &str) -> (argv: Vec<String>)
    ensures
        argv_views(argv@) == spec_compile_command(workspace@, Language::Cpp),
{
    let mut argv = base_command(workspace);
    argv.push("sandbox-cpp".to_owned());
    argv.push("clang++".to_owned());
    argv.push("-o".to_owned());
    argv.push("mnt/output".to_owned());
    argv.push("mnt/input.cpp".to_owned());
    proof {
        assert(argv_views(argv@) =~~= spec_compile_command(workspace@, Language::Cpp));
    }
    argv
}

/// Builds the compile invocation for Rust source.
pub fn compile_rust_command(workspace: &str) -> (argv: Vec<String>)
    ensures
        argv_views(argv@) == spec_compile_command(workspace@, Language::Rust),
{
    let mut argv = base_command(workspace);
    argv.push("sandbox-rust".to_owned());
    argv.push("rustc".to_owned());
    argv.push("-o".to_owned());
    argv.push("mnt/output".to_owned());
    argv.push("mnt/input.rs".to_owned());
    proof {
        assert(argv_views(argv@) =~~= spec_compile_command(workspace@, Language::Rust));
    }
    argv
}

/// Builds the compile invocation for Go source.
pub fn compile_go_command(workspace: &str) -> (argv: Vec<String>)
    ensures
        argv_views(argv@) == spec_compile_command(workspace@, Language::Go),
{
    let mut argv = base_command(workspace);
    argv.push("sandbox-go".to_owned());
    argv.push("go".to_owned());
    argv.push("build".to_owned());
    argv.push("-o".to_owned());
    argv.push("mnt/output".to_owned());
    argv.push("mnt/input.go".to_owned());
    proof {
        assert(argv_views(argv@) =~~= spec_compile_command(workspace@, Language::Go));
    }
    argv
}

/// Builds the compile invocation for the given language.
pub fn compile_command(workspace: &str, language: Language) -> (argv: Vec<String>)
    ensures
        argv_views(argv@) == spec_compile_command(workspace@, language),
{
    match language {
        Language::C => compile_c_command(workspace),
        Language::Cpp => compile_cpp_command(workspace),
        Language::Rust => compile_rust_command(workspace),
        Language::Go => compile_go_command(workspace),
    }
}

/// Builds the execute invocation, which runs the compiled artifact.
pub fn execute_command(workspace: &str) -> (argv: Vec<String>)
    ensures
        argv_views(argv@) == spec_execute_command(workspace@),
{
    let mut argv = base_command(workspace);
    argv.push("sandbox-c".to_owned());
    argv.push("mnt/output".to_owned());
    proof {
        assert(argv_views(argv@) =~~= spec_execute_command(workspace@));
    }
    argv
}

} // verus!
