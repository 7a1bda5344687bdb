use sandbox_pipeline::command::{
    artifact_file_name, base_command, compile_c_command, compile_command, compile_cpp_command,
    compile_go_command, compile_rust_command, execute_command, mount_path, source_file_name,
    Language,
};

#[test]
fn mount_path_is_fixed() {
    assert_eq!(mount_path(), "/home/sandbox/mnt/");
}

#[test]
fn artifact_name_is_output() {
    assert_eq!(artifact_file_name(), "output");
}

#[test]
fn extensions_per_language() {
    assert_eq!(Language::C.extension(), "c");
    assert_eq!(Language::Cpp.extension(), "cpp");
    assert_eq!(Language::Rust.extension(), "rs");
    assert_eq!(Language::Go.extension(), "go");
}

#[test]
fn source_file_names_per_language() {
    assert_eq!(source_file_name(Language::C), "input.c");
    assert_eq!(source_file_name(Language::Cpp), "input.cpp");
    assert_eq!(source_file_name(Language::Rust), "input.rs");
    assert_eq!(source_file_name(Language::Go), "input.go");
}

#[test]
fn base_command_binds_workspace_to_mount() {
    let argv = base_command("/tmp/ws-1");
    assert_eq!(
        argv,
        vec!["docker", "run", "--rm", "--volume", "/tmp/ws-1:/home/sandbox/mnt/"]
    );
}

#[test]
fn compile_c_command_exact() {
    let argv = compile_c_command("/tmp/ws-1");
    assert_eq!(
        argv,
        vec![
            "docker",
            "run",
            "--rm",
            "--volume",
            "/tmp/ws-1:/home/sandbox/mnt/",
            "sandbox-c",
            "clang",
            "-o",
            "mnt/output",
            "mnt/input.c",
        ]
    );
}

#[test]
fn compile_cpp_command_exact() {
    let argv = compile_cpp_command("/tmp/ws-1");
    assert_eq!(
        argv,
        vec![
            "docker",
            "run",
            "--rm",
            "--volume",
            "/tmp/ws-1:/home/sandbox/mnt/",
            "sandbox-cpp",
            "clang++",
            "-o",
            "mnt/output",
            "mnt/input.cpp",
        ]
    );
}

#[test]
fn compile_rust_command_exact() {
    let argv = compile_rust_command("/tmp/ws-1");
    assert_eq!(
        argv,
        vec![
            "docker",
            "run",
            "--rm",
            "--volume",
            "/tmp/ws-1:/home/sandbox/mnt/",
            "sandbox-rust",
            "rustc",
            "-o",
            "mnt/output",
            "mnt/input.rs",
        ]
    );
}

#[test]
fn compile_go_command_exact() {
    let argv = compile_go_command("/tmp/ws-1");
    assert_eq!(
        argv,
        vec![
            "docker",
            "run",
            "--rm",
            "--volume",
            "/tmp/ws-1:/home/sandbox/mnt/",
            "sandbox-go",
            "go",
            "build",
            "-o",
            "mnt/output",
            "mnt/input.go",
        ]
    );
}

#[test]
fn compile_command_dispatches_per_language() {
    for language in [Language::C, Language::Cpp, Language::Rust, Language::Go] {
        let argv = compile_command("/tmp/ws-2", language);
        match language {
            Language::C => assert_eq!(argv, compile_c_command("/tmp/ws-2")),
            Language::Cpp => assert_eq!(argv, compile_cpp_command("/tmp/ws-2")),
            Language::Rust => assert_eq!(argv, compile_rust_command("/tmp/ws-2")),
            Language::Go => assert_eq!(argv, compile_go_command("/tmp/ws-2")),
        }
    }
}

#[test]
fn execute_command_reuses_c_image() {
    let argv = execute_command("/tmp/ws-1");
    assert_eq!(
        argv,
        vec![
            "docker",
            "run",
            "--rm",
            "--volume",
            "/tmp/ws-1:/home/sandbox/mnt/",
            "sandbox-c",
            "mnt/output",
        ]
    );
}
