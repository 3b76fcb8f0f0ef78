use mold::command::{
    clone_env, clone_strings, command_string, configure_script, decimal_string, failure_message, join_path,
    make_arguments, make_command, ExitInfo,
};

fn strings(v: &[&str]) -> Vec<String> {
    v.iter().map(|s| s.to_string()).collect()
}

#[test]
fn it_works() {
    assert_eq!(2 + 2, 4);
}

#[test]
fn lib_it_works() {
    assert_eq!(2 + 2, 4);
}

#[test]
fn command_string_joins_with_spaces() {
    assert_eq!(command_string("make", &strings(&["-j4", "install"])), "make -j4 install");
    assert_eq!(command_string("/src/configure", &vec![]), "/src/configure");
    assert_eq!(command_string("cc", &strings(&["", "a b"])), "cc  a b");
}

#[test]
fn command_string_matches_the_fold() {
    let args = strings(&["CFLAGS=-arch x86_64", "--disable-werror", "--enable-64-bit-bfd"]);
    let folded = args
        .iter()
        .fold(String::from("/tmp/src/configure"), |cmd, arg| format!("{} {}", cmd, arg));
    assert_eq!(command_string("/tmp/src/configure", &args), folded);
}

#[test]
fn failure_message_names_command_and_status() {
    let status = ExitInfo { code: Some(2), description: "exit status: 2".to_string() };
    assert_eq!(
        failure_message("make -j4", &status),
        "command 'make -j4' failed: exit status: 2"
    );
}

#[test]
fn exit_success_is_code_zero() {
    assert!(ExitInfo { code: Some(0), description: String::new() }.success());
    assert!(!ExitInfo { code: Some(1), description: String::new() }.success());
    assert!(!ExitInfo { code: None, description: String::new() }.success());
}

#[test]
fn join_path_examples() {
    assert_eq!(join_path("/a/b", "configure"), "/a/b/configure");
    assert_eq!(join_path("/a/b/", "configure"), "/a/b/configure");
    assert_eq!(join_path("", "configure"), "configure");
    assert_eq!(join_path("/a/b", "/etc"), "/etc");
    assert_eq!(join_path("a", ""), "a/");
    assert_eq!(join_path("../src", "configure"), "../src/configure");
}

#[test]
fn join_path_agrees_with_pathbuf() {
    let bases = ["", "/", "/a", "/a/", "a/b", "..", "x//"];
    let rels = ["", "c", "c/d", "/e", "./f", "//g"];
    for base in bases.iter() {
        for rel in rels.iter() {
            let expected: std::path::PathBuf =
                [std::path::Path::new(base), std::path::Path::new(rel)].iter().collect();
            assert_eq!(join_path(base, rel), expected.to_str().unwrap(), "{} + {}", base, rel);
        }
    }
}

#[test]
fn decimal_string_examples() {
    assert_eq!(decimal_string(0), "0");
    assert_eq!(decimal_string(7), "7");
    assert_eq!(decimal_string(10), "10");
    assert_eq!(decimal_string(42), "42");
    assert_eq!(decimal_string(100), "100");
    assert_eq!(decimal_string(255), "255");
}

#[test]
fn decimal_string_agrees_with_to_string() {
    for n in 0..=255u8 {
        assert_eq!(decimal_string(n), n.to_string());
    }
}

#[test]
fn make_arguments_put_jobs_first() {
    assert_eq!(make_arguments(&strings(&["install"]), 4), strings(&["-j4", "install"]));
    assert_eq!(make_arguments(&vec![], 16), strings(&["-j16"]));
}

#[test]
fn make_command_runs_make_in_cwd() {
    let env = vec![("PATH".to_string(), "/bin:/usr/bin".to_string())];
    let cmd = make_command("/tmp/build", &strings(&["install"]), &env, 1);
    assert_eq!(cmd.program, "make");
    assert_eq!(cmd.args, strings(&["-j1", "install"]));
    assert_eq!(cmd.cwd, "/tmp/build");
    assert_eq!(cmd.env, env);
}

#[test]
fn configure_script_is_in_source_tree() {
    assert_eq!(configure_script("/src/binutils-2.30"), "/src/binutils-2.30/configure");
    assert_eq!(configure_script("/"), "/configure");
}

#[test]
fn clone_strings_copies() {
    let v = strings(&["a", "bc"]);
    assert_eq!(clone_strings(&v), v);
    let e = vec![("A".to_string(), "1".to_string()), ("B".to_string(), String::new())];
    assert_eq!(clone_env(&e), e);
}
