use mold::autotools_install::{
    configure_command, configure_command_from, finish_command, AutotoolsInstall,
    BuildAutotoolsDependencyError, BuildError, FetchError, Outcome, Step,
};
use mold::command::{CommandSpec, ExitInfo};

fn strings(v: &[&str]) -> Vec<String> {
    v.iter().map(|s| s.to_string()).collect()
}

fn io_error(msg: &str) -> std::io::Error {
    std::io::Error::new(std::io::ErrorKind::Other, msg.to_string())
}

fn exited(code: i32) -> ExitInfo {
    ExitInfo { code: Some(code), description: format!("exit status: {}", code) }
}

fn prefix_arg(p: &str) -> String {
    format!("--prefix={:?}", std::path::PathBuf::from(p))
}

#[test]
fn configure_command_from_puts_prefix_first() {
    let cmd = configure_command_from("/opt/out", "/tmp/b", "../src", &strings(&["CC=clang"]), &vec![]);
    assert_eq!(cmd.program, "../src/configure");
    assert_eq!(cmd.args, vec!["--prefix=\"/opt/out\"".to_string(), "CC=clang".to_string()]);
    assert_eq!(cmd.cwd, "/tmp/b");
}

#[test]
fn prefix_is_debug_quoted() {
    let cmd = configure_command_from("/opt/with \"quote\"", "/b", "s", &vec![], &vec![]);
    assert_eq!(cmd.args, vec![prefix_arg("/opt/with \"quote\"")]);
    assert_eq!(cmd.args[0], "--prefix=\"/opt/with \\\"quote\\\"\"");
}

#[test]
fn configure_command_uses_relative_source() {
    let cmd = configure_command("/opt/out", "/tmp/build1", "/tmp/dl1/binutils-2.30", &vec![], &vec![])
        .expect("relative path");
    assert_eq!(cmd.program, "../dl1/binutils-2.30/configure");
    assert_eq!(cmd.cwd, "/tmp/build1");
    assert_eq!(cmd.args, vec![prefix_arg("/opt/out")]);
}

#[test]
fn configure_command_absolute_source_relative_build() {
    let cmd = configure_command("/opt/out", "build", "/src/binutils", &vec![], &vec![]).expect("path");
    assert_eq!(cmd.program, "/src/binutils/configure");
}

#[test]
fn configure_command_relative_source_absolute_build() {
    assert!(configure_command("/opt/out", "/tmp/build", "src", &vec![], &vec![]).is_none());
}

#[test]
fn install_finish_command_failure() {
    match finish_command("make", &strings(&["-j1", "install"]), Ok(exited(2))) {
        Err(BuildError::FailedCommand(m)) => {
            assert_eq!(m, "command 'make -j1 install' failed: exit status: 2")
        }
        other => panic!("unexpected {:?}", other),
    }
}

#[test]
fn install_error_conversions() {
    assert!(matches!(FetchError::from(io_error("x")), FetchError::IoError(_)));
    assert!(matches!(
        BuildAutotoolsDependencyError::from(io_error("x")),
        BuildAutotoolsDependencyError::FetchErr(FetchError::IoError(_))
    ));
    assert!(matches!(
        BuildAutotoolsDependencyError::from(BuildError::from(io_error("x"))),
        BuildAutotoolsDependencyError::BuildErr(BuildError::ProcessInvocationError(_))
    ));
}

fn binutils_install() -> AutotoolsInstall {
    AutotoolsInstall::new(
        "https://ftpmirror.gnu.org/binutils/binutils-2.30.tar.gz",
        "bfd-binutils",
        "binutils-2.30",
        strings(&["--disable-werror"]),
        vec![("PATH".to_string(), "/bin:/usr/bin".to_string())],
        1,
    )
}

#[test]
fn install_success_steps() {
    let mut m = binutils_install();
    let mut asked = Vec::new();
    for o in vec![
        Outcome::Resolved(Ok("/w/bfd-binutils".to_string())),
        Outcome::Created(Ok("/tmp/autotools-dl.1".to_string())),
        Outcome::Fetched(Ok(())),
        Outcome::Resolved(Ok("/tmp/autotools-dl.1/binutils-2.30".to_string())),
        Outcome::Created(Ok("/tmp/autotools-build.2".to_string())),
        Outcome::Ran(Ok(exited(0))),
        Outcome::Ran(Ok(exited(0))),
    ] {
        asked.push(m.next_step());
        m = m.advance(o).expect("no stop");
    }
    asked.push(m.next_step());
    assert_eq!(
        asked,
        vec![
            Step::Resolve("bfd-binutils".to_string()),
            Step::CreateTempDir("autotools-dl".to_string()),
            Step::Fetch {
                url: "https://ftpmirror.gnu.org/binutils/binutils-2.30.tar.gz".to_string(),
                dest: "/tmp/autotools-dl.1".to_string(),
            },
            Step::Resolve("/tmp/autotools-dl.1/binutils-2.30".to_string()),
            Step::CreateTempDir("autotools-build".to_string()),
            Step::Run(CommandSpec {
                program: "../autotools-dl.1/binutils-2.30/configure".to_string(),
                args: vec![prefix_arg("/w/bfd-binutils"), "--disable-werror".to_string()],
                cwd: "/tmp/autotools-build.2".to_string(),
                env: vec![("PATH".to_string(), "/bin:/usr/bin".to_string())],
            }),
            Step::Run(CommandSpec {
                program: "make".to_string(),
                args: strings(&["-j1", "install"]),
                cwd: "/tmp/autotools-build.2".to_string(),
                env: vec![("PATH".to_string(), "/bin:/usr/bin".to_string())],
            }),
            Step::Done,
        ]
    );
    match m.into_result() {
        Some(Ok(p)) => assert_eq!(p, "/w/bfd-binutils"),
        other => panic!("unexpected {:?}", other),
    }
}

#[test]
fn install_stops_without_relative_source() {
    let mut m = binutils_install();
    m = m.advance(Outcome::Resolved(Ok("/w/out".to_string()))).unwrap();
    m = m.advance(Outcome::Created(Ok("/tmp/dl".to_string()))).unwrap();
    m = m.advance(Outcome::Fetched(Ok(()))).unwrap();
    m = m.advance(Outcome::Resolved(Ok("relative/src".to_string()))).unwrap();
    assert!(m.advance(Outcome::Created(Ok("/tmp/build".to_string()))).is_none());
}

#[test]
fn install_temp_dir_failure_is_fetch_error() {
    let mut m = binutils_install();
    m = m.advance(Outcome::Resolved(Ok("/w/out".to_string()))).unwrap();
    m = m.advance(Outcome::Created(Err(io_error("no tmp")))).unwrap();
    assert!(m.is_finished());
    assert_eq!(m.next_step(), Step::Done);
    match m.into_result() {
        Some(Err(BuildAutotoolsDependencyError::FetchErr(FetchError::IoError(e)))) => {
            assert_eq!(e.to_string(), "no tmp")
        }
        other => panic!("unexpected {:?}", other),
    }
}

#[test]
fn install_failed_make_is_build_error() {
    let mut m = binutils_install();
    for o in vec![
        Outcome::Resolved(Ok("/w/out".to_string())),
        Outcome::Created(Ok("/tmp/dl".to_string())),
        Outcome::Fetched(Ok(())),
        Outcome::Resolved(Ok("/tmp/dl/src".to_string())),
        Outcome::Created(Ok("/tmp/b".to_string())),
        Outcome::Ran(Ok(exited(0))),
        Outcome::Ran(Ok(exited(2))),
    ] {
        m = m.advance(o).unwrap();
    }
    match m.into_result() {
        Some(Err(BuildAutotoolsDependencyError::BuildErr(BuildError::FailedCommand(msg)))) => {
            assert_eq!(msg, "command 'make -j1 install' failed: exit status: 2")
        }
        other => panic!("unexpected {:?}", other),
    }
}
