use mold::autotools::{
    configure_command, finish_command, parse_url, AutotoolsBuild, BuildAutotoolsDependencyError,
    BuildError, FetchError, Outcome, Stage, Step,
};
use mold::command::{CommandSpec, ExitInfo};

fn strings(v: &[&str]) -> Vec<String> {
    v.iter().map(|s| s.to_string()).collect()
}

fn io_error(msg: &str) -> std::io::Error {
    std::io::Error::new(std::io::ErrorKind::NotFound, msg.to_string())
}

fn exited(code: i32) -> ExitInfo {
    ExitInfo { code: Some(code), description: format!("exit status: {}", code) }
}

fn resolved(p: &str) -> Outcome {
    Outcome::Resolved(Ok(p.to_string()))
}

fn env() -> Vec<(String, String)> {
    vec![("PATH".to_string(), "/bin:/usr/bin".to_string())]
}

fn run_step(cmd: &str, args: &[&str], cwd: &str) -> Step {
    Step::Run(CommandSpec {
        program: cmd.to_string(),
        args: strings(args),
        cwd: cwd.to_string(),
        env: env(),
    })
}

#[test]
fn finish_command_success_keeps_status() {
    match finish_command("make", &strings(&["-j4"]), Ok(exited(0))) {
        Ok(st) => assert_eq!(st, exited(0)),
        Err(e) => panic!("unexpected {:?}", e),
    }
}

#[test]
fn finish_command_failure_names_command() {
    match finish_command("make", &strings(&["-j4", "install"]), Ok(exited(2))) {
        Err(BuildError::FailedCommand(m)) => {
            assert_eq!(m, "command 'make -j4 install' failed: exit status: 2")
        }
        other => panic!("unexpected {:?}", other),
    }
}

#[test]
fn finish_command_signal_is_failure() {
    let killed = ExitInfo { code: None, description: "signal: 9 (SIGKILL)".to_string() };
    match finish_command("make", &vec![], Ok(killed)) {
        Err(BuildError::FailedCommand(m)) => {
            assert_eq!(m, "command 'make' failed: signal: 9 (SIGKILL)")
        }
        other => panic!("unexpected {:?}", other),
    }
}

#[test]
fn finish_command_invocation_error() {
    match finish_command("make", &vec![], Err(io_error("no make"))) {
        Err(BuildError::ProcessInvocationError(e)) => assert_eq!(e.to_string(), "no make"),
        other => panic!("unexpected {:?}", other),
    }
}

#[test]
fn configure_command_runs_script_in_build_dir() {
    let cmd = configure_command("/src/binutils-2.30", "/tmp/build", &strings(&["CC=clang"]), &env());
    assert_eq!(cmd.program, "/src/binutils-2.30/configure");
    assert_eq!(cmd.args, strings(&["CC=clang"]));
    assert_eq!(cmd.cwd, "/tmp/build");
    assert_eq!(cmd.env, env());
}

#[test]
fn parse_url_accepts_absolute_urls() {
    let text = "https://ftpmirror.gnu.org/binutils/binutils-2.30.tar.gz";
    assert_eq!(parse_url(text).unwrap(), reqwest::Url::parse(text).unwrap());
    assert_eq!(parse_url(text).unwrap().as_str(), text);
}

#[test]
fn parse_url_rejects_relative_text() {
    match parse_url("binutils-2.30.tar.gz") {
        Err(FetchError::ParseError(_)) => {}
        other => panic!("unexpected {:?}", other),
    }
}

#[test]
fn error_conversions() {
    assert!(matches!(FetchError::from(io_error("x")), FetchError::IoError(_)));
    assert!(matches!(BuildError::from(io_error("x")), BuildError::ProcessInvocationError(_)));
    assert!(matches!(
        BuildAutotoolsDependencyError::from(io_error("x")),
        BuildAutotoolsDependencyError::FetchErr(FetchError::IoError(_))
    ));
    assert!(matches!(
        BuildAutotoolsDependencyError::from(BuildError::FailedCommand("m".to_string())),
        BuildAutotoolsDependencyError::BuildErr(BuildError::FailedCommand(_))
    ));
    assert!(matches!(
        BuildAutotoolsDependencyError::from(FetchError::IoError(io_error("x"))),
        BuildAutotoolsDependencyError::FetchErr(FetchError::IoError(_))
    ));
}

fn binutils_fetch() -> AutotoolsBuild {
    AutotoolsBuild::fetch(
        "https://ftpmirror.gnu.org/binutils/binutils-2.30.tar.gz",
        "bfd-binutils",
        "dl",
        "binutils-2.30",
        strings(&["--disable-werror"]),
        env(),
        std::time::Duration::new(300, 0),
        1,
    )
}

#[test]
fn fetch_build_success_steps() {
    let mut b = binutils_fetch();
    let mut asked = Vec::new();
    let outcomes = vec![
        resolved("/w/bfd-binutils"),
        resolved("/w/dl"),
        Outcome::Fetched(Ok(())),
        resolved("/w/dl/binutils-2.30"),
        resolved("/w/dl/binutils-2.30"),
        resolved("/w/bfd-binutils"),
        resolved("/w/dl/binutils-2.30"),
        Outcome::Ran(Ok(exited(0))),
        Outcome::Ran(Ok(exited(0))),
    ];
    for o in outcomes {
        asked.push(b.next_step());
        b = b.advance(o);
    }
    asked.push(b.next_step());
    assert_eq!(
        asked,
        vec![
            Step::Resolve("bfd-binutils".to_string()),
            Step::Resolve("dl".to_string()),
            Step::Fetch {
                url: "https://ftpmirror.gnu.org/binutils/binutils-2.30.tar.gz".to_string(),
                dest: "/w/dl".to_string(),
                timeout: Some(std::time::Duration::new(300, 0)),
            },
            Step::Resolve("/w/dl/binutils-2.30".to_string()),
            Step::Resolve("/w/dl/binutils-2.30".to_string()),
            Step::Resolve("/w/bfd-binutils".to_string()),
            Step::Resolve("/w/dl/binutils-2.30".to_string()),
            run_step("/w/dl/binutils-2.30/configure", &["--disable-werror"], "/w/bfd-binutils"),
            run_step("make", &["-j1"], "/w/bfd-binutils"),
            Step::Done,
        ]
    );
    assert!(b.is_finished());
    match b.into_result() {
        Some(Ok(dep)) => assert_eq!(dep.build_dir, "/w/bfd-binutils"),
        other => panic!("unexpected {:?}", other),
    }
}

#[test]
fn local_build_makes_in_given_dir() {
    let mut b = AutotoolsBuild::local("src", "build", strings(&["CC=clang"]), env(), 4);
    assert_eq!(b.stage(), Stage::ResolveSource);
    let mut asked = Vec::new();
    for o in vec![
        resolved("/w/src"),
        resolved("/w/build"),
        resolved("/w/src"),
        Outcome::Ran(Ok(exited(0))),
        Outcome::Ran(Ok(exited(0))),
    ] {
        asked.push(b.next_step());
        b = b.advance(o);
    }
    assert_eq!(
        asked,
        vec![
            Step::Resolve("src".to_string()),
            Step::Resolve("build".to_string()),
            Step::Resolve("/w/src".to_string()),
            run_step("/w/src/configure", &["CC=clang"], "/w/build"),
            run_step("make", &["-j4"], "build"),
        ]
    );
    match b.into_result() {
        Some(Ok(dep)) => assert_eq!(dep.build_dir, "/w/build"),
        other => panic!("unexpected {:?}", other),
    }
}

#[test]
fn failed_resolution_is_fetch_error() {
    let b = binutils_fetch().advance(Outcome::Resolved(Err(io_error("gone"))));
    assert!(b.is_finished());
    assert_eq!(b.next_step(), Step::Done);
    match b.into_result() {
        Some(Err(BuildAutotoolsDependencyError::FetchErr(FetchError::IoError(e)))) => {
            assert_eq!(e.to_string(), "gone")
        }
        other => panic!("unexpected {:?}", other),
    }
}

#[test]
fn failed_configure_resolution_is_build_error() {
    let mut b = AutotoolsBuild::local("src", "build", vec![], env(), 1);
    b = b.advance(resolved("/w/src"));
    b = b.advance(resolved("/w/build"));
    b = b.advance(Outcome::Resolved(Err(io_error("vanished"))));
    match b.into_result() {
        Some(Err(BuildAutotoolsDependencyError::BuildErr(BuildError::ProcessInvocationError(
            e,
        )))) => assert_eq!(e.to_string(), "vanished"),
        other => panic!("unexpected {:?}", other),
    }
}

#[test]
fn failed_download_is_kept() {
    let mut b = binutils_fetch();
    b = b.advance(resolved("/w/bfd-binutils"));
    b = b.advance(resolved("/w/dl"));
    b = b.advance(Outcome::Fetched(Err(FetchError::IoError(io_error("reset")))));
    match b.into_result() {
        Some(Err(BuildAutotoolsDependencyError::FetchErr(FetchError::IoError(e)))) => {
            assert_eq!(e.to_string(), "reset")
        }
        other => panic!("unexpected {:?}", other),
    }
}

#[test]
fn failed_configure_is_failed_command() {
    let mut b = AutotoolsBuild::local("src", "build", strings(&["--disable-werror"]), env(), 1);
    b = b.advance(resolved("/w/src"));
    b = b.advance(resolved("/w/build"));
    b = b.advance(resolved("/w/src"));
    b = b.advance(Outcome::Ran(Ok(exited(1))));
    match b.into_result() {
        Some(Err(BuildAutotoolsDependencyError::BuildErr(BuildError::FailedCommand(m)))) => {
            assert_eq!(m, "command '/w/src/configure --disable-werror' failed: exit status: 1")
        }
        other => panic!("unexpected {:?}", other),
    }
}

#[test]
fn failed_make_is_failed_command() {
    let mut b = AutotoolsBuild::local("src", "build", vec![], env(), 8);
    b = b.advance(resolved("/w/src"));
    b = b.advance(resolved("/w/build"));
    b = b.advance(resolved("/w/src"));
    b = b.advance(Outcome::Ran(Ok(exited(0))));
    b = b.advance(Outcome::Ran(Err(io_error("make not found"))));
    match b.into_result() {
        Some(Err(BuildAutotoolsDependencyError::BuildErr(BuildError::ProcessInvocationError(
            e,
        )))) => assert_eq!(e.to_string(), "make not found"),
        other => panic!("unexpected {:?}", other),
    }
}

#[test]
fn unfinished_build_has_no_result() {
    assert!(binutils_fetch().into_result().is_none());
}

#[test]
fn fetch_build_continues_as_local_build() {
    let mut f = binutils_fetch();
    for o in vec![
        resolved("/w/bfd-binutils"),
        resolved("/w/dl"),
        Outcome::Fetched(Ok(())),
        resolved("/w/dl/binutils-2.30"),
    ] {
        f = f.advance(o);
    }
    let mut l = AutotoolsBuild::local(
        "/w/dl/binutils-2.30",
        "/w/bfd-binutils",
        strings(&["--disable-werror"]),
        env(),
        1,
    );
    let later = || {
        vec![
            resolved("/x/src"),
            resolved("/x/build"),
            resolved("/x/src2"),
            Outcome::Ran(Ok(exited(0))),
            Outcome::Ran(Ok(exited(3))),
        ]
    };
    for (a, b) in later().into_iter().zip(later()) {
        assert_eq!(f.next_step(), l.next_step());
        f = f.advance(a);
        l = l.advance(b);
    }
    assert_eq!(f.next_step(), l.next_step());
    match (f.into_result(), l.into_result()) {
        (
            Some(Err(BuildAutotoolsDependencyError::BuildErr(BuildError::FailedCommand(a)))),
            Some(Err(BuildAutotoolsDependencyError::BuildErr(BuildError::FailedCommand(b)))),
        ) => {
            assert_eq!(a, b);
            assert_eq!(a, "command 'make -j1' failed: exit status: 3");
        }
        other => panic!("unexpected {:?}", other),
    }
}
