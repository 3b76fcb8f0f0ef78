//! Fetching an autotools dependency into temporary directories, building it
//! there and installing it under a prefix of the caller's choosing.
//!
//! The outside work (resolving paths, creating temporary directories,
//! downloading and unpacking, running processes) is done by the caller; this
//! module decides, step by step, what is to be done next and what the build
//! ends with.
use vstd::prelude::*;
use crate::command::{
    clone_env, command_string, command_text, configure_name, env_view, failure_message,
    failure_text, join_path, jobs_option, make_arguments_view, make_command, make_program,
    path_debug, path_debug_text, path_join, strings_view, CommandSpec, CommandView, ExitInfo,
    ExitView,
};

verus! {

/// Why a download failed.
#[derive(Debug)]
pub enum FetchError {
    IoError(std::io::Error),
    RequestError(reqwest::Error),
}

impl From<std::io::Error> for FetchError {
    fn from(error: std::io::Error) -> (res: Self) {
        FetchError::IoError(error)
    }
}

impl vstd::std_specs::convert::FromSpecImpl<std::io::Error> for FetchError {
    open spec fn obeys_from_spec() -> bool {
        true
    }

    open spec fn from_spec(error: std::io::Error) -> Self {
        FetchError::IoError(error)
    }
}

impl From<reqwest::Error> for FetchError {
    fn from(error: reqwest::Error) -> (res: Self) {
        FetchError::RequestError(error)
    }
}

impl vstd::std_specs::convert::FromSpecImpl<reqwest::Error> for FetchError {
    open spec fn obeys_from_spec() -> bool {
        true
    }

    open spec fn from_spec(error: reqwest::Error) -> Self {
        FetchError::RequestError(error)
    }
}

/// Why a build step failed: the process could not be run, or it ran and did
/// not succeed.
#[derive(Debug)]
pub enum BuildError {
    ProcessInvocationError(std::io::Error),
    FailedCommand(String),
}

impl From<std::io::Error> for BuildError {
    fn from(error: std::io::Error) -> (res: Self) {
        BuildError::ProcessInvocationError(error)
    }
}

impl vstd::std_specs::convert::FromSpecImpl<std::io::Error> for BuildError {
    open spec fn obeys_from_spec() -> bool {
        true
    }

    open spec fn from_spec(error: std::io::Error) -> Self {
        BuildError::ProcessInvocationError(error)
    }
}

pub enum BuildErrorView {
    ProcessInvocationError(std::io::Error),
    FailedCommand(Seq<char>),
}

impl View for BuildError {
    type V = BuildErrorView;

    open spec fn view(&self) -> BuildErrorView {
        match self {
            BuildError::ProcessInvocationError(e) => BuildErrorView::ProcessInvocationError(*e),
            BuildError::FailedCommand(m) => BuildErrorView::FailedCommand(m@),
        }
    }
}

pub open spec fn build_result_view(r: Result<ExitInfo, BuildError>) -> Result<ExitView, BuildErrorView> {
    match r {
        Ok(st) => Ok(st@),
        Err(e) => Err(e@),
    }
}

pub open spec fn run_outcome_view(r: Result<ExitInfo, std::io::Error>) -> Result<ExitView, std::io::Error> {
    match r {
        Ok(st) => Ok(st@),
        Err(e) => Err(e),
    }
}

/// What a command run ends with, given its command line and what running it
/// gave.
pub open spec fn command_result(command: Seq<char>, ran: Result<ExitView, std::io::Error>) -> Result<
    ExitView,
    BuildErrorView,
> {
    match ran {
        Err(e) => Err(BuildErrorView::ProcessInvocationError(e)),
        Ok(st) => if st.succeeded() {
            Ok(st)
        } else {
            Err(BuildErrorView::FailedCommand(failure_text(command, st.description)))
        },
    }
}

/// Judges a finished run of `program` with `args`: an error while running it
/// is a `ProcessInvocationError`, an exit status other than success a
/// `FailedCommand` naming the command line and the status.
pub fn finish_command(program: &str, args: &Vec<String>, ran: Result<ExitInfo, std::io::Error>) -> (res:
    Result<ExitInfo, BuildError>)
    ensures
        build_result_view(res) == command_result(
            command_text(program@, strings_view(args@)),
            run_outcome_view(ran),
        ),
        ran matches Err(e) ==> (res matches Err(BuildError::ProcessInvocationError(e2)) && e2 == e),
        ran matches Ok(st) ==> (res is Ok <==> st.code == Some(0i32)),
        ran matches Ok(st) ==> (st.code != Some(0i32) ==> (res matches Err(
            BuildError::FailedCommand(m),
        ) && m@ == failure_text(command_text(program@, strings_view(args@)), st.description@))),
{
    match ran {
        Err(e) => Err(BuildError::ProcessInvocationError(e)),
        Ok(status) => {
            if status.success() {
                Ok(status)
            } else {
                let cmd = command_string(program, args);
                Err(BuildError::FailedCommand(failure_message(cmd.as_str(), &status)))
            }
        },
    }
}

/// Why fetching, building or installing a dependency failed.
#[derive(Debug)]
pub enum BuildAutotoolsDependencyError {
    FetchErr(FetchError),
    BuildErr(BuildError),
}

impl From<FetchError> for BuildAutotoolsDependencyError {
    fn from(error: FetchError) -> (res: Self) {
        BuildAutotoolsDependencyError::FetchErr(error)
    }
}

impl vstd::std_specs::convert::FromSpecImpl<FetchError> for BuildAutotoolsDependencyError {
    open spec fn obeys_from_spec() -> bool {
        true
    }

    open spec fn from_spec(error: FetchError) -> Self {
        BuildAutotoolsDependencyError::FetchErr(error)
    }
}

impl From<BuildError> for BuildAutotoolsDependencyError {
    fn from(error: BuildError) -> (res: Self) {
        BuildAutotoolsDependencyError::BuildErr(error)
    }
}

impl vstd::std_specs::convert::FromSpecImpl<BuildError> for BuildAutotoolsDependencyError {
    open spec fn obeys_from_spec() -> bool {
        true
    }

    open spec fn from_spec(error: BuildError) -> Self {
        BuildAutotoolsDependencyError::BuildErr(error)
    }
}

impl From<std::io::Error> for BuildAutotoolsDependencyError {
    fn from(error: std::io::Error) -> (res: Self) {
        BuildAutotoolsDependencyError::FetchErr(FetchError::IoError(error))
    }
}

impl vstd::std_specs::convert::FromSpecImpl<std::io::Error> for BuildAutotoolsDependencyError {
    open spec fn obeys_from_spec() -> bool {
        true
    }

    open spec fn from_spec(error: std::io::Error) -> Self {
        BuildAutotoolsDependencyError::FetchErr(FetchError::IoError(error))
    }
}

pub enum DependencyErrorView {
    FetchErr(FetchError),
    BuildErr(BuildErrorView),
}

impl View for BuildAutotoolsDependencyError {
    type V = DependencyErrorView;

    open spec fn view(&self) -> DependencyErrorView {
        match self {
            BuildAutotoolsDependencyError::FetchErr(e) => DependencyErrorView::FetchErr(*e),
            BuildAutotoolsDependencyError::BuildErr(e) => DependencyErrorView::BuildErr(e@),
        }
    }
}

pub open spec fn install_result_view(r: Result<String, BuildAutotoolsDependencyError>) -> Result<
    Seq<char>,
    DependencyErrorView,
> {
    match r {
        Ok(p) => Ok(p@),
        Err(e) => Err(e@),
    }
}

/// On Unix a path is absolute when it starts at the root.
pub open spec fn is_absolute_path(p: Seq<char>) -> bool {
    p.len() > 0 && p[0] == '/'
}

/// The path that leads from `base` to `path`, as `pathdiff::diff_paths`
/// gives it; `None` where it gives none.
pub uninterp spec fn relative_path(path: Seq<char>, base: Seq<char>) -> Option<Seq<char>>;

/// Calls `pathdiff::diff_paths(path, base)`. Its result is named; of it the
/// contract states only what the function's first test shows: an absolute
/// path against a relative base comes back unchanged, and a relative path
/// against an absolute base has no relative form.
#[verifier::external_body]
fn diff_paths(path: &str, base: &str) -> (res: Option<String>)
    ensures
        res is None <==> relative_path(path@, base@) is None,
        res matches Some(p) ==> relative_path(path@, base@) == Some(p@),
        is_absolute_path(path@) && !is_absolute_path(base@) ==> res is Some && res.unwrap()@
            == path@,
        !is_absolute_path(path@) && is_absolute_path(base@) ==> res is None,
{
    match pathdiff::diff_paths(path, base) {
        Some(p) => Some(p.to_string_lossy().into_owned()),
        None => None,
    }
}

/// The option that tells configure where to install: the prefix as `{:?}`
/// prints a path.
pub open spec fn prefix_option(prefix: Seq<char>) -> Seq<char> {
    seq!['-', '-', 'p', 'r', 'e', 'f', 'i', 'x', '='] + path_debug_text(prefix)
}

/// The configure run of the source tree that lies at `rel_source` as seen
/// from `build_dir`, installing under `prefix_dir`.
pub open spec fn configure_view(
    prefix_dir: Seq<char>,
    build_dir: Seq<char>,
    rel_source: Seq<char>,
    args: Seq<Seq<char>>,
    env: Seq<(Seq<char>, Seq<char>)>,
) -> CommandView {
    CommandView {
        program: path_join(rel_source, configure_name()),
        args: seq![prefix_option(prefix_dir)] + args,
        cwd: build_dir,
        env,
    }
}

/// The configure run, given where the source tree lies as seen from
/// `build_dir`: the prefix option goes before `args`.
pub fn configure_command_from(
    prefix_dir: &str,
    build_dir: &str,
    rel_source: &str,
    args: &Vec<String>,
    env: &Vec<(String, String)>,
) -> (res: CommandSpec)
    ensures
        res@ == configure_view(
            prefix_dir@,
            build_dir@,
            rel_source@,
            strings_view(args@),
            env_view(env@),
        ),
{
    let mut prefix = String::from_str("--prefix=");
    prefix.append(path_debug(prefix_dir).as_str());
    proof {
        reveal_strlit("--prefix=");
    }
    let mut all_args: Vec<String> = Vec::new();
    all_args.push(prefix);
    let n = args.len();
    for i in 0..n
        invariant
            n == args.len(),
            all_args@.len() == i + 1,
            all_args@[0]@ == prefix_option(prefix_dir@),
            forall|j: int| 0 <= j < i ==> #[trigger] all_args@[j + 1] == args@[j],
    {
        all_args.push(args[i].clone());
    }
    proof {
        let lhs = strings_view(all_args@);
        let rhs = seq![prefix_option(prefix_dir@)] + strings_view(args@);
        assert forall|k: int| 0 <= k < lhs.len() implies lhs[k] == rhs[k] by {
            if k > 0 {
                assert(all_args@[(k - 1) + 1] == args@[k - 1]);
            }
        }
        assert(lhs =~= rhs);
    }
    proof {
        reveal_strlit("configure");
    }
    let res = CommandSpec {
        program: join_path(rel_source, "configure"),
        args: all_args,
        cwd: String::from_str(build_dir),
        env: clone_env(env),
    };
    assert(res@ =~= configure_view(
        prefix_dir@,
        build_dir@,
        rel_source@,
        strings_view(args@),
        env_view(env@),
    ));
    res
}

/// The configure run of the source tree at `source_dir`, run from
/// `build_dir` by a path relative to it, installing under `prefix_dir`;
/// `None` where the source tree has no path relative to the build directory.
pub fn configure_command(
    prefix_dir: &str,
    build_dir: &str,
    source_dir: &str,
    args: &Vec<String>,
    env: &Vec<(String, String)>,
) -> (res: Option<CommandSpec>)
    ensures
        match relative_path(source_dir@, build_dir@) {
            None => res is None,
            Some(rel) => res matches Some(c) && c@ == configure_view(
                prefix_dir@,
                build_dir@,
                rel,
                strings_view(args@),
                env_view(env@),
            ),
        },
{
    match diff_paths(source_dir, build_dir) {
        Some(rel) => Some(configure_command_from(prefix_dir, build_dir, rel.as_str(), args, env)),
        None => None,
    }
}

/// The prefix of the temporary directory the archive is unpacked into.
pub open spec fn download_dir_prefix() -> Seq<char> {
    seq!['a', 'u', 't', 'o', 't', 'o', 'o', 'l', 's', '-', 'd', 'l']
}

/// The prefix of the temporary directory the build runs in.
pub open spec fn build_dir_prefix() -> Seq<char> {
    seq!['a', 'u', 't', 'o', 't', 'o', 'o', 'l', 's', '-', 'b', 'u', 'i', 'l', 'd']
}

/// The arguments of make besides the jobs option.
pub open spec fn install_target() -> Seq<char> {
    seq!['i', 'n', 's', 't', 'a', 'l', 'l']
}

/// Where an install stands: the outside step it waits for, or finished.
#[derive(Debug, Clone, Copy, PartialEq, Eq)]
pub enum Stage {
    /// Resolving the install prefix.
    ResolveOutdir,
    /// Creating the temporary directory the archive is unpacked into.
    CreateDownloadDir,
    /// Downloading the archive and unpacking it.
    Fetch,
    /// Resolving the unpacked source tree.
    ResolveSource,
    /// Creating the temporary build directory.
    CreateBuildDir,
    /// Running the configure script.
    Configure,
    /// Running make with the install target.
    Make,
    Finished,
}

/// What the caller reports after doing the step it was asked for.
#[derive(Debug)]
pub enum Outcome {
    /// A path resolved to its canonical absolute form, or the error.
    Resolved(Result<String, std::io::Error>),
    /// A temporary directory was created at this path, or the error.
    Created(Result<String, std::io::Error>),
    /// The archive was downloaded and unpacked, or the error.
    Fetched(Result<(), FetchError>),
    /// A command ran to its exit status, or running it failed.
    Ran(Result<ExitInfo, std::io::Error>),
}

pub enum OutcomeView {
    Resolved(Result<Seq<char>, std::io::Error>),
    Created(Result<Seq<char>, std::io::Error>),
    Fetched(Result<(), FetchError>),
    Ran(Result<ExitView, std::io::Error>),
}

pub open spec fn path_outcome_view(r: Result<String, std::io::Error>) -> Result<Seq<char>, std::io::Error> {
    match r {
        Ok(p) => Ok(p@),
        Err(e) => Err(e),
    }
}

impl View for Outcome {
    type V = OutcomeView;

    open spec fn view(&self) -> OutcomeView {
        match self {
            Outcome::Resolved(r) => OutcomeView::Resolved(path_outcome_view(*r)),
            Outcome::Created(r) => OutcomeView::Created(path_outcome_view(*r)),
            Outcome::Fetched(r) => OutcomeView::Fetched(*r),
            Outcome::Ran(r) => OutcomeView::Ran(run_outcome_view(*r)),
        }
    }
}

/// The outside step that an install asks for.
#[derive(Debug, PartialEq, Eq)]
pub enum Step {
    /// Resolve this path to its canonical absolute form.
    Resolve(String),
    /// Create a fresh temporary directory whose name starts with this prefix;
    /// it is to be kept until the install is finished.
    CreateTempDir(String),
    /// Download the archive at `url` and unpack it into `dest`.
    Fetch { url: String, dest: String },
    /// Run this command with the caller's environment variables.
    Run(CommandSpec),
    /// Nothing: the install is finished.
    Done,
}

pub enum StepView {
    Resolve(Seq<char>),
    CreateTempDir(Seq<char>),
    Fetch { url: Seq<char>, dest: Seq<char> },
    Run(CommandView),
    Done,
}

impl View for Step {
    type V = StepView;

    open spec fn view(&self) -> StepView {
        match self {
            Step::Resolve(p) => StepView::Resolve(p@),
            Step::CreateTempDir(p) => StepView::CreateTempDir(p@),
            Step::Fetch { url, dest } => StepView::Fetch { url: url@, dest: dest@ },
            Step::Run(c) => StepView::Run(c@),
            Step::Done => StepView::Done,
        }
    }
}

/// A download of an autotools dependency into a temporary directory, built in
/// another temporary directory and installed under a prefix.
pub struct AutotoolsInstall {
    url: String,
    outdir: String,
    src_dirname: String,
    configure_args: Vec<String>,
    env_vars: Vec<(String, String)>,
    parallelism: u8,
    outdir_abs: String,
    download_dir: String,
    source_abs: String,
    build_dir: String,
    rel_source: String,
    stage: Stage,
    result: Option<Result<String, BuildAutotoolsDependencyError>>,
}

#[verifier::ext_equal]
pub struct InstallView {
    pub url: Seq<char>,
    pub outdir: Seq<char>,
    pub src_dirname: Seq<char>,
    pub configure_args: Seq<Seq<char>>,
    /// The environment variables every command is given.
    pub env_vars: Seq<(Seq<char>, Seq<char>)>,
    pub parallelism: u8,
    /// The resolved install prefix.
    pub outdir_abs: Seq<char>,
    /// The temporary directory the archive is unpacked into.
    pub download_dir: Seq<char>,
    /// The resolved source tree.
    pub source_abs: Seq<char>,
    /// The temporary build directory.
    pub build_dir: Seq<char>,
    /// The source tree as seen from the build directory.
    pub rel_source: Seq<char>,
    pub stage: Stage,
    pub result: Option<Result<Seq<char>, DependencyErrorView>>,
}

pub open spec fn optional_result_view(r: Option<Result<String, BuildAutotoolsDependencyError>>) -> Option<
    Result<Seq<char>, DependencyErrorView>,
> {
    match r {
        Some(r) => Some(install_result_view(r)),
        None => None,
    }
}

impl View for AutotoolsInstall {
    type V = InstallView;

    closed spec fn view(&self) -> InstallView {
        InstallView {
            url: self.url@,
            outdir: self.outdir@,
            src_dirname: self.src_dirname@,
            configure_args: strings_view(self.configure_args@),
            env_vars: env_view(self.env_vars@),
            parallelism: self.parallelism,
            outdir_abs: self.outdir_abs@,
            download_dir: self.download_dir@,
            source_abs: self.source_abs@,
            build_dir: self.build_dir@,
            rel_source: self.rel_source@,
            stage: self.stage,
            result: optional_result_view(self.result),
        }
    }
}

/// An install of the archive at `url`, whose source tree is `src_dirname`
/// in it, under the prefix `outdir`.
pub open spec fn install_start(
    url: Seq<char>,
    outdir: Seq<char>,
    src_dirname: Seq<char>,
    configure_args: Seq<Seq<char>>,
    env_vars: Seq<(Seq<char>, Seq<char>)>,
    parallelism: u8,
) -> InstallView {
    InstallView {
        url,
        outdir,
        src_dirname,
        configure_args,
        env_vars,
        parallelism,
        outdir_abs: Seq::empty(),
        download_dir: Seq::empty(),
        source_abs: Seq::empty(),
        build_dir: Seq::empty(),
        rel_source: Seq::empty(),
        stage: Stage::ResolveOutdir,
        result: None,
    }
}

/// The make run: the jobs option and the install target, in the build
/// directory.
pub open spec fn install_make_view(m: InstallView) -> CommandView {
    CommandView {
        program: make_program(),
        args: make_arguments_view(seq![install_target()], m.parallelism),
        cwd: m.build_dir,
        env: m.env_vars,
    }
}

pub open spec fn install_configure_view(m: InstallView) -> CommandView {
    configure_view(m.outdir_abs, m.build_dir, m.rel_source, m.configure_args, m.env_vars)
}

pub open spec fn command_line_of(c: CommandView) -> Seq<char> {
    command_text(c.program, c.args)
}

impl InstallView {
    /// The step the install asks for.
    pub open spec fn step(self) -> StepView {
        match self.stage {
            Stage::ResolveOutdir => StepView::Resolve(self.outdir),
            Stage::CreateDownloadDir => StepView::CreateTempDir(download_dir_prefix()),
            Stage::Fetch => StepView::Fetch { url: self.url, dest: self.download_dir },
            Stage::ResolveSource => StepView::Resolve(
                path_join(self.download_dir, self.src_dirname),
            ),
            Stage::CreateBuildDir => StepView::CreateTempDir(build_dir_prefix()),
            Stage::Configure => StepView::Run(install_configure_view(self)),
            Stage::Make => StepView::Run(install_make_view(self)),
            Stage::Finished => StepView::Done,
        }
    }

    /// Whether `o` reports on the step the install asks for.
    pub open spec fn expects(self, o: OutcomeView) -> bool {
        match self.stage {
            Stage::Finished => false,
            Stage::ResolveOutdir => o is Resolved,
            Stage::ResolveSource => o is Resolved,
            Stage::CreateDownloadDir => o is Created,
            Stage::CreateBuildDir => o is Created,
            Stage::Fetch => o is Fetched,
            _ => o is Ran,
        }
    }

    pub open spec fn finish(self, r: Result<Seq<char>, DependencyErrorView>) -> InstallView {
        InstallView { stage: Stage::Finished, result: Some(r), ..self }
    }

    /// Whether reporting `o` stops the install where the source tree has no
    /// path relative to the new build directory (where there is nothing to
    /// run configure by).
    pub open spec fn stops(self, o: OutcomeView) -> bool {
        &&& self.stage == Stage::CreateBuildDir
        &&& o matches OutcomeView::Created(Ok(b))
        &&& relative_path(self.source_abs, b) is None
    }

    /// The install after the caller reports `o` (unless it `stops`).
    pub open spec fn next(self, o: OutcomeView) -> InstallView {
        match o {
            OutcomeView::Resolved(Err(e)) => self.finish(
                Err(DependencyErrorView::FetchErr(FetchError::IoError(e))),
            ),
            OutcomeView::Created(Err(e)) => self.finish(
                Err(DependencyErrorView::FetchErr(FetchError::IoError(e))),
            ),
            OutcomeView::Resolved(Ok(p)) => if self.stage == Stage::ResolveOutdir {
                InstallView { outdir_abs: p, stage: Stage::CreateDownloadDir, ..self }
            } else {
                InstallView { source_abs: p, stage: Stage::CreateBuildDir, ..self }
            },
            OutcomeView::Created(Ok(d)) => if self.stage == Stage::CreateDownloadDir {
                InstallView { download_dir: d, stage: Stage::Fetch, ..self }
            } else {
                InstallView {
                    build_dir: d,
                    rel_source: relative_path(self.source_abs, d).unwrap(),
                    stage: Stage::Configure,
                    ..self
                }
            },
            OutcomeView::Fetched(Ok(())) => InstallView { stage: Stage::ResolveSource, ..self },
            OutcomeView::Fetched(Err(e)) => self.finish(Err(DependencyErrorView::FetchErr(e))),
            OutcomeView::Ran(ran) => if self.stage == Stage::Configure {
                match command_result(command_line_of(install_configure_view(self)), ran) {
                    Ok(_) => InstallView { stage: Stage::Make, ..self },
                    Err(e) => self.finish(Err(DependencyErrorView::BuildErr(e))),
                }
            } else {
                match command_result(command_line_of(install_make_view(self)), ran) {
                    Ok(_) => self.finish(Ok(self.outdir_abs)),
                    Err(e) => self.finish(Err(DependencyErrorView::BuildErr(e))),
                }
            },
        }
    }
}

impl AutotoolsInstall {
    /// Starts an install (what `fetch_build_autotools_dep` does).
    pub fn new(
        url: &str,
        outdir: &str,
        src_dirname: &str,
        configure_args: Vec<String>,
        env_vars: Vec<(String, String)>,
        parallelism: u8,
    ) -> (res: Self)
        ensures
            res@ == install_start(
                url@,
                outdir@,
                src_dirname@,
                strings_view(configure_args@),
                env_view(env_vars@),
                parallelism,
            ),
    {
        AutotoolsInstall {
            url: String::from_str(url),
            outdir: String::from_str(outdir),
            src_dirname: String::from_str(src_dirname),
            configure_args,
            env_vars,
            parallelism,
            outdir_abs: String::new(),
            download_dir: String::new(),
            source_abs: String::new(),
            build_dir: String::new(),
            rel_source: String::new(),
            stage: Stage::ResolveOutdir,
            result: None,
        }
    }

    pub fn stage(&self) -> (res: Stage)
        ensures
            res == self@.stage,
    {
        self.stage
    }

    pub fn is_finished(&self) -> (res: bool)
        ensures
            res == (self@.stage == Stage::Finished),
    {
        match self.stage {
            Stage::Finished => true,
            _ => false,
        }
    }

    /// The command of the configure or make stage.
    fn current_command(&self) -> (res: CommandSpec)
        requires
            self@.stage == Stage::Configure || self@.stage == Stage::Make,
        ensures
            res@ == (if self@.stage == Stage::Configure {
                install_configure_view(self@)
            } else {
                install_make_view(self@)
            }),
    {
        match self.stage {
            Stage::Configure => configure_command_from(
                self.outdir_abs.as_str(),
                self.build_dir.as_str(),
                self.rel_source.as_str(),
                &self.configure_args,
                &self.env_vars,
            ),
            _ => {
                let mut targets: Vec<String> = Vec::new();
                targets.push(String::from_str("install"));
                proof {
                    reveal_strlit("install");
                    assert("install"@ =~= install_target());
                    assert(strings_view(targets@) =~= seq![install_target()]);
                }
                make_command(self.build_dir.as_str(), &targets, &self.env_vars, self.parallelism)
            },
        }
    }

    /// The outside step the install asks for now.
    pub fn next_step(&self) -> (res: Step)
        ensures
            res@ == self@.step(),
    {
        proof {
            reveal_strlit("autotools-dl");
            reveal_strlit("autotools-build");
            assert("autotools-dl"@ =~= download_dir_prefix());
            assert("autotools-build"@ =~= build_dir_prefix());
        }
        match self.stage {
            Stage::ResolveOutdir => Step::Resolve(self.outdir.clone()),
            Stage::CreateDownloadDir => Step::CreateTempDir(String::from_str("autotools-dl")),
            Stage::Fetch => Step::Fetch { url: self.url.clone(), dest: self.download_dir.clone() },
            Stage::ResolveSource => Step::Resolve(
                join_path(self.download_dir.as_str(), self.src_dirname.as_str()),
            ),
            Stage::CreateBuildDir => Step::CreateTempDir(String::from_str("autotools-build")),
            Stage::Configure => Step::Run(self.current_command()),
            Stage::Make => Step::Run(self.current_command()),
            Stage::Finished => Step::Done,
        }
    }

    fn finished(self, r: Result<String, BuildAutotoolsDependencyError>) -> (res: Self)
        ensures
            res@ == self@.finish(install_result_view(r)),
    {
        let mut m = self;
        m.stage = Stage::Finished;
        m.result = Some(r);
        m
    }

    /// The install after the caller reports `outcome` of the step asked for;
    /// `None` where the source tree has no path relative to the new build
    /// directory.
    pub fn advance(self, outcome: Outcome) -> (res: Option<Self>)
        requires
            self@.expects(outcome@),
        ensures
            res is None <==> self@.stops(outcome@),
            res matches Some(n) ==> n@ == self@.next(outcome@),
    {
        let mut m = self;
        match outcome {
            Outcome::Resolved(Err(e)) => Some(
                m.finished(Err(BuildAutotoolsDependencyError::FetchErr(FetchError::IoError(e)))),
            ),
            Outcome::Created(Err(e)) => Some(
                m.finished(Err(BuildAutotoolsDependencyError::FetchErr(FetchError::IoError(e)))),
            ),
            Outcome::Resolved(Ok(p)) => {
                match m.stage {
                    Stage::ResolveOutdir => {
                        m.outdir_abs = p;
                        m.stage = Stage::CreateDownloadDir;
                    },
                    _ => {
                        m.source_abs = p;
                        m.stage = Stage::CreateBuildDir;
                    },
                }
                Some(m)
            },
            Outcome::Created(Ok(d)) => {
                match m.stage {
                    Stage::CreateDownloadDir => {
                        m.download_dir = d;
                        m.stage = Stage::Fetch;
                        Some(m)
                    },
                    _ => {
                        match diff_paths(m.source_abs.as_str(), d.as_str()) {
                            Some(rel) => {
                                m.build_dir = d;
                                m.rel_source = rel;
                                m.stage = Stage::Configure;
                                Some(m)
                            },
                            None => None,
                        }
                    },
                }
            },
            Outcome::Fetched(Ok(())) => {
                m.stage = Stage::ResolveSource;
                Some(m)
            },
            Outcome::Fetched(Err(e)) => Some(
                m.finished(Err(BuildAutotoolsDependencyError::FetchErr(e))),
            ),
            Outcome::Ran(ran) => {
                let cmd = m.current_command();
                match finish_command(cmd.program.as_str(), &cmd.args, ran) {
                    Err(e) => Some(m.finished(Err(BuildAutotoolsDependencyError::BuildErr(e)))),
                    Ok(_) => {
                        match m.stage {
                            Stage::Configure => {
                                m.stage = Stage::Make;
                                Some(m)
                            },
                            _ => {
                                let prefix = m.outdir_abs.clone();
                                Some(m.finished(Ok(prefix)))
                            },
                        }
                    },
                }
            },
        }
    }

    /// What the install ended with; `None` while it is not finished.
    pub fn into_result(self) -> (res: Option<Result<String, BuildAutotoolsDependencyError>>)
        ensures
            optional_result_view(res) == self@.result,
    {
        self.result
    }
}

/// The install after the caller reports each of `outs` in turn.
pub open spec fn run(m: InstallView, outs: Seq<OutcomeView>) -> InstallView
    decreases outs.len(),
{
    if outs.len() == 0 {
        m
    } else {
        run(m.next(outs[0]), outs.drop_first())
    }
}

/// The steps the install asks for: one before each of `outs`, and the one
/// after the last.
pub open spec fn asked(m: InstallView, outs: Seq<OutcomeView>) -> Seq<StepView>
    decreases outs.len(),
{
    if outs.len() == 0 {
        seq![m.step()]
    } else {
        seq![m.step()] + asked(m.next(outs[0]), outs.drop_first())
    }
}

/// Each of `outs` reports on the step asked for at its turn, and none of them
/// stops the install.
pub open spec fn answers(m: InstallView, outs: Seq<OutcomeView>) -> bool
    decreases outs.len(),
{
    outs.len() == 0 || (m.expects(outs[0]) && !m.stops(outs[0]) && answers(
        m.next(outs[0]),
        outs.drop_first(),
    ))
}

/// `o` reports that the step failed.
pub open spec fn failed(o: OutcomeView) -> bool {
    match o {
        OutcomeView::Resolved(r) => r is Err,
        OutcomeView::Created(r) => r is Err,
        OutcomeView::Fetched(r) => r is Err,
        OutcomeView::Ran(Err(_)) => true,
        OutcomeView::Ran(Ok(st)) => !st.succeeded(),
    }
}

/// How far an install has come.
pub open spec fn rank(s: Stage) -> int {
    match s {
        Stage::ResolveOutdir => 0,
        Stage::CreateDownloadDir => 1,
        Stage::Fetch => 2,
        Stage::ResolveSource => 3,
        Stage::CreateBuildDir => 4,
        Stage::Configure => 5,
        Stage::Make => 6,
        Stage::Finished => 7,
    }
}

/// In a chain of views, the report at turn `i` answers the step asked for and does not stop the install.
pub open spec fn answered_at(ms: Seq<InstallView>, outs: Seq<OutcomeView>, i: int) -> bool {
    ms[i].expects(outs[i]) && !ms[i].stops(outs[i])
}

/// Unfolds `run`, `asked` and `answers` along a chain of views in which
/// each is the one before it after the matching report.
#[verifier::spinoff_prover]
proof fn lemma_run_chain(ms: Seq<InstallView>, outs: Seq<OutcomeView>)
    requires
        ms.len() == outs.len() + 1,
        forall|i: int| 0 <= i < outs.len() ==> #[trigger] ms[i + 1] == ms[i].next(outs[i]),
        forall|i: int| 0 <= i < outs.len() ==> #[trigger] answered_at(ms, outs, i),
    ensures
        run(ms[0], outs) == ms.last(),
        asked(ms[0], outs) == ms.map_values(|m: InstallView| m.step()),
        answers(ms[0], outs),
    decreases outs.len(),
{
    if outs.len() > 0 {
        let rest = ms.drop_first();
        let later = outs.drop_first();
        assert forall|i: int| 0 <= i < later.len() implies #[trigger] rest[i + 1] == rest[i].next(
            later[i],
        ) by {
            assert(ms[(i + 1) + 1] == ms[i + 1].next(outs[i + 1]));
        }
        assert forall|i: int| 0 <= i < later.len() implies #[trigger] answered_at(rest, later, i) by {
            assert(answered_at(ms, outs, i + 1));
        }
        lemma_run_chain(rest, later);
        assert(ms[0int + 1] == ms[0].next(outs[0]));
        assert(answered_at(ms, outs, 0));
        assert(ms.map_values(|m: InstallView| m.step()) =~= seq![ms[0].step()] + rest.map_values(
            |m: InstallView| m.step(),
        ));
    } else {
        assert(ms.map_values(|m: InstallView| m.step()) =~= seq![ms[0].step()]);
    }
}

/// Law: an install in which every outside step succeeds asks, in order, to
/// resolve the prefix, to create the download directory, to download into
/// it, to resolve the source tree found there, to create the build
/// directory, to run the configure script (by its path relative to the build
/// directory, the prefix option first) in the build directory, and to run
/// make with the jobs option and the install target in the build directory,
/// each command with the given environment variables; it ends with the
/// resolved prefix.
pub proof fn lemma_install_succeeds(
    url: Seq<char>,
    outdir: Seq<char>,
    src_dirname: Seq<char>,
    configure_args: Seq<Seq<char>>,
    env_vars: Seq<(Seq<char>, Seq<char>)>,
    parallelism: u8,
    outdir_abs: Seq<char>,
    download_dir: Seq<char>,
    source_abs: Seq<char>,
    build_dir: Seq<char>,
    rel_source: Seq<char>,
    configured: ExitView,
    made: ExitView,
)
    requires
        relative_path(source_abs, build_dir) == Some(rel_source),
        configured.succeeded(),
        made.succeeded(),
    ensures
        ({
            let m0 = install_start(url, outdir, src_dirname, configure_args, env_vars, parallelism);
            let outs = seq![
                OutcomeView::Resolved(Ok(outdir_abs)),
                OutcomeView::Created(Ok(download_dir)),
                OutcomeView::Fetched(Ok(())),
                OutcomeView::Resolved(Ok(source_abs)),
                OutcomeView::Created(Ok(build_dir)),
                OutcomeView::Ran(Ok(configured)),
                OutcomeView::Ran(Ok(made)),
            ];
            &&& answers(m0, outs)
            &&& run(m0, outs).result == Some(Ok::<Seq<char>, DependencyErrorView>(outdir_abs))
            &&& asked(m0, outs) == seq![
                StepView::Resolve(outdir),
                StepView::CreateTempDir(download_dir_prefix()),
                StepView::Fetch { url, dest: download_dir },
                StepView::Resolve(path_join(download_dir, src_dirname)),
                StepView::CreateTempDir(build_dir_prefix()),
                StepView::Run(
                    CommandView {
                        program: path_join(rel_source, configure_name()),
                        args: seq![prefix_option(outdir_abs)] + configure_args,
                        cwd: build_dir,
                        env: env_vars,
                    },
                ),
                StepView::Run(
                    CommandView {
                        program: make_program(),
                        args: seq![jobs_option(parallelism), install_target()],
                        cwd: build_dir,
                        env: env_vars,
                    },
                ),
                StepView::Done,
            ]
        }),
{
    let m0 = install_start(url, outdir, src_dirname, configure_args, env_vars, parallelism);
    let outs = seq![
        OutcomeView::Resolved(Ok(outdir_abs)),
        OutcomeView::Created(Ok(download_dir)),
        OutcomeView::Fetched(Ok(())),
        OutcomeView::Resolved(Ok(source_abs)),
        OutcomeView::Created(Ok(build_dir)),
        OutcomeView::Ran(Ok(configured)),
        OutcomeView::Ran(Ok(made)),
    ];
    let ms = seq![
        m0,
        m0.next(outs[0]),
        m0.next(outs[0]).next(outs[1]),
        m0.next(outs[0]).next(outs[1]).next(outs[2]),
        m0.next(outs[0]).next(outs[1]).next(outs[2]).next(outs[3]),
        m0.next(outs[0]).next(outs[1]).next(outs[2]).next(outs[3]).next(outs[4]),
        m0.next(outs[0]).next(outs[1]).next(outs[2]).next(outs[3]).next(outs[4]).next(outs[5]),
        m0.next(outs[0]).next(outs[1]).next(outs[2]).next(outs[3]).next(outs[4]).next(
            outs[5],
        ).next(outs[6]),
    ];
    assert(make_arguments_view(seq![install_target()], parallelism) =~= seq![
        jobs_option(parallelism),
        install_target(),
    ]);
    lemma_run_chain(ms, outs);
    assert(ms[0] == m0);
}

/// Law: a failure ends the install. After the caller reports that the step
/// asked for failed, the install is finished, asks for nothing more, and ends
/// with the error of that step: a failed resolution or temporary directory
/// an `IoError` fetch error, a failed download that fetch error, a command
/// that could not be run a `ProcessInvocationError` build error, and a
/// command that did not succeed a `FailedCommand` build error naming its
/// command line and exit status.
pub proof fn lemma_failure_ends_install(m: InstallView, o: OutcomeView)
    requires
        m.expects(o),
        failed(o),
    ensures
        !m.stops(o),
        m.next(o).stage == Stage::Finished,
        m.next(o).step() == StepView::Done,
        forall|o2: OutcomeView| !m.next(o).expects(o2),
        o matches OutcomeView::Resolved(Err(e)) ==> m.next(o).result == Some(
            Err::<Seq<char>, DependencyErrorView>(
                DependencyErrorView::FetchErr(FetchError::IoError(e)),
            ),
        ),
        o matches OutcomeView::Created(Err(e)) ==> m.next(o).result == Some(
            Err::<Seq<char>, DependencyErrorView>(
                DependencyErrorView::FetchErr(FetchError::IoError(e)),
            ),
        ),
        o matches OutcomeView::Fetched(Err(e)) ==> m.next(o).result == Some(
            Err::<Seq<char>, DependencyErrorView>(DependencyErrorView::FetchErr(e)),
        ),
        o matches OutcomeView::Ran(Err(e)) ==> m.next(o).result == Some(
            Err::<Seq<char>, DependencyErrorView>(
                DependencyErrorView::BuildErr(BuildErrorView::ProcessInvocationError(e)),
            ),
        ),
        o matches OutcomeView::Ran(Ok(st)) ==> m.next(o).result == Some(
            Err::<Seq<char>, DependencyErrorView>(
                DependencyErrorView::BuildErr(
                    BuildErrorView::FailedCommand(
                        failure_text(
                            command_line_of(
                                if m.stage == Stage::Configure {
                                    install_configure_view(m)
                                } else {
                                    install_make_view(m)
                                },
                            ),
                            st.description,
                        ),
                    ),
                ),
            ),
        ),
{
}

/// Law: every report that does not stop the install moves it forward, so an
/// install is finished after at most seven reports.
pub proof fn lemma_install_progress(m: InstallView, o: OutcomeView)
    requires
        m.expects(o),
        !m.stops(o),
    ensures
        rank(m.stage) < rank(m.next(o).stage) <= 7,
{
}

} // verus!
