//! Fetching and building an autotools dependency in a build directory of the
//! caller's choosing.
//!
//! The outside work (resolving paths on disk, downloading and unpacking,
//! running processes) is done by the caller; this module decides, step by step,
//! what is to be done next and what the build ends with.
use vstd::prelude::*;
use crate::command::{
    clone_env, clone_strings, command_string, command_text, configure_name, configure_script,
    env_view, failure_message, failure_text, jobs_option, join_path, make_arguments_view,
    make_command, make_program, path_join, strings_view, CommandSpec, CommandView, ExitInfo,
    ExitView,
};

verus! {

/// `reqwest::Error` is carried through the library untouched.
#[verifier::external_type_specification]
#[verifier::external_body]
pub struct ExRequestError(reqwest::Error);

/// `reqwest::UrlError` (url's `ParseError`) is carried through untouched.
#[verifier::external_type_specification]
#[verifier::external_body]
pub struct ExUrlError(reqwest::UrlError);

/// `reqwest::Url` is carried through untouched.
#[verifier::external_type_specification]
#[verifier::external_body]
pub struct ExUrl(reqwest::Url);

/// Why a download failed.
#[derive(Debug)]
pub enum FetchError {
    IoError(std::io::Error),
    RequestError(reqwest::Error),
    ParseError(reqwest::UrlError),
}

impl From<std::io::Error> for FetchError {
    fn from(error: std::io::Error) -> (res: Self) {
        FetchError::IoError(error)
    }
}

impl vstd::std_specs::convert::FromSpecImpl<std::io::Error> for FetchError {
    open spec fn obeys_from_spec() -> bool {
        true
    }

    open spec fn from_spec(error: std::io::Error) -> Self {
        FetchError::IoError(error)
    }
}

impl From<reqwest::Error> for FetchError {
    fn from(error: reqwest::Error) -> (res: Self) {
        FetchError::RequestError(error)
    }
}

impl vstd::std_specs::convert::FromSpecImpl<reqwest::Error> for FetchError {
    open spec fn obeys_from_spec() -> bool {
        true
    }

    open spec fn from_spec(error: reqwest::Error) -> Self {
        FetchError::RequestError(error)
    }
}

impl From<reqwest::UrlError> for FetchError {
    fn from(error: reqwest::UrlError) -> (res: Self) {
        FetchError::ParseError(error)
    }
}

impl vstd::std_specs::convert::FromSpecImpl<reqwest::UrlError> for FetchError {
    open spec fn obeys_from_spec() -> bool {
        true
    }

    open spec fn from_spec(error: reqwest::UrlError) -> Self {
        FetchError::ParseError(error)
    }
}

/// Whether `reqwest::Url::parse` accepts the text as an absolute URL.
pub uninterp spec fn url_accepted(text: Seq<char>) -> bool;

/// The URL that `reqwest::Url::parse` makes of the text where it accepts it.
pub uninterp spec fn parsed_url(text: Seq<char>) -> reqwest::Url;

/// Calls `reqwest::Url::parse` (url's `Url::parse`), a function of the text
/// alone: the contract names whether it succeeds and the URL it gives.
#[verifier::external_body]
fn url_parse(text: &str) -> (res: Result<reqwest::Url, reqwest::UrlError>)
    ensures
        res is Ok <==> url_accepted(text@),
        res matches Ok(u) ==> u == parsed_url(text@),
{
    reqwest::Url::parse(text)
}

/// The URL that a download goes to; a text that is no absolute URL is a
/// `ParseError`.
pub fn parse_url(url_str: &str) -> (res: Result<reqwest::Url, FetchError>)
    ensures
        res is Ok <==> url_accepted(url_str@),
        res matches Ok(u) ==> u == parsed_url(url_str@),
        res matches Err(e) ==> e is ParseError,
{
    match url_parse(url_str) {
        Ok(url) => Ok(url),
        Err(e) => Err(FetchError::ParseError(e)),
    }
}

/// Why a build step failed: the process could not be run or waited for, or
/// it ran and did not succeed.
#[derive(Debug)]
pub enum BuildError {
    ProcessInvocationError(std::io::Error),
    FailedCommand(String),
}

impl From<std::io::Error> for BuildError {
    fn from(error: std::io::Error) -> (res: Self) {
        BuildError::ProcessInvocationError(error)
    }
}

impl vstd::std_specs::convert::FromSpecImpl<std::io::Error> for BuildError {
    open spec fn obeys_from_spec() -> bool {
        true
    }

    open spec fn from_spec(error: std::io::Error) -> Self {
        BuildError::ProcessInvocationError(error)
    }
}

pub enum BuildErrorView {
    ProcessInvocationError(std::io::Error),
    FailedCommand(Seq<char>),
}

impl View for BuildError {
    type V = BuildErrorView;

    open spec fn view(&self) -> BuildErrorView {
        match self {
            BuildError::ProcessInvocationError(e) => BuildErrorView::ProcessInvocationError(*e),
            BuildError::FailedCommand(m) => BuildErrorView::FailedCommand(m@),
        }
    }
}

pub type BuildResult = Result<ExitInfo, BuildError>;

pub open spec fn build_result_view(r: BuildResult) -> Result<ExitView, BuildErrorView> {
    match r {
        Ok(st) => Ok(st@),
        Err(e) => Err(e@),
    }
}

pub open spec fn run_outcome_view(r: Result<ExitInfo, std::io::Error>) -> Result<ExitView, std::io::Error> {
    match r {
        Ok(st) => Ok(st@),
        Err(e) => Err(e),
    }
}

/// What a command run ends with, given the command line `command` and what
/// running it gave: an error of running or waiting, or the exit status.
pub open spec fn command_result(command: Seq<char>, ran: Result<ExitView, std::io::Error>) -> Result<
    ExitView,
    BuildErrorView,
> {
    match ran {
        Err(e) => Err(BuildErrorView::ProcessInvocationError(e)),
        Ok(st) => if st.succeeded() {
            Ok(st)
        } else {
            Err(BuildErrorView::FailedCommand(failure_text(command, st.description)))
        },
    }
}

/// Judges a finished run of `program` with `args`: an error while running
/// it is a `ProcessInvocationError`, an exit status other than success a
/// `FailedCommand` naming the command line and the status.
pub fn finish_command(program: &str, args: &Vec<String>, ran: Result<ExitInfo, std::io::Error>) -> (res:
    BuildResult)
    ensures
        build_result_view(res) == command_result(
            command_text(program@, strings_view(args@)),
            run_outcome_view(ran),
        ),
        ran matches Err(e) ==> (res matches Err(BuildError::ProcessInvocationError(e2)) && e2 == e),
        ran matches Ok(st) ==> (res is Ok <==> st.code == Some(0i32)),
        ran matches Ok(st) ==> (st.code != Some(0i32) ==> (res matches Err(
            BuildError::FailedCommand(m),
        ) && m@ == failure_text(command_text(program@, strings_view(args@)), st.description@))),
{
    match ran {
        Err(e) => Err(BuildError::ProcessInvocationError(e)),
        Ok(status) => {
            if status.success() {
                Ok(status)
            } else {
                let cmd = command_string(program, args);
                Err(BuildError::FailedCommand(failure_message(cmd.as_str(), &status)))
            }
        },
    }
}

/// The configure run of the source tree at `abs_source` (already resolved),
/// in `build_dir`, with `args` and the environment variables `env`.
pub fn configure_command(
    abs_source: &str,
    build_dir: &str,
    args: &Vec<String>,
    env: &Vec<(String, String)>,
) -> (res: CommandSpec)
    ensures
        res@.program == path_join(abs_source@, configure_name()),
        res@.args == strings_view(args@),
        res@.cwd == build_dir@,
        res@.env == env_view(env@),
{
    CommandSpec {
        program: configure_script(abs_source),
        args: clone_strings(args),
        cwd: String::from_str(build_dir),
        env: clone_env(env),
    }
}

/// Why fetching or building a dependency failed.
#[derive(Debug)]
pub enum BuildAutotoolsDependencyError {
    FetchErr(FetchError),
    BuildErr(BuildError),
}

impl From<FetchError> for BuildAutotoolsDependencyError {
    fn from(error: FetchError) -> (res: Self) {
        BuildAutotoolsDependencyError::FetchErr(error)
    }
}

impl vstd::std_specs::convert::FromSpecImpl<FetchError> for BuildAutotoolsDependencyError {
    open spec fn obeys_from_spec() -> bool {
        true
    }

    open spec fn from_spec(error: FetchError) -> Self {
        BuildAutotoolsDependencyError::FetchErr(error)
    }
}

impl From<BuildError> for BuildAutotoolsDependencyError {
    fn from(error: BuildError) -> (res: Self) {
        BuildAutotoolsDependencyError::BuildErr(error)
    }
}

impl vstd::std_specs::convert::FromSpecImpl<BuildError> for BuildAutotoolsDependencyError {
    open spec fn obeys_from_spec() -> bool {
        true
    }

    open spec fn from_spec(error: BuildError) -> Self {
        BuildAutotoolsDependencyError::BuildErr(error)
    }
}

impl From<std::io::Error> for BuildAutotoolsDependencyError {
    fn from(error: std::io::Error) -> (res: Self) {
        BuildAutotoolsDependencyError::FetchErr(FetchError::IoError(error))
    }
}

impl vstd::std_specs::convert::FromSpecImpl<std::io::Error> for BuildAutotoolsDependencyError {
    open spec fn obeys_from_spec() -> bool {
        true
    }

    open spec fn from_spec(error: std::io::Error) -> Self {
        BuildAutotoolsDependencyError::FetchErr(FetchError::IoError(error))
    }
}

pub enum DependencyErrorView {
    FetchErr(FetchError),
    BuildErr(BuildErrorView),
}

impl View for BuildAutotoolsDependencyError {
    type V = DependencyErrorView;

    open spec fn view(&self) -> DependencyErrorView {
        match self {
            BuildAutotoolsDependencyError::FetchErr(e) => DependencyErrorView::FetchErr(*e),
            BuildAutotoolsDependencyError::BuildErr(e) => DependencyErrorView::BuildErr(e@),
        }
    }
}

/// A dependency built in place: the resolved build directory.
#[derive(Debug)]
pub struct FetchedAutotoolsDep {
    pub build_dir: String,
}

pub type BuildAutotoolsResult = Result<FetchedAutotoolsDep, BuildAutotoolsDependencyError>;

pub open spec fn dependency_result_view(r: BuildAutotoolsResult) -> Result<
    Seq<char>,
    DependencyErrorView,
> {
    match r {
        Ok(dep) => Ok(dep.build_dir@),
        Err(e) => Err(e@),
    }
}

/// Where a build stands: the outside step it waits for, or finished.
#[derive(Debug, Clone, Copy, PartialEq, Eq)]
pub enum Stage {
    /// Resolving the build directory (download and build).
    ResolveBuildDir,
    /// Resolving the directory the archive is unpacked into.
    ResolveExtractDir,
    /// Downloading the archive and unpacking it.
    Fetch,
    /// Resolving the unpacked source tree.
    ResolveDownloaded,
    /// Resolving the source tree handed to the local build.
    ResolveSource,
    /// Resolving the build directory handed to the local build.
    ResolveBuild,
    /// Resolving the source tree whose configure script is run.
    ResolveConfigureSource,
    /// Running the configure script.
    Configure,
    /// Running make.
    Make,
    Finished,
}

/// What the caller reports after doing the step it was asked for.
#[derive(Debug)]
pub enum Outcome {
    /// A path resolved to its canonical absolute form, or the error.
    Resolved(Result<String, std::io::Error>),
    /// The archive was downloaded and unpacked, or the error.
    Fetched(Result<(), FetchError>),
    /// A command ran to its exit status, or running or waiting for it failed.
    Ran(Result<ExitInfo, std::io::Error>),
}

pub enum OutcomeView {
    Resolved(Result<Seq<char>, std::io::Error>),
    Fetched(Result<(), FetchError>),
    Ran(Result<ExitView, std::io::Error>),
}

impl View for Outcome {
    type V = OutcomeView;

    open spec fn view(&self) -> OutcomeView {
        match self {
            Outcome::Resolved(Ok(p)) => OutcomeView::Resolved(Ok(p@)),
            Outcome::Resolved(Err(e)) => OutcomeView::Resolved(Err(*e)),
            Outcome::Fetched(r) => OutcomeView::Fetched(*r),
            Outcome::Ran(r) => OutcomeView::Ran(run_outcome_view(*r)),
        }
    }
}

/// The outside step that a build asks for.
#[derive(Debug, PartialEq, Eq)]
pub enum Step {
    /// Resolve this path to its canonical absolute form.
    Resolve(String),
    /// Download the gzipped tar archive at `url`, waiting at most `timeout`
    /// (none for a local build) on the server, and unpack it into `dest`.
    Fetch { url: String, dest: String, timeout: Option<std::time::Duration> },
    /// Run this command with the caller's environment variables.
    Run(CommandSpec),
    /// Nothing: the build is finished.
    Done,
}

pub enum StepView {
    Resolve(Seq<char>),
    Fetch { url: Seq<char>, dest: Seq<char>, timeout: Option<std::time::Duration> },
    Run(CommandView),
    Done,
}

impl View for Step {
    type V = StepView;

    open spec fn view(&self) -> StepView {
        match self {
            Step::Resolve(p) => StepView::Resolve(p@),
            Step::Fetch { url, dest, timeout } => StepView::Fetch {
                url: url@,
                dest: dest@,
                timeout: *timeout,
            },
            Step::Run(c) => StepView::Run(c@),
            Step::Done => StepView::Done,
        }
    }
}

/// A build of an autotools dependency: either downloaded, unpacked and built
/// (`fetch`), or built from a source tree on disk (`local`).
pub struct AutotoolsBuild {
    url: String,
    build_dir: String,
    extract_dir: String,
    src_dirname: String,
    configure_args: Vec<String>,
    env_vars: Vec<(String, String)>,
    timeout: Option<std::time::Duration>,
    parallelism: u8,
    extract_abs: String,
    source: String,
    local_build: String,
    source_abs: String,
    local_build_abs: String,
    configure_source: String,
    stage: Stage,
    result: Option<BuildAutotoolsResult>,
}

#[verifier::ext_equal]
pub struct BuildView {
    pub url: Seq<char>,
    pub build_dir: Seq<char>,
    pub extract_dir: Seq<char>,
    pub src_dirname: Seq<char>,
    pub configure_args: Seq<Seq<char>>,
    /// The environment variables every command is given.
    pub env_vars: Seq<(Seq<char>, Seq<char>)>,
    /// How long a download waits on the server; none for a local build.
    pub timeout: Option<std::time::Duration>,
    pub parallelism: u8,
    /// The resolved unpacking directory.
    pub extract_abs: Seq<char>,
    /// The source tree handed to the local build.
    pub source: Seq<char>,
    /// The build directory handed to the local build.
    pub local_build: Seq<char>,
    /// The resolved source tree of the local build.
    pub source_abs: Seq<char>,
    /// The resolved build directory of the local build.
    pub local_build_abs: Seq<char>,
    /// The resolved source tree whose configure script is run.
    pub configure_source: Seq<char>,
    pub stage: Stage,
    pub result: Option<Result<Seq<char>, DependencyErrorView>>,
}

pub open spec fn optional_result_view(r: Option<BuildAutotoolsResult>) -> Option<
    Result<Seq<char>, DependencyErrorView>,
> {
    match r {
        Some(r) => Some(dependency_result_view(r)),
        None => None,
    }
}

impl View for AutotoolsBuild {
    type V = BuildView;

    closed spec fn view(&self) -> BuildView {
        BuildView {
            url: self.url@,
            build_dir: self.build_dir@,
            extract_dir: self.extract_dir@,
            src_dirname: self.src_dirname@,
            configure_args: strings_view(self.configure_args@),
            env_vars: env_view(self.env_vars@),
            timeout: self.timeout,
            parallelism: self.parallelism,
            extract_abs: self.extract_abs@,
            source: self.source@,
            local_build: self.local_build@,
            source_abs: self.source_abs@,
            local_build_abs: self.local_build_abs@,
            configure_source: self.configure_source@,
            stage: self.stage,
            result: optional_result_view(self.result),
        }
    }
}

/// A download and build of the archive at `url`, unpacked into
/// `extract_dir`, whose source tree is `src_dirname` there, built in
/// `build_dir`.
pub open spec fn fetch_start(
    url: Seq<char>,
    build_dir: Seq<char>,
    extract_dir: Seq<char>,
    src_dirname: Seq<char>,
    configure_args: Seq<Seq<char>>,
    env_vars: Seq<(Seq<char>, Seq<char>)>,
    timeout: std::time::Duration,
    parallelism: u8,
) -> BuildView {
    BuildView {
        url,
        build_dir,
        extract_dir,
        src_dirname,
        configure_args,
        env_vars,
        timeout: Some(timeout),
        parallelism,
        extract_abs: Seq::empty(),
        source: Seq::empty(),
        local_build: Seq::empty(),
        source_abs: Seq::empty(),
        local_build_abs: Seq::empty(),
        configure_source: Seq::empty(),
        stage: Stage::ResolveBuildDir,
        result: None,
    }
}

/// A build of the source tree `src_dir` in `build_dir`.
pub open spec fn local_start(
    src_dir: Seq<char>,
    build_dir: Seq<char>,
    configure_args: Seq<Seq<char>>,
    env_vars: Seq<(Seq<char>, Seq<char>)>,
    parallelism: u8,
) -> BuildView {
    BuildView {
        url: Seq::empty(),
        build_dir,
        extract_dir: Seq::empty(),
        src_dirname: Seq::empty(),
        configure_args,
        env_vars,
        timeout: None,
        parallelism,
        extract_abs: Seq::empty(),
        source: src_dir,
        local_build: build_dir,
        source_abs: Seq::empty(),
        local_build_abs: Seq::empty(),
        configure_source: Seq::empty(),
        stage: Stage::ResolveSource,
        result: None,
    }
}

/// The configure run: the script of the resolved source tree, run in the
/// resolved build directory.
pub open spec fn configure_view(m: BuildView) -> CommandView {
    CommandView {
        program: path_join(m.configure_source, configure_name()),
        args: m.configure_args,
        cwd: m.local_build_abs,
        env: m.env_vars,
    }
}

/// The make run: no arguments beyond the jobs option, in the build
/// directory as handed to the local build.
pub open spec fn make_view(m: BuildView) -> CommandView {
    CommandView {
        program: make_program(),
        args: make_arguments_view(Seq::empty(), m.parallelism),
        cwd: m.local_build,
        env: m.env_vars,
    }
}

pub open spec fn command_line_of(c: CommandView) -> Seq<char> {
    command_text(c.program, c.args)
}

impl BuildView {
    /// The step the build asks for.
    pub open spec fn step(self) -> StepView {
        match self.stage {
            Stage::ResolveBuildDir => StepView::Resolve(self.build_dir),
            Stage::ResolveExtractDir => StepView::Resolve(self.extract_dir),
            Stage::Fetch => StepView::Fetch {
                url: self.url,
                dest: self.extract_abs,
                timeout: self.timeout,
            },
            Stage::ResolveDownloaded => StepView::Resolve(
                path_join(self.extract_abs, self.src_dirname),
            ),
            Stage::ResolveSource => StepView::Resolve(self.source),
            Stage::ResolveBuild => StepView::Resolve(self.local_build),
            Stage::ResolveConfigureSource => StepView::Resolve(self.source_abs),
            Stage::Configure => StepView::Run(configure_view(self)),
            Stage::Make => StepView::Run(make_view(self)),
            Stage::Finished => StepView::Done,
        }
    }

    /// Whether `o` reports on the step the build asks for.
    pub open spec fn expects(self, o: OutcomeView) -> bool {
        match self.stage {
            Stage::Finished => false,
            Stage::Fetch => o is Fetched,
            Stage::Configure => o is Ran,
            Stage::Make => o is Ran,
            _ => o is Resolved,
        }
    }

    pub open spec fn finish(self, r: Result<Seq<char>, DependencyErrorView>) -> BuildView {
        BuildView { stage: Stage::Finished, result: Some(r), ..self }
    }

    /// The build after the caller reports `o`.
    pub open spec fn next(self, o: OutcomeView) -> BuildView {
        match o {
            OutcomeView::Resolved(Err(e)) => if self.stage == Stage::ResolveConfigureSource {
                self.finish(
                    Err(
                        DependencyErrorView::BuildErr(BuildErrorView::ProcessInvocationError(e)),
                    ),
                )
            } else {
                self.finish(Err(DependencyErrorView::FetchErr(FetchError::IoError(e))))
            },
            OutcomeView::Resolved(Ok(p)) => match self.stage {
                Stage::ResolveBuildDir => BuildView {
                    local_build: p,
                    stage: Stage::ResolveExtractDir,
                    ..self
                },
                Stage::ResolveExtractDir => BuildView {
                    extract_abs: p,
                    stage: Stage::Fetch,
                    ..self
                },
                Stage::ResolveDownloaded => BuildView {
                    source: p,
                    stage: Stage::ResolveSource,
                    ..self
                },
                Stage::ResolveSource => BuildView {
                    source_abs: p,
                    stage: Stage::ResolveBuild,
                    ..self
                },
                Stage::ResolveBuild => BuildView {
                    local_build_abs: p,
                    stage: Stage::ResolveConfigureSource,
                    ..self
                },
                _ => BuildView { configure_source: p, stage: Stage::Configure, ..self },
            },
            OutcomeView::Fetched(Ok(())) => BuildView { stage: Stage::ResolveDownloaded, ..self },
            OutcomeView::Fetched(Err(e)) => self.finish(Err(DependencyErrorView::FetchErr(e))),
            OutcomeView::Ran(ran) => if self.stage == Stage::Configure {
                match command_result(command_line_of(configure_view(self)), ran) {
                    Ok(_) => BuildView { stage: Stage::Make, ..self },
                    Err(e) => self.finish(Err(DependencyErrorView::BuildErr(e))),
                }
            } else {
                match command_result(command_line_of(make_view(self)), ran) {
                    Ok(_) => self.finish(Ok(self.local_build_abs)),
                    Err(e) => self.finish(Err(DependencyErrorView::BuildErr(e))),
                }
            },
        }
    }
}

impl AutotoolsBuild {
    /// Starts a download and build (what `fetch_build_autotools_dep` does).
    pub fn fetch(
        url: &str,
        build_dir: &str,
        extract_dir: &str,
        src_dirname: &str,
        configure_args: Vec<String>,
        env_vars: Vec<(String, String)>,
        timeout: std::time::Duration,
        parallelism: u8,
    ) -> (res: Self)
        ensures
            res@ == fetch_start(
                url@,
                build_dir@,
                extract_dir@,
                src_dirname@,
                strings_view(configure_args@),
                env_view(env_vars@),
                timeout,
                parallelism,
            ),
    {
        AutotoolsBuild {
            url: String::from_str(url),
            build_dir: String::from_str(build_dir),
            extract_dir: String::from_str(extract_dir),
            src_dirname: String::from_str(src_dirname),
            configure_args,
            env_vars,
            timeout: Some(timeout),
            parallelism,
            extract_abs: String::new(),
            source: String::new(),
            local_build: String::new(),
            source_abs: String::new(),
            local_build_abs: String::new(),
            configure_source: String::new(),
            stage: Stage::ResolveBuildDir,
            result: None,
        }
    }

    /// Starts a build of a source tree on disk (what
    /// `build_local_autotools_dep` does).
    pub fn local(
        src_dir: &str,
        build_dir: &str,
        configure_args: Vec<String>,
        env_vars: Vec<(String, String)>,
        parallelism: u8,
    ) -> (res: Self)
        ensures
            res@ == local_start(
                src_dir@,
                build_dir@,
                strings_view(configure_args@),
                env_view(env_vars@),
                parallelism,
            ),
    {
        AutotoolsBuild {
            url: String::new(),
            build_dir: String::from_str(build_dir),
            extract_dir: String::new(),
            src_dirname: String::new(),
            configure_args,
            env_vars,
            timeout: None,
            parallelism,
            extract_abs: String::new(),
            source: String::from_str(src_dir),
            local_build: String::from_str(build_dir),
            source_abs: String::new(),
            local_build_abs: String::new(),
            configure_source: String::new(),
            stage: Stage::ResolveSource,
            result: None,
        }
    }

    pub fn stage(&self) -> (res: Stage)
        ensures
            res == self@.stage,
    {
        self.stage
    }

    pub fn is_finished(&self) -> (res: bool)
        ensures
            res == (self@.stage == Stage::Finished),
    {
        match self.stage {
            Stage::Finished => true,
            _ => false,
        }
    }

    /// The outside step the build asks for now.
    pub fn next_step(&self) -> (res: Step)
        ensures
            res@ == self@.step(),
    {
        match self.stage {
            Stage::ResolveBuildDir => Step::Resolve(self.build_dir.clone()),
            Stage::ResolveExtractDir => Step::Resolve(self.extract_dir.clone()),
            Stage::Fetch => Step::Fetch {
                url: self.url.clone(),
                dest: self.extract_abs.clone(),
                timeout: self.timeout,
            },
            Stage::ResolveDownloaded => Step::Resolve(
                join_path(self.extract_abs.as_str(), self.src_dirname.as_str()),
            ),
            Stage::ResolveSource => Step::Resolve(self.source.clone()),
            Stage::ResolveBuild => Step::Resolve(self.local_build.clone()),
            Stage::ResolveConfigureSource => Step::Resolve(self.source_abs.clone()),
            Stage::Configure => Step::Run(self.current_command()),
            Stage::Make => Step::Run(self.current_command()),
            Stage::Finished => Step::Done,
        }
    }

    /// The command of the configure or make stage.
    fn current_command(&self) -> (res: CommandSpec)
        requires
            self@.stage == Stage::Configure || self@.stage == Stage::Make,
        ensures
            res@ == (if self@.stage == Stage::Configure {
                configure_view(self@)
            } else {
                make_view(self@)
            }),
    {
        match self.stage {
            Stage::Configure => configure_command(
                self.configure_source.as_str(),
                self.local_build_abs.as_str(),
                &self.configure_args,
                &self.env_vars,
            ),
            _ => {
                let no_args: Vec<String> = Vec::new();
                let cmd = make_command(
                    self.local_build.as_str(),
                    &no_args,
                    &self.env_vars,
                    self.parallelism,
                );
                proof {
                    assert(strings_view(no_args@) =~= Seq::<Seq<char>>::empty());
                }
                cmd
            },
        }
    }

    fn finished(self, r: BuildAutotoolsResult) -> (res: Self)
        ensures
            res@ == self@.finish(dependency_result_view(r)),
    {
        let mut m = self;
        m.stage = Stage::Finished;
        m.result = Some(r);
        m
    }

    /// The build after the caller reports `outcome` of the step asked for.
    pub fn advance(self, outcome: Outcome) -> (res: Self)
        requires
            self@.expects(outcome@),
        ensures
            res@ == self@.next(outcome@),
    {
        let mut m = self;
        match outcome {
            Outcome::Resolved(Err(e)) => {
                let err = match m.stage {
                    Stage::ResolveConfigureSource => BuildAutotoolsDependencyError::BuildErr(
                        BuildError::ProcessInvocationError(e),
                    ),
                    _ => BuildAutotoolsDependencyError::FetchErr(FetchError::IoError(e)),
                };
                m.finished(Err(err))
            },
            Outcome::Resolved(Ok(p)) => {
                match m.stage {
                    Stage::ResolveBuildDir => {
                        m.local_build = p;
                        m.stage = Stage::ResolveExtractDir;
                    },
                    Stage::ResolveExtractDir => {
                        m.extract_abs = p;
                        m.stage = Stage::Fetch;
                    },
                    Stage::ResolveDownloaded => {
                        m.source = p;
                        m.stage = Stage::ResolveSource;
                    },
                    Stage::ResolveSource => {
                        m.source_abs = p;
                        m.stage = Stage::ResolveBuild;
                    },
                    Stage::ResolveBuild => {
                        m.local_build_abs = p;
                        m.stage = Stage::ResolveConfigureSource;
                    },
                    _ => {
                        m.configure_source = p;
                        m.stage = Stage::Configure;
                    },
                }
                m
            },
            Outcome::Fetched(Ok(())) => {
                m.stage = Stage::ResolveDownloaded;
                m
            },
            Outcome::Fetched(Err(e)) => m.finished(Err(BuildAutotoolsDependencyError::FetchErr(e))),
            Outcome::Ran(ran) => {
                let cmd = m.current_command();
                match finish_command(cmd.program.as_str(), &cmd.args, ran) {
                    Err(e) => m.finished(Err(BuildAutotoolsDependencyError::BuildErr(e))),
                    Ok(_) => {
                        match m.stage {
                            Stage::Configure => {
                                m.stage = Stage::Make;
                                m
                            },
                            _ => {
                                let dir = m.local_build_abs.clone();
                                m.finished(Ok(FetchedAutotoolsDep { build_dir: dir }))
                            },
                        }
                    },
                }
            },
        }
    }

    /// What the build ended with; `None` while it is not finished.
    pub fn into_result(self) -> (res: Option<BuildAutotoolsResult>)
        ensures
            optional_result_view(res) == self@.result,
    {
        self.result
    }
}

/// The build after the caller reports each of `outs` in turn.
pub open spec fn run(m: BuildView, outs: Seq<OutcomeView>) -> BuildView
    decreases outs.len(),
{
    if outs.len() == 0 {
        m
    } else {
        run(m.next(outs[0]), outs.drop_first())
    }
}

/// The steps the build asks for: one before each of `outs`, and the one
/// after the last.
pub open spec fn asked(m: BuildView, outs: Seq<OutcomeView>) -> Seq<StepView>
    decreases outs.len(),
{
    if outs.len() == 0 {
        seq![m.step()]
    } else {
        seq![m.step()] + asked(m.next(outs[0]), outs.drop_first())
    }
}

/// Each of `outs` reports on the step asked for at its turn.
pub open spec fn answers(m: BuildView, outs: Seq<OutcomeView>) -> bool
    decreases outs.len(),
{
    outs.len() == 0 || (m.expects(outs[0]) && answers(m.next(outs[0]), outs.drop_first()))
}

/// `o` reports that the step failed.
pub open spec fn failed(o: OutcomeView) -> bool {
    match o {
        OutcomeView::Resolved(r) => r is Err,
        OutcomeView::Fetched(r) => r is Err,
        OutcomeView::Ran(Err(_)) => true,
        OutcomeView::Ran(Ok(st)) => !st.succeeded(),
    }
}

/// How far a build has come.
pub open spec fn rank(s: Stage) -> int {
    match s {
        Stage::ResolveBuildDir => 0,
        Stage::ResolveExtractDir => 1,
        Stage::Fetch => 2,
        Stage::ResolveDownloaded => 3,
        Stage::ResolveSource => 4,
        Stage::ResolveBuild => 5,
        Stage::ResolveConfigureSource => 6,
        Stage::Configure => 7,
        Stage::Make => 8,
        Stage::Finished => 9,
    }
}

/// Law: a download and build in which every outside step succeeds asks, in
/// order, to resolve the build directory and the unpacking directory, to
/// download into the resolved unpacking directory with the given timeout, to
/// resolve the source tree found there, to resolve that source tree and the
/// resolved build directory once more, to resolve the source tree of
/// configure, to run its configure script with the configure arguments in the
/// build directory resolved the second time, and to run make with the jobs
/// option alone in the build directory resolved the first time, each command
/// with the given environment variables; it ends with the build directory
/// resolved the second time.
pub proof fn lemma_fetch_build_succeeds(
    url: Seq<char>,
    build_dir: Seq<char>,
    extract_dir: Seq<char>,
    src_dirname: Seq<char>,
    configure_args: Seq<Seq<char>>,
    env_vars: Seq<(Seq<char>, Seq<char>)>,
    timeout: std::time::Duration,
    parallelism: u8,
    build_abs: Seq<char>,
    extract_abs: Seq<char>,
    unpacked: Seq<char>,
    source_abs: Seq<char>,
    build_abs_again: Seq<char>,
    configure_source: Seq<char>,
    configured: ExitView,
    made: ExitView,
)
    requires
        configured.succeeded(),
        made.succeeded(),
    ensures
        ({
            let m0 = fetch_start(
                url,
                build_dir,
                extract_dir,
                src_dirname,
                configure_args,
                env_vars,
                timeout,
                parallelism,
            );
            let outs = seq![
                OutcomeView::Resolved(Ok(build_abs)),
                OutcomeView::Resolved(Ok(extract_abs)),
                OutcomeView::Fetched(Ok(())),
                OutcomeView::Resolved(Ok(unpacked)),
                OutcomeView::Resolved(Ok(source_abs)),
                OutcomeView::Resolved(Ok(build_abs_again)),
                OutcomeView::Resolved(Ok(configure_source)),
                OutcomeView::Ran(Ok(configured)),
                OutcomeView::Ran(Ok(made)),
            ];
            &&& answers(m0, outs)
            &&& run(m0, outs).result == Some(
                Ok::<Seq<char>, DependencyErrorView>(build_abs_again),
            )
            &&& asked(m0, outs) == seq![
                StepView::Resolve(build_dir),
                StepView::Resolve(extract_dir),
                StepView::Fetch { url, dest: extract_abs, timeout: Some(timeout) },
                StepView::Resolve(path_join(extract_abs, src_dirname)),
                StepView::Resolve(unpacked),
                StepView::Resolve(build_abs),
                StepView::Resolve(source_abs),
                StepView::Run(
                    CommandView {
                        program: path_join(configure_source, configure_name()),
                        args: configure_args,
                        cwd: build_abs_again,
                        env: env_vars,
                    },
                ),
                StepView::Run(
                    CommandView {
                        program: make_program(),
                        args: seq![jobs_option(parallelism)],
                        cwd: build_abs,
                        env: env_vars,
                    },
                ),
                StepView::Done,
            ]
        }),
{
    let m0 = fetch_start(
        url,
        build_dir,
        extract_dir,
        src_dirname,
        configure_args,
        env_vars,
        timeout,
        parallelism,
    );
    let outs = seq![
        OutcomeView::Resolved(Ok(build_abs)),
        OutcomeView::Resolved(Ok(extract_abs)),
        OutcomeView::Fetched(Ok(())),
        OutcomeView::Resolved(Ok(unpacked)),
        OutcomeView::Resolved(Ok(source_abs)),
        OutcomeView::Resolved(Ok(build_abs_again)),
        OutcomeView::Resolved(Ok(configure_source)),
        OutcomeView::Ran(Ok(configured)),
        OutcomeView::Ran(Ok(made)),
    ];
    let ms = seq![
        m0,
        m0.next(outs[0]),
        m0.next(outs[0]).next(outs[1]),
        m0.next(outs[0]).next(outs[1]).next(outs[2]),
        m0.next(outs[0]).next(outs[1]).next(outs[2]).next(outs[3]),
        m0.next(outs[0]).next(outs[1]).next(outs[2]).next(outs[3]).next(outs[4]),
        m0.next(outs[0]).next(outs[1]).next(outs[2]).next(outs[3]).next(outs[4]).next(outs[5]),
        m0.next(outs[0]).next(outs[1]).next(outs[2]).next(outs[3]).next(outs[4]).next(
            outs[5],
        ).next(outs[6]),
        m0.next(outs[0]).next(outs[1]).next(outs[2]).next(outs[3]).next(outs[4]).next(
            outs[5],
        ).next(outs[6]).next(outs[7]),
        m0.next(outs[0]).next(outs[1]).next(outs[2]).next(outs[3]).next(outs[4]).next(
            outs[5],
        ).next(outs[6]).next(outs[7]).next(outs[8]),
    ];
    assert(make_arguments_view(Seq::empty(), parallelism) =~= seq![jobs_option(parallelism)]);
    lemma_run_chain(ms, outs);
    assert(ms[0] == m0);
}

/// In a chain of views, the report at turn `i` answers the step asked for.
pub open spec fn answered_at(ms: Seq<BuildView>, outs: Seq<OutcomeView>, i: int) -> bool {
    ms[i].expects(outs[i])
}

/// Unfolds `run`, `asked` and `answers` along a chain of views in which
/// each is the one before it after the matching report.
#[verifier::spinoff_prover]
proof fn lemma_run_chain(ms: Seq<BuildView>, outs: Seq<OutcomeView>)
    requires
        ms.len() == outs.len() + 1,
        forall|i: int| 0 <= i < outs.len() ==> #[trigger] ms[i + 1] == ms[i].next(outs[i]),
        forall|i: int| 0 <= i < outs.len() ==> #[trigger] answered_at(ms, outs, i),
    ensures
        run(ms[0], outs) == ms.last(),
        asked(ms[0], outs) == ms.map_values(|m: BuildView| m.step()),
        answers(ms[0], outs),
    decreases outs.len(),
{
    if outs.len() > 0 {
        let rest = ms.drop_first();
        let later = outs.drop_first();
        assert forall|i: int| 0 <= i < later.len() implies #[trigger] rest[i + 1] == rest[i].next(
            later[i],
        ) by {
            assert(ms[(i + 1) + 1] == ms[i + 1].next(outs[i + 1]));
        }
        assert forall|i: int| 0 <= i < later.len() implies #[trigger] answered_at(rest, later, i) by {
            assert(answered_at(ms, outs, i + 1));
        }
        lemma_run_chain(rest, later);
        assert(ms[0int + 1] == ms[0].next(outs[0]));
        assert(answered_at(ms, outs, 0));
        assert(ms.map_values(|m: BuildView| m.step()) =~= seq![ms[0].step()] + rest.map_values(
            |m: BuildView| m.step(),
        ));
    } else {
        assert(ms.map_values(|m: BuildView| m.step()) =~= seq![ms[0].step()]);
    }
}

/// Law: a build of a source tree on disk in which every outside step
/// succeeds asks, in order, to resolve the source tree and the build
/// directory, to resolve the source tree once more for configure, to run the
/// configure script with the configure arguments in the resolved build
/// directory, and to run make with the jobs option alone in the build
/// directory as it was given, each command with the given environment
/// variables; it ends with the resolved build directory.
pub proof fn lemma_local_build_succeeds(
    src_dir: Seq<char>,
    build_dir: Seq<char>,
    configure_args: Seq<Seq<char>>,
    env_vars: Seq<(Seq<char>, Seq<char>)>,
    parallelism: u8,
    source_abs: Seq<char>,
    build_abs: Seq<char>,
    configure_source: Seq<char>,
    configured: ExitView,
    made: ExitView,
)
    requires
        configured.succeeded(),
        made.succeeded(),
    ensures
        ({
            let m0 = local_start(src_dir, build_dir, configure_args, env_vars, parallelism);
            let outs = seq![
                OutcomeView::Resolved(Ok(source_abs)),
                OutcomeView::Resolved(Ok(build_abs)),
                OutcomeView::Resolved(Ok(configure_source)),
                OutcomeView::Ran(Ok(configured)),
                OutcomeView::Ran(Ok(made)),
            ];
            &&& answers(m0, outs)
            &&& run(m0, outs).result == Some(Ok::<Seq<char>, DependencyErrorView>(build_abs))
            &&& asked(m0, outs) == seq![
                StepView::Resolve(src_dir),
                StepView::Resolve(build_dir),
                StepView::Resolve(source_abs),
                StepView::Run(
                    CommandView {
                        program: path_join(configure_source, configure_name()),
                        args: configure_args,
                        cwd: build_abs,
                        env: env_vars,
                    },
                ),
                StepView::Run(
                    CommandView {
                        program: make_program(),
                        args: seq![jobs_option(parallelism)],
                        cwd: build_dir,
                        env: env_vars,
                    },
                ),
                StepView::Done,
            ]
        }),
{
    let m0 = local_start(src_dir, build_dir, configure_args, env_vars, parallelism);
    let outs = seq![
        OutcomeView::Resolved(Ok(source_abs)),
        OutcomeView::Resolved(Ok(build_abs)),
        OutcomeView::Resolved(Ok(configure_source)),
        OutcomeView::Ran(Ok(configured)),
        OutcomeView::Ran(Ok(made)),
    ];
    let ms = seq![
        m0,
        m0.next(outs[0]),
        m0.next(outs[0]).next(outs[1]),
        m0.next(outs[0]).next(outs[1]).next(outs[2]),
        m0.next(outs[0]).next(outs[1]).next(outs[2]).next(outs[3]),
        m0.next(outs[0]).next(outs[1]).next(outs[2]).next(outs[3]).next(outs[4]),
    ];
    assert(make_arguments_view(Seq::empty(), parallelism) =~= seq![jobs_option(parallelism)]);
    lemma_run_chain(ms, outs);
    assert(ms[0] == m0);
}

/// Law: a failure ends the build. After the caller reports that the step
/// asked for failed, the build is finished, asks for nothing more, and ends
/// with the error of that step: a failed resolution of the source tree of
/// configure is a `ProcessInvocationError` build error, any other failed
/// resolution an `IoError` fetch error, a failed download that fetch error,
/// a command that could not be run a `ProcessInvocationError` build error,
/// and a command that did not succeed a `FailedCommand` build error naming
/// its command line and exit status.
pub proof fn lemma_failure_ends_build(m: BuildView, o: OutcomeView)
    requires
        m.expects(o),
        failed(o),
    ensures
        m.next(o).stage == Stage::Finished,
        m.next(o).step() == StepView::Done,
        forall|o2: OutcomeView| !m.next(o).expects(o2),
        o matches OutcomeView::Resolved(Err(e)) ==> m.next(o).result == Some(
            Err::<Seq<char>, DependencyErrorView>(
                if m.stage == Stage::ResolveConfigureSource {
                    DependencyErrorView::BuildErr(BuildErrorView::ProcessInvocationError(e))
                } else {
                    DependencyErrorView::FetchErr(FetchError::IoError(e))
                },
            ),
        ),
        o matches OutcomeView::Fetched(Err(e)) ==> m.next(o).result == Some(
            Err::<Seq<char>, DependencyErrorView>(DependencyErrorView::FetchErr(e)),
        ),
        o matches OutcomeView::Ran(Err(e)) ==> m.next(o).result == Some(
            Err::<Seq<char>, DependencyErrorView>(
                DependencyErrorView::BuildErr(BuildErrorView::ProcessInvocationError(e)),
            ),
        ),
        o matches OutcomeView::Ran(Ok(st)) ==> m.next(o).result == Some(
            Err::<Seq<char>, DependencyErrorView>(
                DependencyErrorView::BuildErr(
                    BuildErrorView::FailedCommand(
                        failure_text(
                            command_line_of(
                                if m.stage == Stage::Configure {
                                    configure_view(m)
                                } else {
                                    make_view(m)
                                },
                            ),
                            st.description,
                        ),
                    ),
                ),
            ),
        ),
{
}

/// Law: every report moves the build forward, so a build is finished after
/// at most nine reports.
pub proof fn lemma_build_progress(m: BuildView, o: OutcomeView)
    requires
        m.expects(o),
    ensures
        rank(m.stage) < rank(m.next(o).stage) <= 9,
{
}

/// Two builds agree on everything that a build of a source tree on disk
/// reads.
pub open spec fn local_parts_agree(a: BuildView, b: BuildView) -> bool {
    &&& a.configure_args == b.configure_args
    &&& a.env_vars == b.env_vars
    &&& a.parallelism == b.parallelism
    &&& a.source == b.source
    &&& a.local_build == b.local_build
    &&& a.source_abs == b.source_abs
    &&& a.local_build_abs == b.local_build_abs
    &&& a.configure_source == b.configure_source
    &&& a.stage == b.stage
    &&& a.result == b.result
}

/// Two builds that agree on the local parts, past the download, take the
/// same reports, and on reports that each answer the step asked for they ask
/// for the same steps and end the same.
proof fn lemma_agreeing_builds_run_alike(a: BuildView, b: BuildView, outs: Seq<OutcomeView>)
    requires
        local_parts_agree(a, b),
        rank(a.stage) >= rank(Stage::ResolveSource),
    ensures
        answers(a, outs) == answers(b, outs),
        answers(a, outs) ==> asked(a, outs) == asked(b, outs),
        answers(a, outs) ==> run(a, outs).result == run(b, outs).result,
    decreases outs.len(),
{
    assert(a.step() == b.step());
    if outs.len() > 0 && a.expects(outs[0]) {
        let o = outs[0];
        assert(a.expects(o) == b.expects(o));
        assert(configure_view(a) == configure_view(b));
        assert(make_view(a) == make_view(b));
        assert(local_parts_agree(a.next(o), b.next(o)));
        assert(rank(a.next(o).stage) >= rank(a.stage));
        lemma_agreeing_builds_run_alike(a.next(o), b.next(o), outs.drop_first());
    }
}

/// Law: once the archive is unpacked and its source tree resolved, a
/// download and build goes on exactly as a build of that source tree in the
/// resolved build directory: it takes the same runs of reports, and on every
/// run of reports that answer the steps asked for, it asks for the same steps
/// and ends with the same result.
pub proof fn lemma_fetch_build_continues_as_local_build(
    url: Seq<char>,
    build_dir: Seq<char>,
    extract_dir: Seq<char>,
    src_dirname: Seq<char>,
    configure_args: Seq<Seq<char>>,
    env_vars: Seq<(Seq<char>, Seq<char>)>,
    timeout: std::time::Duration,
    parallelism: u8,
    build_abs: Seq<char>,
    extract_abs: Seq<char>,
    unpacked: Seq<char>,
    outs: Seq<OutcomeView>,
)
    ensures
        ({
            let m = fetch_start(
                url,
                build_dir,
                extract_dir,
                src_dirname,
                configure_args,
                env_vars,
                timeout,
                parallelism,
            ).next(OutcomeView::Resolved(Ok(build_abs))).next(
                OutcomeView::Resolved(Ok(extract_abs)),
            ).next(OutcomeView::Fetched(Ok(()))).next(OutcomeView::Resolved(Ok(unpacked)));
            let l = local_start(unpacked, build_abs, configure_args, env_vars, parallelism);
            &&& answers(m, outs) == answers(l, outs)
            &&& answers(m, outs) ==> asked(m, outs) == asked(l, outs)
            &&& answers(m, outs) ==> run(m, outs).result == run(l, outs).result
        }),
{
    let m = fetch_start(
        url,
        build_dir,
        extract_dir,
        src_dirname,
        configure_args,
        env_vars,
        timeout,
        parallelism,
    ).next(OutcomeView::Resolved(Ok(build_abs))).next(OutcomeView::Resolved(Ok(extract_abs))).next(
        OutcomeView::Fetched(Ok(())),
    ).next(OutcomeView::Resolved(Ok(unpacked)));
    let l = local_start(unpacked, build_abs, configure_args, env_vars, parallelism);
    assert(local_parts_agree(m, l));
    lemma_agreeing_builds_run_alike(m, l, outs);
}

} // verus!
