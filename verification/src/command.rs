//! Commands that the build steps run: how a command line is spelled, where the
//! program lives, and how an exit status is judged.
use vstd::prelude::*;
use vstd::string::*;

verus! {

/// `std::io::Error` is carried through the library untouched.
#[verifier::external_type_specification]
#[verifier::external_body]
pub struct ExIoError(std::io::Error);

/// The text view of each string of a list.
pub open spec fn strings_view(v: Seq<String>) -> Seq<Seq<char>> {
    v.map_values(|s: String| s@)
}

/// The command line as it is reported: the program followed by each argument,
/// every argument preceded by one space.
pub open spec fn command_text(program: Seq<char>, args: Seq<Seq<char>>) -> Seq<char>
    decreases args.len(),
{
    if args.len() == 0 {
        program
    } else {
        command_text(program, args.drop_last()) + seq![' '] + args.last()
    }
}

/// The message of a command that ran and did not succeed.
pub open spec fn failure_text(command: Seq<char>, status: Seq<char>) -> Seq<char> {
    seq!['c', 'o', 'm', 'm', 'a', 'n', 'd', ' ', '\''] + command + seq![
        '\'',
        ' ',
        'f',
        'a',
        'i',
        'l',
        'e',
        'd',
        ':',
        ' ',
    ] + status
}

/// Appending `rel` to `base` as a Unix path: an absolute `rel` replaces `base`;
/// otherwise one `/` separates them unless `base` is empty or already ends in `/`.
pub open spec fn path_join(base: Seq<char>, rel: Seq<char>) -> Seq<char> {
    if rel.len() > 0 && rel[0] == '/' {
        rel
    } else if base.len() > 0 && base.last() != '/' {
        base + seq!['/'] + rel
    } else {
        base + rel
    }
}

/// The decimal digit `d` (`0 <= d < 10`) as a character.
pub open spec fn digit_char(d: int) -> char {
    if d == 0 {
        '0'
    } else if d == 1 {
        '1'
    } else if d == 2 {
        '2'
    } else if d == 3 {
        '3'
    } else if d == 4 {
        '4'
    } else if d == 5 {
        '5'
    } else if d == 6 {
        '6'
    } else if d == 7 {
        '7'
    } else if d == 8 {
        '8'
    } else {
        '9'
    }
}

/// The decimal spelling of `n`, without leading zeros.
pub open spec fn decimal_text(n: nat) -> Seq<char>
    decreases n,
{
    if n < 10 {
        seq![digit_char(n as int)]
    } else {
        decimal_text(n / 10) + seq![digit_char((n % 10) as int)]
    }
}

/// The `-j` option that asks make for `parallelism` jobs.
pub open spec fn jobs_option(parallelism: u8) -> Seq<char> {
    seq!['-', 'j'] + decimal_text(parallelism as nat)
}

/// The arguments of a make run: the jobs option first, then `args`.
pub open spec fn make_arguments_view(args: Seq<Seq<char>>, parallelism: u8) -> Seq<Seq<char>> {
    seq![jobs_option(parallelism)] + args
}

/// The program name under which make is run.
pub open spec fn make_program() -> Seq<char> {
    seq!['m', 'a', 'k', 'e']
}

/// The name of the script that configures an autotools source tree.
pub open spec fn configure_name() -> Seq<char> {
    seq!['c', 'o', 'n', 'f', 'i', 'g', 'u', 'r', 'e']
}

/// The text view of each name and value of a list of environment variables.
pub open spec fn env_view(v: Seq<(String, String)>) -> Seq<(Seq<char>, Seq<char>)> {
    v.map_values(|p: (String, String)| (p.0@, p.1@))
}

/// A command to run: the program, its arguments (the program itself not among
/// them), the working directory and the environment variables it is given
/// besides those it inherits.
#[derive(Debug, PartialEq, Eq)]
pub struct CommandSpec {
    pub program: String,
    pub args: Vec<String>,
    pub cwd: String,
    pub env: Vec<(String, String)>,
}

#[verifier::ext_equal]
pub struct CommandView {
    pub program: Seq<char>,
    pub args: Seq<Seq<char>>,
    pub cwd: Seq<char>,
    pub env: Seq<(Seq<char>, Seq<char>)>,
}

impl View for CommandSpec {
    type V = CommandView;

    open spec fn view(&self) -> CommandView {
        CommandView {
            program: self.program@,
            args: strings_view(self.args@),
            cwd: self.cwd@,
            env: env_view(self.env@),
        }
    }
}

/// How a command ended: its exit code (none when a signal ended it) and the
/// description that the platform prints for that status.
#[derive(Debug, PartialEq, Eq)]
pub struct ExitInfo {
    pub code: Option<i32>,
    pub description: String,
}

#[verifier::ext_equal]
pub struct ExitView {
    pub code: Option<i32>,
    pub description: Seq<char>,
}

impl View for ExitInfo {
    type V = ExitView;

    open spec fn view(&self) -> ExitView {
        ExitView { code: self.code, description: self.description@ }
    }
}

impl ExitView {
    /// A command succeeded exactly when it exited with code zero.
    pub open spec fn succeeded(self) -> bool {
        self.code == Some(0i32)
    }
}

impl ExitInfo {
    pub fn success(&self) -> (res: bool)
        ensures
            res == self@.succeeded(),
            res <==> self.code == Some(0i32),
    {
        match self.code {
            Some(c) => c == 0,
            None => false,
        }
    }
}

/// A copy of a list of strings.
pub fn clone_strings(v: &Vec<String>) -> (res: Vec<String>)
    ensures
        res@ == v@,
{
    let mut res: Vec<String> = Vec::new();
    let n = v.len();
    for i in 0..n
        invariant
            n == v.len(),
            res@ == v@.take(i as int),
    {
        res.push(v[i].clone());
        assert(v@.take(i as int).push(v@[i as int]) =~= v@.take(i + 1));
    }
    assert(v@.take(n as int) =~= v@);
    res
}

/// A copy of a list of environment variables.
pub fn clone_env(v: &Vec<(String, String)>) -> (res: Vec<(String, String)>)
    ensures
        res@ == v@,
{
    let mut res: Vec<(String, String)> = Vec::new();
    let n = v.len();
    for i in 0..n
        invariant
            n == v.len(),
            res@ == v@.take(i as int),
    {
        let pair = (v[i].0.clone(), v[i].1.clone());
        res.push(pair);
        assert(v@.take(i as int).push(v@[i as int]) =~= v@.take(i + 1));
    }
    assert(v@.take(n as int) =~= v@);
    res
}

/// The command line of `program` run with `args`, as it appears in messages.
pub fn command_string(program: &str, args: &Vec<String>) -> (res: String)
    ensures
        res@ == command_text(program@, strings_view(args@)),
{
    let mut res = String::from_str(program);
    let n = args.len();
    for i in 0..n
        invariant
            n == args.len(),
            res@ == command_text(program@, strings_view(args@.take(i as int))),
    {
        proof {
            reveal_strlit(" ");
            let prev = strings_view(args@.take(i as int));
            let next = strings_view(args@.take(i + 1));
            assert(next.drop_last() =~= prev);
            assert(next.last() == args@[i as int]@);
        }
        res.append(" ");
        res.append(args[i].as_str());
    }
    assert(args@.take(n as int) =~= args@);
    res
}

/// The message reported for a command that did not succeed.
pub fn failure_message(command: &str, status: &ExitInfo) -> (res: String)
    ensures
        res@ == failure_text(command@, status@.description),
{
    let mut res = String::from_str("command '");
    res.append(command);
    res.append("' failed: ");
    res.append(status.description.as_str());
    proof {
        reveal_strlit("command '");
        reveal_strlit("' failed: ");
        assert(res@ =~= failure_text(command@, status@.description));
    }
    res
}

fn last_char(s: &str) -> (res: Option<char>)
    ensures
        res == (if s@.len() == 0 { None } else { Some(s@.last()) }),
{
    let n = s.unicode_len();
    if n == 0 {
        None
    } else {
        Some(s.get_char(n - 1))
    }
}

fn first_char(s: &str) -> (res: Option<char>)
    ensures
        res == (if s@.len() == 0 { None } else { Some(s@[0]) }),
{
    if s.unicode_len() == 0 {
        None
    } else {
        Some(s.get_char(0))
    }
}

/// `base` with `rel` appended as a Unix path.
pub fn join_path(base: &str, rel: &str) -> (res: String)
    ensures
        res@ == path_join(base@, rel@),
        rel@.len() > 0 && rel@[0] == '/' ==> res@ == rel@,
        !(rel@.len() > 0 && rel@[0] == '/') && base@.len() > 0 && base@.last() != '/' ==> res@
            == base@ + seq!['/'] + rel@,
        !(rel@.len() > 0 && rel@[0] == '/') && !(base@.len() > 0 && base@.last() != '/') ==> res@
            == base@ + rel@,
{
    let starts_at_root = match first_char(rel) {
        Some(c) => c == '/',
        None => false,
    };
    if starts_at_root {
        return String::from_str(rel);
    }
    let needs_separator = match last_char(base) {
        Some(c) => c != '/',
        None => false,
    };
    let mut res = String::from_str(base);
    if needs_separator {
        res.append("/");
        proof {
            reveal_strlit("/");
        }
    }
    res.append(rel);
    res
}

fn digit_str(d: u8) -> (res: &'static str)
    requires
        d < 10,
    ensures
        res@ == seq![digit_char(d as int)],
{
    proof {
        reveal_strlit("0");
        reveal_strlit("1");
        reveal_strlit("2");
        reveal_strlit("3");
        reveal_strlit("4");
        reveal_strlit("5");
        reveal_strlit("6");
        reveal_strlit("7");
        reveal_strlit("8");
        reveal_strlit("9");
    }
    if d == 0 {
        "0"
    } else if d == 1 {
        "1"
    } else if d == 2 {
        "2"
    } else if d == 3 {
        "3"
    } else if d == 4 {
        "4"
    } else if d == 5 {
        "5"
    } else if d == 6 {
        "6"
    } else if d == 7 {
        "7"
    } else if d == 8 {
        "8"
    } else {
        "9"
    }
}

/// The decimal spelling of `n`.
pub fn decimal_string(n: u8) -> (res: String)
    ensures
        res@ == decimal_text(n as nat),
        res@.len() >= 1,
        decimal_value(res@) == n as int,
        forall|i: int| 0 <= i < res@.len() ==> 0 <= #[trigger] digit_value(res@[i]) <= 9,
        n != 0 ==> res@[0] != '0',
{
    let mut res = String::new();
    if n >= 100 {
        res.append(digit_str(n / 100));
    }
    if n >= 10 {
        res.append(digit_str((n / 10) % 10));
    }
    res.append(digit_str(n % 10));
    proof {
        reveal_with_fuel(decimal_text, 3);
        let m = n as nat;
        if m >= 100 {
            assert(decimal_text(m / 100) == seq![digit_char((m / 100) as int)]);
            assert((m / 10) / 10 == m / 100);
            assert(decimal_text(m / 10) =~= seq![digit_char((m / 100) as int)] + seq![
                digit_char(((m / 10) % 10) as int),
            ]);
        } else if m >= 10 {
            assert((m / 10) % 10 == m / 10);
        }
        assert(res@ =~= decimal_text(m));
        lemma_decimal_text_reads_back(m);
    }
    res
}

/// The arguments of a make run that asks for `parallelism` jobs.
pub fn make_arguments(args: &Vec<String>, parallelism: u8) -> (res: Vec<String>)
    ensures
        strings_view(res@) == make_arguments_view(strings_view(args@), parallelism),
        res@.len() == args@.len() + 1,
        res@[0]@ == seq!['-', 'j'] + decimal_text(parallelism as nat),
        res@[0]@.take(2) == seq!['-', 'j'],
        decimal_value(res@[0]@.skip(2)) == parallelism as int,
        forall|j: int| 0 <= j < args@.len() ==> #[trigger] res@[j + 1]@ == args@[j]@,
{
    let mut jobs = String::from_str("-j");
    jobs.append(decimal_string(parallelism).as_str());
    proof {
        reveal_strlit("-j");
    }
    let mut res: Vec<String> = Vec::new();
    res.push(jobs);
    let n = args.len();
    for i in 0..n
        invariant
            n == args.len(),
            res@.len() == i + 1,
            res@[0]@ == jobs_option(parallelism),
            forall|j: int| 0 <= j < i ==> #[trigger] res@[j + 1] == args@[j],
    {
        res.push(args[i].clone());
    }
    proof {
        let lhs = strings_view(res@);
        let rhs = make_arguments_view(strings_view(args@), parallelism);
        assert forall|k: int| 0 <= k < lhs.len() implies lhs[k] == rhs[k] by {
            if k > 0 {
                assert(res@[(k - 1) + 1] == args@[k - 1]);
            }
        }
        assert(lhs =~= rhs);
        lemma_make_arguments_keep_args(strings_view(args@), parallelism);
        assert(res@[0]@ == lhs[0]);
    }
    res
}

/// The make command run in `cwd` with `args` and `env`, asking for
/// `parallelism` jobs.
pub fn make_command(cwd: &str, args: &Vec<String>, env: &Vec<(String, String)>, parallelism: u8) -> (res:
    CommandSpec)
    ensures
        res@.program == make_program(),
        res@.args == make_arguments_view(strings_view(args@), parallelism),
        res@.cwd == cwd@,
        res@.env == env_view(env@),
{
    proof {
        reveal_strlit("make");
    }
    CommandSpec {
        program: String::from_str("make"),
        args: make_arguments(args, parallelism),
        cwd: String::from_str(cwd),
        env: clone_env(env),
    }
}

/// The configure script of the source tree at `source_dir`.
pub fn configure_script(source_dir: &str) -> (res: String)
    ensures
        res@ == path_join(source_dir@, configure_name()),
{
    proof {
        reveal_strlit("configure");
    }
    join_path(source_dir, "configure")
}

/// The text of `path` as `{:?}` prints a `std::path::Path`.
pub uninterp spec fn path_debug_text(path: Seq<char>) -> Seq<char>;

/// Calls `format!("{:?}", Path::new(path))`; its result is named, not stated.
#[verifier::external_body]
pub(crate) fn path_debug(path: &str) -> (res: String)
    ensures
        res@ == path_debug_text(path@),
{
    format!("{:?}", std::path::Path::new(path))
}

/// The value of a decimal digit character; -1 for any other character.
pub open spec fn digit_value(c: char) -> int {
    if c == '0' {
        0
    } else if c == '1' {
        1
    } else if c == '2' {
        2
    } else if c == '3' {
        3
    } else if c == '4' {
        4
    } else if c == '5' {
        5
    } else if c == '6' {
        6
    } else if c == '7' {
        7
    } else if c == '8' {
        8
    } else if c == '9' {
        9
    } else {
        -1
    }
}

/// The number that a string of decimal digits reads as.
pub open spec fn decimal_value(s: Seq<char>) -> int
    decreases s.len(),
{
    if s.len() == 0 {
        0
    } else {
        decimal_value(s.drop_last()) * 10 + digit_value(s.last())
    }
}

/// Law: the decimal spelling of `n` is a nonempty string of decimal digits
/// that reads back as `n`, with no leading zero unless `n` is zero.
pub proof fn lemma_decimal_text_reads_back(n: nat)
    ensures
        decimal_text(n).len() >= 1,
        forall|i: int| 0 <= i < decimal_text(n).len() ==> 0 <= #[trigger] digit_value(
            decimal_text(n)[i],
        ) <= 9,
        decimal_value(decimal_text(n)) == n,
        n != 0 ==> decimal_text(n)[0] != '0',
    decreases n,
{
    if n >= 10 {
        lemma_decimal_text_reads_back(n / 10);
        let front = decimal_text(n / 10);
        let d = (n % 10) as int;
        assert(decimal_text(n) == front + seq![digit_char(d)]);
        assert((front + seq![digit_char(d)]).drop_last() =~= front);
        assert(digit_value(digit_char(d)) == d);
        assert(n == (n / 10) * 10 + n % 10);
        assert((front + seq![digit_char(d)]).last() == digit_char(d));
        assert(decimal_value(decimal_text(n)) == decimal_value(front) * 10 + d);
        assert forall|i: int| 0 <= i < decimal_text(n).len() implies 0 <= #[trigger] digit_value(
            decimal_text(n)[i],
        ) <= 9 by {
            if i < front.len() {
                assert(decimal_text(n)[i] == front[i]);
            }
        }
        assert(decimal_text(n)[0] == front[0]);
    } else {
        assert(decimal_text(n) == seq![digit_char(n as int)]);
        assert(seq![digit_char(n as int)].drop_last() =~= Seq::<char>::empty());
        assert(digit_value(digit_char(n as int)) == n);
        assert(decimal_value(seq![digit_char(n as int)]) == decimal_value(Seq::<char>::empty()) * 10
            + digit_value(digit_char(n as int)));
    }
}

/// Law: a command's exit counts as success exactly when its exit code is
/// zero; every other code, and an end by a signal, is a failure.
pub proof fn lemma_success_is_exit_code_zero(st: ExitView)
    ensures
        st.succeeded() <==> st.code == Some(0i32),
        forall|c: i32|
            c != 0 ==> !#[trigger] (ExitView { code: Some(c), description: st.description }).succeeded(),
        !(ExitView { code: None, description: st.description }).succeeded(),
{
}

/// Law: make is run with `-j` and the decimal digits of the parallelism asked
/// for, followed by the given arguments, each in its place.
pub proof fn lemma_make_arguments_keep_args(args: Seq<Seq<char>>, parallelism: u8)
    ensures
        make_arguments_view(args, parallelism).len() == args.len() + 1,
        make_arguments_view(args, parallelism)[0].take(2) == seq!['-', 'j'],
        decimal_value(make_arguments_view(args, parallelism)[0].skip(2)) == parallelism as int,
        forall|j: int| 0 <= j < args.len() ==> #[trigger] make_arguments_view(args, parallelism)[j + 1]
            == args[j],
{
    let first = make_arguments_view(args, parallelism)[0];
    lemma_decimal_text_reads_back(parallelism as nat);
    assert(first.take(2) =~= seq!['-', 'j']);
    assert(first.skip(2) =~= decimal_text(parallelism as nat));
}

/// Law: joining a relative path onto a nonempty directory that does not end
/// in `/` puts exactly one `/` between them, whatever the relative path ends
/// with; an absolute path replaces the directory; onto an empty directory, or
/// one ending in `/`, the relative path is appended as it is.
pub proof fn lemma_path_join_separator(base: Seq<char>, rel: Seq<char>)
    ensures
        rel.len() > 0 && rel[0] == '/' ==> path_join(base, rel) == rel,
        !(rel.len() > 0 && rel[0] == '/') && base.len() > 0 && base.last() != '/' ==> {
            &&& path_join(base, rel).len() == base.len() + 1 + rel.len()
            &&& path_join(base, rel).take(base.len() as int) == base
            &&& path_join(base, rel)[base.len() as int] == '/'
            &&& path_join(base, rel).skip(base.len() + 1int) == rel
        },
        !(rel.len() > 0 && rel[0] == '/') && !(base.len() > 0 && base.last() != '/') ==> path_join(
            base,
            rel,
        ) == base + rel,
{
    if !(rel.len() > 0 && rel[0] == '/') && base.len() > 0 && base.last() != '/' {
        let j = path_join(base, rel);
        assert(j.take(base.len() as int) =~= base);
        assert(j.skip(base.len() + 1int) =~= rel);
    }
}

/// Law: the command line of no arguments is the program alone, of one
/// argument the program, one space and the argument; and the command line of
/// the arguments `a` then `b` is the command line of `b` after the command
/// line of `a`.
pub proof fn lemma_command_text_composes(program: Seq<char>, a: Seq<Seq<char>>, b: Seq<Seq<char>>)
    ensures
        command_text(program, Seq::empty()) == program,
        forall|arg: Seq<char>| #[trigger] command_text(program, seq![arg]) == program + seq![' ']
            + arg,
        command_text(program, a + b) == command_text(command_text(program, a), b),
    decreases b.len(),
{
    assert forall|arg: Seq<char>| #[trigger] command_text(program, seq![arg]) == program + seq![' ']
        + arg by {
        assert(seq![arg].drop_last() =~= Seq::<Seq<char>>::empty());
        assert(seq![arg].last() == arg);
        assert(command_text(program, seq![arg]) == command_text(program, seq![arg].drop_last())
            + seq![' '] + seq![arg].last());
    }
    if b.len() == 0 {
        assert(a + b =~= a);
    } else {
        lemma_command_text_composes(program, a, b.drop_last());
        assert((a + b).drop_last() =~= a + b.drop_last());
        assert((a + b).last() == b.last());
    }
}

} // verus!
