//! The command line: which pods to stream, and how.
//!
//! `--namespace` (`-n`), `--filter` and `--refresh-interval` take one value
//! each and may be given once. `--deployments` (`-d`), `--statefulsets`
//! (`-s`), `--daemonsets`, `--jobs`, `--cronjobs` and `--pods` (`-p`) take
//! one value or more, each a list of names separated by spaces, and may be
//! given again to add names. `--follow` (`-f`) takes none.
//!
//! A value is the argument that follows its option, or is written together
//! with it: `--namespace=prod`, `-nprod` or `-n=prod`. An argument of two
//! characters or more that begins with `-` is read as an option, never as a
//! value of the option before it. Short options are not joined: `-fn` is
//! refused.
use crate::k8s::{ResourceInfo, ResourceInfoView, ResourceKind, ResourceType};
use crate::text::{chars_of, opt_text, pieces, same_text, split_text, texts};
use vstd::prelude::*;

verus! {

/// An option of the command line.
#[derive(Clone, Copy, Debug, PartialEq, Eq, Structural)]
pub enum Opt {
    Namespace,
    Deployments,
    Statefulsets,
    Daemonsets,
    Jobs,
    Cronjobs,
    Pods,
    Follow,
    Filter,
    RefreshInterval,
}

/// What the last option read is still waiting for.
#[derive(Clone, Copy, Debug, PartialEq, Eq, Structural)]
pub enum Pending {
    Nothing,
    /// The one value of this option.
    Value(Opt),
    /// Values of this list option. The flag says whether one has come.
    List(Opt, bool),
}

/// Why a command line was refused.
#[derive(Debug)]
pub enum ArgsError {
    /// This argument is no option, and no option was waiting for it.
    UnknownArgument(String),
    /// This option was not followed by a value.
    MissingValue(Opt),
    /// This option may be given once, and was given again.
    RepeatedArgument(Opt),
    /// This value of `--refresh-interval` is not a number of seconds.
    InvalidNumber(String),
    /// `--namespace` was not given.
    MissingNamespace,
}

/// An `ArgsError`, with its text as a sequence of characters.
pub enum Problem {
    UnknownArgument(Seq<char>),
    MissingValue(Opt),
    RepeatedArgument(Opt),
    InvalidNumber(Seq<char>),
    MissingNamespace,
}

impl View for ArgsError {
    type V = Problem;

    open spec fn view(&self) -> Problem {
        match self {
            ArgsError::UnknownArgument(text) => Problem::UnknownArgument(text@),
            ArgsError::MissingValue(opt) => Problem::MissingValue(*opt),
            ArgsError::RepeatedArgument(opt) => Problem::RepeatedArgument(*opt),
            ArgsError::InvalidNumber(text) => Problem::InvalidNumber(text@),
            ArgsError::MissingNamespace => Problem::MissingNamespace,
        }
    }
}

impl Opt {
    /// The long name of this option, as the command line writes it.
    pub open spec fn flag_text(self) -> Seq<char> {
        match self {
            Opt::Namespace => "--namespace"@,
            Opt::Deployments => "--deployments"@,
            Opt::Statefulsets => "--statefulsets"@,
            Opt::Daemonsets => "--daemonsets"@,
            Opt::Jobs => "--jobs"@,
            Opt::Cronjobs => "--cronjobs"@,
            Opt::Pods => "--pods"@,
            Opt::Follow => "--follow"@,
            Opt::Filter => "--filter"@,
            Opt::RefreshInterval => "--refresh-interval"@,
        }
    }

    /// The long name of this option, as the command line writes it.
    pub fn flag(self) -> (r: &'static str)
        ensures
            r@ == self.flag_text(),
    {
        match self {
            Opt::Namespace => "--namespace",
            Opt::Deployments => "--deployments",
            Opt::Statefulsets => "--statefulsets",
            Opt::Daemonsets => "--daemonsets",
            Opt::Jobs => "--jobs",
            Opt::Cronjobs => "--cronjobs",
            Opt::Pods => "--pods",
            Opt::Follow => "--follow",
            Opt::Filter => "--filter",
            Opt::RefreshInterval => "--refresh-interval",
        }
    }
}

impl Problem {
    /// What to tell the operator.
    pub open spec fn text(self) -> Seq<char> {
        match self {
            Problem::UnknownArgument(given) => "unexpected argument: "@ + given,
            Problem::MissingValue(opt) => "a value is required for "@ + opt.flag_text(),
            Problem::RepeatedArgument(opt) => "this argument cannot be used more than once: "@
                + opt.flag_text(),
            Problem::InvalidNumber(given) => "invalid value for --refresh-interval: "@ + given,
            Problem::MissingNamespace => "the required argument --namespace was not provided"@,
        }
    }
}

impl ArgsError {
    /// What to tell the operator.
    pub fn message(&self) -> (r: String)
        ensures
            r@ == self@.text(),
    {
        match self {
            ArgsError::UnknownArgument(given) => {
                let mut out = String::from_str("unexpected argument: ");
                out.append(given.as_str());
                out
            },
            ArgsError::MissingValue(opt) => {
                let mut out = String::from_str("a value is required for ");
                out.append(opt.flag());
                out
            },
            ArgsError::RepeatedArgument(opt) => {
                let mut out = String::from_str("this argument cannot be used more than once: ");
                out.append(opt.flag());
                out
            },
            ArgsError::InvalidNumber(given) => {
                let mut out = String::from_str("invalid value for --refresh-interval: ");
                out.append(given.as_str());
                out
            },
            ArgsError::MissingNamespace => String::from_str(
                "the required argument --namespace was not provided",
            ),
        }
    }
}

/// Startup was refused: neither a workload nor a pod was named.
#[derive(Debug)]
pub struct ConfigError {}

impl ConfigError {
    /// What to tell the operator.
    pub fn message(&self) -> (r: String)
        ensures
            r@ == "Specify at least one pod or Kubernetes resource to stream logs from"@,
    {
        String::from_str("Specify at least one pod or Kubernetes resource to stream logs from")
    }
}

/// The options as given.
#[derive(Debug)]
pub struct Args {
    /// The namespace of every workload and pod.
    pub namespace: String,
    pub deployments: Vec<String>,
    pub statefulsets: Vec<String>,
    pub daemonsets: Vec<String>,
    pub jobs: Vec<String>,
    pub cronjobs: Vec<String>,
    /// Pods to stream whatever workload they belong to.
    pub pods: Vec<String>,
    /// Whether to go on reading a log as it grows.
    pub follow: bool,
    /// The text a line must hold to be shown. Empty: every line is shown.
    pub filter: String,
    /// Seconds between two discovery cycles. Zero: no periodic discovery.
    pub refresh_interval: u64,
}

/// What `Args` holds.
pub struct ArgsView {
    pub namespace: Seq<char>,
    pub deployments: Seq<Seq<char>>,
    pub statefulsets: Seq<Seq<char>>,
    pub daemonsets: Seq<Seq<char>>,
    pub jobs: Seq<Seq<char>>,
    pub cronjobs: Seq<Seq<char>>,
    pub pods: Seq<Seq<char>>,
    pub follow: bool,
    pub filter: Seq<char>,
    pub refresh_interval: u64,
}

impl View for Args {
    type V = ArgsView;

    open spec fn view(&self) -> ArgsView {
        ArgsView {
            namespace: self.namespace@,
            deployments: texts(self.deployments@),
            statefulsets: texts(self.statefulsets@),
            daemonsets: texts(self.daemonsets@),
            jobs: texts(self.jobs@),
            cronjobs: texts(self.cronjobs@),
            pods: texts(self.pods@),
            follow: self.follow,
            filter: self.filter@,
            refresh_interval: self.refresh_interval,
        }
    }
}

/// What has been read of a command line so far.
pub struct Cli {
    pub namespace: Option<Seq<char>>,
    pub deployments: Seq<Seq<char>>,
    pub statefulsets: Seq<Seq<char>>,
    pub daemonsets: Seq<Seq<char>>,
    pub jobs: Seq<Seq<char>>,
    pub cronjobs: Seq<Seq<char>>,
    pub pods: Seq<Seq<char>>,
    pub follow: bool,
    pub filter: Option<Seq<char>>,
    pub refresh_interval: Option<u64>,
    pub pending: Pending,
}

/// The refresh interval where none is given, in seconds.
pub const DEFAULT_REFRESH_INTERVAL: u64 = 30;

/// The option that `token` names.
pub open spec fn option_named(token: Seq<char>) -> Option<Opt> {
    if token == "--namespace"@ || token == "-n"@ {
        Some(Opt::Namespace)
    } else if token == "--deployments"@ || token == "-d"@ {
        Some(Opt::Deployments)
    } else if token == "--statefulsets"@ || token == "-s"@ {
        Some(Opt::Statefulsets)
    } else if token == "--daemonsets"@ {
        Some(Opt::Daemonsets)
    } else if token == "--jobs"@ {
        Some(Opt::Jobs)
    } else if token == "--cronjobs"@ {
        Some(Opt::Cronjobs)
    } else if token == "--pods"@ || token == "-p"@ {
        Some(Opt::Pods)
    } else if token == "--follow"@ || token == "-f"@ {
        Some(Opt::Follow)
    } else if token == "--filter"@ {
        Some(Opt::Filter)
    } else if token == "--refresh-interval"@ {
        Some(Opt::RefreshInterval)
    } else {
        None
    }
}

/// Whether `token` is read as an option: it begins with `-` and has two
/// characters or more.
pub open spec fn looks_like_option(token: Seq<char>) -> bool {
    token.len() >= 2 && token[0] == '-'
}

/// The first position from `from` on at which `text` holds `c`, and the
/// length of `text` where it holds none.
pub open spec fn position_of(text: Seq<char>, c: char, from: int) -> int
    decreases text.len() - from,
{
    if from >= text.len() {
        text.len() as int
    } else if text[from] == c {
        from
    } else {
        position_of(text, c, from + 1)
    }
}

/// The name and the value of an option that is written together with its
/// value. A long option ends at its first `=`, and the value is what
/// follows. A short option is the first two characters, and the value is
/// the rest, without the `=` that may begin it.
pub open spec fn attached(token: Seq<char>) -> Option<(Seq<char>, Seq<char>)> {
    if token.len() >= 2 && token[0] == '-' && token[1] == '-' {
        let cut = position_of(token, '=', 0);
        if cut < token.len() {
            Some((token.subrange(0, cut), token.subrange(cut + 1, token.len() as int)))
        } else {
            None
        }
    } else if token.len() > 2 && token[0] == '-' {
        if token[2] == '=' {
            Some((token.subrange(0, 2), token.subrange(3, token.len() as int)))
        } else {
            Some((token.subrange(0, 2), token.subrange(2, token.len() as int)))
        }
    } else {
        None
    }
}

/// Whether `c` is a decimal digit.
pub open spec fn is_digit(c: char) -> bool {
    '0' <= c && c <= '9'
}

/// The number that the decimal digits `digits` write.
pub open spec fn digits_value(digits: Seq<char>) -> nat
    decreases digits.len(),
{
    if digits.len() == 0 {
        0
    } else {
        digits_value(digits.drop_last()) * 10 + (digits.last() as nat - '0' as nat) as nat
    }
}

/// Whether `digits` holds decimal digits only.
pub open spec fn all_digits(digits: Seq<char>) -> bool {
    forall|i: int| 0 <= i < digits.len() ==> is_digit(#[trigger] digits[i])
}

/// `text` without the `+` that may stand before a number.
pub open spec fn unsigned_part(text: Seq<char>) -> Seq<char> {
    if text.len() > 0 && text[0] == '+' {
        text.skip(1)
    } else {
        text
    }
}

/// The number that `text` writes: decimal digits, at least one, with or
/// without a `+` before them, and a value that 64 bits hold.
pub open spec fn number_text(text: Seq<char>) -> Option<u64> {
    let digits = unsigned_part(text);
    if digits.len() > 0 && all_digits(digits) && digits_value(digits) <= u64::MAX {
        Some(digits_value(digits) as u64)
    } else {
        None
    }
}

impl Opt {
    /// Whether this option takes a list of names.
    pub open spec fn takes_list(self) -> bool {
        match self {
            Opt::Deployments | Opt::Statefulsets | Opt::Daemonsets | Opt::Jobs | Opt::Cronjobs | Opt::Pods => true,
            _ => false,
        }
    }
}

impl Cli {
    /// Nothing read yet.
    pub open spec fn start() -> Cli {
        Cli {
            namespace: None,
            deployments: Seq::empty(),
            statefulsets: Seq::empty(),
            daemonsets: Seq::empty(),
            jobs: Seq::empty(),
            cronjobs: Seq::empty(),
            pods: Seq::empty(),
            follow: false,
            filter: None,
            refresh_interval: None,
            pending: Pending::Nothing,
        }
    }

    /// Whether `opt`, an option that may be given once, was given.
    pub open spec fn is_set(self, opt: Opt) -> bool {
        match opt {
            Opt::Namespace => self.namespace is Some,
            Opt::Filter => self.filter is Some,
            Opt::RefreshInterval => self.refresh_interval is Some,
            Opt::Follow => self.follow,
            _ => false,
        }
    }

    /// This state once `value` is taken as the value of `opt`.
    pub open spec fn with_value(self, opt: Opt, value: Seq<char>) -> Result<Cli, Problem> {
        match opt {
            Opt::Namespace => Ok(Cli { namespace: Some(value), pending: Pending::Nothing, ..self }),
            Opt::Filter => Ok(Cli { filter: Some(value), pending: Pending::Nothing, ..self }),
            Opt::RefreshInterval => match number_text(value) {
                Some(seconds) => Ok(
                    Cli { refresh_interval: Some(seconds), pending: Pending::Nothing, ..self },
                ),
                None => Err(Problem::InvalidNumber(value)),
            },
            _ => Ok(Cli { pending: Pending::Nothing, ..self }),
        }
    }

    /// This state once `names` are added to the list of `opt`.
    pub open spec fn with_names(self, opt: Opt, names: Seq<Seq<char>>) -> Cli {
        let pending = Pending::List(opt, true);
        match opt {
            Opt::Deployments => Cli { deployments: self.deployments + names, pending, ..self },
            Opt::Statefulsets => Cli { statefulsets: self.statefulsets + names, pending, ..self },
            Opt::Daemonsets => Cli { daemonsets: self.daemonsets + names, pending, ..self },
            Opt::Jobs => Cli { jobs: self.jobs + names, pending, ..self },
            Opt::Cronjobs => Cli { cronjobs: self.cronjobs + names, pending, ..self },
            Opt::Pods => Cli { pods: self.pods + names, pending, ..self },
            _ => Cli { pending, ..self },
        }
    }

    /// This state once the option `opt` is read.
    pub open spec fn with_option(self, opt: Opt) -> Result<Cli, Problem> {
        if self.is_set(opt) {
            Err(Problem::RepeatedArgument(opt))
        } else if opt == Opt::Follow {
            Ok(Cli { follow: true, pending: Pending::Nothing, ..self })
        } else if opt.takes_list() {
            Ok(Cli { pending: Pending::List(opt, false), ..self })
        } else {
            Ok(Cli { pending: Pending::Value(opt), ..self })
        }
    }

    /// This state once the option `opt` is read together with `value`: the
    /// one value of an option that takes one, and the first names of a list,
    /// which stays open for more.
    pub open spec fn with_attached(self, opt: Opt, value: Seq<char>) -> Result<Cli, Problem> {
        match self.with_option(opt) {
            Ok(cli) => if opt.takes_list() {
                Ok(cli.with_names(opt, pieces(value, ' ')))
            } else {
                cli.with_value(opt, value)
            },
            Err(problem) => Err(problem),
        }
    }

    /// This state once `token` is read as an option: the name of an option,
    /// or an option that takes a value written together with it.
    pub open spec fn read_option(self, token: Seq<char>) -> Result<Cli, Problem> {
        match option_named(token) {
            Some(named) => self.with_option(named),
            None => match attached(token) {
                Some((name, value)) => match option_named(name) {
                    Some(named) => if named == Opt::Follow {
                        Err(Problem::UnknownArgument(token))
                    } else {
                        self.with_attached(named, value)
                    },
                    None => Err(Problem::UnknownArgument(token)),
                },
                None => Err(Problem::UnknownArgument(token)),
            },
        }
    }

    /// This state once `token` is read.
    ///
    /// An option that waits for its value takes `token`, unless `token` is
    /// read as an option. An option must have a name, must not repeat one
    /// that may be given once, and must not come while a list waits for its
    /// first value. Any other argument adds its names, split at spaces, to
    /// the list that is open, and is refused where none is.
    pub open spec fn read(self, token: Seq<char>) -> Result<Cli, Problem> {
        match self.pending {
            Pending::Value(opt) => if looks_like_option(token) {
                Err(Problem::MissingValue(opt))
            } else {
                self.with_value(opt, token)
            },
            Pending::List(opt, taken) => if looks_like_option(token) {
                if !taken {
                    Err(Problem::MissingValue(opt))
                } else {
                    self.read_option(token)
                }
            } else {
                Ok(self.with_names(opt, pieces(token, ' ')))
            },
            Pending::Nothing => if looks_like_option(token) {
                self.read_option(token)
            } else {
                Err(Problem::UnknownArgument(token))
            },
        }
    }

    /// This state once `tokens` are read, one after the other, up to the
    /// first that is refused.
    pub open spec fn read_all(self, tokens: Seq<Seq<char>>) -> Result<Cli, Problem>
        decreases tokens.len(),
    {
        if tokens.len() == 0 {
            Ok(self)
        } else {
            match self.read_all(tokens.drop_last()) {
                Ok(cli) => cli.read(tokens.last()),
                Err(problem) => Err(problem),
            }
        }
    }

    /// The options that were read, once the command line has ended: no
    /// option may wait for a value it has not had, and the namespace must
    /// have been given. The filter is empty where none was given, and the
    /// refresh interval 30 seconds.
    pub open spec fn finish(self) -> Result<ArgsView, Problem> {
        match self.pending {
            Pending::Value(opt) => Err(Problem::MissingValue(opt)),
            Pending::List(opt, false) => Err(Problem::MissingValue(opt)),
            _ => match self.namespace {
                None => Err(Problem::MissingNamespace),
                Some(namespace) => Ok(
                    ArgsView {
                        namespace,
                        deployments: self.deployments,
                        statefulsets: self.statefulsets,
                        daemonsets: self.daemonsets,
                        jobs: self.jobs,
                        cronjobs: self.cronjobs,
                        pods: self.pods,
                        follow: self.follow,
                        filter: match self.filter {
                            Some(filter) => filter,
                            None => Seq::empty(),
                        },
                        refresh_interval: match self.refresh_interval {
                            Some(seconds) => seconds,
                            None => DEFAULT_REFRESH_INTERVAL,
                        },
                    },
                ),
            },
        }
    }
}

/// The texts of the arguments, in order.
pub open spec fn arg_texts(args: Seq<&str>) -> Seq<Seq<char>> {
    args.map_values(|arg: &str| arg@)
}

/// The arguments behind the name of the program, which comes first.
pub open spec fn behind_program_name(args: Seq<Seq<char>>) -> Seq<Seq<char>> {
    if args.len() == 0 {
        args
    } else {
        args.skip(1)
    }
}

/// What a command line says. Its first argument is the name of the
/// program, which is passed over.
pub open spec fn parsed(args: Seq<Seq<char>>) -> Result<ArgsView, Problem> {
    match Cli::start().read_all(behind_program_name(args)) {
        Ok(cli) => cli.finish(),
        Err(problem) => Err(problem),
    }
}

/// The value of a prefix is at most the value of the whole.
proof fn lemma_prefix_value(digits: Seq<char>, k: int)
    requires
        0 <= k <= digits.len(),
    ensures
        digits_value(digits.take(k)) <= digits_value(digits),
    decreases digits.len(),
{
    if k == digits.len() {
        assert(digits.take(k) =~= digits);
    } else {
        assert(digits.drop_last().take(k) =~= digits.take(k));
        lemma_prefix_value(digits.drop_last(), k);
    }
}

/// Reads a number of seconds: decimal digits, with or without a `+` before
/// them. `None` where `text` is no such number, or one too large for 64
/// bits.
pub fn parse_number(text: &str) -> (r: Option<u64>)
    ensures
        r == number_text(text@),
{
    let chars = chars_of(text);
    let start: usize = if chars.len() > 0 && chars[0] == '+' {
        1
    } else {
        0
    };
    let ghost digits = unsigned_part(text@);
    let total: usize = chars.len();
    let count: usize = total - start;
    if count == 0 {
        return None;
    }
    let mut value: u64 = 0;
    let mut k: usize = 0;
    while k < count
        invariant
            k <= count,
            start + count == total,
            chars@.len() == total,
            digits == unsigned_part(text@),
            digits.len() == count,
            forall|j: int| 0 <= j < count ==> digits[j] == chars@[start + j],
            forall|j: int| 0 <= j < k ==> is_digit(#[trigger] digits[j]),
            value == digits_value(digits.take(k as int)),
        decreases count - k,
    {
        let c = chars[start + k];
        if !(c >= '0' && c <= '9') {
            assert(!is_digit(digits[k as int]));
            return None;
        }
        let digit: u64 = (c as u32 - '0' as u32) as u64;
        proof {
            assert(digits.take(k + 1).drop_last() =~= digits.take(k as int));
            assert(digits.take(k + 1).last() == c);
            assert(digits_value(digits.take(k + 1)) == value * 10 + digit);
            lemma_prefix_value(digits, k + 1);
        }
        let scaled = match value.checked_mul(10) {
            Some(scaled) => scaled,
            None => {
                return None;
            },
        };
        value = match scaled.checked_add(digit) {
            Some(sum) => sum,
            None => {
                return None;
            },
        };
        k += 1;
    }
    proof {
        assert(digits.take(k as int) =~= digits);
    }
    Some(value)
}

/// The option that `token` names, if it names one.
pub fn option_of(token: &str) -> (r: Option<Opt>)
    ensures
        r == option_named(token@),
{
    if same_text(token, "--namespace") || same_text(token, "-n") {
        Some(Opt::Namespace)
    } else if same_text(token, "--deployments") || same_text(token, "-d") {
        Some(Opt::Deployments)
    } else if same_text(token, "--statefulsets") || same_text(token, "-s") {
        Some(Opt::Statefulsets)
    } else if same_text(token, "--daemonsets") {
        Some(Opt::Daemonsets)
    } else if same_text(token, "--jobs") {
        Some(Opt::Jobs)
    } else if same_text(token, "--cronjobs") {
        Some(Opt::Cronjobs)
    } else if same_text(token, "--pods") || same_text(token, "-p") {
        Some(Opt::Pods)
    } else if same_text(token, "--follow") || same_text(token, "-f") {
        Some(Opt::Follow)
    } else if same_text(token, "--filter") {
        Some(Opt::Filter)
    } else if same_text(token, "--refresh-interval") {
        Some(Opt::RefreshInterval)
    } else {
        None
    }
}

/// Whether `token` is read as an option.
pub fn is_option_like(token: &str) -> (r: bool)
    ensures
        r == looks_like_option(token@),
{
    let chars = chars_of(token);
    chars.len() >= 2 && chars[0] == '-'
}

/// The name and the value of an option that is written together with its
/// value.
pub fn split_attached(token: &str) -> (r: Option<(String, String)>)
    ensures
        match r {
            Some((name, value)) => attached(token@) == Some((name@, value@)),
            None => attached(token@) is None,
        },
{
    let chars = chars_of(token);
    let len: usize = chars.len();
    if len >= 2 && chars[0] == '-' && chars[1] == '-' {
        let mut cut: usize = 0;
        while cut < len && chars[cut] != '='
            invariant
                cut <= len,
                chars@.len() == len,
                chars@ == token@,
                position_of(token@, '=', 0) == position_of(token@, '=', cut as int),
            decreases len - cut,
        {
            cut += 1;
        }
        if cut < len {
            let name = token.substring_char(0, cut).to_owned();
            let value = token.substring_char(cut + 1, len).to_owned();
            Some((name, value))
        } else {
            None
        }
    } else if len > 2 && chars[0] == '-' {
        let start: usize = if chars[2] == '=' {
            3
        } else {
            2
        };
        let name = token.substring_char(0, 2).to_owned();
        let value = token.substring_char(start, len).to_owned();
        Some((name, value))
    } else {
        None
    }
}

/// What has been read of a command line so far.
struct Partial {
    namespace: Option<String>,
    deployments: Vec<String>,
    statefulsets: Vec<String>,
    daemonsets: Vec<String>,
    jobs: Vec<String>,
    cronjobs: Vec<String>,
    pods: Vec<String>,
    follow: bool,
    filter: Option<String>,
    refresh_interval: Option<u64>,
    pending: Pending,
}

impl View for Partial {
    type V = Cli;

    closed spec fn view(&self) -> Cli {
        Cli {
            namespace: opt_text(self.namespace),
            deployments: texts(self.deployments@),
            statefulsets: texts(self.statefulsets@),
            daemonsets: texts(self.daemonsets@),
            jobs: texts(self.jobs@),
            cronjobs: texts(self.cronjobs@),
            pods: texts(self.pods@),
            follow: self.follow,
            filter: opt_text(self.filter),
            refresh_interval: self.refresh_interval,
            pending: self.pending,
        }
    }
}

/// Adds the names that `token` lists, separated by spaces, to `list`.
fn add_names(list: &mut Vec<String>, token: &str)
    ensures
        texts(final(list)@) == texts(old(list)@) + pieces(token@, ' '),
{
    let mut names = split_text(token, ' ');
    proof {
        assert(texts(list@ + names@) =~= texts(list@) + texts(names@));
    }
    list.append(&mut names);
}

impl Partial {
    fn start() -> (r: Partial)
        ensures
            r@ == Cli::start(),
    {
        let r = Partial {
            namespace: None,
            deployments: Vec::new(),
            statefulsets: Vec::new(),
            daemonsets: Vec::new(),
            jobs: Vec::new(),
            cronjobs: Vec::new(),
            pods: Vec::new(),
            follow: false,
            filter: None,
            refresh_interval: None,
            pending: Pending::Nothing,
        };
        proof {
            assert(texts(r.deployments@) =~= Seq::<Seq<char>>::empty());
            assert(texts(r.statefulsets@) =~= Seq::<Seq<char>>::empty());
            assert(texts(r.daemonsets@) =~= Seq::<Seq<char>>::empty());
            assert(texts(r.jobs@) =~= Seq::<Seq<char>>::empty());
            assert(texts(r.cronjobs@) =~= Seq::<Seq<char>>::empty());
            assert(texts(r.pods@) =~= Seq::<Seq<char>>::empty());
        }
        r
    }

    fn take_value(&mut self, opt: Opt, token: &str) -> (r: Result<(), ArgsError>)
        ensures
            match r {
                Ok(_) => old(self)@.with_value(opt, token@) == Ok::<Cli, Problem>(final(self)@),
                Err(e) => old(self)@.with_value(opt, token@) == Err::<Cli, Problem>(e@),
            },
    {
        match opt {
            Opt::Namespace => {
                self.namespace = Some(token.to_owned());
            },
            Opt::Filter => {
                self.filter = Some(token.to_owned());
            },
            Opt::RefreshInterval => match parse_number(token) {
                Some(seconds) => {
                    self.refresh_interval = Some(seconds);
                },
                None => {
                    return Err(ArgsError::InvalidNumber(token.to_owned()));
                },
            },
            _ => {},
        }
        self.pending = Pending::Nothing;
        Ok(())
    }

    fn take_names(&mut self, opt: Opt, token: &str)
        ensures
            final(self)@ == old(self)@.with_names(opt, pieces(token@, ' ')),
    {
        match opt {
            Opt::Deployments => add_names(&mut self.deployments, token),
            Opt::Statefulsets => add_names(&mut self.statefulsets, token),
            Opt::Daemonsets => add_names(&mut self.daemonsets, token),
            Opt::Jobs => add_names(&mut self.jobs, token),
            Opt::Cronjobs => add_names(&mut self.cronjobs, token),
            Opt::Pods => add_names(&mut self.pods, token),
            _ => {},
        }
        self.pending = Pending::List(opt, true);
    }

    fn take_option(&mut self, opt: Opt) -> (r: Result<(), ArgsError>)
        ensures
            match r {
                Ok(_) => old(self)@.with_option(opt) == Ok::<Cli, Problem>(final(self)@),
                Err(e) => old(self)@.with_option(opt) == Err::<Cli, Problem>(e@),
            },
    {
        let given = match opt {
            Opt::Namespace => self.namespace.is_some(),
            Opt::Filter => self.filter.is_some(),
            Opt::RefreshInterval => self.refresh_interval.is_some(),
            Opt::Follow => self.follow,
            _ => false,
        };
        if given {
            return Err(ArgsError::RepeatedArgument(opt));
        }
        match opt {
            Opt::Follow => {
                self.follow = true;
                self.pending = Pending::Nothing;
            },
            Opt::Namespace | Opt::Filter | Opt::RefreshInterval => {
                self.pending = Pending::Value(opt);
            },
            _ => {
                self.pending = Pending::List(opt, false);
            },
        }
        Ok(())
    }

    fn take_attached(&mut self, opt: Opt, value: &str) -> (r: Result<(), ArgsError>)
        ensures
            match r {
                Ok(_) => old(self)@.with_attached(opt, value@) == Ok::<Cli, Problem>(final(self)@),
                Err(e) => old(self)@.with_attached(opt, value@) == Err::<Cli, Problem>(e@),
            },
    {
        match self.take_option(opt) {
            Ok(_) => {},
            Err(e) => {
                return Err(e);
            },
        }
        match opt {
            Opt::Namespace | Opt::Filter | Opt::RefreshInterval | Opt::Follow => self.take_value(
                opt,
                value,
            ),
            _ => {
                self.take_names(opt, value);
                Ok(())
            },
        }
    }

    fn take_named(&mut self, token: &str) -> (r: Result<(), ArgsError>)
        ensures
            match r {
                Ok(_) => old(self)@.read_option(token@) == Ok::<Cli, Problem>(final(self)@),
                Err(e) => old(self)@.read_option(token@) == Err::<Cli, Problem>(e@),
            },
    {
        match option_of(token) {
            Some(opt) => self.take_option(opt),
            None => match split_attached(token) {
                Some((name, value)) => match option_of(name.as_str()) {
                    Some(Opt::Follow) => Err(ArgsError::UnknownArgument(token.to_owned())),
                    Some(opt) => self.take_attached(opt, value.as_str()),
                    None => Err(ArgsError::UnknownArgument(token.to_owned())),
                },
                None => Err(ArgsError::UnknownArgument(token.to_owned())),
            },
        }
    }

    fn read(&mut self, token: &str) -> (r: Result<(), ArgsError>)
        ensures
            match r {
                Ok(_) => old(self)@.read(token@) == Ok::<Cli, Problem>(final(self)@),
                Err(e) => old(self)@.read(token@) == Err::<Cli, Problem>(e@),
            },
    {
        let option_like = is_option_like(token);
        match self.pending {
            Pending::Value(opt) => {
                if option_like {
                    Err(ArgsError::MissingValue(opt))
                } else {
                    self.take_value(opt, token)
                }
            },
            Pending::List(opt, taken) => {
                if option_like {
                    if !taken {
                        Err(ArgsError::MissingValue(opt))
                    } else {
                        self.take_named(token)
                    }
                } else {
                    self.take_names(opt, token);
                    Ok(())
                }
            },
            Pending::Nothing => {
                if option_like {
                    self.take_named(token)
                } else {
                    Err(ArgsError::UnknownArgument(token.to_owned()))
                }
            },
        }
    }

    fn finish(self) -> (r: Result<Args, ArgsError>)
        ensures
            match r {
                Ok(args) => self@.finish() == Ok::<ArgsView, Problem>(args@),
                Err(e) => self@.finish() == Err::<ArgsView, Problem>(e@),
            },
    {
        match self.pending {
            Pending::Value(opt) => {
                return Err(ArgsError::MissingValue(opt));
            },
            Pending::List(opt, taken) => {
                if !taken {
                    return Err(ArgsError::MissingValue(opt));
                }
            },
            Pending::Nothing => {},
        }
        let namespace = match self.namespace {
            Some(namespace) => namespace,
            None => {
                return Err(ArgsError::MissingNamespace);
            },
        };
        let filter = match self.filter {
            Some(filter) => filter,
            None => String::new(),
        };
        let refresh_interval = match self.refresh_interval {
            Some(seconds) => seconds,
            None => DEFAULT_REFRESH_INTERVAL,
        };
        Ok(
            Args {
                namespace,
                deployments: self.deployments,
                statefulsets: self.statefulsets,
                daemonsets: self.daemonsets,
                jobs: self.jobs,
                cronjobs: self.cronjobs,
                pods: self.pods,
                follow: self.follow,
                filter,
                refresh_interval,
            },
        )
    }
}

impl Args {
    /// Reads a command line, the name of the program first.
    pub fn try_parse_from(args: &[&str]) -> (r: Result<Args, ArgsError>)
        ensures
            match r {
                Ok(read) => parsed(arg_texts(args@)) == Ok::<ArgsView, Problem>(read@),
                Err(e) => parsed(arg_texts(args@)) == Err::<ArgsView, Problem>(e@),
            },
    {
        let mut partial = Partial::start();
        let ghost tokens = behind_program_name(arg_texts(args@));
        if args.len() == 0 {
            return partial.finish();
        }
        let mut at: usize = 1;
        proof {
            assert(tokens.take(0) =~= Seq::<Seq<char>>::empty());
        }
        while at < args.len()
            invariant
                1 <= at <= args@.len(),
                tokens == arg_texts(args@).skip(1),
                tokens.len() == args@.len() - 1,
                Cli::start().read_all(tokens.take(at - 1)) == Ok::<Cli, Problem>(partial@),
            decreases args@.len() - at,
        {
            proof {
                assert(tokens.take(at as int).drop_last() =~= tokens.take(at - 1));
                assert(tokens.take(at as int).last() == args@[at as int]@);
            }
            match partial.read(args[at]) {
                Ok(_) => {},
                Err(e) => {
                    proof {
                        lemma_refused_for_good(Cli::start(), tokens, at as int);
                    }
                    return Err(e);
                },
            }
            at += 1;
        }
        proof {
            assert(tokens.take(at - 1) =~= tokens);
        }
        partial.finish()
    }

    /// Whether a workload or a pod is named.
    pub open spec fn names_a_target(&self) -> bool {
        ||| self.deployments@.len() > 0
        ||| self.statefulsets@.len() > 0
        ||| self.daemonsets@.len() > 0
        ||| self.jobs@.len() > 0
        ||| self.cronjobs@.len() > 0
        ||| self.pods@.len() > 0
    }

    /// Refuses options that name neither a workload nor a pod.
    pub fn validate(&self) -> (r: Result<(), ConfigError>)
        ensures
            r is Ok <==> self.names_a_target(),
    {
        if self.deployments.len() == 0 && self.statefulsets.len() == 0 && self.daemonsets.len() == 0
            && self.jobs.len() == 0 && self.cronjobs.len() == 0 && self.pods.len() == 0 {
            Err(ConfigError {  })
        } else {
            Ok(())
        }
    }
}

/// What each of `infos` holds, in order.
pub open spec fn info_views(infos: Seq<ResourceInfo>) -> Seq<ResourceInfoView> {
    infos.map_values(|info: ResourceInfo| info@)
}

/// The workloads of `kind` in `namespace` that `names` name, in order.
pub open spec fn references(
    kind: ResourceKind,
    names: Seq<Seq<char>>,
    namespace: Seq<char>,
) -> Seq<ResourceInfoView> {
    names.map_values(|name: Seq<char>| ResourceInfoView { kind, name, namespace })
}

/// The workloads to watch: the deployments, then the statefulsets, the
/// daemonsets, the jobs and the cronjobs, each group in the order given, all
/// in the one namespace.
pub open spec fn watch_set(args: ArgsView) -> Seq<ResourceInfoView> {
    references(ResourceKind::Deployment, args.deployments, args.namespace) + references(
        ResourceKind::StatefulSet,
        args.statefulsets,
        args.namespace,
    ) + references(ResourceKind::DaemonSet, args.daemonsets, args.namespace) + references(
        ResourceKind::Job,
        args.jobs,
        args.namespace,
    ) + references(ResourceKind::CronJob, args.cronjobs, args.namespace)
}

/// Adds the workloads of `kind` in `namespace` that `names` name to `out`.
fn add_references(
    out: &mut Vec<ResourceInfo>,
    kind: ResourceKind,
    names: &Vec<String>,
    namespace: &String,
)
    ensures
        info_views(final(out)@) == info_views(old(out)@) + references(
            kind,
            texts(names@),
            namespace@,
        ),
{
    let ghost before = info_views(out@);
    let mut at: usize = 0;
    proof {
        assert(references(kind, texts(names@).take(0), namespace@) =~= Seq::empty());
        assert(before + Seq::empty() =~= before);
    }
    while at < names.len()
        invariant
            at <= names@.len(),
            info_views(out@) == before + references(
                kind,
                texts(names@).take(at as int),
                namespace@,
            ),
        decreases names@.len() - at,
    {
        let info = ResourceInfo {
            resource_type: ResourceType::of(kind, names[at].clone()),
            namespace: namespace.clone(),
        };
        proof {
            let sofar = references(kind, texts(names@).take(at as int), namespace@);
            let next = references(kind, texts(names@).take(at + 1), namespace@);
            assert(next =~= sofar.push(info@));
            assert(info_views(out@.push(info)) =~= info_views(out@).push(info@));
            assert((before + sofar).push(info@) =~= before + next);
        }
        out.push(info);
        at += 1;
    }
    proof {
        assert(texts(names@).take(at as int) =~= texts(names@));
    }
}

impl Args {
    /// The workloads to watch, as these options name them.
    pub fn resource_infos(&self) -> (r: Vec<ResourceInfo>)
        ensures
            info_views(r@) == watch_set(self@),
    {
        let mut out: Vec<ResourceInfo> = Vec::new();
        proof {
            assert(info_views(out@) =~= Seq::empty());
        }
        add_references(&mut out, ResourceKind::Deployment, &self.deployments, &self.namespace);
        add_references(&mut out, ResourceKind::StatefulSet, &self.statefulsets, &self.namespace);
        add_references(&mut out, ResourceKind::DaemonSet, &self.daemonsets, &self.namespace);
        add_references(&mut out, ResourceKind::Job, &self.jobs, &self.namespace);
        add_references(&mut out, ResourceKind::CronJob, &self.cronjobs, &self.namespace);
        proof {
            assert(info_views(out@) =~= watch_set(self@));
        }
        out
    }
}

/// A command line of which a beginning is refused is refused, for the same
/// reason.
proof fn lemma_refused_for_good(cli: Cli, tokens: Seq<Seq<char>>, k: int)
    requires
        0 <= k <= tokens.len(),
        cli.read_all(tokens.take(k)) is Err,
    ensures
        cli.read_all(tokens) == cli.read_all(tokens.take(k)),
    decreases tokens.len() - k,
{
    if k == tokens.len() {
        assert(tokens.take(k) =~= tokens);
    } else {
        assert(tokens.take(k + 1).drop_last() =~= tokens.take(k));
        lemma_refused_for_good(cli, tokens, k + 1);
    }
}

} // verus!
