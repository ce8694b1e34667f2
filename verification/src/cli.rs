//! Resolving the caller's command line into an invocation plan.
//!
//! The grammar has two positional arguments — a required source path and an
//! optional destination path — and one option, `-m`/`--mode` (also written
//! `--mode=VALUE`), naming one of the four presets. `-h`/`--help` and
//! `-V`/`--version` are recognized and short-circuit. Anything else that
//! looks like a flag, a third positional, a missing source or an
//! unrecognized preset token is a usage error, reported before any external
//! process is considered.

use vstd::prelude::*;
use vstd::string::StringExecFns;
use crate::mode::Mode;
use crate::paths::spec_default_destination;
use crate::paths::default_destination;
use crate::strings::spec_starts_with;
use crate::strings::starts_with;
use crate::strings::str_eq;

verus! {

/// What the caller asked for, before the destination default is applied.
#[derive(Debug, PartialEq, Eq)]
pub struct Request {
    /// The document to recompress.
    pub source: String,
    /// Where to write the result, if the caller said.
    pub dest: Option<String>,
    /// The preset to use; defaults to `Mode::Ebook` when the caller named
    /// none.
    pub mode: Mode,
}

/// The mathematical shadow of a `Request`.
pub struct RequestView {
    pub source: Seq<char>,
    pub dest: Option<Seq<char>>,
    pub mode: Mode,
}

impl View for Request {
    type V = RequestView;

    open spec fn view(&self) -> RequestView {
        RequestView { source: self.source@, dest: self.dest.deep_view(), mode: self.mode }
    }
}

/// What a successful parse asks the program to do.
#[derive(Debug, PartialEq, Eq)]
pub enum CliAction {
    /// Recompress as the request says.
    Run(Request),
    /// Print the usage text and exit successfully.
    Help,
    /// Print the version and exit successfully.
    Version,
}

/// The mathematical shadow of a `CliAction`.
pub enum CliActionView {
    Run(RequestView),
    Help,
    Version,
}

impl View for CliAction {
    type V = CliActionView;

    open spec fn view(&self) -> CliActionView {
        match self {
            CliAction::Run(req) => CliActionView::Run(req@),
            CliAction::Help => CliActionView::Help,
            CliAction::Version => CliActionView::Version,
        }
    }
}

/// A fault in the caller's command line, found before anything else runs.
#[derive(Debug, PartialEq, Eq)]
pub enum UsageError {
    /// No source path was given.
    MissingSource,
    /// `-m`/`--mode` stood last, with no token after it.
    MissingModeValue,
    /// The mode token is not one of the four presets.
    InvalidMode(String),
    /// An argument looked like a flag but is not one of ours.
    UnknownFlag(String),
    /// A third positional argument after source and destination.
    ExtraPositional(String),
}

/// The mathematical shadow of a `UsageError`.
pub enum UsageErrorView {
    MissingSource,
    MissingModeValue,
    InvalidMode(Seq<char>),
    UnknownFlag(Seq<char>),
    ExtraPositional(Seq<char>),
}

impl View for UsageError {
    type V = UsageErrorView;

    open spec fn view(&self) -> UsageErrorView {
        match self {
            UsageError::MissingSource => UsageErrorView::MissingSource,
            UsageError::MissingModeValue => UsageErrorView::MissingModeValue,
            UsageError::InvalidMode(t) => UsageErrorView::InvalidMode(t@),
            UsageError::UnknownFlag(t) => UsageErrorView::UnknownFlag(t@),
            UsageError::ExtraPositional(t) => UsageErrorView::ExtraPositional(t@),
        }
    }
}

impl UsageError {
    /// The human-readable report for this fault.
    pub open spec fn spec_message(self) -> Seq<char> {
        match self {
            UsageError::MissingSource => "missing required argument: source file path"@,
            UsageError::MissingModeValue => "option -m/--mode requires a value"@,
            UsageError::InvalidMode(t) => "invalid mode (expected screen, ebook, prepress or print): "@
                + t@,
            UsageError::UnknownFlag(t) => "unrecognized option: "@ + t@,
            UsageError::ExtraPositional(t) => "unexpected extra argument: "@ + t@,
        }
    }

    /// Render the fault for the caller.
    pub fn message(&self) -> (r: String)
        ensures
            r@ == self.spec_message(),
    {
        match self {
            UsageError::MissingSource => String::from_str(
                "missing required argument: source file path",
            ),
            UsageError::MissingModeValue => String::from_str("option -m/--mode requires a value"),
            UsageError::InvalidMode(t) => String::from_str(
                "invalid mode (expected screen, ebook, prepress or print): ",
            ).concat(t.as_str()),
            UsageError::UnknownFlag(t) => String::from_str("unrecognized option: ").concat(
                t.as_str(),
            ),
            UsageError::ExtraPositional(t) => String::from_str("unexpected extra argument: ")
                .concat(t.as_str()),
        }
    }
}

/// The view of a parse result.
pub open spec fn spec_parse_result(r: Result<CliAction, UsageError>) -> Result<
    CliActionView,
    UsageErrorView,
> {
    match r {
        Ok(a) => Ok(a@),
        Err(e) => Err(e@),
    }
}

/// One step of the command-line grammar, carried over the arguments not yet
/// read, the positionals collected so far and the last mode named so far.
pub open spec fn spec_parse_step(
    args: Seq<Seq<char>>,
    pos: Seq<Seq<char>>,
    m: Option<Mode>,
) -> Result<CliActionView, UsageErrorView>
    decreases args.len(),
{
    if args.len() == 0 {
        if pos.len() == 0 {
            Err(UsageErrorView::MissingSource)
        } else {
            Ok(
                CliActionView::Run(
                    RequestView {
                        source: pos[0],
                        dest: if pos.len() >= 2 {
                            Some(pos[1])
                        } else {
                            None
                        },
                        mode: match m {
                            Some(mm) => mm,
                            None => Mode::Ebook,
                        },
                    },
                ),
            )
        }
    } else {
        let a = args[0];
        let rest = args.drop_first();
        if a == "-h"@ || a == "--help"@ {
            Ok(CliActionView::Help)
        } else if a == "-V"@ || a == "--version"@ {
            Ok(CliActionView::Version)
        } else if a == "-m"@ || a == "--mode"@ {
            if rest.len() == 0 {
                Err(UsageErrorView::MissingModeValue)
            } else {
                match Mode::spec_from_token(rest[0]) {
                    Some(mm) => spec_parse_step(rest.drop_first(), pos, Some(mm)),
                    None => Err(UsageErrorView::InvalidMode(rest[0])),
                }
            }
        } else if spec_starts_with(a, "--mode="@) {
            match Mode::spec_from_token(a.skip(7)) {
                Some(mm) => spec_parse_step(rest, pos, Some(mm)),
                None => Err(UsageErrorView::InvalidMode(a.skip(7))),
            }
        } else if a.len() >= 2 && a[0] == '-' {
            Err(UsageErrorView::UnknownFlag(a))
        } else if pos.len() >= 2 {
            Err(UsageErrorView::ExtraPositional(a))
        } else {
            spec_parse_step(rest, pos.push(a), m)
        }
    }
}

/// The whole command-line grammar, over the arguments after the program
/// name.
pub open spec fn spec_parse_args(args: Seq<Seq<char>>) -> Result<CliActionView, UsageErrorView> {
    spec_parse_step(args, Seq::empty(), None)
}

/// The positionals collected so far, as the spec parser counts them.
pub open spec fn spec_collected(source: Option<String>, dest: Option<String>) -> Seq<Seq<char>> {
    match source {
        None => Seq::empty(),
        Some(s) => match dest {
            None => seq![s@],
            Some(d) => seq![s@, d@],
        },
    }
}

/// Parse the command-line arguments (program name excluded) into an action,
/// exactly as the spec-level grammar reads them.
pub fn parse_args(args: &Vec<String>) -> (r: Result<CliAction, UsageError>)
    ensures
        spec_parse_result(r) == spec_parse_args(args.deep_view()),
{
    let ghost all: Seq<Seq<char>> = args.deep_view();
    let n: usize = args.len();
    let mut i: usize = 0;
    let mut source: Option<String> = None;
    let mut dest: Option<String> = None;
    let mut mode: Option<Mode> = None;
    proof {
        reveal_strlit("--mode=");
        assert(all.skip(0) =~= all);
    }
    while i < n
        invariant
            all == args.deep_view(),
            n == args@.len(),
            i <= n,
            dest is Some ==> source is Some,
            spec_parse_args(all) == spec_parse_step(
                all.skip(i as int),
                spec_collected(source, dest),
                mode,
            ),
        decreases n - i,
    {
        proof {
            assert(all.skip(i as int)[0] == args@[i as int]@);
            assert(all.skip(i as int).drop_first() =~= all.skip(i as int + 1));
            reveal_strlit("--mode=");
        }
        let a: &String = &args[i];
        if str_eq(a.as_str(), "-h") || str_eq(a.as_str(), "--help") {
            return Ok(CliAction::Help);
        } else if str_eq(a.as_str(), "-V") || str_eq(a.as_str(), "--version") {
            return Ok(CliAction::Version);
        } else if str_eq(a.as_str(), "-m") || str_eq(a.as_str(), "--mode") {
            if i + 1 >= n {
                proof {
                    assert(all.skip(i as int).drop_first().len() == 0);
                }
                return Err(UsageError::MissingModeValue);
            }
            proof {
                assert(all.skip(i as int).drop_first()[0] == args@[i as int + 1]@);
            }
            let tok: &String = &args[i + 1];
            match Mode::from_token(tok.as_str()) {
                Some(m) => {
                    mode = Some(m);
                    i = i + 2;
                    proof {
                        assert(all.skip(i as int - 1).drop_first() =~= all.skip(i as int));
                    }
                },
                None => {
                    return Err(UsageError::InvalidMode(tok.clone()));
                },
            }
        } else if starts_with(a.as_str(), "--mode=") {
            let len: usize = a.as_str().unicode_len();
            let tok: &str = a.as_str().substring_char(7, len);
            proof {
                assert(tok@ =~= a@.skip(7));
            }
            match Mode::from_token(tok) {
                Some(m) => {
                    mode = Some(m);
                    i = i + 1;
                },
                None => {
                    return Err(UsageError::InvalidMode(String::from_str(tok)));
                },
            }
        } else if a.as_str().unicode_len() >= 2 && a.as_str().get_char(0) == '-' {
            return Err(UsageError::UnknownFlag(a.clone()));
        } else if source.is_none() {
            proof {
                assert(spec_collected(source, dest).push(args@[i as int]@) =~= spec_collected(
                    Some(args@[i as int]),
                    dest,
                ));
            }
            source = Some(a.clone());
            i = i + 1;
        } else if dest.is_none() {
            proof {
                assert(spec_collected(source, dest).push(args@[i as int]@) =~= spec_collected(
                    source,
                    Some(args@[i as int]),
                ));
            }
            dest = Some(a.clone());
            i = i + 1;
        } else {
            return Err(UsageError::ExtraPositional(a.clone()));
        }
    }
    proof {
        assert(all.skip(n as int).len() == 0);
    }
    match source {
        None => Err(UsageError::MissingSource),
        Some(s) => {
            let m = match mode {
                Some(m) => m,
                None => Mode::Ebook,
            };
            Ok(CliAction::Run(Request { source: s, dest, mode: m }))
        },
    }
}

/// A fully resolved invocation plan: nothing optional is left, and the
/// engine command can be built from it alone.
#[derive(Debug, PartialEq, Eq)]
pub struct Plan {
    /// The document to recompress.
    pub source: String,
    /// Where the engine writes the result.
    pub destination: String,
    /// The preset handed to the engine.
    pub mode: Mode,
}

/// The mathematical shadow of a `Plan`.
pub struct PlanView {
    pub source: Seq<char>,
    pub destination: Seq<char>,
    pub mode: Mode,
}

impl View for Plan {
    type V = PlanView;

    open spec fn view(&self) -> PlanView {
        PlanView { source: self.source@, destination: self.destination@, mode: self.mode }
    }
}

/// Resolve a request into a plan. An explicit destination always stands as
/// given; only when the caller named none is the default derived from the
/// source path.
pub fn resolve_plan(req: Request) -> (p: Plan)
    ensures
        p@.source == req@.source,
        p@.mode == req@.mode,
        req@.dest matches Some(d) ==> p@.destination == d,
        req@.dest is None ==> p@.destination == spec_default_destination(req@.source),
{
    let destination = match req.dest {
        Some(d) => d,
        None => default_destination(req.source.as_str()),
    };
    Plan { source: req.source, destination, mode: req.mode }
}

/// An unrecognized mode token is rejected as a usage error, whatever source
/// path stands before the option; nothing but the error comes out of the
/// parse, so no plan (and hence no engine invocation) can follow from it.
pub proof fn lemma_unrecognized_mode_is_usage_error(src: Seq<char>, tok: Seq<char>)
    requires
        Mode::spec_from_token(tok) is None,
        src.len() < 2 || src[0] != '-',
    ensures
        spec_parse_args(seq!["-m"@, tok]) == Err::<CliActionView, UsageErrorView>(
            UsageErrorView::InvalidMode(tok),
        ),
        spec_parse_args(seq![src, "-m"@, tok]) == Err::<CliActionView, UsageErrorView>(
            UsageErrorView::InvalidMode(tok),
        ),
{
    reveal_strlit("-h");
    reveal_strlit("--help");
    reveal_strlit("-V");
    reveal_strlit("--version");
    reveal_strlit("-m");
    reveal_strlit("--mode");
    reveal_strlit("--mode=");
    lemma_minus_m_distinct();
    let two = seq!["-m"@, tok];
    assert(two.drop_first() =~= seq![tok]);
    assert(spec_parse_step(two, Seq::empty(), None) == Err::<CliActionView, UsageErrorView>(
        UsageErrorView::InvalidMode(tok),
    ));
    let three = seq![src, "-m"@, tok];
    assert(!(src == "-h"@ || src == "--help"@ || src == "-V"@ || src == "--version"@ || src
        == "-m"@ || src == "--mode"@)) by {
        assert("-h"@[0] == '-' && "--help"@[0] == '-' && "-V"@[0] == '-' && "--version"@[0] == '-'
            && "-m"@[0] == '-' && "--mode"@[0] == '-');
    }
    assert(!spec_starts_with(src, "--mode="@)) by {
        if spec_starts_with(src, "--mode="@) {
            assert(src.take(7)[0] == "--mode="@[0]);
        }
    }
    assert(three.drop_first() =~= two);
    assert(spec_parse_step(three, Seq::empty(), None) == spec_parse_step(
        two,
        Seq::empty().push(src),
        None,
    ));
    assert(two.drop_first() =~= seq![tok]);
    assert(spec_parse_step(two, Seq::empty().push(src), None) == Err::<
        CliActionView,
        UsageErrorView,
    >(UsageErrorView::InvalidMode(tok)));
}

/// With no positional argument at all — an empty command line, or one that
/// only selects a preset — the parse stops at a missing-source usage error,
/// and again no plan can follow from it.
pub proof fn lemma_missing_source_is_usage_error(tok: Seq<char>, m: Mode)
    requires
        Mode::spec_from_token(tok) == Some(m),
    ensures
        spec_parse_args(Seq::empty()) == Err::<CliActionView, UsageErrorView>(
            UsageErrorView::MissingSource,
        ),
        spec_parse_args(seq!["-m"@, tok]) == Err::<CliActionView, UsageErrorView>(
            UsageErrorView::MissingSource,
        ),
{
    reveal_strlit("-h");
    reveal_strlit("--help");
    reveal_strlit("-V");
    reveal_strlit("--version");
    reveal_strlit("-m");
    reveal_strlit("--mode");
    lemma_minus_m_distinct();
    let two = seq!["-m"@, tok];
    assert(two.drop_first() =~= seq![tok]);
    assert(seq![tok].drop_first() =~= Seq::<Seq<char>>::empty());
    assert(spec_parse_step(two, Seq::empty(), None) == spec_parse_step(
        Seq::empty(),
        Seq::empty(),
        Some(m),
    ));
}

/// An argument that looks like a flag: at least two characters long and
/// starting with `-`. Positionals are exactly the arguments that do not.
pub open spec fn spec_is_flag_like(a: Seq<char>) -> bool {
    a.len() >= 2 && a[0] == '-'
}

/// A command line made of flag-like arguments alone — in particular one
/// that omits the required source path — can never parse into a run
/// request: it ends in help, version, or a usage error, so no external
/// process can follow from it.
pub proof fn lemma_without_source_no_run(args: Seq<Seq<char>>, m: Option<Mode>)
    requires
        forall|i: int| 0 <= i < args.len() ==> spec_is_flag_like(#[trigger] args[i]),
    ensures
        !(spec_parse_step(args, Seq::empty(), m) matches Ok(CliActionView::Run(_))),
    decreases args.len(),
{
    if args.len() == 0 {
    } else {
        let a = args[0];
        let rest = args.drop_first();
        assert(forall|i: int| 0 <= i < rest.len() ==> spec_is_flag_like(#[trigger] rest[i])) by {
            assert(forall|i: int| 0 <= i < rest.len() ==> rest[i] == args[i + 1]);
        }
        if a == "-h"@ || a == "--help"@ || a == "-V"@ || a == "--version"@ {
        } else if a == "-m"@ || a == "--mode"@ {
            if rest.len() > 0 {
                match Mode::spec_from_token(rest[0]) {
                    Some(mm) => {
                        let rest2 = rest.drop_first();
                        assert(forall|i: int|
                            0 <= i < rest2.len() ==> spec_is_flag_like(#[trigger] rest2[i])) by {
                            assert(forall|i: int| 0 <= i < rest2.len() ==> rest2[i] == rest[i + 1]);
                        }
                        lemma_without_source_no_run(rest2, Some(mm));
                    },
                    None => {},
                }
            }
        } else if spec_starts_with(a, "--mode="@) {
            match Mode::spec_from_token(a.skip(7)) {
                Some(mm) => {
                    lemma_without_source_no_run(rest, Some(mm));
                },
                None => {},
            }
        } else {
            assert(spec_is_flag_like(args[0]));
        }
    }
}

/// `-m` is none of the other flag spellings.
proof fn lemma_minus_m_distinct()
    ensures
        "-m"@ != "-h"@,
        "-m"@ != "--help"@,
        "-m"@ != "-V"@,
        "-m"@ != "--version"@,
{
    reveal_strlit("-h");
    reveal_strlit("--help");
    reveal_strlit("-V");
    reveal_strlit("--version");
    reveal_strlit("-m");
    assert("-m"@.len() == 2 && "-h"@.len() == 2 && "-V"@.len() == 2);
    assert("--help"@.len() == 6 && "--version"@.len() == 9);
    assert("-m"@[1] == 'm' && "-h"@[1] == 'h' && "-V"@[1] == 'V');
}

} // verus!
