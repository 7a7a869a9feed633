//! Configuration parsing: raw key=value attribute tokens are turned into a
//! typed, fully defaulted configuration record, or the first error is
//! reported as a diagnostic message.

use vstd::prelude::*;
use vstd::string::StringExecFns;
use crate::text::str_eq;

verus! {

/// The value carried by one raw attribute token: either a bare flag or a
/// string literal.
#[derive(Clone, Debug)]
pub enum ArgValue {
    Flag,
    Str(String),
}

/// One raw attribute token, exactly as written at the attribute site.
#[derive(Clone, Debug)]
pub struct RawArg {
    pub key: String,
    pub value: ArgValue,
}

/// When to collect execution time information.
#[derive(Clone, Copy, Debug, PartialEq, Eq, Structural)]
pub enum When {
    /// Always collect timing information.
    Always,
    /// Only collect timing information under a debug build profile.
    Debug,
}

/// How to report the captured execution time information.
///
/// The reporting path prints a start and a done notification. The start
/// notification is the materialized message; the done notification is
/// the message followed by `: Done in ` and the elapsed duration.
#[derive(Clone, Copy, Debug, PartialEq, Eq, Structural)]
pub enum Reporting {
    /// Write the notifications directly to the console.
    Print,
    /// Hand the notifications to the logging capability at the configured
    /// severity level.
    Log,
}

/// A severity of the logging capability.
#[derive(Clone, Copy, Debug, PartialEq, Eq, Structural)]
pub enum Severity {
    Trace,
    Debug,
    Info,
    Warn,
    Error,
}

/// The severity level used when reporting through the logging capability.
#[derive(Clone, Copy, Debug, PartialEq, Eq, Structural)]
pub struct Level(pub Severity);

/// The compile-time surroundings of one transformation: whether the active
/// build profile is a debug profile, and whether the logging capability is
/// available.
#[derive(Clone, Copy, Debug, PartialEq, Eq, Structural)]
pub struct BuildContext {
    pub debug_profile: bool,
    pub log_capability: bool,
}

/// A typed, fully defaulted configuration record, built once per annotated
/// function and read-only afterwards.
#[derive(Clone, Debug)]
pub struct Configuration {
    pub message: Option<String>,
    pub when: When,
    pub give_back: bool,
    pub reporting: Reporting,
    pub level: Level,
}

/// The mathematical content of a `Configuration`: the same record with the
/// message as a sequence of characters.
pub ghost struct ConfigView {
    pub message: Option<Seq<char>>,
    pub when: When,
    pub give_back: bool,
    pub reporting: Reporting,
    pub level: Level,
}

impl View for Configuration {
    type V = ConfigView;

    open spec fn view(&self) -> ConfigView {
        ConfigView {
            message: match self.message {
                Option::Some(s) => Option::Some(s@),
                Option::None => Option::None,
            },
            when: self.when,
            give_back: self.give_back,
            reporting: self.reporting,
            level: self.level,
        }
    }
}

/// By default timing information is always collected.
impl Default for When {
    fn default() -> (r: Self)
        ensures
            r == When::Always,
    {
        When::Always
    }
}

/// Without a logging capability the notifications go to the console; with
/// one configured the parser defaults to `Log` instead (see `spec_parse`).
impl Default for Reporting {
    fn default() -> (r: Self)
        ensures
            r == Reporting::Print,
    {
        Reporting::Print
    }
}

/// The default severity for log reporting.
impl Default for Level {
    fn default() -> (r: Self)
        ensures
            r == Level(Severity::Info),
    {
        Level(Severity::Info)
    }
}

/// The closed set of literals recognized for `when`.
pub open spec fn when_of_lit(s: Seq<char>) -> Option<When> {
    if s == "always"@ {
        Option::Some(When::Always)
    } else if s == "debug"@ {
        Option::Some(When::Debug)
    } else {
        Option::None
    }
}

/// The closed set of literals recognized for `reporting`.
pub open spec fn reporting_of_lit(s: Seq<char>) -> Option<Reporting> {
    if s == "print"@ {
        Option::Some(Reporting::Print)
    } else if s == "log"@ {
        Option::Some(Reporting::Log)
    } else {
        Option::None
    }
}

/// The closed set of literals recognized for `level`.
pub open spec fn level_of_lit(s: Seq<char>) -> Option<Level> {
    if s == "trace"@ {
        Option::Some(Level(Severity::Trace))
    } else if s == "debug"@ {
        Option::Some(Level(Severity::Debug))
    } else if s == "info"@ {
        Option::Some(Level(Severity::Info))
    } else if s == "warn"@ {
        Option::Some(Level(Severity::Warn))
    } else if s == "error"@ {
        Option::Some(Level(Severity::Error))
    } else {
        Option::None
    }
}

/// The keys of the recognized-option table.
pub open spec fn known_key(k: Seq<char>) -> bool {
    k == "message"@ || k == "when"@ || k == "give_back"@ || k == "reporting"@ || k == "level"@
}

pub open spec fn unknown_option_message(k: Seq<char>) -> Seq<char> {
    "unrecognized option: "@ + k
}

pub open spec fn type_mismatch_message(k: Seq<char>) -> Seq<char> {
    "type mismatch for option: "@ + k
}

pub open spec fn when_literal_message(s: Seq<char>) -> Seq<char> {
    "Unsupported value for `when` attribute: "@ + s + ". Use one of: always, debug"@
}

pub open spec fn reporting_literal_message(s: Seq<char>) -> Seq<char> {
    "Unsupported value for `reporting` attribute: "@ + s + ". Use one of: print, log"@
}

pub open spec fn level_literal_message(s: Seq<char>) -> Seq<char> {
    "Unsupported value for `level` attribute: "@ + s
        + ". Use one of: trace, debug, info, warn, error"@
}

/// The error raised by one token on its own: an unrecognized key, a value of
/// the wrong kind, or an enum literal outside its closed set.
pub open spec fn token_error(a: RawArg) -> Option<Seq<char>> {
    if !known_key(a.key@) {
        Option::Some(unknown_option_message(a.key@))
    } else if a.key@ == "give_back"@ {
        match a.value {
            ArgValue::Flag => Option::None,
            ArgValue::Str(_) => Option::Some(type_mismatch_message(a.key@)),
        }
    } else {
        match a.value {
            ArgValue::Flag => Option::Some(type_mismatch_message(a.key@)),
            ArgValue::Str(s) => if a.key@ == "when"@ {
                if when_of_lit(s@) is Some {
                    Option::None
                } else {
                    Option::Some(when_literal_message(s@))
                }
            } else if a.key@ == "reporting"@ {
                if reporting_of_lit(s@) is Some {
                    Option::None
                } else {
                    Option::Some(reporting_literal_message(s@))
                }
            } else if a.key@ == "level"@ {
                if level_of_lit(s@) is Some {
                    Option::None
                } else {
                    Option::Some(level_literal_message(s@))
                }
            } else {
                Option::None
            },
        }
    }
}

/// The first error among the tokens, in attribute order; parsing aborts on it.
pub open spec fn first_error(args: Seq<RawArg>) -> Option<Seq<char>>
    decreases args.len(),
{
    if args.len() == 0 {
        Option::None
    } else {
        match first_error(args.drop_last()) {
            Option::Some(m) => Option::Some(m),
            Option::None => token_error(args.last()),
        }
    }
}

/// The string value of the last token with the given key, if any. A later
/// token for the same key overwrites an earlier one.
pub open spec fn last_str(args: Seq<RawArg>, key: Seq<char>) -> Option<Seq<char>>
    decreases args.len(),
{
    if args.len() == 0 {
        Option::None
    } else if args.last().key@ == key {
        match args.last().value {
            ArgValue::Str(s) => Option::Some(s@),
            ArgValue::Flag => Option::None,
        }
    } else {
        last_str(args.drop_last(), key)
    }
}

/// Whether a token with the given key occurs at all.
pub open spec fn has_key(args: Seq<RawArg>, key: Seq<char>) -> bool
    decreases args.len(),
{
    if args.len() == 0 {
        false
    } else {
        args.last().key@ == key || has_key(args.drop_last(), key)
    }
}

/// The default reporting path: the console, unless a logging capability is
/// configured, which then becomes the default destination.
pub open spec fn default_reporting(ctx: BuildContext) -> Reporting {
    if ctx.log_capability {
        Reporting::Log
    } else {
        Reporting::Print
    }
}

/// The configuration that error-free tokens denote: each option is the value
/// of its last token, and a missing option takes its documented default.
pub open spec fn spec_parse(args: Seq<RawArg>, ctx: BuildContext) -> ConfigView {
    ConfigView {
        message: last_str(args, "message"@),
        when: match last_str(args, "when"@) {
            Option::Some(s) => match when_of_lit(s) {
                Option::Some(w) => w,
                Option::None => When::Always,
            },
            Option::None => When::Always,
        },
        give_back: has_key(args, "give_back"@),
        reporting: match last_str(args, "reporting"@) {
            Option::Some(s) => match reporting_of_lit(s) {
                Option::Some(r) => r,
                Option::None => default_reporting(ctx),
            },
            Option::None => default_reporting(ctx),
        },
        level: match last_str(args, "level"@) {
            Option::Some(s) => match level_of_lit(s) {
                Option::Some(l) => l,
                Option::None => Level(Severity::Info),
            },
            Option::None => Level(Severity::Info),
        },
    }
}

impl When {
    /// Parses the `when` option from its string literal.
    pub fn from_lit(literal: &str) -> (r: Result<When, String>)
        ensures
            r is Ok <==> when_of_lit(literal@) is Some,
            r is Ok ==> when_of_lit(literal@) == Option::Some(r->Ok_0),
            r is Err ==> (r->Err_0)@ == when_literal_message(literal@),
    {
        if str_eq(literal, "always") {
            Result::Ok(When::Always)
        } else if str_eq(literal, "debug") {
            Result::Ok(When::Debug)
        } else {
            let mut m = "Unsupported value for `when` attribute: ".to_owned();
            m.append(literal);
            m.append(". Use one of: always, debug");
            Result::Err(m)
        }
    }
}

impl Reporting {
    /// Parses the `reporting` option from its string literal.
    pub fn from_lit(literal: &str) -> (r: Result<Reporting, String>)
        ensures
            r is Ok <==> reporting_of_lit(literal@) is Some,
            r is Ok ==> reporting_of_lit(literal@) == Option::Some(r->Ok_0),
            r is Err ==> (r->Err_0)@ == reporting_literal_message(literal@),
    {
        if str_eq(literal, "print") {
            Result::Ok(Reporting::Print)
        } else if str_eq(literal, "log") {
            Result::Ok(Reporting::Log)
        } else {
            let mut m = "Unsupported value for `reporting` attribute: ".to_owned();
            m.append(literal);
            m.append(". Use one of: print, log");
            Result::Err(m)
        }
    }
}

impl Level {
    /// Parses the `level` option from its string literal.
    pub fn from_lit(literal: &str) -> (r: Result<Level, String>)
        ensures
            r is Ok <==> level_of_lit(literal@) is Some,
            r is Ok ==> level_of_lit(literal@) == Option::Some(r->Ok_0),
            r is Err ==> (r->Err_0)@ == level_literal_message(literal@),
    {
        if str_eq(literal, "trace") {
            Result::Ok(Level(Severity::Trace))
        } else if str_eq(literal, "debug") {
            Result::Ok(Level(Severity::Debug))
        } else if str_eq(literal, "info") {
            Result::Ok(Level(Severity::Info))
        } else if str_eq(literal, "warn") {
            Result::Ok(Level(Severity::Warn))
        } else if str_eq(literal, "error") {
            Result::Ok(Level(Severity::Error))
        } else {
            let mut m = "Unsupported value for `level` attribute: ".to_owned();
            m.append(literal);
            m.append(". Use one of: trace, debug, info, warn, error");
            Result::Err(m)
        }
    }
}

/// The optional message as a sequence of characters.
pub open spec fn message_view(m: Option<String>) -> Option<Seq<char>> {
    match m {
        Option::Some(s) => Option::Some(s@),
        Option::None => Option::None,
    }
}

/// A token error found behind an error-free prefix is the first error of the
/// whole token list.
proof fn lemma_first_error_at(args: Seq<RawArg>, i: int)
    requires
        0 <= i < args.len(),
        first_error(args.subrange(0, i)) is None,
        token_error(args[i]) is Some,
    ensures
        first_error(args) == token_error(args[i]),
    decreases args.len(),
{
    if args.len() == i + 1 {
        assert(args.drop_last() =~= args.subrange(0, i));
    } else {
        assert(args.drop_last().subrange(0, i) =~= args.subrange(0, i));
        lemma_first_error_at(args.drop_last(), i);
    }
}

/// Turns the raw tokens into a fully defaulted configuration, or reports the
/// first token error. A pure mapping with no side effects.
pub fn parse_args(args: &Vec<RawArg>, ctx: &BuildContext) -> (r: Result<Configuration, String>)
    ensures
        r is Ok <==> first_error(args@) is None,
        r is Ok ==> (r->Ok_0)@ == spec_parse(args@, *ctx),
        r is Err ==> first_error(args@) == Option::Some((r->Err_0)@),
{
    let ghost all = args@;
    let mut message: Option<String> = Option::None;
    let mut when_opt: Option<When> = Option::None;
    let mut give_back: bool = false;
    let mut reporting_opt: Option<Reporting> = Option::None;
    let mut level_opt: Option<Level> = Option::None;
    let mut i: usize = 0;
    while i < args.len()
        invariant
            i <= all.len(),
            all == args@,
            first_error(all.subrange(0, i as int)) is None,
            message_view(message) == last_str(all.subrange(0, i as int), "message"@),
            (match last_str(all.subrange(0, i as int), "when"@) {
                Option::Some(s) => when_of_lit(s) == when_opt && when_opt is Some,
                Option::None => when_opt is None,
            }),
            give_back == has_key(all.subrange(0, i as int), "give_back"@),
            (match last_str(all.subrange(0, i as int), "reporting"@) {
                Option::Some(s) => reporting_of_lit(s) == reporting_opt && reporting_opt is Some,
                Option::None => reporting_opt is None,
            }),
            (match last_str(all.subrange(0, i as int), "level"@) {
                Option::Some(s) => level_of_lit(s) == level_opt && level_opt is Some,
                Option::None => level_opt is None,
            }),
        decreases args.len() - i,
    {
        let ghost prefix = all.subrange(0, i as int);
        let a = &args[i];
        proof {
            broadcast use vstd::string::group_string_axioms;

            // Pin down the option keys' contents, so that distinct keys
            // compare unequal in the recursive token specifications.
            reveal_strlit("message");
            reveal_strlit("when");
            reveal_strlit("give_back");
            reveal_strlit("reporting");
            reveal_strlit("level");
            assert(all.subrange(0, i + 1) =~= prefix.push(all[i as int]));
            assert(prefix.push(all[i as int]).drop_last() =~= prefix);
            assert("message"@.len() == 7);
            assert("when"@.len() == 4);
            assert("give_back"@.len() == 9);
            assert("reporting"@.len() == 9);
            assert("level"@.len() == 5);
            assert("give_back"@[0] == 'g');
            assert("reporting"@[0] == 'r');
        }
        let mut err_opt: Option<String> = Option::None;
        if str_eq(a.key.as_str(), "message") {
            match &a.value {
                ArgValue::Str(s) => {
                    message = Option::Some(s.clone());
                },
                ArgValue::Flag => {
                    let mut m = "type mismatch for option: ".to_owned();
                    m.append(a.key.as_str());
                    err_opt = Option::Some(m);
                },
            }
        } else if str_eq(a.key.as_str(), "when") {
            match &a.value {
                ArgValue::Str(s) => {
                    match When::from_lit(s.as_str()) {
                        Result::Ok(w) => {
                            when_opt = Option::Some(w);
                        },
                        Result::Err(m) => {
                            err_opt = Option::Some(m);
                        },
                    }
                },
                ArgValue::Flag => {
                    let mut m = "type mismatch for option: ".to_owned();
                    m.append(a.key.as_str());
                    err_opt = Option::Some(m);
                },
            }
        } else if str_eq(a.key.as_str(), "give_back") {
            match &a.value {
                ArgValue::Flag => {
                    give_back = true;
                },
                ArgValue::Str(_) => {
                    let mut m = "type mismatch for option: ".to_owned();
                    m.append(a.key.as_str());
                    err_opt = Option::Some(m);
                },
            }
        } else if str_eq(a.key.as_str(), "reporting") {
            match &a.value {
                ArgValue::Str(s) => {
                    match Reporting::from_lit(s.as_str()) {
                        Result::Ok(rep) => {
                            reporting_opt = Option::Some(rep);
                        },
                        Result::Err(m) => {
                            err_opt = Option::Some(m);
                        },
                    }
                },
                ArgValue::Flag => {
                    let mut m = "type mismatch for option: ".to_owned();
                    m.append(a.key.as_str());
                    err_opt = Option::Some(m);
                },
            }
        } else if str_eq(a.key.as_str(), "level") {
            match &a.value {
                ArgValue::Str(s) => {
                    match Level::from_lit(s.as_str()) {
                        Result::Ok(l) => {
                            level_opt = Option::Some(l);
                        },
                        Result::Err(m) => {
                            err_opt = Option::Some(m);
                        },
                    }
                },
                ArgValue::Flag => {
                    let mut m = "type mismatch for option: ".to_owned();
                    m.append(a.key.as_str());
                    err_opt = Option::Some(m);
                },
            }
        } else {
            let mut m = "unrecognized option: ".to_owned();
            m.append(a.key.as_str());
            err_opt = Option::Some(m);
        }
        match err_opt {
            Option::Some(m) => {
                proof {
                    assert(token_error(all[i as int]) == Option::Some(m@));
                    lemma_first_error_at(all, i as int);
                }
                return Result::Err(m);
            },
            Option::None => {},
        }
        i = i + 1;
    }
    proof {
        assert(all.subrange(0, all.len() as int) =~= all);
    }
    let c = Configuration {
        message,
        when: match when_opt {
            Option::Some(w) => w,
            Option::None => When::Always,
        },
        give_back,
        reporting: match reporting_opt {
            Option::Some(rep) => rep,
            Option::None => if ctx.log_capability {
                Reporting::Log
            } else {
                Reporting::Print
            },
        },
        level: match level_opt {
            Option::Some(l) => l,
            Option::None => Level(Severity::Info),
        },
    };
    Result::Ok(c)
}

} // verus!
