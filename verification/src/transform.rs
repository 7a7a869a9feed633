//! The signature and body transformer: decides the output shape
//! (pass-through, notification-reporting, or duration-returning) and builds
//! the wrapped body. The original body is placed in a zero-argument closure
//! that is invoked exactly once, so an early `return` inside it terminates
//! only the closure; the wrapper always proceeds to measure the elapsed
//! time and to report or return it.

use vstd::prelude::*;
use vstd::string::StringExecFns;
use crate::config::{BuildContext, ConfigView, Configuration, Level, Reporting, Severity, When};
use crate::function::{FdView, FunctionDefinition, Param, ParamView, has_param, param_named, params_view};
use crate::template::{SegView, Segment, parse_template, segs_view, spec_parse_template};
use crate::validate::violation;

verus! {

/// The output shape decided once at transformation time.
#[derive(Clone, Copy, Debug, PartialEq, Eq, Structural)]
pub enum Shape {
    /// The original definition re-emitted verbatim: `when = debug` under a
    /// build profile that is not a debug profile.
    Bypass,
    /// The return type becomes a pair of the original value and the elapsed
    /// duration; no notification is emitted.
    GiveBack,
    /// The signature is unchanged; a start and a done notification are
    /// emitted around the measured body.
    Report,
}

/// The transformer's output: the decided shape and the rewritten
/// definition, which keeps the input's identity.
#[derive(Clone, Debug)]
pub struct WrappedFunctionDefinition {
    pub shape: Shape,
    pub definition: FunctionDefinition,
}

/// Whether the transformation is skipped entirely: timing was asked for
/// only under a debug profile, and the active profile is not one.
pub open spec fn bypassed(v: ConfigView, ctx: BuildContext) -> bool {
    v.when == When::Debug && !ctx.debug_profile
}

/// The shape the transformer decides for a validated configuration.
pub open spec fn shape_of(v: ConfigView, ctx: BuildContext) -> Shape {
    if bypassed(v, ctx) {
        Shape::Bypass
    } else if v.give_back {
        Shape::GiveBack
    } else {
        Shape::Report
    }
}

/// The message template to materialize: an absent message defaults to the
/// empty string, which is not an error.
pub open spec fn effective_message(v: ConfigView) -> Seq<char> {
    match v.message {
        Option::Some(m) => m,
        Option::None => Seq::empty(),
    }
}

/// The textual return type, with the unit type written out for a missing
/// one.
pub open spec fn ret_type_text(rt: Option<Seq<char>>) -> Seq<char> {
    match rt {
        Option::Some(t) => t,
        Option::None => "()"@,
    }
}

/// The rewritten return type in `give_back` mode: the original return type
/// paired with the elapsed duration, with the unit type written out for a
/// function that returned nothing — the result is a two-element pair either
/// way, matching the pair the wrapped body returns.
pub open spec fn give_back_return_type(rt: Option<Seq<char>>) -> Seq<char> {
    match rt {
        Option::Some(t) => "("@ + t + ", std::time::Duration)"@,
        Option::None => "((), std::time::Duration)"@,
    }
}

/// The measurement core: a monotonic timestamp, the original body invoked
/// once through a zero-argument closure with its result bound to
/// `return_value`, and a second timestamp taken immediately after.
pub open spec fn measurement_text(rt_text: Seq<char>, body: Seq<char>) -> Seq<char> {
    "    let super_secret_variable_that_does_not_clash_start = std::time::Instant::now();\n    let return_value: "@
        + rt_text + " = (|| {"@ + body
        + "})();\n    let elapsed = super_secret_variable_that_does_not_clash_start.elapsed();\n"@
}

/// The wrapped body in `give_back` mode: measure, then return the pair.
pub open spec fn give_back_body(rt: Option<Seq<char>>, body: Seq<char>) -> Seq<char> {
    measurement_text(ret_type_text(rt), body) + "    (return_value, elapsed)\n"@
}

/// The notification macro of the logging capability for a severity level.
pub open spec fn log_macro_text(l: Level) -> Seq<char> {
    match l {
        Level(Severity::Trace) => "log::trace!"@,
        Level(Severity::Debug) => "log::debug!"@,
        Level(Severity::Info) => "log::info!"@,
        Level(Severity::Warn) => "log::warn!"@,
        Level(Severity::Error) => "log::error!"@,
    }
}

/// One template character as it stands inside the emitted string literal:
/// a quote or a backslash is escaped; everything else, placeholders
/// included, is embedded verbatim.
pub open spec fn escaped_char(c: char) -> Seq<char> {
    if c == '"' {
        seq!['\\', '"']
    } else if c == '\\' {
        seq!['\\', '\\']
    } else {
        seq![c]
    }
}

/// The template as the emitted string literal holds it.
pub open spec fn escaped(s: Seq<char>) -> Seq<char>
    decreases s.len(),
{
    if s.len() == 0 {
        Seq::empty()
    } else {
        escaped(s.drop_last()) + escaped_char(s.last())
    }
}

/// The statement that materializes the message before the original body
/// runs, so that it reflects the arguments before the body may consume
/// them. The template stands in the emitted code as a string literal, with
/// quotes and backslashes escaped.
pub open spec fn message_statement(tpl: Seq<char>) -> Seq<char> {
    "    let super_secret_variable_that_does_not_clash_message = format!(\""@ + escaped(tpl)
        + "\");\n"@
}

/// The start notification: the materialized message itself.
pub open spec fn start_statement(rep: Reporting, l: Level) -> Seq<char> {
    match rep {
        Reporting::Print => "    println!(\"{}\", super_secret_variable_that_does_not_clash_message);\n"@,
        Reporting::Log => "    "@ + log_macro_text(l)
            + "(\"{}\", super_secret_variable_that_does_not_clash_message);\n"@,
    }
}

/// The done notification: the message and the elapsed duration, formatted
/// with two fractional digits.
pub open spec fn done_statement(rep: Reporting, l: Level) -> Seq<char> {
    match rep {
        Reporting::Print => "    println!(\"{}: Done in {:.2?}\", super_secret_variable_that_does_not_clash_message, elapsed);\n"@,
        Reporting::Log => "    "@ + log_macro_text(l)
            + "(\"{}: Done in {:.2?}\", super_secret_variable_that_does_not_clash_message, elapsed);\n"@,
    }
}

/// The wrapped body in reporting mode: materialize the message, emit the
/// start notification, measure, emit the done notification, and return the
/// original result unchanged.
pub open spec fn report_body(
    tpl: Seq<char>,
    rep: Reporting,
    l: Level,
    rt: Option<Seq<char>>,
    body: Seq<char>,
) -> Seq<char> {
    message_statement(tpl) + start_statement(rep, l) + measurement_text(ret_type_text(rt), body)
        + done_statement(rep, l) + "    return_value\n"@
}

/// The rewritten definition for a validated configuration whose message
/// check passed: the bypass re-emits the input; otherwise the body is
/// replaced, and in `give_back` mode the return type becomes the pair.
pub open spec fn transform_spec(v: ConfigView, ctx: BuildContext, f: FdView) -> FdView {
    if bypassed(v, ctx) {
        f
    } else if v.give_back {
        FdView {
            return_type: Option::Some(give_back_return_type(f.return_type)),
            body: give_back_body(f.return_type, f.body),
            ..f
        }
    } else {
        FdView {
            body: report_body(effective_message(v), v.reporting, v.level, f.return_type, f.body),
            ..f
        }
    }
}

/// The name of a placeholder segment.
pub open spec fn placeholder_name(s: SegView) -> Option<Seq<char>> {
    match s {
        SegView::Text(_) => Option::None,
        SegView::Plain(n) => Option::Some(n),
        SegView::Alternate(n) => Option::Some(n),
    }
}

pub open spec fn unknown_param_message(n: Seq<char>) -> Seq<char> {
    "unknown parameter in message template: "@ + n
}

/// The first placeholder, in template order, that names no parameter of the
/// function.
pub open spec fn first_unknown(ss: Seq<SegView>, ps: Seq<ParamView>) -> Option<Seq<char>>
    decreases ss.len(),
{
    if ss.len() == 0 {
        Option::None
    } else {
        match first_unknown(ss.drop_last(), ps) {
            Option::Some(n) => Option::Some(n),
            Option::None => match placeholder_name(ss.last()) {
                Option::Some(n) => if has_param(ps, n) {
                    Option::None
                } else {
                    Option::Some(n)
                },
                Option::None => Option::None,
            },
        }
    }
}

/// The diagnostic the message check raises: the template fails to parse, or
/// a placeholder names no parameter. Interpolation sources are resolved
/// against the real parameter list at transformation time.
pub open spec fn message_error(v: ConfigView, f: FdView) -> Option<Seq<char>> {
    match spec_parse_template(effective_message(v), 0) {
        Result::Err(e) => Option::Some(e),
        Result::Ok(ss) => match first_unknown(ss, f.params) {
            Option::Some(n) => Option::Some(unknown_param_message(n)),
            Option::None => Option::None,
        },
    }
}

/// The diagnostic the transformer raises, if any: only reporting mode
/// embeds the message, so only it runs the message check.
pub open spec fn transform_error(v: ConfigView, ctx: BuildContext, f: FdView) -> Option<Seq<char>> {
    if bypassed(v, ctx) || v.give_back {
        Option::None
    } else {
        message_error(v, f)
    }
}

/// An unknown placeholder behind known ones is the first unknown one of the
/// whole segment list.
proof fn lemma_first_unknown_at(ss: Seq<SegView>, ps: Seq<ParamView>, i: int)
    requires
        0 <= i < ss.len(),
        first_unknown(ss.subrange(0, i), ps) is None,
        placeholder_name(ss[i]) is Some,
        !has_param(ps, placeholder_name(ss[i])->0),
    ensures
        first_unknown(ss, ps) == Option::Some(placeholder_name(ss[i])->0),
    decreases ss.len(),
{
    if ss.len() == i + 1 {
        assert(ss.drop_last() =~= ss.subrange(0, i));
    } else {
        assert(ss.drop_last().subrange(0, i) =~= ss.subrange(0, i));
        lemma_first_unknown_at(ss.drop_last(), ps, i);
    }
}

/// Checks every placeholder of the parsed template against the parameter
/// list, reporting the first unknown name.
fn check_placeholders(segs: &Vec<Segment>, params: &Vec<Param>) -> (r: Result<(), String>)
    ensures
        r is Ok <==> first_unknown(segs_view(segs@), params_view(params@)) is None,
        r is Err ==> first_unknown(segs_view(segs@), params_view(params@)) is Some && (
        r->Err_0)@ == unknown_param_message(
            first_unknown(segs_view(segs@), params_view(params@))->0,
        ),
{
    let ghost sv = segs_view(segs@);
    let ghost pv = params_view(params@);
    let mut i: usize = 0;
    while i < segs.len()
        invariant
            i <= segs@.len(),
            sv == segs_view(segs@),
            pv == params_view(params@),
            first_unknown(sv.subrange(0, i as int), pv) is None,
        decreases segs@.len() - i,
    {
        proof {
            assert(sv.subrange(0, i + 1) =~= sv.subrange(0, i as int).push(sv[i as int]));
            assert(sv.subrange(0, i as int).push(sv[i as int]).drop_last() =~= sv.subrange(
                0,
                i as int,
            ));
        }
        let name_opt: Option<&String> = match &segs[i] {
            Segment::Text(_) => Option::None,
            Segment::Plain(n) => Option::Some(n),
            Segment::Alternate(n) => Option::Some(n),
        };
        match name_opt {
            Option::Some(n) => {
                if !param_named(params, n.as_str()) {
                    proof {
                        lemma_first_unknown_at(sv, pv, i as int);
                    }
                    let mut m = "unknown parameter in message template: ".to_owned();
                    m.append(n.as_str());
                    return Result::Err(m);
                }
            },
            Option::None => {},
        }
        i = i + 1;
    }
    proof {
        assert(sv.subrange(0, segs@.len() as int) =~= sv);
    }
    Result::Ok(())
}

/// Builds the textual return type of the original definition.
fn build_ret_type_text(out: &mut String, rt: &Option<String>)
    ensures
        final(out)@ == old(out)@ + ret_type_text(match *rt {
            Option::Some(t) => Option::Some(t@),
            Option::None => Option::None,
        }),
{
    match rt {
        Option::Some(t) => out.append(t.as_str()),
        Option::None => out.append("()"),
    }
}

/// Builds the measurement core around the original body.
fn build_measurement(out: &mut String, rt: &Option<String>, body: &str)
    ensures
        final(out)@ == old(out)@ + measurement_text(
            ret_type_text(match *rt {
                Option::Some(t) => Option::Some(t@),
                Option::None => Option::None,
            }),
            body@,
        ),
{
    out.append(
        "    let super_secret_variable_that_does_not_clash_start = std::time::Instant::now();\n    let return_value: ",
    );
    build_ret_type_text(out, rt);
    out.append(" = (|| {");
    out.append(body);
    out.append(
        "})();\n    let elapsed = super_secret_variable_that_does_not_clash_start.elapsed();\n",
    );
    proof {
        assert(final(out)@ =~= old(out)@ + measurement_text(
            ret_type_text(match *rt {
                Option::Some(t) => Option::Some(t@),
                Option::None => Option::None,
            }),
            body@,
        ));
    }
}

/// Builds the `give_back` body.
fn build_give_back_body(rt: &Option<String>, body: &str) -> (r: String)
    ensures
        r@ == give_back_body(
            match *rt {
                Option::Some(t) => Option::Some(t@),
                Option::None => Option::None,
            },
            body@,
        ),
{
    let mut out = String::new();
    build_measurement(&mut out, rt, body);
    out.append("    (return_value, elapsed)\n");
    proof {
        assert(out@ =~= give_back_body(
            match *rt {
                Option::Some(t) => Option::Some(t@),
                Option::None => Option::None,
            },
            body@,
        ));
    }
    out
}

/// Builds the `give_back` return type.
fn build_give_back_return(rt: &Option<String>) -> (r: String)
    ensures
        r@ == give_back_return_type(match *rt {
            Option::Some(t) => Option::Some(t@),
            Option::None => Option::None,
        }),
{
    let mut out = String::new();
    match rt {
        Option::Some(t) => {
            out.append("(");
            out.append(t.as_str());
            out.append(", std::time::Duration)");
        },
        Option::None => {
            out.append("((), std::time::Duration)");
        },
    }
    proof {
        assert(out@ =~= give_back_return_type(match *rt {
            Option::Some(t) => Option::Some(t@),
            Option::None => Option::None,
        }));
    }
    out
}

/// Appends the notification macro of the logging capability.
fn build_log_macro(out: &mut String, l: Level)
    ensures
        final(out)@ == old(out)@ + log_macro_text(l),
{
    match l {
        Level(Severity::Trace) => out.append("log::trace!"),
        Level(Severity::Debug) => out.append("log::debug!"),
        Level(Severity::Info) => out.append("log::info!"),
        Level(Severity::Warn) => out.append("log::warn!"),
        Level(Severity::Error) => out.append("log::error!"),
    }
}

/// Appends the template as the emitted string literal holds it, escaping
/// quotes and backslashes.
fn append_escaped(out: &mut String, tpl: &str)
    ensures
        final(out)@ == old(out)@ + escaped(tpl@),
{
    let len = tpl.unicode_len();
    proof {
        assert(old(out)@ + escaped(tpl@.subrange(0, 0)) =~= old(out)@);
    }
    let mut i: usize = 0;
    while i < len
        invariant
            i <= len,
            len == tpl@.len(),
            out@ == old(out)@ + escaped(tpl@.subrange(0, i as int)),
        decreases len - i,
    {
        proof {
            assert(tpl@.subrange(0, i + 1).drop_last() =~= tpl@.subrange(0, i as int));
            assert(tpl@.subrange(0, i + 1).last() == tpl@[i as int]);
        }
        let c = tpl.get_char(i);
        if c == '"' {
            out.append("\\\"");
            proof {
                reveal_strlit("\\\"");
                assert(out@ =~= old(out)@ + escaped(tpl@.subrange(0, i + 1)));
            }
        } else if c == '\\' {
            out.append("\\\\");
            proof {
                reveal_strlit("\\\\");
                assert(out@ =~= old(out)@ + escaped(tpl@.subrange(0, i + 1)));
            }
        } else {
            let piece = tpl.substring_char(i, i + 1);
            out.append(piece);
            proof {
                assert(piece@ =~= seq![tpl@[i as int]]);
                assert(out@ =~= old(out)@ + escaped(tpl@.subrange(0, i + 1)));
            }
        }
        i = i + 1;
    }
    proof {
        assert(tpl@.subrange(0, len as int) =~= tpl@);
    }
}

/// Builds the reporting body.
fn build_report_body(tpl: &str, rep: Reporting, l: Level, rt: &Option<String>, body: &str) -> (r:
    String)
    ensures
        r@ == report_body(
            tpl@,
            rep,
            l,
            match *rt {
                Option::Some(t) => Option::Some(t@),
                Option::None => Option::None,
            },
            body@,
        ),
{
    let mut out = String::new();
    out.append("    let super_secret_variable_that_does_not_clash_message = format!(\"");
    append_escaped(&mut out, tpl);
    out.append("\");\n");
    match rep {
        Reporting::Print => {
            out.append("    println!(\"{}\", super_secret_variable_that_does_not_clash_message);\n");
        },
        Reporting::Log => {
            out.append("    ");
            build_log_macro(&mut out, l);
            out.append("(\"{}\", super_secret_variable_that_does_not_clash_message);\n");
        },
    }
    build_measurement(&mut out, rt, body);
    match rep {
        Reporting::Print => {
            out.append(
                "    println!(\"{}: Done in {:.2?}\", super_secret_variable_that_does_not_clash_message, elapsed);\n",
            );
        },
        Reporting::Log => {
            out.append("    ");
            build_log_macro(&mut out, l);
            out.append(
                "(\"{}: Done in {:.2?}\", super_secret_variable_that_does_not_clash_message, elapsed);\n",
            );
        },
    }
    out.append("    return_value\n");
    proof {
        assert(out@ =~= report_body(
            tpl@,
            rep,
            l,
            match *rt {
                Option::Some(t) => Option::Some(t@),
                Option::None => Option::None,
            },
            body@,
        ));
    }
    out
}

/// Rewrites a validated configuration's function definition: the profile
/// bypass re-emits the original verbatim; `give_back` mode pairs the result
/// with the elapsed duration; reporting mode wraps the body between a start
/// and a done notification. The message check is the only error source.
pub fn transform(cfg: &Configuration, ctx: &BuildContext, f: &FunctionDefinition) -> (r: Result<
    WrappedFunctionDefinition,
    String,
>)
    requires
        violation(cfg@, *ctx) is None,
    ensures
        r is Ok <==> transform_error(cfg@, *ctx, f@) is None,
        r is Err ==> transform_error(cfg@, *ctx, f@) == Option::Some((r->Err_0)@),
        r is Ok ==> (r->Ok_0).shape == shape_of(cfg@, *ctx) && (r->Ok_0).definition@
            == transform_spec(cfg@, *ctx, f@),
{
    let bypass = match cfg.when {
        When::Debug => !ctx.debug_profile,
        When::Always => false,
    };
    if bypass {
        return Result::Ok(
            WrappedFunctionDefinition { shape: Shape::Bypass, definition: f.duplicated() },
        );
    }
    if cfg.give_back {
        let mut definition = f.duplicated();
        definition.return_type = Option::Some(build_give_back_return(&f.return_type));
        definition.body = build_give_back_body(&f.return_type, f.body.as_str());
        return Result::Ok(WrappedFunctionDefinition { shape: Shape::GiveBack, definition });
    }
    let template: &str = match &cfg.message {
        Option::Some(m) => m.as_str(),
        Option::None => "",
    };
    proof {
        reveal_strlit("");
        assert(template@ =~= effective_message(cfg@));
    }
    let segs = match parse_template(template) {
        Result::Ok(segs) => segs,
        Result::Err(e) => {
            return Result::Err(e);
        },
    };
    match check_placeholders(&segs, &f.params) {
        Result::Ok(_) => {},
        Result::Err(e) => {
            return Result::Err(e);
        },
    }
    let mut definition = f.duplicated();
    definition.body = build_report_body(
        template,
        cfg.reporting,
        cfg.level,
        &f.return_type,
        f.body.as_str(),
    );
    Result::Ok(WrappedFunctionDefinition { shape: Shape::Report, definition })
}

/// How many notifications the generated wrapper emits at a successful call.
pub open spec fn notification_count(s: Shape) -> nat {
    match s {
        Shape::Bypass => 0,
        Shape::GiveBack => 0,
        Shape::Report => 2,
    }
}

/// For any valid configuration that does not give the duration back, the
/// transformed definition reports exactly two notifications, a start and a
/// done one, around exactly one measurement — except under `when = debug`
/// in a build profile that is not a debug profile, where the original
/// definition is re-emitted verbatim and nothing is reported. In
/// `give_back` mode nothing is reported either: the measurement is paired
/// with the original result instead.
pub proof fn lemma_notification_discipline(v: ConfigView, ctx: BuildContext, f: FdView)
    ensures
        bypassed(v, ctx) ==> shape_of(v, ctx) == Shape::Bypass && transform_spec(v, ctx, f) == f
            && notification_count(Shape::Bypass) == 0,
        !bypassed(v, ctx) && v.give_back ==> shape_of(v, ctx) == Shape::GiveBack && transform_spec(
            v,
            ctx,
            f,
        ).body == give_back_body(f.return_type, f.body) && notification_count(Shape::GiveBack) == 0,
        !bypassed(v, ctx) && !v.give_back ==> shape_of(v, ctx) == Shape::Report && transform_spec(
            v,
            ctx,
            f,
        ).body == report_body(effective_message(v), v.reporting, v.level, f.return_type, f.body)
            && notification_count(Shape::Report) == 2,
{
}

} // verus!
