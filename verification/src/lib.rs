//! A compile-time function-instrumentation transformer.
//!
//! Given a model of a function definition and a declarative configuration,
//! the library produces a rewritten definition that measures wall-clock
//! execution time and either returns the measurement to the caller
//! (`give_back` mode) or emits start/done notifications (reporting mode).
//!
//! The pipeline is: configuration parsing, constraint validation,
//! signature/body transformation, and code emission, strictly in one pass
//! and with no backtracking. Every invocation produces exactly one of a
//! rewritten definition or a diagnostic — never both, never neither.

use vstd::prelude::*;

pub use config::Level;

pub mod config;
pub mod emit;
pub mod function;
pub mod template;
pub mod text;
pub mod timing;
pub mod transform;
pub mod validate;

verus! {

/// A position in the source under transformation: where the attribute
/// stands, so that a diagnostic can point at it.
#[derive(Clone, Copy, Debug, PartialEq, Eq, Structural)]
pub struct Span {
    pub line: u64,
    pub column: u64,
}

/// A diagnostic produced instead of a rewritten definition: a message and
/// the source location of the attribute it refers to.
#[derive(Clone, Debug)]
pub struct Diagnostic {
    pub message: String,
    pub span: Span,
}

/// The first diagnostic message of one pass over the given input, if any:
/// token errors first, then the constraint rules in order, then the
/// message check.
pub open spec fn pipeline_error(
    args: Seq<config::RawArg>,
    ctx: config::BuildContext,
    f: function::FdView,
) -> Option<Seq<char>> {
    match config::first_error(args) {
        Option::Some(m) => Option::Some(m),
        Option::None => {
            let v = config::spec_parse(args, ctx);
            match validate::violation(v, ctx) {
                Option::Some(m) => Option::Some(m),
                Option::None => transform::transform_error(v, ctx, f),
            }
        },
    }
}

/// One full pass over an annotated function: parse the raw attribute
/// tokens, validate the configuration, and transform the definition. The
/// first error aborts the pass with a diagnostic at the attribute's
/// location and no definition is produced for that site; otherwise the
/// rewritten definition is produced, with the original re-emitted verbatim
/// in the bypass case.
pub fn fun_time(
    args: &Vec<config::RawArg>,
    item: &function::FunctionDefinition,
    ctx: &config::BuildContext,
    span: Span,
) -> (r: Result<transform::WrappedFunctionDefinition, Diagnostic>)
    ensures
        r is Ok <==> pipeline_error(args@, *ctx, item@) is None,
        r is Err ==> pipeline_error(args@, *ctx, item@) == Option::Some((r->Err_0).message@) && (
        r->Err_0).span == span,
        r is Ok ==> (r->Ok_0).shape == transform::shape_of(
            config::spec_parse(args@, *ctx),
            *ctx,
        ) && (r->Ok_0).definition@ == transform::transform_spec(
            config::spec_parse(args@, *ctx),
            *ctx,
            item@,
        ),
{
    let cfg = match config::parse_args(args, ctx) {
        Result::Ok(c) => c,
        Result::Err(m) => {
            return Result::Err(Diagnostic { message: m, span });
        },
    };
    match validate::validate(&cfg, ctx) {
        Result::Ok(_) => {},
        Result::Err(m) => {
            return Result::Err(Diagnostic { message: m, span });
        },
    }
    match transform::transform(&cfg, ctx, item) {
        Result::Ok(w) => Result::Ok(w),
        Result::Err(m) => Result::Err(Diagnostic { message: m, span }),
    }
}

/// One full pass, rendered: the emitted definition text that replaces the
/// original at its declaration site, or the diagnostic.
pub fn fun_time_source(
    args: &Vec<config::RawArg>,
    item: &function::FunctionDefinition,
    ctx: &config::BuildContext,
    span: Span,
) -> (r: Result<String, Diagnostic>)
    ensures
        r is Ok <==> pipeline_error(args@, *ctx, item@) is None,
        r is Err ==> pipeline_error(args@, *ctx, item@) == Option::Some((r->Err_0).message@) && (
        r->Err_0).span == span,
        r is Ok ==> (r->Ok_0)@ == emit::rendered_definition(
            transform::transform_spec(config::spec_parse(args@, *ctx), *ctx, item@),
        ),
{
    match fun_time(args, item, ctx, span) {
        Result::Ok(w) => Result::Ok(emit::emit(&w.definition)),
        Result::Err(d) => Result::Err(d),
    }
}

/// Under `when = debug` in a build profile that is not a debug profile the
/// pass is a bypass: the emitted text is identical to the original
/// definition's, with zero added behavior.
pub proof fn lemma_bypass_verbatim(
    v: config::ConfigView,
    ctx: config::BuildContext,
    f: function::FdView,
)
    requires
        transform::bypassed(v, ctx),
    ensures
        transform::transform_spec(v, ctx, f) == f,
        emit::rendered_definition(transform::transform_spec(v, ctx, f))
            == emit::rendered_definition(f),
{
}

} // verus!
