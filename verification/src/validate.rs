//! Constraint validation: contradictory configurations are rejected before
//! any code is generated. The rules form an ordered table; the first
//! violation wins.

use vstd::prelude::*;
use crate::config::{BuildContext, ConfigView, Configuration, Reporting, When};

verus! {

pub open spec fn message_give_back_message() -> Seq<char> {
    "the `message` and `give_back` attributes can not be used together!"@
}

pub open spec fn give_back_when_debug_message() -> Seq<char> {
    "the `give_back` and `when` attribute with \"debug\" can not be used together! It would result in different return types"@
}

pub open spec fn log_capability_message() -> Seq<char> {
    "the `log` reporting requires the logging capability"@
}

/// The first rule of the ordered table that the configuration violates, with
/// its diagnostic message; `None` when the configuration is acceptable.
pub open spec fn violation(v: ConfigView, ctx: BuildContext) -> Option<Seq<char>> {
    if v.message is Some && v.give_back {
        Option::Some(message_give_back_message())
    } else if v.give_back && v.when == When::Debug {
        Option::Some(give_back_when_debug_message())
    } else if v.reporting == Reporting::Log && !ctx.log_capability {
        Option::Some(log_capability_message())
    } else {
        Option::None
    }
}

/// Checks the configuration against the rule table: `message` excludes
/// `give_back`; `give_back` excludes `when = debug` (the return type would
/// differ across build profiles); `log` reporting requires the logging
/// capability. A configuration that passes is handed on unchanged.
pub fn validate(c: &Configuration, ctx: &BuildContext) -> (r: Result<(), String>)
    ensures
        r is Ok <==> violation(c@, *ctx) is None,
        r is Err ==> violation(c@, *ctx) == Option::Some((r->Err_0)@),
{
    if c.message.is_some() && c.give_back {
        Result::Err("the `message` and `give_back` attributes can not be used together!".to_owned())
    } else if c.give_back && c.when == When::Debug {
        Result::Err(
            "the `give_back` and `when` attribute with \"debug\" can not be used together! It would result in different return types".to_owned(),
        )
    } else if c.reporting == Reporting::Log && !ctx.log_capability {
        Result::Err("the `log` reporting requires the logging capability".to_owned())
    } else {
        Result::Ok(())
    }
}

/// A configuration that combines `message` with `give_back`, or `give_back`
/// with `when = debug`, violates the rule table whatever the build context,
/// so the pipeline rejects it before any code is produced.
pub proof fn lemma_exclusive_options_rejected(v: ConfigView, ctx: BuildContext)
    ensures
        v.message is Some && v.give_back ==> violation(v, ctx) is Some,
        v.give_back && v.when == When::Debug ==> violation(v, ctx) is Some,
{
}

} // verus!
