//! The code emitter: assembles the final definition text from the
//! transformer's output — original visibility, identifier, generics,
//! parameter list and where-constraints, with the decided return type and
//! body — and hands it back to the enclosing build pipeline.

use vstd::prelude::*;
use vstd::string::StringExecFns;
use crate::function::{FdView, FunctionDefinition, ParamView, params_view};

verus! {

/// The parameter list, joined with `, `.
pub open spec fn params_text(ps: Seq<ParamView>) -> Seq<char>
    decreases ps.len(),
{
    if ps.len() == 0 {
        Seq::empty()
    } else if ps.len() == 1 {
        ps[0].decl
    } else {
        params_text(ps.drop_last()) + ", "@ + ps.last().decl
    }
}

/// The signature text: visibility, name, generics, parameters, return type
/// and where-constraints, each omitted when empty.
pub open spec fn rendered_signature(f: FdView) -> Seq<char> {
    (if f.visibility.len() == 0 {
        Seq::<char>::empty()
    } else {
        f.visibility + " "@
    }) + "fn "@ + f.identifier + f.generics + "("@ + params_text(f.params) + ")"@ + (match f.return_type {
        Option::Some(t) => " -> "@ + t,
        Option::None => Seq::<char>::empty(),
    }) + (if f.where_clause.len() == 0 {
        Seq::<char>::empty()
    } else {
        " "@ + f.where_clause
    })
}

/// The full definition text: the signature and the braced body.
pub open spec fn rendered_definition(f: FdView) -> Seq<char> {
    rendered_signature(f) + " {\n"@ + f.body + "}\n"@
}

/// Renders a function definition as text.
pub fn emit(f: &FunctionDefinition) -> (r: String)
    ensures
        r@ == rendered_definition(f@),
{
    let mut out = String::new();
    if !f.visibility.as_str().is_empty() {
        out.append(f.visibility.as_str());
        out.append(" ");
    }
    out.append("fn ");
    out.append(f.identifier.as_str());
    out.append(f.generics.as_str());
    out.append("(");
    let ghost head = out@;
    let ghost pv = params_view(f.params@);
    proof {
        assert(head + params_text(pv.subrange(0, 0)) =~= head);
    }
    let mut i: usize = 0;
    while i < f.params.len()
        invariant
            i <= f.params@.len(),
            pv == params_view(f.params@),
            out@ == head + params_text(pv.subrange(0, i as int)),
        decreases f.params@.len() - i,
    {
        proof {
            assert(pv.subrange(0, i + 1).drop_last() =~= pv.subrange(0, i as int));
            assert(pv.subrange(0, i + 1).last() == pv[i as int]);
        }
        if i > 0 {
            out.append(", ");
        }
        out.append(f.params[i].decl.as_str());
        proof {
            if i == 0 {
                assert(out@ =~= head + params_text(pv.subrange(0, 1)));
            } else {
                assert(out@ =~= head + params_text(pv.subrange(0, i + 1)));
            }
        }
        i = i + 1;
    }
    proof {
        assert(pv.subrange(0, f.params@.len() as int) =~= pv);
    }
    out.append(")");
    match &f.return_type {
        Option::Some(t) => {
            out.append(" -> ");
            out.append(t.as_str());
        },
        Option::None => {},
    }
    if !f.where_clause.as_str().is_empty() {
        out.append(" ");
        out.append(f.where_clause.as_str());
    }
    out.append(" {\n");
    out.append(f.body.as_str());
    out.append("}\n");
    proof {
        assert(out@ =~= rendered_definition(f@));
    }
    out
}

} // verus!
