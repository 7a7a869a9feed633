//! The model of a function definition: visibility, identifier, generic
//! parameters, parameter list, optional return type, where-constraints and
//! body, each held as text. The input definition is never mutated; the
//! transformer produces a new definition alongside it.

use vstd::prelude::*;
use crate::text::str_eq;

verus! {

/// One parameter of a function definition: its bare name (the interpolation
/// source) and its full declaration text, such as `count: usize`.
#[derive(Clone, Debug)]
pub struct Param {
    pub name: String,
    pub decl: String,
}

/// The mathematical content of a `Param`.
pub ghost struct ParamView {
    pub name: Seq<char>,
    pub decl: Seq<char>,
}

impl View for Param {
    type V = ParamView;

    open spec fn view(&self) -> ParamView {
        ParamView { name: self.name@, decl: self.decl@ }
    }
}

/// The views of a parameter list.
pub open spec fn params_view(v: Seq<Param>) -> Seq<ParamView> {
    Seq::new(v.len(), |i: int| v[i]@)
}

/// A function definition. A missing return type stands for the unit type.
#[derive(Clone, Debug)]
pub struct FunctionDefinition {
    pub visibility: String,
    pub identifier: String,
    pub generics: String,
    pub params: Vec<Param>,
    pub return_type: Option<String>,
    pub where_clause: String,
    pub body: String,
}

/// The mathematical content of a `FunctionDefinition`.
pub ghost struct FdView {
    pub visibility: Seq<char>,
    pub identifier: Seq<char>,
    pub generics: Seq<char>,
    pub params: Seq<ParamView>,
    pub return_type: Option<Seq<char>>,
    pub where_clause: Seq<char>,
    pub body: Seq<char>,
}

impl View for FunctionDefinition {
    type V = FdView;

    open spec fn view(&self) -> FdView {
        FdView {
            visibility: self.visibility@,
            identifier: self.identifier@,
            generics: self.generics@,
            params: params_view(self.params@),
            return_type: match self.return_type {
                Option::Some(s) => Option::Some(s@),
                Option::None => Option::None,
            },
            where_clause: self.where_clause@,
            body: self.body@,
        }
    }
}

/// Whether some parameter has the given name.
pub open spec fn has_param(ps: Seq<ParamView>, n: Seq<char>) -> bool {
    exists|i: int| 0 <= i < ps.len() && ps[i].name == n
}

/// Decides whether a parameter with the given name exists.
pub fn param_named(ps: &Vec<Param>, n: &str) -> (r: bool)
    ensures
        r == has_param(params_view(ps@), n@),
{
    let ghost pv = params_view(ps@);
    let mut i: usize = 0;
    while i < ps.len()
        invariant
            i <= ps@.len(),
            pv == params_view(ps@),
            forall|j: int| 0 <= j < i ==> pv[j].name != n@,
        decreases ps@.len() - i,
    {
        if str_eq(ps[i].name.as_str(), n) {
            assert(pv[i as int].name == n@);
            return true;
        }
        i = i + 1;
    }
    false
}

impl FunctionDefinition {
    /// An identical copy of the definition.
    pub fn duplicated(&self) -> (r: FunctionDefinition)
        ensures
            r@ == self@,
    {
        let mut params: Vec<Param> = Vec::new();
        let mut i: usize = 0;
        while i < self.params.len()
            invariant
                i <= self.params@.len(),
                params@.len() == i,
                forall|k: int| 0 <= k < i ==> params@[k]@ == self.params@[k]@,
            decreases self.params@.len() - i,
        {
            let p = &self.params[i];
            let newp = Param { name: p.name.clone(), decl: p.decl.clone() };
            proof {
                assert(newp@ == self.params@[i as int]@);
            }
            params.push(newp);
            i = i + 1;
        }
        proof {
            assert(params_view(params@) =~= params_view(self.params@));
        }
        let r = FunctionDefinition {
            visibility: self.visibility.clone(),
            identifier: self.identifier.clone(),
            generics: self.generics.clone(),
            params,
            return_type: match &self.return_type {
                Option::Some(t) => Option::Some(t.clone()),
                Option::None => Option::None,
            },
            where_clause: self.where_clause.clone(),
            body: self.body.clone(),
        };
        r
    }
}

} // verus!
