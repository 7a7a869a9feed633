//! Message templates. A template is a small format string in which `{name}`
//! substitutes the current value of parameter `name` using its default
//! textual rendering, and `{name:#?}` substitutes it using its alternate,
//! expanded rendering. The doubled braces `{{` and `}}` stand for literal
//! braces.

use vstd::prelude::*;
use vstd::string::StrSliceExecFns;
use vstd::string::StringExecFns;
use crate::text::push_text;

verus! {

/// One piece of a parsed message template.
#[derive(Clone, Debug)]
pub enum Segment {
    /// Literal text between placeholders.
    Text(String),
    /// `{name}`: substituted with the parameter's default rendering.
    Plain(String),
    /// `{name:#?}`: substituted with the parameter's alternate rendering.
    Alternate(String),
}

/// The mathematical content of a `Segment`.
pub ghost enum SegView {
    Text(Seq<char>),
    Plain(Seq<char>),
    Alternate(Seq<char>),
}

impl View for Segment {
    type V = SegView;

    open spec fn view(&self) -> SegView {
        match self {
            Segment::Text(s) => SegView::Text(s@),
            Segment::Plain(s) => SegView::Plain(s@),
            Segment::Alternate(s) => SegView::Alternate(s@),
        }
    }
}

/// The views of a sequence of segments.
pub open spec fn segs_view(v: Seq<Segment>) -> Seq<SegView> {
    Seq::new(v.len(), |i: int| v[i]@)
}

/// One textual rendering of a parameter, captured before the original body
/// runs: its name, its default rendering, and its alternate rendering.
#[derive(Clone, Debug)]
pub struct ParamValue {
    pub name: String,
    pub rendered: String,
    pub alternate: String,
}

/// The mathematical content of a `ParamValue`.
pub ghost struct ParamValueView {
    pub name: Seq<char>,
    pub rendered: Seq<char>,
    pub alternate: Seq<char>,
}

impl View for ParamValue {
    type V = ParamValueView;

    open spec fn view(&self) -> ParamValueView {
        ParamValueView { name: self.name@, rendered: self.rendered@, alternate: self.alternate@ }
    }
}

/// The views of a sequence of parameter values.
pub open spec fn params_view(v: Seq<ParamValue>) -> Seq<ParamValueView> {
    Seq::new(v.len(), |i: int| v[i]@)
}

/// The characters allowed in a placeholder name.
pub open spec fn is_name_char(c: char) -> bool {
    (('a' as u32) <= (c as u32) && (c as u32) <= ('z' as u32)) || (('A' as u32) <= (c as u32)
        && (c as u32) <= ('Z' as u32)) || (('0' as u32) <= (c as u32) && (c as u32) <= ('9' as u32))
        || c == '_'
}

/// A valid placeholder name: nonempty, made of name characters.
pub open spec fn is_name(s: Seq<char>) -> bool {
    s.len() > 0 && forall|i: int| 0 <= i < s.len() ==> is_name_char(s[i])
}

/// The name of an alternate-rendering placeholder: the content before a
/// final `:#?`, when the content has that shape.
pub open spec fn alt_name(s: Seq<char>) -> Option<Seq<char>> {
    if s.len() >= 3 && s[s.len() - 3] == ':' && s[s.len() - 2] == '#' && s[s.len() - 1] == '?'
        && is_name(s.subrange(0, s.len() - 3)) {
        Option::Some(s.subrange(0, s.len() - 3))
    } else {
        Option::None
    }
}

/// The index of the first `}` at or after `i`, or the template's length when
/// there is none.
pub open spec fn close_index(t: Seq<char>, i: int) -> int
    decreases t.len() - i,
{
    if i >= t.len() {
        t.len() as int
    } else if t[i] == '}' {
        i
    } else {
        close_index(t, i + 1)
    }
}

/// The index of the first `{` or `}` at or after `i`, or the template's
/// length when there is none.
pub open spec fn literal_end(t: Seq<char>, i: int) -> int
    decreases t.len() - i,
{
    if i >= t.len() {
        t.len() as int
    } else if t[i] == '{' || t[i] == '}' {
        i
    } else {
        literal_end(t, i + 1)
    }
}

pub proof fn lemma_close_index_ge(t: Seq<char>, i: int)
    requires
        i <= t.len(),
    ensures
        i <= close_index(t, i) <= t.len(),
    decreases t.len() - i,
{
    if i >= t.len() || t[i] == '}' {
    } else {
        lemma_close_index_ge(t, i + 1);
    }
}

pub proof fn lemma_literal_end_ge(t: Seq<char>, i: int)
    requires
        i <= t.len(),
    ensures
        i <= literal_end(t, i) <= t.len(),
    decreases t.len() - i,
{
    if i >= t.len() || t[i] == '{' || t[i] == '}' {
    } else {
        lemma_literal_end_ge(t, i + 1);
    }
}

pub open spec fn stray_close_message() -> Seq<char> {
    "malformed message template: stray `}`"@
}

pub open spec fn unclosed_message() -> Seq<char> {
    "malformed message template: missing `}`"@
}

pub open spec fn bad_placeholder_message(content: Seq<char>) -> Seq<char> {
    "malformed message template: bad placeholder `"@ + content + "`"@
}

/// The meaning of the template text from position `i` on: its parsed
/// segments, or the diagnostic message for the first malformed piece. A
/// doubled brace is literal text; a lone `{` opens a placeholder and a
/// lone `}` is malformed.
pub open spec fn spec_parse_template(t: Seq<char>, i: int) -> Result<Seq<SegView>, Seq<char>>
    decreases t.len() - i,
{
    if i >= t.len() {
        Result::Ok(Seq::empty())
    } else if t[i] == '}' {
        if i + 1 < t.len() && t[i + 1] == '}' {
            match spec_parse_template(t, i + 2) {
                Result::Ok(ss) => Result::Ok(seq![SegView::Text(seq!['}'])] + ss),
                Result::Err(e) => Result::Err(e),
            }
        } else {
            Result::Err(stray_close_message())
        }
    } else if t[i] == '{' && i + 1 < t.len() && t[i + 1] == '{' {
        match spec_parse_template(t, i + 2) {
            Result::Ok(ss) => Result::Ok(seq![SegView::Text(seq!['{'])] + ss),
            Result::Err(e) => Result::Err(e),
        }
    } else if t[i] == '{' {
        proof {
            lemma_close_index_ge(t, i + 1);
        }
        let j = close_index(t, i + 1);
        if j >= t.len() {
            Result::Err(unclosed_message())
        } else {
            let content = t.subrange(i + 1, j);
            if is_name(content) {
                match spec_parse_template(t, j + 1) {
                    Result::Ok(ss) => Result::Ok(seq![SegView::Plain(content)] + ss),
                    Result::Err(e) => Result::Err(e),
                }
            } else if alt_name(content) is Some {
                match spec_parse_template(t, j + 1) {
                    Result::Ok(ss) => Result::Ok(
                        seq![SegView::Alternate(alt_name(content)->0)] + ss,
                    ),
                    Result::Err(e) => Result::Err(e),
                }
            } else {
                Result::Err(bad_placeholder_message(content))
            }
        }
    } else {
        proof {
            lemma_literal_end_ge(t, i + 1);
        }
        let k = literal_end(t, i);
        match spec_parse_template(t, k) {
            Result::Ok(ss) => Result::Ok(seq![SegView::Text(t.subrange(i, k))] + ss),
            Result::Err(e) => Result::Err(e),
        }
    }
}

/// Finds the first `}` at or after `from`.
fn scan_close(t: &str, from: usize, len: usize) -> (j: usize)
    requires
        from <= t@.len(),
        len == t@.len(),
    ensures
        j == close_index(t@, from as int),
        from <= j <= t@.len(),
{
    let mut j = from;
    while j < len
        invariant
            from <= j <= len,
            len == t@.len(),
            close_index(t@, from as int) == close_index(t@, j as int),
        decreases len - j,
    {
        if t.get_char(j) == '}' {
            return j;
        }
        j = j + 1;
    }
    j
}

/// Finds the first `{` or `}` at or after `from`.
fn scan_literal_end(t: &str, from: usize, len: usize) -> (j: usize)
    requires
        from <= t@.len(),
        len == t@.len(),
    ensures
        j == literal_end(t@, from as int),
        from <= j <= t@.len(),
{
    let mut j = from;
    while j < len
        invariant
            from <= j <= len,
            len == t@.len(),
            literal_end(t@, from as int) == literal_end(t@, j as int),
        decreases len - j,
    {
        let c = t.get_char(j);
        if c == '{' || c == '}' {
            return j;
        }
        j = j + 1;
    }
    j
}

/// Whether the text is a valid placeholder name.
fn check_name(s: &str) -> (r: bool)
    ensures
        r == is_name(s@),
{
    let len = s.unicode_len();
    if len == 0 {
        return false;
    }
    let mut i: usize = 0;
    while i < len
        invariant
            i <= len,
            len == s@.len(),
            forall|j: int| 0 <= j < i ==> is_name_char(s@[j]),
        decreases len - i,
    {
        let c = s.get_char(i);
        let ok = (('a' <= c && c <= 'z') || ('A' <= c && c <= 'Z') || ('0' <= c && c <= '9') || c
            == '_');
        if !ok {
            assert(!is_name_char(s@[i as int]));
            return false;
        }
        i = i + 1;
    }
    true
}

/// Parses the template text from position `i` on, pushing the parsed
/// segments onto `acc`.
fn parse_at(t: &str, i: usize, len: usize, acc: &mut Vec<Segment>) -> (r: Result<(), String>)
    requires
        i <= t@.len(),
        len == t@.len(),
    ensures
        r is Ok <==> spec_parse_template(t@, i as int) is Ok,
        r is Ok ==> segs_view(final(acc)@) == segs_view(old(acc)@) + (spec_parse_template(
            t@,
            i as int,
        )->Ok_0),
        r is Err ==> (r->Err_0)@ == spec_parse_template(t@, i as int)->Err_0,
    decreases t@.len() - i,
{
    if i >= len {
        assert(segs_view(acc@) =~= segs_view(acc@) + spec_parse_template(t@, i as int)->Ok_0);
        return Result::Ok(());
    }
    let c = t.get_char(i);
    if c == '}' {
        if i + 1 < len && t.get_char(i + 1) == '}' {
            let ghost before = segs_view(acc@);
            acc.push(Segment::Text("}".to_owned()));
            proof {
                reveal_strlit("}");
                assert("}"@ =~= seq!['}']);
                assert(segs_view(acc@) =~= before + seq![SegView::Text(seq!['}'])]);
            }
            let r = parse_at(t, i + 2, len, acc);
            match r {
                Result::Ok(_) => {
                    proof {
                        assert(segs_view(acc@) =~= before + (seq![SegView::Text(seq!['}'])]
                            + spec_parse_template(t@, i + 2)->Ok_0));
                    }
                    return Result::Ok(());
                },
                Result::Err(e) => {
                    return Result::Err(e);
                },
            }
        }
        return Result::Err("malformed message template: stray `}`".to_owned());
    }
    if c == '{' && i + 1 < len && t.get_char(i + 1) == '{' {
        let ghost before = segs_view(acc@);
        acc.push(Segment::Text("{".to_owned()));
        proof {
            reveal_strlit("{");
            assert("{"@ =~= seq!['{']);
            assert(segs_view(acc@) =~= before + seq![SegView::Text(seq!['{'])]);
        }
        let r = parse_at(t, i + 2, len, acc);
        match r {
            Result::Ok(_) => {
                proof {
                    assert(segs_view(acc@) =~= before + (seq![SegView::Text(seq!['{'])]
                        + spec_parse_template(t@, i + 2)->Ok_0));
                }
                return Result::Ok(());
            },
            Result::Err(e) => {
                return Result::Err(e);
            },
        }
    }
    if c == '{' {
        let j = scan_close(t, i + 1, len);
        if j >= len {
            return Result::Err("malformed message template: missing `}`".to_owned());
        }
        let content = t.substring_char(i + 1, j);
        let ghost content_view = t@.subrange(i + 1, j as int);
        if check_name(content) {
            let ghost before = segs_view(acc@);
            acc.push(Segment::Plain(content.to_owned()));
            proof {
                assert(segs_view(acc@) =~= before + seq![SegView::Plain(content_view)]);
            }
            let r = parse_at(t, j + 1, len, acc);
            match r {
                Result::Ok(_) => {
                    proof {
                        assert(segs_view(acc@) =~= before + (seq![SegView::Plain(content_view)]
                            + spec_parse_template(t@, j + 1)->Ok_0));
                    }
                    return Result::Ok(());
                },
                Result::Err(e) => {
                    return Result::Err(e);
                },
            }
        } else {
            let clen = content.unicode_len();
            if clen >= 3 {
                let c1 = content.get_char(clen - 3);
                let c2 = content.get_char(clen - 2);
                let c3 = content.get_char(clen - 1);
                if c1 == ':' && c2 == '#' && c3 == '?' {
                    let stem = content.substring_char(0, clen - 3);
                    if check_name(stem) {
                        let ghost before = segs_view(acc@);
                        acc.push(Segment::Alternate(stem.to_owned()));
                        proof {
                            assert(alt_name(content_view) == Option::Some(stem@));
                            assert(segs_view(acc@) =~= before + seq![
                                SegView::Alternate(alt_name(content_view)->0),
                            ]);
                        }
                        let r = parse_at(t, j + 1, len, acc);
                        match r {
                            Result::Ok(_) => {
                                proof {
                                    assert(segs_view(acc@) =~= before + (seq![
                                        SegView::Alternate(alt_name(content_view)->0),
                                    ] + spec_parse_template(t@, j + 1)->Ok_0));
                                }
                                return Result::Ok(());
                            },
                            Result::Err(e) => {
                                return Result::Err(e);
                            },
                        }
                    }
                }
            }
            assert(alt_name(content_view) is None);
            let mut m = "malformed message template: bad placeholder `".to_owned();
            m.append(content);
            m.append("`");
            return Result::Err(m);
        }
    }
    let k = scan_literal_end(t, i, len);
    assert(k > i) by {
        assert(literal_end(t@, i as int) == literal_end(t@, i + 1));
        lemma_literal_end_ge(t@, i + 1);
    }
    let run = t.substring_char(i, k);
    let ghost before = segs_view(acc@);
    acc.push(Segment::Text(run.to_owned()));
    proof {
        assert(segs_view(acc@) =~= before + seq![SegView::Text(t@.subrange(i as int, k as int))]);
    }
    let r = parse_at(t, k, len, acc);
    match r {
        Result::Ok(_) => {
            proof {
                assert(segs_view(acc@) =~= before + (seq![
                    SegView::Text(t@.subrange(i as int, k as int)),
                ] + spec_parse_template(t@, k as int)->Ok_0));
            }
            Result::Ok(())
        },
        Result::Err(e) => Result::Err(e),
    }
}

/// Parses a message template into its segments, or reports the first
/// malformed piece.
pub fn parse_template(t: &str) -> (r: Result<Vec<Segment>, String>)
    ensures
        r is Ok <==> spec_parse_template(t@, 0) is Ok,
        r is Ok ==> segs_view((r->Ok_0)@) == spec_parse_template(t@, 0)->Ok_0,
        r is Err ==> (r->Err_0)@ == spec_parse_template(t@, 0)->Err_0,
{
    let len = t.unicode_len();
    let mut acc: Vec<Segment> = Vec::new();
    match parse_at(t, 0, len, &mut acc) {
        Result::Ok(_) => {
            proof {
                assert(segs_view(acc@) =~= segs_view(Seq::<Segment>::empty())
                    + spec_parse_template(t@, 0)->Ok_0);
                assert(segs_view(Seq::<Segment>::empty()) =~= Seq::<SegView>::empty());
            }
            Result::Ok(acc)
        },
        Result::Err(e) => Result::Err(e),
    }
}

/// The first parameter value with the given name, if any.
pub open spec fn lookup(ps: Seq<ParamValueView>, n: Seq<char>) -> Option<ParamValueView>
    decreases ps.len(),
{
    if ps.len() == 0 {
        Option::None
    } else if ps[0].name == n {
        Option::Some(ps[0])
    } else {
        lookup(ps.drop_first(), n)
    }
}

/// What one segment contributes to the materialized message. A placeholder
/// whose name has no parameter value is rendered back verbatim.
pub open spec fn seg_subst(s: SegView, ps: Seq<ParamValueView>) -> Seq<char> {
    match s {
        SegView::Text(x) => x,
        SegView::Plain(n) => match lookup(ps, n) {
            Option::Some(p) => p.rendered,
            Option::None => "{"@ + n + "}"@,
        },
        SegView::Alternate(n) => match lookup(ps, n) {
            Option::Some(p) => p.alternate,
            Option::None => "{"@ + n + ":#?}"@,
        },
    }
}

/// The materialized message: each segment's contribution, in order.
pub open spec fn subst_all(ss: Seq<SegView>, ps: Seq<ParamValueView>) -> Seq<char>
    decreases ss.len(),
{
    if ss.len() == 0 {
        Seq::empty()
    } else {
        subst_all(ss.drop_last(), ps) + seg_subst(ss.last(), ps)
    }
}

/// Finds the first parameter value with the given name.
fn find_param<'a>(ps: &'a Vec<ParamValue>, n: &str) -> (r: Option<&'a ParamValue>)
    ensures
        (match r {
            Option::Some(p) => lookup(params_view(ps@), n@) == Option::Some(p@),
            Option::None => lookup(params_view(ps@), n@) is None,
        }),
{
    let ghost pv = params_view(ps@);
    proof {
        assert(pv.skip(0) =~= pv);
    }
    let mut i: usize = 0;
    while i < ps.len()
        invariant
            i <= ps@.len(),
            pv == params_view(ps@),
            lookup(pv.skip(i as int), n@) == lookup(pv, n@),
        decreases ps@.len() - i,
    {
        proof {
            assert(pv.skip(i as int).drop_first() =~= pv.skip(i + 1));
        }
        if crate::text::str_eq(ps[i].name.as_str(), n) {
            assert(pv.skip(i as int)[0] == pv[i as int]);
            return Option::Some(&ps[i]);
        }
        i = i + 1;
    }
    proof {
        assert(pv.skip(i as int) =~= Seq::<ParamValueView>::empty());
    }
    Option::None
}

/// Materializes the message from parsed segments and the captured parameter
/// renderings.
pub fn substitute(segs: &Vec<Segment>, ps: &Vec<ParamValue>) -> (r: String)
    ensures
        r@ == subst_all(segs_view(segs@), params_view(ps@)),
{
    let ghost sv = segs_view(segs@);
    let ghost pv = params_view(ps@);
    let mut out = String::new();
    let mut i: usize = 0;
    while i < segs.len()
        invariant
            i <= segs@.len(),
            sv == segs_view(segs@),
            pv == params_view(ps@),
            out@ == subst_all(sv.subrange(0, i as int), pv),
        decreases segs@.len() - i,
    {
        proof {
            assert(sv.subrange(0, i + 1) =~= sv.subrange(0, i as int).push(sv[i as int]));
            assert(sv.subrange(0, i as int).push(sv[i as int]).drop_last() =~= sv.subrange(
                0,
                i as int,
            ));
        }
        match &segs[i] {
            Segment::Text(s) => {
                push_text(&mut out, s.as_str());
            },
            Segment::Plain(n) => {
                match find_param(ps, n.as_str()) {
                    Option::Some(p) => {
                        push_text(&mut out, p.rendered.as_str());
                    },
                    Option::None => {
                        push_text(&mut out, "{");
                        push_text(&mut out, n.as_str());
                        push_text(&mut out, "}");
                    },
                }
            },
            Segment::Alternate(n) => {
                match find_param(ps, n.as_str()) {
                    Option::Some(p) => {
                        push_text(&mut out, p.alternate.as_str());
                    },
                    Option::None => {
                        push_text(&mut out, "{");
                        push_text(&mut out, n.as_str());
                        push_text(&mut out, ":#?}");
                    },
                }
            },
        }
        i = i + 1;
    }
    proof {
        assert(sv.subrange(0, segs@.len() as int) =~= sv);
    }
    out
}

/// Parses the template and materializes the message against the captured
/// parameter renderings, in one step.
pub fn interpolate(t: &str, ps: &Vec<ParamValue>) -> (r: Result<String, String>)
    ensures
        r is Ok <==> spec_parse_template(t@, 0) is Ok,
        r is Ok ==> (r->Ok_0)@ == subst_all(spec_parse_template(t@, 0)->Ok_0, params_view(ps@)),
        r is Err ==> (r->Err_0)@ == spec_parse_template(t@, 0)->Err_0,
{
    match parse_template(t) {
        Result::Ok(segs) => Result::Ok(substitute(&segs, ps)),
        Result::Err(e) => Result::Err(e),
    }
}

} // verus!
