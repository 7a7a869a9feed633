use fun_time::template::{interpolate, parse_template, ParamValue, Segment};

fn param(name: &str, rendered: &str, alternate: &str) -> ParamValue {
    ParamValue {
        name: name.to_string(),
        rendered: rendered.to_string(),
        alternate: alternate.to_string(),
    }
}

#[test]
fn plain_placeholder_uses_the_default_rendering() {
    let ps = vec![param("x", "5", "five, expanded")];
    let r = interpolate("Value: {x}", &ps).unwrap();
    assert_eq!(r, "Value: 5");
}

#[test]
fn alternate_placeholder_uses_the_alternate_rendering() {
    let ps = vec![param("x", "5", "five, expanded")];
    let r = interpolate("{x:#?}", &ps).unwrap();
    assert_eq!(r, "five, expanded");
}

#[test]
fn both_placeholder_forms_in_one_template() {
    let ps = vec![
        param("first", "name = Alice and value = 1234", "name = Alice and value * 2 = 2468"),
        param("second", "1234", "1234"),
    ];
    let r = interpolate("having fun with parameters: {first:#?} and {second}", &ps).unwrap();
    assert_eq!(
        r,
        "having fun with parameters: name = Alice and value * 2 = 2468 and 1234"
    );
}

#[test]
fn a_placeholder_without_a_value_renders_back_verbatim() {
    let ps = vec![param("x", "5", "5")];
    assert_eq!(interpolate("{y}", &ps).unwrap(), "{y}");
    assert_eq!(interpolate("{y:#?}", &ps).unwrap(), "{y:#?}");
}

#[test]
fn the_empty_template_materializes_to_the_empty_message() {
    let ps: Vec<ParamValue> = vec![];
    assert_eq!(interpolate("", &ps).unwrap(), "");
}

#[test]
fn doubled_braces_stand_for_literal_braces() {
    let ps = vec![param("x", "5", "5")];
    assert_eq!(interpolate("{{x}}", &ps).unwrap(), "{x}");
    assert_eq!(interpolate("a {{b}} {x}", &ps).unwrap(), "a {b} 5");
    let segs = parse_template("{{}}").unwrap();
    assert_eq!(segs.len(), 2);
    assert!(matches!(&segs[0], Segment::Text(s) if s == "{"));
    assert!(matches!(&segs[1], Segment::Text(s) if s == "}"));
}

#[test]
fn a_stray_closing_brace_is_malformed() {
    let ps: Vec<ParamValue> = vec![];
    assert_eq!(
        interpolate("oops } here", &ps).unwrap_err(),
        "malformed message template: stray `}`"
    );
}

#[test]
fn an_unclosed_placeholder_is_malformed() {
    let ps: Vec<ParamValue> = vec![];
    assert_eq!(
        interpolate("hello {x", &ps).unwrap_err(),
        "malformed message template: missing `}`"
    );
}

#[test]
fn a_bad_placeholder_is_malformed() {
    let ps: Vec<ParamValue> = vec![];
    assert_eq!(
        interpolate("hello {x y}", &ps).unwrap_err(),
        "malformed message template: bad placeholder `x y`"
    );
    assert_eq!(
        interpolate("{self:?}", &ps).unwrap_err(),
        "malformed message template: bad placeholder `self:?`"
    );
}

#[test]
fn parsing_splits_literals_and_placeholders() {
    let segs = parse_template("a{b}c{d:#?}").unwrap();
    assert_eq!(segs.len(), 4);
    assert!(matches!(&segs[0], Segment::Text(s) if s == "a"));
    assert!(matches!(&segs[1], Segment::Plain(s) if s == "b"));
    assert!(matches!(&segs[2], Segment::Text(s) if s == "c"));
    assert!(matches!(&segs[3], Segment::Alternate(s) if s == "d"));
}
