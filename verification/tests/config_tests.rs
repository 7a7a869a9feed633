use fun_time::config::{
    parse_args, ArgValue, BuildContext, Level, RawArg, Reporting, Severity, When,
};
use fun_time::validate::validate;

fn ctx(debug_profile: bool, log_capability: bool) -> BuildContext {
    BuildContext { debug_profile, log_capability }
}

fn flag(k: &str) -> RawArg {
    RawArg { key: k.to_string(), value: ArgValue::Flag }
}

fn strv(k: &str, v: &str) -> RawArg {
    RawArg { key: k.to_string(), value: ArgValue::Str(v.to_string()) }
}

#[test]
fn defaults_without_options() {
    let cfg = parse_args(&vec![], &ctx(true, false)).unwrap();
    assert!(cfg.message.is_none());
    assert_eq!(cfg.when, When::Always);
    assert!(!cfg.give_back);
    assert_eq!(cfg.reporting, Reporting::Print);
    assert_eq!(cfg.level, Level(Severity::Info));
}

#[test]
fn default_reporting_with_log_capability() {
    let cfg = parse_args(&vec![], &ctx(true, true)).unwrap();
    assert_eq!(cfg.reporting, Reporting::Log);
}

#[test]
fn unrecognized_option_is_rejected() {
    let r = parse_args(&vec![strv("colour", "red")], &ctx(true, false));
    assert_eq!(r.unwrap_err(), "unrecognized option: colour");
}

#[test]
fn string_option_given_as_flag_is_a_type_mismatch() {
    let r = parse_args(&vec![flag("message")], &ctx(true, false));
    assert_eq!(r.unwrap_err(), "type mismatch for option: message");
}

#[test]
fn flag_option_given_a_string_is_a_type_mismatch() {
    let r = parse_args(&vec![strv("give_back", "yes")], &ctx(true, false));
    assert_eq!(r.unwrap_err(), "type mismatch for option: give_back");
}

#[test]
fn when_literal_outside_closed_set() {
    let r = parse_args(&vec![strv("when", "sometimes")], &ctx(true, false));
    assert_eq!(
        r.unwrap_err(),
        "Unsupported value for `when` attribute: sometimes. Use one of: always, debug"
    );
}

#[test]
fn reporting_literal_outside_closed_set() {
    let r = parse_args(&vec![strv("reporting", "console")], &ctx(true, false));
    assert_eq!(
        r.unwrap_err(),
        "Unsupported value for `reporting` attribute: console. Use one of: print, log"
    );
}

#[test]
fn level_literal_outside_closed_set() {
    let r = parse_args(&vec![strv("level", "loud")], &ctx(true, false));
    assert_eq!(
        r.unwrap_err(),
        "Unsupported value for `level` attribute: loud. Use one of: trace, debug, info, warn, error"
    );
}

#[test]
fn from_lit_covers_the_closed_sets() {
    assert_eq!(When::from_lit("always").unwrap(), When::Always);
    assert_eq!(When::from_lit("debug").unwrap(), When::Debug);
    assert!(When::from_lit("Always").is_err());
    assert_eq!(Reporting::from_lit("print").unwrap(), Reporting::Print);
    assert_eq!(Reporting::from_lit("log").unwrap(), Reporting::Log);
    assert_eq!(Level::from_lit("trace").unwrap(), Level(Severity::Trace));
    assert_eq!(Level::from_lit("debug").unwrap(), Level(Severity::Debug));
    assert_eq!(Level::from_lit("info").unwrap(), Level(Severity::Info));
    assert_eq!(Level::from_lit("warn").unwrap(), Level(Severity::Warn));
    assert_eq!(Level::from_lit("error").unwrap(), Level(Severity::Error));
}

#[test]
fn the_default_impls_match_the_documented_defaults() {
    assert_eq!(When::default(), When::Always);
    assert_eq!(Reporting::default(), Reporting::Print);
    assert_eq!(Level::default(), Level(Severity::Info));
}

#[test]
fn a_later_token_overwrites_an_earlier_one() {
    let cfg = parse_args(
        &vec![strv("when", "always"), strv("when", "debug")],
        &ctx(true, false),
    )
    .unwrap();
    assert_eq!(cfg.when, When::Debug);
}

#[test]
fn the_first_token_error_wins() {
    let r = parse_args(
        &vec![strv("colour", "red"), strv("when", "nope")],
        &ctx(true, false),
    );
    assert_eq!(r.unwrap_err(), "unrecognized option: colour");
}

#[test]
fn message_and_give_back_violate_the_rules() {
    let cfg = parse_args(
        &vec![strv("message", "hello"), flag("give_back")],
        &ctx(true, false),
    )
    .unwrap();
    let r = validate(&cfg, &ctx(true, false));
    assert_eq!(
        r.unwrap_err(),
        "the `message` and `give_back` attributes can not be used together!"
    );
}

#[test]
fn give_back_and_when_debug_violate_the_rules() {
    let cfg = parse_args(
        &vec![flag("give_back"), strv("when", "debug")],
        &ctx(true, false),
    )
    .unwrap();
    let r = validate(&cfg, &ctx(true, false));
    assert_eq!(
        r.unwrap_err(),
        "the `give_back` and `when` attribute with \"debug\" can not be used together! It would result in different return types"
    );
}

#[test]
fn log_reporting_without_the_capability_is_rejected() {
    let cfg = parse_args(&vec![strv("reporting", "log")], &ctx(true, false)).unwrap();
    let r = validate(&cfg, &ctx(true, false));
    assert_eq!(r.unwrap_err(), "the `log` reporting requires the logging capability");
}

#[test]
fn a_valid_configuration_passes_validation() {
    let cfg = parse_args(
        &vec![strv("message", "hello"), strv("when", "always")],
        &ctx(true, false),
    )
    .unwrap();
    assert!(validate(&cfg, &ctx(true, false)).is_ok());
}

#[test]
fn level_with_print_reporting_is_accepted_silently() {
    let cfg = parse_args(&vec![strv("level", "warn")], &ctx(true, false)).unwrap();
    assert_eq!(cfg.reporting, Reporting::Print);
    assert_eq!(cfg.level, Level(Severity::Warn));
    assert!(validate(&cfg, &ctx(true, false)).is_ok());
}
