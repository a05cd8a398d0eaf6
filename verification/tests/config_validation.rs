use configure_me_codegen::config::make_true;
use configure_me_codegen::config::raw;
use configure_me_codegen::config::Defaults;
use configure_me_codegen::config::General;
use configure_me_codegen::config::Optionality;
use configure_me_codegen::config::Switch;
use configure_me_codegen::config::SwitchKind;
use configure_me_codegen::config::ValidationErrorKind;

fn param(name: &str) -> raw::Param {
    raw::Param {
        name: name.to_owned(),
        abbr: None,
        ty: "u16".to_owned(),
        optional: None,
        default: None,
        doc: None,
        argument: None,
        env_var: None,
        convert_into: None,
    }
}

fn switch(name: &str) -> raw::Switch {
    raw::Switch {
        name: name.to_owned(),
        abbr: None,
        default: None,
        doc: None,
        env_var: None,
        count: None,
    }
}

fn general() -> General {
    General { name: None, summary: None, doc: None, env_prefix: None }
}

fn defaults() -> Defaults {
    Defaults { args: true, env_vars: None, optional: true }
}

fn config(params: Vec<raw::Param>, switches: Vec<raw::Switch>) -> raw::Config {
    raw::Config { params, switches, general: general(), defaults: defaults() }
}

fn param_error(param: raw::Param, default_optional: bool) -> (String, ValidationErrorKind) {
    match param.validate(default_optional, true, false) {
        Ok(_) => panic!("the parameter was accepted"),
        Err(error) => (error.name().to_owned(), error.kind()),
    }
}

fn switch_error(switch: raw::Switch) -> (String, ValidationErrorKind) {
    match switch.validate(false) {
        Ok(_) => panic!("the switch was accepted"),
        Err(error) => (error.name().to_owned(), error.kind()),
    }
}

fn config_error(config: raw::Config) -> (String, ValidationErrorKind) {
    match config.validate() {
        Ok(_) => panic!("the specification was accepted"),
        Err(error) => (error.name().to_owned(), error.kind()),
    }
}

#[test]
fn mandatory_param_without_default() {
    let mut port = param("port");
    port.optional = Some(false);
    let valid = port.validate(true, true, false).ok().unwrap();
    assert!(matches!(valid.optionality, Optionality::Mandatory));
    assert_eq!(valid.name, "port");
    assert_eq!(valid.ty, "u16");
    assert_eq!(valid.abbr, None);
    assert_eq!(valid.doc, None);
}

#[test]
fn switch_on_by_default_is_inverted() {
    let mut quiet = switch("quiet");
    quiet.default = Some(true);
    let valid = quiet.validate(false).ok().unwrap();
    assert!(valid.kind == SwitchKind::Inverted);
    assert_eq!(valid.name, "quiet");
    assert!(valid.is_inverted());
    assert!(!valid.is_count());
}

#[test]
fn counting_switch_with_abbreviation() {
    let mut verbose = switch("verbose");
    verbose.abbr = Some("v".to_owned());
    verbose.count = Some(true);
    let valid = verbose.validate(false).ok().unwrap();
    assert!(valid.kind == SwitchKind::Normal { abbr: Some('v'), count: true });
    assert!(valid.is_count());
    assert!(!valid.is_inverted());
}

#[test]
fn mandatory_with_default_is_rejected_whatever_the_fallback() {
    for default_optional in [true, false] {
        let mut port = param("port");
        port.optional = Some(false);
        port.default = Some("8080".to_owned());
        assert_eq!(
            param_error(port, default_optional),
            ("port".to_owned(), ValidationErrorKind::MandatoryWithDefault)
        );
    }
}

#[test]
fn unset_optionality_follows_the_fallback() {
    let valid = param("a").validate(true, true, false).ok().unwrap();
    assert!(matches!(valid.optionality, Optionality::Optional));
    let valid = param("a").validate(false, true, false).ok().unwrap();
    assert!(matches!(valid.optionality, Optionality::Mandatory));
}

#[test]
fn explicit_optionality_beats_the_fallback() {
    let mut a = param("a");
    a.optional = Some(true);
    let valid = a.validate(false, true, false).ok().unwrap();
    assert!(matches!(valid.optionality, Optionality::Optional));
    let mut b = param("b");
    b.optional = Some(false);
    let valid = b.validate(true, true, false).ok().unwrap();
    assert!(matches!(valid.optionality, Optionality::Mandatory));
}

#[test]
fn default_expression_beats_optionality() {
    for optional in [None, Some(true)] {
        for default_optional in [true, false] {
            let mut a = param("a");
            a.optional = optional;
            a.default = Some("42".to_owned());
            let valid = a.validate(default_optional, true, false).ok().unwrap();
            match valid.optionality {
                Optionality::DefaultValue(expression) => assert_eq!(expression, "42"),
                _ => panic!("the default expression was lost"),
            }
        }
    }
}

#[test]
fn param_abbreviation_of_one_character_is_that_character() {
    for (text, chr) in [("p", 'p'), ("3", '3'), ("-", '-'), ("\u{e9}", '\u{e9}'), ("\u{1f600}", '\u{1f600}')] {
        let mut a = param("a");
        a.abbr = Some(text.to_owned());
        let valid = a.validate(true, true, false).ok().unwrap();
        assert_eq!(valid.abbr, Some(chr));
    }
}

#[test]
fn param_abbreviation_of_other_length_is_rejected() {
    for text in ["", "ab", "abc", "\u{e9}\u{e9}"] {
        let mut a = param("a");
        a.abbr = Some(text.to_owned());
        assert_eq!(param_error(a, true), ("a".to_owned(), ValidationErrorKind::InvalidAbbr));
    }
}

#[test]
fn contradiction_is_found_before_a_bad_abbreviation() {
    let mut a = param("a");
    a.abbr = Some("".to_owned());
    a.optional = Some(false);
    a.default = Some("1".to_owned());
    assert_eq!(param_error(a, true), ("a".to_owned(), ValidationErrorKind::MandatoryWithDefault));
}

#[test]
fn param_fallbacks_fill_what_is_unset() {
    let valid = param("a").validate(true, true, false).ok().unwrap();
    assert!(valid.argument);
    assert!(!valid.env_var);
    let valid = param("a").validate(true, false, true).ok().unwrap();
    assert!(!valid.argument);
    assert!(valid.env_var);
    let mut a = param("a");
    a.argument = Some(false);
    a.env_var = Some(true);
    let valid = a.validate(true, true, false).ok().unwrap();
    assert!(!valid.argument);
    assert!(valid.env_var);
}

#[test]
fn conversion_target_defaults_to_the_declared_type() {
    let valid = param("a").validate(true, true, false).ok().unwrap();
    assert_eq!(valid.convert_into, "u16");
    let mut a = param("a");
    a.convert_into = Some("u32".to_owned());
    a.doc = Some("A port.".to_owned());
    let valid = a.validate(true, true, false).ok().unwrap();
    assert_eq!(valid.convert_into, "u32");
    assert_eq!(valid.ty, "u16");
    assert_eq!(valid.doc, Some("A port.".to_owned()));
}

#[test]
fn inverted_switch_with_abbreviation_is_rejected() {
    for count in [None, Some(false), Some(true)] {
        let mut quiet = switch("quiet");
        quiet.abbr = Some("q".to_owned());
        quiet.default = Some(true);
        quiet.count = count;
        assert_eq!(
            switch_error(quiet),
            ("quiet".to_owned(), ValidationErrorKind::InvertedWithAbbr)
        );
    }
}

#[test]
fn inverted_switch_that_counts_is_rejected() {
    let mut quiet = switch("quiet");
    quiet.default = Some(true);
    quiet.count = Some(true);
    assert_eq!(switch_error(quiet), ("quiet".to_owned(), ValidationErrorKind::InvertedWithCount));
}

#[test]
fn inverted_switch_that_does_not_count_is_accepted() {
    let mut quiet = switch("quiet");
    quiet.default = Some(true);
    quiet.count = Some(false);
    quiet.doc = Some("Says less.".to_owned());
    let valid = quiet.validate(true).ok().unwrap();
    assert!(valid.kind == SwitchKind::Inverted);
    assert_eq!(valid.doc, Some("Says less.".to_owned()));
    assert!(valid.env_var);
}

#[test]
fn switch_abbreviation_must_be_an_ascii_letter() {
    for text in ["3", "", "ab", "-", "@", "[", "`", "{", "\u{e9}"] {
        let mut a = switch("a");
        a.abbr = Some(text.to_owned());
        assert_eq!(switch_error(a), ("a".to_owned(), ValidationErrorKind::InvalidAbbr));
    }
    for (text, chr) in [("p", 'p'), ("a", 'a'), ("z", 'z'), ("A", 'A'), ("Z", 'Z')] {
        for default in [None, Some(false)] {
            let mut a = switch("a");
            a.abbr = Some(text.to_owned());
            a.default = default;
            let valid = a.validate(false).ok().unwrap();
            assert!(valid.kind == SwitchKind::Normal { abbr: Some(chr), count: false });
        }
    }
}

#[test]
fn plain_switch_is_normal() {
    let valid = switch("fast").validate(false).ok().unwrap();
    assert!(valid.kind == SwitchKind::Normal { abbr: None, count: false });
    assert!(!valid.env_var);
    let mut fast = switch("fast");
    fast.env_var = Some(true);
    fast.count = Some(false);
    let valid = fast.validate(false).ok().unwrap();
    assert!(valid.kind == SwitchKind::Normal { abbr: None, count: false });
    assert!(valid.env_var);
}

#[test]
fn environment_prefix_turns_environment_variables_on() {
    let mut overridden = param("b");
    overridden.env_var = Some(false);
    let mut silent = switch("d");
    silent.env_var = Some(false);
    let mut raw = config(vec![param("a"), overridden], vec![switch("c"), silent]);
    raw.general.env_prefix = Some("APP".to_owned());
    let valid = raw.validate().ok().unwrap();
    assert!(valid.params[0].env_var);
    assert!(!valid.params[1].env_var);
    assert!(valid.switches[0].env_var);
    assert!(!valid.switches[1].env_var);
    assert_eq!(valid.general.env_prefix, Some("APP".to_owned()));
}

#[test]
fn without_prefix_environment_variables_are_off() {
    let valid = config(vec![param("a")], vec![switch("c")]).validate().ok().unwrap();
    assert!(!valid.params[0].env_var);
    assert!(!valid.switches[0].env_var);
}

#[test]
fn explicit_fallback_beats_the_prefix() {
    let mut raw = config(vec![param("a")], vec![switch("c")]);
    raw.general.env_prefix = Some("APP".to_owned());
    raw.defaults.env_vars = Some(false);
    let valid = raw.validate().ok().unwrap();
    assert!(!valid.params[0].env_var);
    assert!(!valid.switches[0].env_var);
    let mut raw = config(vec![param("a")], vec![switch("c")]);
    raw.defaults.env_vars = Some(true);
    let valid = raw.validate().ok().unwrap();
    assert!(valid.params[0].env_var);
    assert!(valid.switches[0].env_var);
    assert_eq!(valid.defaults.env_vars, Some(true));
}

#[test]
fn specification_fallbacks_reach_the_parameters() {
    let mut raw = config(vec![param("a")], vec![]);
    raw.defaults.args = false;
    raw.defaults.optional = false;
    let valid = raw.validate().ok().unwrap();
    assert!(!valid.params[0].argument);
    assert!(matches!(valid.params[0].optionality, Optionality::Mandatory));
    assert!(!valid.defaults.args);
    assert!(!valid.defaults.optional);
}

#[test]
fn accepted_specification_keeps_order_and_settings() {
    let mut raw = config(vec![param("a"), param("b"), param("c")], vec![switch("x"), switch("y")]);
    raw.general.name = Some("app".to_owned());
    raw.general.summary = Some("An app.".to_owned());
    raw.general.doc = Some("Does things.".to_owned());
    let valid = raw.validate().ok().unwrap();
    let names: Vec<&str> = valid.params.iter().map(|param| param.name.as_str()).collect();
    assert_eq!(names, ["a", "b", "c"]);
    let names: Vec<&str> = valid.switches.iter().map(|switch| switch.name.as_str()).collect();
    assert_eq!(names, ["x", "y"]);
    assert_eq!(valid.general.name, Some("app".to_owned()));
    assert_eq!(valid.general.summary, Some("An app.".to_owned()));
    assert_eq!(valid.general.doc, Some("Does things.".to_owned()));
}

#[test]
fn empty_specification_is_accepted() {
    let valid = config(vec![], vec![]).validate().ok().unwrap();
    assert!(valid.params.is_empty());
    assert!(valid.switches.is_empty());
}

#[test]
fn first_rejected_parameter_is_reported() {
    let mut second = param("second");
    second.abbr = Some("xy".to_owned());
    let mut third = param("third");
    third.optional = Some(false);
    third.default = Some("1".to_owned());
    let raw = config(vec![param("first"), second, third], vec![]);
    assert_eq!(config_error(raw), ("second".to_owned(), ValidationErrorKind::InvalidAbbr));
}

#[test]
fn parameters_are_checked_before_switches() {
    let mut bad_switch = switch("quiet");
    bad_switch.default = Some(true);
    bad_switch.count = Some(true);
    let mut bad_param = param("port");
    bad_param.optional = Some(false);
    bad_param.default = Some("1".to_owned());
    let raw = config(vec![param("first"), bad_param], vec![bad_switch]);
    assert_eq!(config_error(raw), ("port".to_owned(), ValidationErrorKind::MandatoryWithDefault));
}

#[test]
fn first_rejected_switch_is_reported() {
    let mut second = switch("second");
    second.abbr = Some("3".to_owned());
    let mut third = switch("third");
    third.default = Some(true);
    third.abbr = Some("t".to_owned());
    let raw = config(vec![param("a")], vec![switch("first"), second, third]);
    assert_eq!(config_error(raw), ("second".to_owned(), ValidationErrorKind::InvalidAbbr));
}

#[test]
fn default_fallbacks() {
    let defaults = Defaults::default();
    assert!(defaults.args);
    assert_eq!(defaults.env_vars, None);
    assert!(defaults.optional);
    assert!(make_true());
}

#[test]
fn default_general_settings_are_unset() {
    let general = General::default();
    assert_eq!(general.name, None);
    assert_eq!(general.summary, None);
    assert_eq!(general.doc, None);
    assert_eq!(general.env_prefix, None);
}

#[test]
fn switch_kind_queries() {
    let make = |kind| Switch { name: "s".to_owned(), kind, doc: None, env_var: false };
    assert!(make(SwitchKind::Inverted).is_inverted());
    assert!(!make(SwitchKind::Inverted).is_count());
    assert!(make(SwitchKind::Normal { abbr: None, count: true }).is_count());
    assert!(!make(SwitchKind::Normal { abbr: Some('c'), count: false }).is_count());
    assert!(!make(SwitchKind::Normal { abbr: None, count: true }).is_inverted());
}
