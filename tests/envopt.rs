use envopt::environment::Environment;
use envopt::registry::{DeclarationError, Registry};

fn s(text: &str) -> String {
    text.to_string()
}

/// The registry of the usage example: `FOO` required, `BAR` defaulting to
/// `default-bar`. Returns it with the identifiers of the two options.
fn example() -> (Registry, usize, usize) {
    let mut reg = Registry::new();
    let foo = reg.add(s("FOO"), None).unwrap();
    let bar = reg.add(s("BAR"), Some(s("default-bar"))).unwrap();
    (reg, foo, bar)
}

#[test]
fn test() {
    let (reg, foo, bar) = example();
    assert_eq!(reg.len(), 2);
    assert_eq!(foo, 0);
    assert_eq!(bar, 1);
}

#[test]
fn nothing_set_reports_required_and_falls_back() {
    let (reg, foo, bar) = example();
    let env = Environment::new();
    assert_eq!(reg.validate(&env), Err(vec![s("Environment variable FOO not set")]));
    assert_eq!(reg.resolve(bar, &env), Ok(s("default-bar")));
    assert_eq!(reg.resolve(foo, &env), Err(s("Environment variable FOO not set")));
}

#[test]
fn required_set_validates_and_resolves() {
    let (reg, foo, bar) = example();
    let mut env = Environment::new();
    env.set(s("FOO"), s("hello"));
    assert_eq!(reg.validate(&env), Ok(()));
    assert_eq!(reg.resolve(foo, &env), Ok(s("hello")));
    assert_eq!(reg.resolve(bar, &env), Ok(s("default-bar")));
}

#[test]
fn empty_value_overrides_default() {
    let (reg, _foo, bar) = example();
    let mut env = Environment::new();
    env.set(s("BAR"), s(""));
    assert_eq!(reg.resolve(bar, &env), Ok(s("")));
}

#[test]
fn empty_value_counts_as_set_for_validation() {
    let (reg, foo, _bar) = example();
    let mut env = Environment::new();
    env.set(s("FOO"), s(""));
    assert_eq!(reg.validate(&env), Ok(()));
    assert_eq!(reg.resolve(foo, &env), Ok(s("")));
}

#[test]
fn every_missing_option_reported_in_order() {
    let mut reg = Registry::new();
    reg.add(s("ALPHA"), None).unwrap();
    reg.add(s("BETA"), Some(s("b"))).unwrap();
    reg.add(s("GAMMA"), None).unwrap();
    reg.add(s("DELTA"), None).unwrap();
    let mut env = Environment::new();
    env.set(s("GAMMA"), s("g"));
    assert_eq!(
        reg.validate(&env),
        Err(vec![
            s("Environment variable ALPHA not set"),
            s("Environment variable DELTA not set"),
        ])
    );
}

#[test]
fn optional_options_never_fail_validation() {
    let mut reg = Registry::new();
    reg.add(s("ONLY_OPTIONAL"), Some(s("x"))).unwrap();
    reg.add(s("REQUIRED"), None).unwrap();
    let mut env = Environment::new();
    env.set(s("REQUIRED"), s("r"));
    assert_eq!(reg.validate(&env), Ok(()));
}

#[test]
fn empty_registry_validates() {
    let reg = Registry::new();
    assert_eq!(reg.len(), 0);
    assert_eq!(reg.validate(&Environment::new()), Ok(()));
}

#[test]
fn repeated_calls_agree() {
    let (reg, foo, bar) = example();
    let mut env = Environment::new();
    env.set(s("BAR"), s("value"));
    assert_eq!(reg.validate(&env), reg.validate(&env));
    assert_eq!(reg.resolve(foo, &env), reg.resolve(foo, &env));
    assert_eq!(reg.resolve(bar, &env), reg.resolve(bar, &env));
}

#[test]
fn unrelated_variables_are_ignored() {
    let (reg, foo, bar) = example();
    let mut env = Environment::new();
    env.set(s("OTHER"), s("1"));
    assert_eq!(reg.validate(&env), Err(vec![s("Environment variable FOO not set")]));
    assert_eq!(reg.resolve(foo, &env), Err(s("Environment variable FOO not set")));
    assert_eq!(reg.resolve(bar, &env), Ok(s("default-bar")));
}

#[test]
fn declaration_without_name_is_refused() {
    let mut reg = Registry::new();
    assert_eq!(reg.add(s(""), None), Err(DeclarationError::MissingName));
    assert_eq!(reg.add(s(""), Some(s("d"))), Err(DeclarationError::MissingName));
    assert_eq!(reg.len(), 0);
    assert_eq!(reg.add(s("X"), None), Ok(0));
    assert_eq!(reg.name(0), &s("X"));
}

#[test]
fn duplicate_names_read_the_same_variable() {
    let mut reg = Registry::new();
    let a = reg.add(s("SAME"), None).unwrap();
    let b = reg.add(s("SAME"), Some(s("fallback"))).unwrap();
    let env = Environment::new();
    assert_eq!(reg.validate(&env), Err(vec![s("Environment variable SAME not set")]));
    assert_eq!(reg.resolve(b, &env), Ok(s("fallback")));
    let mut set = Environment::new();
    set.set(s("SAME"), s("v"));
    assert_eq!(reg.resolve(a, &set), Ok(s("v")));
    assert_eq!(reg.resolve(b, &set), Ok(s("v")));
}

#[test]
fn later_set_replaces_earlier_value() {
    let mut env = Environment::new();
    assert_eq!(env.var(&s("K")), None);
    env.set(s("K"), s("first"));
    env.set(s("L"), s("other"));
    env.set(s("K"), s("second"));
    assert_eq!(env.var(&s("K")), Some(s("second")));
    assert_eq!(env.var(&s("L")), Some(s("other")));
    assert_eq!(env.var(&s("M")), None);
}
