use coordinator::env::{EnvValue, Environment};

#[test]
fn nothing_is_set_in_a_new_snapshot() {
    let env = Environment::new();
    assert_eq!(env.var("PALADIN_RUNTIME"), EnvValue::NotPresent);
    assert_eq!(env.var(""), EnvValue::NotPresent);
}

#[test]
fn a_variable_that_was_set_is_found() {
    let mut env = Environment::new();
    env.set("A", "1");
    env.set("B", "2");
    assert_eq!(env.var("A"), EnvValue::Present(String::from("1")));
    assert_eq!(env.var("B"), EnvValue::Present(String::from("2")));
    assert_eq!(env.var("C"), EnvValue::NotPresent);
    assert_eq!(env.var("a"), EnvValue::NotPresent);
}

#[test]
fn what_was_recorded_last_counts() {
    let mut env = Environment::new();
    env.set("A", "1");
    env.set("A", "2");
    assert_eq!(env.var("A"), EnvValue::Present(String::from("2")));
    env.set_not_unicode("A");
    assert_eq!(env.var("A"), EnvValue::NotUnicode);
    env.remove("A");
    assert_eq!(env.var("A"), EnvValue::NotPresent);
    env.record("A", EnvValue::Present(String::from("3")));
    assert_eq!(env.var("A"), EnvValue::Present(String::from("3")));
}

#[test]
fn recording_one_variable_leaves_the_others() {
    let mut env = Environment::new();
    env.set("A", "1");
    env.set_not_unicode("B");
    env.remove("A");
    assert_eq!(env.var("B"), EnvValue::NotUnicode);
    env.set("C", "");
    assert_eq!(env.var("B"), EnvValue::NotUnicode);
    assert_eq!(env.var("C"), EnvValue::Present(String::new()));
}

#[test]
fn a_copy_of_a_value_is_equal_to_it() {
    let values = [
        EnvValue::Present(String::from("text")),
        EnvValue::NotPresent,
        EnvValue::NotUnicode,
    ];
    for value in values {
        assert_eq!(value.clone(), value);
    }
}
