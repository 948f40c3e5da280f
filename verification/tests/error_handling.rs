use snippets::error_handling::{do_something, output, render};

#[test]
fn do_something_fails_with_the_message() {
    assert_eq!(do_something(), Err("Some error".to_string()));
}

#[test]
fn do_something_fails_on_every_call() {
    for _ in 0..100 {
        let outcome = do_something();
        assert!(matches!(outcome, Err(ref message) if message == "Some error"));
    }
}

#[test]
fn success_is_rendered_with_its_value() {
    assert_eq!(render(&Ok(42)), "Success: 42");
    assert_eq!(render(&Ok(0)), "Success: 0");
    assert_eq!(render(&Ok(-5)), "Success: -5");
}

#[test]
fn success_is_rendered_for_the_extremes() {
    assert_eq!(render(&Ok(i32::MAX)), "Success: 2147483647");
    assert_eq!(render(&Ok(i32::MIN)), "Success: -2147483648");
}

#[test]
fn success_agrees_with_the_standard_formatting() {
    for value in -300i32..=300 {
        assert_eq!(render(&Ok(value)), format!("Success: {}", value));
    }
}

#[test]
fn failure_is_rendered_with_its_message() {
    assert_eq!(render(&Err("Some error".to_string())), "Error: Some error");
    assert_eq!(render(&Err("disk full".to_string())), "Error: disk full");
}

#[test]
fn failure_with_an_empty_message() {
    assert_eq!(render(&Err(String::new())), "Error: ");
}

#[test]
fn failure_keeps_characters_outside_ascii() {
    assert_eq!(render(&Err("caf\u{e9} \u{2713}".to_string())), "Error: caf\u{e9} \u{2713}");
}

#[test]
fn rendering_what_do_something_returns() {
    assert_eq!(render(&do_something()), "Error: Some error");
}

#[test]
fn error_output_is_one_fixed_line() {
    assert_eq!(output(), "Error: Some error");
}

#[test]
fn error_output_is_the_same_on_every_run() {
    let first = output();
    for _ in 0..10 {
        assert_eq!(output(), first);
    }
}
