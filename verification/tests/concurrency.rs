use snippets::concurrency::{greeting, output};

#[test]
fn greeting_of_the_two_workers() {
    assert_eq!(greeting(1), "Running in thread 1!");
    assert_eq!(greeting(2), "Running in thread 2!");
}

#[test]
fn greeting_of_other_numbers() {
    assert_eq!(greeting(0), "Running in thread 0!");
    assert_eq!(greeting(10), "Running in thread 10!");
    assert_eq!(greeting(u32::MAX), "Running in thread 4294967295!");
}

#[test]
fn greeting_agrees_with_the_standard_formatting() {
    for thread in 0u32..200 {
        assert_eq!(greeting(thread), format!("Running in thread {}!", thread));
    }
}

#[test]
fn output_has_one_line_per_worker() {
    let lines = output();
    assert_eq!(lines, vec!["Running in thread 1!".to_string(), "Running in thread 2!".to_string()]);
}

#[test]
fn output_holds_each_line_exactly_once() {
    let lines = output();
    assert_eq!(lines.len(), 2);
    assert_eq!(lines.iter().filter(|line| *line == "Running in thread 1!").count(), 1);
    assert_eq!(lines.iter().filter(|line| *line == "Running in thread 2!").count(), 1);
}

#[test]
fn output_is_the_same_on_every_run() {
    let first = output();
    for _ in 0..10 {
        assert_eq!(output(), first);
    }
}
