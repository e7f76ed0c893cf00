use quickreplace::report::{
    decimal_string, read_failure_line, replace_failure_line, usage_first_line, usage_second_line,
    write_failure_line, wrong_count_line,
};

#[test]
fn decimal_renders_each_digit() {
    assert_eq!(decimal_string(0), "0");
    assert_eq!(decimal_string(7), "7");
    assert_eq!(decimal_string(10), "10");
    assert_eq!(decimal_string(42), "42");
    assert_eq!(decimal_string(1009), "1009");
}

#[test]
fn decimal_renders_the_largest_count() {
    assert_eq!(
        decimal_string(u64::MAX as usize),
        "18446744073709551615"
    );
}

#[test]
fn usage_banner_names_the_tool() {
    let first = usage_first_line();
    let plain = "quickreplace - change occurances of one string into another";
    let colored = "\u{1b}[32mquickreplace\u{1b}[0m - change occurances of one string into another";
    assert!(first == plain || first == colored);
    assert_eq!(
        usage_second_line(),
        "Usage: quickreplace <target> <replacement> <INPUT> <OUTPUT>"
    );
}

#[test]
fn wrong_count_line_names_both_counts() {
    let line = wrong_count_line(3);
    let plain = "ERROR wrong number of arguments: expected 4, got 3";
    let colored = "\u{1b}[35mERROR\u{1b}[0m wrong number of arguments: expected 4, got 3";
    assert!(line == plain || line == colored);
}

#[test]
fn read_failure_line_names_path_and_cause() {
    let line = read_failure_line("input.txt", "gone");
    let plain = "ERROR failed to read from the file 'input.txt':gone";
    let colored = "\u{1b}[35mERROR\u{1b}[0m failed to read from the file 'input.txt':gone";
    assert!(line == plain || line == colored);
}

#[test]
fn replace_failure_line_names_the_cause() {
    let line = replace_failure_line("bad pattern");
    let plain = "Error: failed to replace text: bad pattern";
    let colored = "\u{1b}[1;35mError:\u{1b}[0m failed to replace text: bad pattern";
    assert!(line == plain || line == colored);
}

#[test]
fn write_failure_line_names_path_and_cause() {
    let line = write_failure_line("output.txt", "full");
    let plain = "ERROR failed to write to file 'output.txt': full";
    let colored = "\u{1b}[35mERROR\u{1b}[0m failed to write to file 'output.txt': full";
    assert!(line == plain || line == colored);
}
