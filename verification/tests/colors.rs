use quickreplace::report::{
    read_failure_line, replace_failure_line, usage_first_line, write_failure_line,
    wrong_count_line,
};
use text_colorizer::control::{set_override, unset_override};

#[test]
fn styling_follows_the_colorizer_override() {
    set_override(true);
    assert_eq!(
        usage_first_line(),
        "\u{1b}[32mquickreplace\u{1b}[0m - change occurances of one string into another"
    );
    assert_eq!(
        wrong_count_line(2),
        "\u{1b}[35mERROR\u{1b}[0m wrong number of arguments: expected 4, got 2"
    );
    assert_eq!(
        read_failure_line("in.txt", "gone"),
        "\u{1b}[35mERROR\u{1b}[0m failed to read from the file 'in.txt':gone"
    );
    assert_eq!(
        replace_failure_line("bad"),
        "\u{1b}[1;35mError:\u{1b}[0m failed to replace text: bad"
    );
    assert_eq!(
        write_failure_line("out.txt", "full"),
        "\u{1b}[35mERROR\u{1b}[0m failed to write to file 'out.txt': full"
    );
    set_override(false);
    assert_eq!(
        usage_first_line(),
        "quickreplace - change occurances of one string into another"
    );
    assert_eq!(
        wrong_count_line(5),
        "ERROR wrong number of arguments: expected 4, got 5"
    );
    unset_override();
}
