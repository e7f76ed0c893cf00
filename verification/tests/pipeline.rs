use quickreplace::args::parse_args;
use quickreplace::engine::substitute;

#[test]
fn collected_arguments_drive_a_substitution() {
    let argv = vec![
        "world".to_string(),
        "Rust".to_string(),
        "input.txt".to_string(),
        "output.txt".to_string(),
    ];
    let a = parse_args(&argv).unwrap();
    let out = substitute(&a.target, &a.replacement, "hello world").unwrap();
    assert_eq!(out, "hello Rust");
}
