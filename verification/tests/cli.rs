use bsproxy::cli::arg_value;

fn args(items: &[&str]) -> Vec<String> {
    items.iter().map(|s| s.to_string()).collect()
}

#[test]
fn value_after_the_option() {
    let a = args(&["bsproxy", "--port", "8080", "--status", "101 OK"]);
    assert_eq!(arg_value(&a, "--port", "80"), "8080");
    assert_eq!(arg_value(&a, "--status", "200 OK"), "101 OK");
}

#[test]
fn missing_option_gives_the_default() {
    let a = args(&["bsproxy"]);
    assert_eq!(arg_value(&a, "--port", "80"), "80");
}

#[test]
fn option_without_value_gives_the_default() {
    let a = args(&["bsproxy", "--port"]);
    assert_eq!(arg_value(&a, "--port", "80"), "80");
}

#[test]
fn first_occurrence_wins() {
    let a = args(&["--target", "a:1", "--target", "b:2"]);
    assert_eq!(arg_value(&a, "--target", "x"), "a:1");
}
