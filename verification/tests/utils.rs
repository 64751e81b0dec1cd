use xdg_desktop_portal_phosh::utils::{fill_once, substitute};

#[test]
fn arguments_fill_the_placeholders_in_turn() {
    assert_eq!(substitute("{} and {}", &["a", "b"]), "a and b");
    assert_eq!(substitute("Unknown argument: {}", &["--bogus"]), "Unknown argument: --bogus");
    assert_eq!(substitute("Usage:\n  {} [OPTION…]\n{} provides", &["xdpp", "xdpp"]),
        "Usage:\n  xdpp [OPTION…]\nxdpp provides");
}

#[test]
fn spare_arguments_and_placeholders_stay() {
    assert_eq!(substitute("no place", &["a"]), "no place");
    assert_eq!(substitute("{} and {}", &["a"]), "a and {}");
    assert_eq!(substitute("{}", &[]), "{}");
    assert_eq!(substitute("", &["a"]), "");
}

#[test]
fn a_placeholder_in_an_argument_is_filled_by_the_next() {
    assert_eq!(substitute("{} {}", &["{}", "x"]), "x {}");
    assert_eq!(substitute("{}", &["{}{}", "a", "b"]), "ab");
}

#[test]
fn braces_that_are_no_placeholder_stay() {
    assert_eq!(substitute("{ } {a} }{ {", &["x"]), "{ } {a} }{ {");
    assert_eq!(substitute("{{}}", &["x"]), "{x}");
    assert_eq!(substitute("é{}ü", &["ß"]), "éßü");
}

#[test]
fn fill_once_takes_the_first_placeholder() {
    assert_eq!(fill_once("a{}b{}c", "-"), "a-b{}c");
    assert_eq!(fill_once("abc", "-"), "abc");
    assert_eq!(fill_once("{}", ""), "");
    assert_eq!(fill_once("x{", "-"), "x{");
}
