use each_cmd::render::render;

#[test]
fn renders_example_hostnames() {
    assert_eq!(render("echo HOST", "HOST", "a"), "echo a");
    assert_eq!(render("echo HOST", "HOST", "b"), "echo b");
}

#[test]
fn replaces_every_occurrence() {
    assert_eq!(render("ping HOST && ssh HOST uptime", "HOST", "web1"), "ping web1 && ssh web1 uptime");
}

#[test]
fn absent_tag_leaves_template_unchanged() {
    assert_eq!(render("echo hello", "HOST", "a"), "echo hello");
    assert_eq!(render("echo hello", "HOST", "b"), "echo hello");
}

#[test]
fn empty_template_renders_empty() {
    assert_eq!(render("", "HOST", "a"), "");
}

#[test]
fn empty_tag_interleaves_hostname() {
    // An empty tag matches at every character boundary, both ends included.
    assert_eq!(render("abc", "", "-"), "-a-b-c-");
    assert_eq!(render("", "", "x"), "x");
}

#[test]
fn replacement_is_leftmost_and_non_overlapping() {
    assert_eq!(render("aaa", "aa", "b"), "ba");
    assert_eq!(render("aaaa", "aa", "b"), "bb");
}

#[test]
fn no_recursive_expansion() {
    // A hostname that itself contains the tag is substituted literally, once.
    assert_eq!(render("HOST", "HOST", "xHOSTx"), "xHOSTx");
    assert_eq!(render("run HOST", "HOST", "HOST HOST"), "run HOST HOST");
}

#[test]
fn tag_equal_to_template() {
    assert_eq!(render("HOST", "HOST", "a"), "a");
}

#[test]
fn empty_hostname_deletes_occurrences() {
    assert_eq!(render("a HOST b HOST", "HOST", ""), "a  b ");
}

#[test]
fn render_agrees_with_literal_string_replacement() {
    // Literal substring replacement, exactly as the standard library does it.
    let cases: Vec<(&str, &str, &str)> = vec![
        ("echo HOST", "HOST", "a"),
        ("ping HOST && ssh HOST", "HOST", "web-01"),
        ("no tag here", "HOST", "a"),
        ("aaa", "aa", "b"),
        ("abc", "", "-"),
        ("", "", "-"),
        ("", "HOST", "x"),
        ("HOSTHOST", "HOST", "h"),
        ("xyHOSTyx", "y", "yy"),
        ("uptime", "uptime", ""),
    ];
    for (template, tag, host) in cases {
        assert_eq!(render(template, tag, host), template.replace(tag, host));
    }
}

#[test]
fn renders_multibyte_characters() {
    assert_eq!(render("grüße HOST", "HOST", "köln"), "grüße köln");
    assert_eq!(render("aéa", "é", "b"), "aba");
}
