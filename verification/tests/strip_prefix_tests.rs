use docker_dns::strip_prefix_sane::SaneStrip;

#[test]
fn prefix_ok() {
    assert_eq!("abc".strip_prefix_sane("a"), "bc");
    assert_eq!("abc".strip_prefix_sane("x"), "abc");
    assert_eq!("".strip_prefix_sane("x"), "");
}

#[test]
fn unicode_ok() {
    let s = "æøåzzz";
    assert_eq!(s.strip_prefix_sane("æø"), "åzzz");
}

#[test]
fn prefix_that_is_the_whole_text_leaves_nothing() {
    assert_eq!("abc".strip_prefix_sane("abc"), "");
    assert_eq!("abc".strip_prefix_sane(""), "abc");
    assert_eq!("ab".strip_prefix_sane("abc"), "ab");
}

#[test]
fn prefix_is_removed_once() {
    assert_eq!("//web".strip_prefix_sane("/"), "/web");
}
