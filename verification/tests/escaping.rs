use dsc_tg_forwarder::EscapeMarkdownV2;

#[test]
fn escapes_bold_marker_example() {
    let result = "*Hello world!*".to_owned().escape_markdown_v2();
    assert_eq!(result, "\\*Hello world\\!\\*".to_owned());
}

#[test]
fn escapes_every_reserved_character() {
    let input = "_*[]()~`>#+-=|{}.!".to_owned();
    let expected = "\\_\\*\\[\\]\\(\\)\\~\\`\\>\\#\\+\\-\\=\\|\\{\\}\\.\\!";
    assert_eq!(input.escape_markdown_v2(), expected);
}

#[test]
fn leaves_plain_text_unchanged() {
    let input = "Hello world 123 abc".to_owned();
    assert_eq!(input.escape_markdown_v2(), "Hello world 123 abc");
}

#[test]
fn empty_input_gives_empty_output() {
    assert_eq!("".to_owned().escape_markdown_v2(), "");
}

#[test]
fn multi_byte_characters_survive_escaping() {
    let input = "héllo wörld! ☃".to_owned();
    assert_eq!(input.escape_markdown_v2(), "héllo wörld\\! ☃");
}

#[test]
fn backslash_itself_is_not_reserved() {
    let input = "a\\b".to_owned();
    assert_eq!(input.escape_markdown_v2(), "a\\b");
}

#[test]
fn re_escaping_double_escapes() {
    let once = "a.b".to_owned().escape_markdown_v2();
    assert_eq!(once, "a\\.b");
    let twice = once.escape_markdown_v2();
    assert_eq!(twice, "a\\\\.b");
}

#[test]
fn mixed_text_escapes_only_reserved() {
    let input = "price: 3.50 (roughly)".to_owned();
    assert_eq!(input.escape_markdown_v2(), "price: 3\\.50 \\(roughly\\)");
}
