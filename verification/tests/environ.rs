use satellite::environ::activation_token;

fn token(environ: &[u8]) -> Option<String> {
    activation_token(&environ.to_vec())
}

#[test]
fn token_is_what_the_line_sets() {
    assert_eq!(token(b"A=1\0XDG_ACTIVATION_TOKEN=tok-1\0B=2\0").as_deref(), Some("tok-1"));
    assert_eq!(token(b"XDG_ACTIVATION_TOKEN=only").as_deref(), Some("only"));
    assert_eq!(token(b"XDG_ACTIVATION_TOKEN=\0").as_deref(), Some(""));
    assert_eq!(token("XDG_ACTIVATION_TOKEN=\u{e4}\0".as_bytes()).as_deref(), Some("\u{e4}"));
}

#[test]
fn the_first_line_counts() {
    assert_eq!(
        token(b"XDG_ACTIVATION_TOKEN=one\0XDG_ACTIVATION_TOKEN=two\0").as_deref(),
        Some("one")
    );
}

#[test]
fn no_line_no_token() {
    assert_eq!(token(b""), None);
    assert_eq!(token(b"A=1\0B=2\0"), None);
    assert_eq!(token(b"XDG_ACTIVATION_TOKEN\0"), None);
    assert_eq!(token(b"NOT_XDG_ACTIVATION_TOKEN=x\0"), None);
    assert_eq!(token(b"A=XDG_ACTIVATION_TOKEN=x\0"), None);
}

#[test]
fn token_that_is_not_text_is_dropped() {
    assert_eq!(token(b"XDG_ACTIVATION_TOKEN=\xff\0XDG_ACTIVATION_TOKEN=fine\0"), None);
}
