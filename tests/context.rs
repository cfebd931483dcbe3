use tunka::context::{Context, ContextBuilder};
use tunka::error::Error;
use tunka::text::{decimal_text, lex_less, replace_all_text};

fn context(user: &str, home: &str, dir: &str) -> Context {
    ContextBuilder::new()
        .control_path_directory(dir)
        .build(Some(user.to_owned()), Some(home.to_owned()))
        .unwrap()
}

#[test]
fn apply_replaces_user_then_home() {
    let ctx = context("alice", "/home/alice", "/tmp/app");
    assert_eq!(ctx.apply("$USER/$HOME/x"), "alice//home/alice/x");
}

#[test]
fn apply_leaves_text_without_placeholders() {
    let ctx = context("alice", "/home/alice", "/tmp/app");
    assert_eq!(ctx.apply(""), "");
    assert_eq!(ctx.apply("$US"), "$US");
    assert_eq!(ctx.apply("$USER$USER"), "alicealice");
    assert_eq!(ctx.apply("a$HOMEb"), "a/home/aliceb");
}

#[test]
fn apply_path_expands_every_segment() {
    let ctx = context("alice", "/home/alice", "/tmp/app");
    assert_eq!(ctx.apply_path("/data/$USER/keys/$USER.pem"), "/data/alice/keys/alice.pem");
    assert_eq!(ctx.apply_path("$HOME/.ssh/id_rsa"), "/home/alice/.ssh/id_rsa");
    assert_eq!(ctx.apply_path("plain"), "plain");
    assert_eq!(ctx.apply_path(""), "");
}

#[test]
fn control_path_directory_is_expanded() {
    let ctx = context("bob", "/home/bob", "/tmp/$USER/sockets");
    assert_eq!(ctx.control_path_directory(), "/tmp/bob/sockets");
}

#[test]
fn default_control_path_directory() {
    let ctx = ContextBuilder::new().build(Some("bob".to_owned()), Some("/home/bob".to_owned())).unwrap();
    assert_eq!(ctx.control_path_directory(), "/tmp/tunka");
}

#[test]
fn build_without_user_name_fails() {
    let r = ContextBuilder::new().build(None, Some("/home/bob".to_owned()));
    assert!(matches!(r, Err(Error::UserNameNotFound)));
    let r = ContextBuilder::new().build(None, None);
    assert!(matches!(r, Err(Error::UserNameNotFound)));
}

#[test]
fn build_without_home_directory_fails() {
    let r = ContextBuilder::new().build(Some("bob".to_owned()), None);
    assert!(matches!(r, Err(Error::HomeDirectoryNotFound)));
}

#[test]
fn replace_all_text_scans_left_to_right() {
    assert_eq!(replace_all_text("aaa", "aa", "b"), "ba");
    assert_eq!(replace_all_text("xyz", "q", "r"), "xyz");
    assert_eq!(replace_all_text("héllo wörld", "ö", "o"), "héllo world");
}

#[test]
fn decimal_text_writes_numbers() {
    assert_eq!(decimal_text(0), "0");
    assert_eq!(decimal_text(22), "22");
    assert_eq!(decimal_text(65535), "65535");
    assert_eq!(decimal_text(u64::MAX), u64::MAX.to_string());
}

#[test]
fn lex_less_orders_like_str() {
    assert!(lex_less("a", "b"));
    assert!(lex_less("", "a"));
    assert!(lex_less("ab", "abc"));
    assert!(!lex_less("abc", "ab"));
    assert!(!lex_less("same", "same"));
    assert!(lex_less("Z", "a"));
}
