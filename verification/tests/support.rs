use std::cmp::Ordering;
use fern::config::is_allowed_api_base;
use fern::provider::runpod::choose_error_message;
use fern::deploy::{deploy_step, DeployStep};
use fern::env_vars::EnvVars;
use fern::text::{decimal_string, is_whitespace, trim};
use fern::Error;

#[test]
fn deploy_requires_confirmation() {
    assert!(matches!(deploy_step(300, false, true), Ok(DeployStep::CreatePod)));
    assert!(matches!(deploy_step(300, true, false), Ok(DeployStep::PrintRequest)));
    match deploy_step(300, false, false) {
        Err(Error::Config(m)) => assert_eq!(
            m,
            "deploy creates a billable Pod; inspect with --dry-run or confirm with --yes"
        ),
        _ => panic!("an unconfirmed deploy must be refused"),
    }
    match deploy_step(0, true, true) {
        Err(Error::Config(m)) => assert_eq!(m, "--duration must be at least 1 second"),
        _ => panic!("a zero duration must be refused"),
    }
}

#[test]
fn env_vars_read_back_what_was_written() {
    let mut env = EnvVars::new();
    assert_eq!(env.len(), 0);
    env.insert("A".into(), "1".into());
    env.insert("B".into(), "2".into());
    env.insert("A".into(), "3".into());
    assert_eq!(env.len(), 2);
    assert_eq!(env.get("A").unwrap(), "3");
    assert_eq!(env.get("B").unwrap(), "2");
    assert!(env.get("C").is_none());
    assert!(env.contains_key("B"));
    let copy = env.clone();
    assert_eq!(copy.get("A").unwrap(), "3");
    assert_eq!(copy.entries().len(), 2);
}

#[test]
fn trim_matches_std() {
    for text in ["", "   ", " a b ", "\u{2003}x\u{3000}", "\t\nline\r\n", "none"] {
        assert_eq!(trim(text), text.trim());
        assert_eq!(trim(trim(text)), trim(text));
    }
    for c in ['\u{85}', '\u{a0}', '\u{1680}', '\u{200b}', 'x', ' ', '\u{205f}'] {
        assert_eq!(is_whitespace(c), c.is_whitespace());
    }
}

#[test]
fn decimal_matches_std() {
    for n in [0u32, 9, 10, 99, 100, 65535, 4294967295] {
        assert_eq!(decimal_string(n), n.to_string());
    }
}

#[test]
fn api_base_policy() {
    assert!(is_allowed_api_base("https", Some("rest.runpod.io")));
    assert!(is_allowed_api_base("https", None));
    assert!(is_allowed_api_base("http", Some("localhost")));
    assert!(is_allowed_api_base("http", Some("127.0.0.1")));
    assert!(is_allowed_api_base("http", Some("[::1]")));
    assert!(!is_allowed_api_base("http", Some("example.com")));
    assert!(!is_allowed_api_base("http", Some("::1")));
    assert!(!is_allowed_api_base("HTTPS", Some("example.com")));
    assert!(!is_allowed_api_base("file", None));
}

#[test]
fn error_message_choice() {
    let members = vec![Some("  ".to_string()), None, Some(" hi ".to_string())];
    assert_eq!(choose_error_message(&members, "body", None), "hi");
    let members = vec![None, Some("\t".to_string())];
    assert_eq!(choose_error_message(&members, " raw body ", Some("Bad Gateway")), "raw body");
    assert_eq!(choose_error_message(&members, " ", Some("Bad Gateway")), "Bad Gateway");
    assert_eq!(choose_error_message(&vec![], "", None), "unknown provider error");
}

#[test]
fn env_vars_are_kept_in_name_order() {
    let mut env = EnvVars::new();
    for name in ["b", "a", "ab", "B", "\u{e9}", "a"] {
        env.insert(name.to_string(), name.to_uppercase());
    }
    let names: Vec<&str> = env.entries().iter().map(|(k, _)| k.as_str()).collect();
    assert_eq!(names, ["B", "a", "ab", "b", "\u{e9}"]);
    assert_eq!(env.len(), 5);
}

#[test]
fn text_order_matches_std() {
    let texts = ["", "a", "ab", "b", "B", "\u{e9}", "\u{1f600}", "aa"];
    for x in texts {
        for y in texts {
            assert_eq!(
                fern::text::text_less(x, y),
                x.cmp(y) == Ordering::Less,
                "{x:?} < {y:?}"
            );
        }
    }
}
