use imgd::cli::{generate_token, resolve_expiry, revoke_entries, token_cli, CliError, TokenCommand};
use imgd::token::{TokenEntry, TokenFile};

fn args(v: &[&str]) -> Vec<String> {
    v.iter().map(|s| s.to_string()).collect()
}

fn entry(name: &str, token: &str) -> TokenEntry {
    TokenEntry { name: name.to_string(), token: token.to_string(), expires_at: None, rate_limit_per_minute: None }
}

#[test]
fn empty_or_unknown_subcommand_is_help() {
    assert!(matches!(token_cli(&args(&[])), Ok(TokenCommand::Help)));
    assert!(matches!(token_cli(&args(&["frobnicate"])), Ok(TokenCommand::Help)));
}

#[test]
fn create_options_are_read() {
    let a = args(&["create", "--name", "ci", "--rate-limit", "30", "--days", "-2", "--tokens-file", "/tmp/t.json"]);
    match token_cli(&a) {
        Ok(TokenCommand::Create(o)) => {
            assert_eq!(o.name, "ci");
            assert_eq!(o.rate_limit_per_minute, Some(30));
            assert_eq!(o.days, Some(-2));
            assert_eq!(o.tokens_file.as_deref(), Some("/tmp/t.json"));
            assert!(!o.never_expire);
        }
        _ => panic!("expected create"),
    }
    match token_cli(&args(&["create"])) {
        Ok(TokenCommand::Create(o)) => assert_eq!(o.name, "default"),
        _ => panic!("expected create"),
    }
}

#[test]
fn create_errors_point_at_argument() {
    assert_eq!(token_cli(&args(&["create", "--name"])).err(), Some(CliError::MissingValue(1)));
    assert_eq!(token_cli(&args(&["create", "--bogus"])).err(), Some(CliError::UnknownArgument(1)));
    assert_eq!(
        token_cli(&args(&["create", "--rate-limit", "-3"])).err(),
        Some(CliError::InvalidNumber(2))
    );
    assert_eq!(
        token_cli(&args(&["create", "--days", "x"])).err(),
        Some(CliError::InvalidNumber(2))
    );
}

#[test]
fn list_and_revoke_options() {
    match token_cli(&args(&["list", "--tokens-file", "f"])) {
        Ok(TokenCommand::List(f)) => assert_eq!(f.as_deref(), Some("f")),
        _ => panic!("expected list"),
    }
    assert_eq!(token_cli(&args(&["list", "--name", "x"])).err(), Some(CliError::UnknownArgument(1)));
    assert_eq!(token_cli(&args(&["revoke"])).err(), Some(CliError::MissingSelector));
    match token_cli(&args(&["revoke", "--token", "abc"])) {
        Ok(TokenCommand::Revoke(o)) => {
            assert_eq!(o.by_token.as_deref(), Some("abc"));
            assert!(o.by_name.is_none());
        }
        _ => panic!("expected revoke"),
    }
}

#[test]
fn expiry_resolution() {
    let base = match token_cli(&args(&["create", "--expires-at", "2030-01-01T00:00:00Z"])) {
        Ok(TokenCommand::Create(o)) => o,
        _ => panic!("expected create"),
    };
    assert_eq!(resolve_expiry(&base), Ok(Some("2030-01-01T00:00:00Z".to_string())));
    let bad = match token_cli(&args(&["create", "--expires-at", "soon"])) {
        Ok(TokenCommand::Create(o)) => o,
        _ => panic!("expected create"),
    };
    assert_eq!(resolve_expiry(&bad), Err(CliError::InvalidExpiry));
    let never = match token_cli(&args(&["create", "--expires-at", "soon", "--never-expire"])) {
        Ok(TokenCommand::Create(o)) => o,
        _ => panic!("expected create"),
    };
    assert_eq!(resolve_expiry(&never), Ok(None));
    let days = match token_cli(&args(&["create", "--days", "3"])) {
        Ok(TokenCommand::Create(o)) => o,
        _ => panic!("expected create"),
    };
    assert!(matches!(resolve_expiry(&days), Ok(Some(_))));
}

#[test]
fn generated_tokens_are_hex() {
    let t = generate_token();
    assert_eq!(t.len(), 48);
    assert!(t.chars().all(|c| c.is_ascii_hexdigit() && !c.is_ascii_uppercase()));
    assert_ne!(t, generate_token());
}

#[test]
fn revoke_removes_matching_records_in_order() {
    let mut f = TokenFile { tokens: vec![entry("a", "1"), entry("b", "2"), entry("a", "3"), entry("c", "4")] };
    let n = revoke_entries(&mut f, Some("a"), Some("4"));
    assert_eq!(n, 3);
    assert_eq!(f.tokens.len(), 1);
    assert_eq!(f.tokens[0].name, "b");
    let m = revoke_entries(&mut f, None, None);
    assert_eq!(m, 0);
}
