use oidc_login::OIDCCallbackParams;

fn pairs(items: &[(&str, &str)]) -> Vec<(String, String)> {
    items.iter().map(|(name, value)| (name.to_string(), value.to_string())).collect()
}

#[test]
fn default_params_are_empty() {
    let params = OIDCCallbackParams::default();
    assert_eq!(params.code, "");
    assert_eq!(params.nonce, "");
    assert_eq!(params.state, "");
}

#[test]
fn no_pairs_give_empty_params() {
    let params = OIDCCallbackParams::from_pairs(&Vec::new());
    assert_eq!(params.code, "");
    assert_eq!(params.nonce, "");
    assert_eq!(params.state, "");
}

#[test]
fn all_three_are_read() {
    let params =
        OIDCCallbackParams::from_pairs(&pairs(&[("code", "abc"), ("state", "xyz"), ("nonce", "123")]));
    assert_eq!(params.code, "abc");
    assert_eq!(params.nonce, "123");
    assert_eq!(params.state, "xyz");
}

#[test]
fn order_of_pairs_does_not_matter() {
    let params =
        OIDCCallbackParams::from_pairs(&pairs(&[("nonce", "123"), ("code", "abc"), ("state", "xyz")]));
    assert_eq!(params.code, "abc");
    assert_eq!(params.nonce, "123");
    assert_eq!(params.state, "xyz");
}

#[test]
fn unrelated_pairs_are_passed_over() {
    let params = OIDCCallbackParams::from_pairs(&pairs(&[
        ("session_state", "s1"),
        ("code", "abc"),
        ("iss", "https://idp.example"),
        ("state", "xyz"),
        ("nonce", "123"),
        ("scope", "openid"),
    ]));
    assert_eq!(params.code, "abc");
    assert_eq!(params.nonce, "123");
    assert_eq!(params.state, "xyz");
}

#[test]
fn missing_code_and_nonce_default_to_empty() {
    let params = OIDCCallbackParams::from_pairs(&pairs(&[("state", "xyz")]));
    assert_eq!(params.code, "");
    assert_eq!(params.nonce, "");
    assert_eq!(params.state, "xyz");
}

#[test]
fn missing_state_defaults_to_empty() {
    let params = OIDCCallbackParams::from_pairs(&pairs(&[("code", "abc"), ("nonce", "123")]));
    assert_eq!(params.code, "abc");
    assert_eq!(params.nonce, "123");
    assert_eq!(params.state, "");
}

#[test]
fn last_of_a_repeated_name_counts() {
    let params = OIDCCallbackParams::from_pairs(&pairs(&[
        ("code", "first"),
        ("state", "xyz"),
        ("code", "second"),
    ]));
    assert_eq!(params.code, "second");
    assert_eq!(params.state, "xyz");
}

#[test]
fn names_are_matched_exactly() {
    let params = OIDCCallbackParams::from_pairs(&pairs(&[
        ("Code", "abc"),
        ("code ", "def"),
        ("states", "xyz"),
        ("", "123"),
    ]));
    assert_eq!(params.code, "");
    assert_eq!(params.nonce, "");
    assert_eq!(params.state, "");
}

#[test]
fn empty_value_is_kept_as_empty() {
    let params = OIDCCallbackParams::from_pairs(&pairs(&[("code", "abc"), ("code", "")]));
    assert_eq!(params.code, "");
}
