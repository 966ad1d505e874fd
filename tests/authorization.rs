use cloth_core::auth::{bearer_token, check_token_header, judge_header, AuthError, SigningAlgorithm};

const RS256_TOKEN: &str = "eyJhbGciOiJSUzI1NiIsInR5cCI6IkpXVCJ9.eyJzdWIiOiJ4In0.c2ln";
const HS256_TOKEN: &str = "eyJhbGciOiJIUzI1NiIsInR5cCI6IkpXVCJ9.eyJzdWIiOiJ4In0.c2ln";

#[test]
fn assertion_header_wins() {
    let t = bearer_token(Some("assertion".to_string()), Some("Bearer other".to_string()));
    assert_eq!(t, Some("assertion".to_string()));
}

#[test]
fn bearer_prefix_is_stripped() {
    let t = bearer_token(None, Some("Bearer abc.def.ghi".to_string()));
    assert_eq!(t, Some("abc.def.ghi".to_string()));
}

#[test]
fn authorization_without_bearer_prefix_gives_no_token() {
    assert_eq!(bearer_token(None, Some("Basic abc".to_string())), None);
    assert_eq!(bearer_token(None, Some("Bearer".to_string())), None);
    assert_eq!(bearer_token(None, None), None);
}

#[test]
fn bearer_prefix_keeps_multibyte_rest() {
    let t = bearer_token(None, Some("Bearer café€".to_string()));
    assert_eq!(t, Some("café€".to_string()));
    assert_eq!(bearer_token(None, Some("Béarer x".to_string())), None);
}

#[test]
fn bearer_prefix_alone_gives_empty_token() {
    assert_eq!(bearer_token(None, Some("Bearer ".to_string())), Some(String::new()));
}

#[test]
fn judge_header_verdicts() {
    assert_eq!(judge_header(Some(SigningAlgorithm::Rs256)), Ok(true));
    assert_eq!(judge_header(Some(SigningAlgorithm::Hs256)), Ok(false));
    assert_eq!(judge_header(Some(SigningAlgorithm::Rs384)), Ok(false));
    assert_eq!(judge_header(Some(SigningAlgorithm::Ps256)), Ok(false));
    assert_eq!(judge_header(Some(SigningAlgorithm::EdDsa)), Ok(false));
    assert_eq!(judge_header(None), Err(AuthError::InvalidHeader));
}

#[test]
fn rs256_header_is_accepted() {
    assert_eq!(check_token_header(RS256_TOKEN), Ok(true));
}

#[test]
fn other_algorithm_is_refused() {
    assert_eq!(check_token_header(HS256_TOKEN), Ok(false));
}

#[test]
fn undecodable_header_is_an_error() {
    assert_eq!(check_token_header("not-a-token"), Err(AuthError::InvalidHeader));
    assert_eq!(check_token_header("!!!.e30.c2ln"), Err(AuthError::InvalidHeader));
}
