use govee_lan::spotify_auth::{PKCEState, SpotifyAuthState, SpotifyToken};

fn token(expires_at: u64, refresh: Option<&str>) -> SpotifyToken {
    SpotifyToken {
        access_token: "acc".to_string(),
        refresh_token: refresh.map(|r| r.to_string()),
        expires_at,
    }
}

#[test]
fn code_verifier_is_used_once() {
    let mut p = PKCEState::new();
    assert_eq!(p.get_code_verifier(), Err("No code verifier found".to_string()));
    p.store_code_verifier("v1".to_string());
    p.store_code_verifier("v2".to_string());
    assert_eq!(p.get_code_verifier(), Ok("v2".to_string()));
    assert!(p.get_code_verifier().is_err());
}

#[test]
fn stored_token_expires_after_its_lifetime() {
    let mut st = SpotifyAuthState::new(None);
    assert!(st.is_empty());
    assert!(!st.is_authenticated(0));
    let t = st.store_spotify_token("acc".to_string(), None, 3600, 1000);
    assert_eq!(t.expires_at, 4600);
    assert!(st.is_authenticated(4599));
    assert!(!st.is_authenticated(4600));
    assert_eq!(st.get_spotify_token(4599).unwrap().access_token, "acc");
    assert!(st.get_spotify_token(4600).is_none());
}

#[test]
fn expired_token_with_refresh_is_still_handed_out() {
    let st = SpotifyAuthState::new(Some(token(10, Some("ref"))));
    assert!(st.is_authenticated(50));
    let t = st.get_spotify_token(50).unwrap();
    assert_eq!(t.refresh_token.as_deref(), Some("ref"));
}

#[test]
fn hydrate_keeps_held_token_and_logout_forgets() {
    let mut st = SpotifyAuthState::new(None);
    st.hydrate(Some(token(100, None)));
    assert!(!st.is_empty());
    st.hydrate(Some(token(5, None)));
    assert_eq!(st.get_spotify_token(0).unwrap().expires_at, 100);
    st.logout();
    assert!(st.is_empty());
    assert!(st.get_spotify_token(0).is_none());
}
