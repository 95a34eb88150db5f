//! Sign-in state for the music service: the one-time PKCE code verifier and
//! the access token with its expiry.
//!
//! Times are whole seconds since the Unix epoch, read by the caller. Storing
//! the token outside the process is the caller's part too.

use vstd::prelude::*;

verus! {

/// Holds the PKCE code verifier between the start of a sign-in and the
/// token exchange.
pub struct PKCEState {
    code_verifier: Option<String>,
}

impl View for PKCEState {
    type V = Option<Seq<char>>;

    closed spec fn view(&self) -> Option<Seq<char>> {
        match self.code_verifier {
            Some(v) => Some(v@),
            None => None,
        }
    }
}

impl PKCEState {
    /// No verifier held.
    pub fn new() -> (r: Self)
        ensures
            r@ is None,
    {
        PKCEState { code_verifier: None }
    }

    /// Holds `code_verifier`, replacing any earlier one.
    pub fn store_code_verifier(&mut self, code_verifier: String)
        ensures
            final(self)@ == Some(code_verifier@),
    {
        self.code_verifier = Some(code_verifier);
    }

    /// Hands out the held verifier and forgets it: each verifier is used
    /// once. Fails when none is held.
    pub fn get_code_verifier(&mut self) -> (r: Result<String, String>)
        ensures
            final(self)@ is None,
            match old(self)@ {
                Some(v) => r matches Ok(c) && c@ == v,
                None => r matches Err(e) && e@ == "No code verifier found"@,
            },
    {
        match self.code_verifier.take() {
            Some(c) => Ok(c),
            None => Err("No code verifier found".to_owned()),
        }
    }
}

/// An access token, the token that renews it, and when it expires.
#[derive(Debug)]
pub struct SpotifyToken {
    pub access_token: String,
    pub refresh_token: Option<String>,
    pub expires_at: u64,
}

impl Clone for SpotifyToken {
    fn clone(&self) -> (r: Self)
        ensures
            r == *self,
    {
        SpotifyToken {
            access_token: self.access_token.clone(),
            refresh_token: match &self.refresh_token {
                Some(t) => Some(t.clone()),
                None => None,
            },
            expires_at: self.expires_at,
        }
    }
}

/// The token held by the process, if any.
pub struct SpotifyAuthState {
    token: Option<SpotifyToken>,
}

/// A token that has expired at `now` and cannot be renewed.
pub open spec fn is_dead(t: SpotifyToken, now: u64) -> bool {
    now >= t.expires_at && t.refresh_token is None
}

impl SpotifyAuthState {
    /// The token held.
    pub closed spec fn token_spec(&self) -> Option<SpotifyToken> {
        self.token
    }

    /// A state holding `persisted`, the token found in storage, if any.
    pub fn new(persisted: Option<SpotifyToken>) -> (r: Self)
        ensures
            r.token_spec() == persisted,
    {
        SpotifyAuthState { token: persisted }
    }

    /// Whether no token is held, so that storage should be consulted.
    pub fn is_empty(&self) -> (r: bool)
        ensures
            r == self.token_spec() is None,
    {
        self.token.is_none()
    }

    /// Takes `persisted` from storage when no token is held; a held token
    /// stays.
    pub fn hydrate(&mut self, persisted: Option<SpotifyToken>)
        ensures
            old(self).token_spec() is Some ==> final(self).token_spec() == old(self).token_spec(),
            old(self).token_spec() is None ==> final(self).token_spec() == persisted,
    {
        if self.token.is_none() {
            self.token = persisted;
        }
    }

    /// Holds a new token that expires `expires_in` seconds after `now`, and
    /// returns a copy of it for storage.
    pub fn store_spotify_token(
        &mut self,
        access_token: String,
        refresh_token: Option<String>,
        expires_in: u64,
        now: u64,
    ) -> (r: SpotifyToken)
        requires
            now + expires_in <= u64::MAX,
        ensures
            r == (SpotifyToken { access_token, refresh_token, expires_at: (now + expires_in) as u64 }),
            final(self).token_spec() == Some(r),
    {
        let token = SpotifyToken { access_token, refresh_token, expires_at: now + expires_in };
        self.token = Some(token.clone());
        token
    }

    /// The token for the front end at `now`: the held one, unless it has
    /// expired and cannot be renewed. An expired token that can be renewed
    /// is handed out so that it gets renewed.
    pub fn get_spotify_token(&self, now: u64) -> (r: Option<SpotifyToken>)
        ensures
            match self.token_spec() {
                Some(t) => if is_dead(t, now) {
                    r is None
                } else {
                    r == Some(t)
                },
                None => r is None,
            },
    {
        match &self.token {
            Some(t) => {
                if now >= t.expires_at && t.refresh_token.is_none() {
                    None
                } else {
                    Some(t.clone())
                }
            },
            None => None,
        }
    }

    /// Whether the user counts as signed in at `now`: a token is held that
    /// has not expired or can be renewed.
    pub fn is_authenticated(&self, now: u64) -> (r: bool)
        ensures
            r == (self.token_spec() matches Some(t) && !is_dead(t, now)),
    {
        match &self.token {
            Some(t) => now < t.expires_at || t.refresh_token.is_some(),
            None => false,
        }
    }

    /// Forgets the held token.
    pub fn logout(&mut self)
        ensures
            final(self).token_spec() is None,
    {
        self.token = None;
    }
}

} // verus!
