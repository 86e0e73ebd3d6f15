//! The credential and its lifecycle: validation, refresh by the strategy its
//! kind calls for, and persistence before a refreshed credential is used.

use vstd::prelude::*;
use vstd::string::StringExecFns;

use crate::helix::User;
use crate::json::{int_member, member, text_member, JsonValue, get_member, int_field, text_field};

verus! {

/// Below this many seconds left, a validated credential is refreshed.
pub const REFRESH_BELOW_SECS: i64 = 3600;

/// A refresh calls the token endpoint at most this many times when the call itself fails.
pub const TOKEN_ATTEMPTS: u32 = 3;

/// The kind of a credential, which decides how it is refreshed.
#[derive(PartialEq, Eq, Structural, Clone, Copy, Debug)]
pub enum TokenType {
    /// Refreshed by exchanging its refresh token.
    UserAccessToken,
    /// Refreshed by a new client-credentials grant.
    AppAccessToken,
}

impl Default for TokenType {
    fn default() -> (r: TokenType)
        ensures
            r == TokenType::UserAccessToken,
    {
        TokenType::UserAccessToken
    }
}

/// A bearer credential.
pub struct Token {
    pub token_type: TokenType,
    pub refresh_token: String,
    pub access_token: String,
    /// Seconds of validity from `created_at`.
    pub expires_in: i64,
    /// When the credential was issued, in seconds since the Unix epoch.
    pub created_at: i64,
    /// The account the credential belongs to, once looked up.
    pub user: Option<User>,
}

/// The refresh token of a token-endpoint reply: empty when left out.
pub open spec fn reply_refresh_token(v: JsonValue) -> Option<Seq<char>> {
    match member(v, "refresh_token"@) {
        None => Some(Seq::empty()),
        Some(JsonValue::Str(s)) => Some(s@),
        _ => None,
    }
}

/// A token-endpoint reply names an access token and its lifetime.
pub open spec fn token_reply_decodes(v: JsonValue) -> bool {
    &&& reply_refresh_token(v) is Some
    &&& text_member(v, "access_token"@) is Some
    &&& int_member(v, "expires_in"@) is Some
}

impl Token {
    /// The moment the credential expires.
    pub open spec fn expiry(self) -> int {
        self.created_at + self.expires_in
    }

    /// `self` is what reply `v`, received at `now`, grants as a credential of kind `kind`.
    pub open spec fn read_from(self, v: JsonValue, kind: TokenType, now: i64) -> bool {
        &&& self.token_type == kind
        &&& reply_refresh_token(v) == Some(self.refresh_token@)
        &&& text_member(v, "access_token"@) == Some(self.access_token@)
        &&& int_member(v, "expires_in"@) == Some(self.expires_in)
        &&& self.created_at == now
        &&& self.user is None
    }

    /// An empty credential of kind `kind`, to be filled by a first request.
    pub fn empty(kind: TokenType) -> (r: Token)
        ensures
            r.token_type == kind,
            r.refresh_token@ == Seq::<char>::empty(),
            r.access_token@ == Seq::<char>::empty(),
            r.expires_in == 0,
            r.created_at == 0,
            r.user is None,
    {
        Token {
            token_type: kind,
            refresh_token: String::new(),
            access_token: String::new(),
            expires_in: 0,
            created_at: 0,
            user: None,
        }
    }

    /// The moment the credential expires, in seconds since the Unix epoch.
    pub fn expires_at(&self) -> (r: i128)
        ensures
            r == self.expiry(),
    {
        self.created_at as i128 + self.expires_in as i128
    }

    /// Reads the token endpoint's reply, received at `now`, as a credential of kind `kind`.
    pub fn from_json(v: &JsonValue, kind: TokenType, now: i64) -> (r: Option<Token>)
        ensures
            r is Some <==> token_reply_decodes(*v),
            r matches Some(t) ==> t.read_from(*v, kind, now),
    {
        let refresh_token = match get_member(v, "refresh_token") {
            None => String::new(),
            Some(JsonValue::Str(s)) => s.clone(),
            Some(_) => return None,
        };
        let access_token = match text_field(v, "access_token") {
            Some(s) => s,
            None => return None,
        };
        let expires_in = match int_field(v, "expires_in") {
            Some(n) => n,
            None => return None,
        };
        Some(Token { token_type: kind, refresh_token, access_token, expires_in, created_at: now, user: None })
    }
}

/// Durable storage for the credential.
pub trait TokenStorage {
    fn save(&mut self, token: &Token) -> Result<(), String>;
}

/// A store that keeps nothing.
pub struct VoidStorage {}

impl TokenStorage for VoidStorage {
    fn save(&mut self, _token: &Token) -> (r: Result<(), String>)
        ensures
            r is Ok,
    {
        Ok(())
    }
}

/// A call to the token endpoint.
pub enum TokenRequest {
    /// A fresh application credential.
    ClientCredentials { client_id: String, client_secret: String },
    /// A user credential, exchanged for its refresh token.
    RefreshToken { client_id: String, client_secret: String, refresh_token: String },
    /// A user credential, for an authorization code.
    AuthorizationCode { client_id: String, client_secret: String, code: String, redirect_uri: String },
}

impl TokenRequest {
    /// The form body of the call.
    pub open spec fn form_spec(self) -> Seq<char> {
        match self {
            TokenRequest::ClientCredentials { client_id, client_secret } => "client_id="@ + client_id@
                + "&client_secret="@ + client_secret@ + "&grant_type=client_credentials"@,
            TokenRequest::RefreshToken { client_id, client_secret, refresh_token } => "client_id="@
                + client_id@ + "&client_secret="@ + client_secret@ + "&grant_type=refresh_token&refresh_token="@
                + refresh_token@,
            TokenRequest::AuthorizationCode { client_id, client_secret, code, redirect_uri } => "client_id="@
                + client_id@ + "&client_secret="@ + client_secret@ + "&code="@ + code@
                + "&grant_type=authorization_code&redirect_uri="@ + redirect_uri@,
        }
    }

    /// The form body of the call.
    pub fn form_body(&self) -> (r: String)
        ensures
            r@ == self.form_spec(),
    {
        let mut r = String::from_str("client_id=");
        match self {
            TokenRequest::ClientCredentials { client_id, client_secret } => {
                r.append(client_id.as_str());
                r.append("&client_secret=");
                r.append(client_secret.as_str());
                r.append("&grant_type=client_credentials");
            },
            TokenRequest::RefreshToken { client_id, client_secret, refresh_token } => {
                r.append(client_id.as_str());
                r.append("&client_secret=");
                r.append(client_secret.as_str());
                r.append("&grant_type=refresh_token&refresh_token=");
                r.append(refresh_token.as_str());
            },
            TokenRequest::AuthorizationCode { client_id, client_secret, code, redirect_uri } => {
                r.append(client_id.as_str());
                r.append("&client_secret=");
                r.append(client_secret.as_str());
                r.append("&code=");
                r.append(code.as_str());
                r.append("&grant_type=authorization_code&redirect_uri=");
                r.append(redirect_uri.as_str());
            },
        }
        r
    }
}

/// A REST reply with this status means the credential was refused: refresh
/// it and retry the call once.
pub fn request_needs_refresh(status: u16) -> (r: bool)
    ensures
        r == (status == 401),
{
    status == 401
}


#[derive(PartialEq, Eq, Structural, Clone, Copy, Debug)]
pub enum AuthPhase {
    Idle,
    /// Waiting for the validation endpoint.
    Validating,
    /// Waiting for the token endpoint.
    Refreshing,
    /// Waiting for the token store to save the new credential.
    Saving,
}

/// Why the credential could not be made valid.
#[derive(PartialEq, Eq, Structural, Clone, Copy, Debug)]
pub enum AuthError {
    /// The token endpoint failed or its reply did not grant a credential.
    RefreshFailed,
    /// The new credential could not be saved, so it must not be relied on.
    SaveFailed,
}

/// The outcome of the call the manager asked for.
pub enum AuthEvent {
    /// The seconds of validity the validation endpoint reports, or `None`
    /// when the call failed.
    Validated(Option<i64>),
    /// The token endpoint's reply, decoded as JSON, and when it was received;
    /// `None` when the call failed.
    TokenIssued(Option<JsonValue>, i64),
    /// Whether the token store saved the credential.
    Saved(bool),
}

/// What the manager asks of its driver.
pub enum AuthAction {
    Nothing,
    /// Call the validation endpoint with the current access token.
    Validate,
    /// Call the token endpoint.
    RequestToken(TokenRequest),
    /// Save the current credential to the token store.
    Save,
    /// The credential is valid; calls may proceed.
    Done,
    Failed(AuthError),
}

/// The sole owner of the credential.
pub struct TokenManager {
    pub client_id: String,
    pub client_secret: String,
    pub token: Token,
    pub phase: AuthPhase,
    /// Calls to the token endpoint made for the current request.
    pub attempts: u32,
}

impl TokenManager {
    /// `req` is how the credential of `self` is refreshed: a client-credentials
    /// grant for an application credential, whatever refresh token it holds;
    /// the stored refresh token for a user credential.
    pub open spec fn refreshes_with(self, req: TokenRequest) -> bool {
        match self.token.token_type {
            TokenType::AppAccessToken => req matches TokenRequest::ClientCredentials { client_id, client_secret }
                && client_id@ == self.client_id@ && client_secret@ == self.client_secret@,
            TokenType::UserAccessToken => req matches TokenRequest::RefreshToken {
                client_id,
                client_secret,
                refresh_token,
            } && client_id@ == self.client_id@ && client_secret@ == self.client_secret@ && refresh_token@
                == self.token.refresh_token@,
        }
    }

    pub open spec fn refresh_spec(self, t: Self, a: AuthAction) -> bool {
        &&& t == (TokenManager { phase: AuthPhase::Refreshing, attempts: 1, ..self })
        &&& a matches AuthAction::RequestToken(req) && self.refreshes_with(req)
    }

    pub open spec fn fails_with(self, t: Self, a: AuthAction, err: AuthError) -> bool {
        t == (TokenManager { phase: AuthPhase::Idle, ..self }) && a == AuthAction::Failed(err)
    }

    /// The manager's transition relation: from `self` on event `e` to `t`, asking `a`.
    pub open spec fn step_spec(self, e: AuthEvent, t: Self, a: AuthAction) -> bool {
        match (self.phase, e) {
            (AuthPhase::Validating, AuthEvent::Validated(None)) => self.refresh_spec(t, a),
            (AuthPhase::Validating, AuthEvent::Validated(Some(left))) => if left < REFRESH_BELOW_SECS {
                self.refresh_spec(t, a)
            } else {
                t == (TokenManager { phase: AuthPhase::Idle, ..self }) && a is Done
            },
            (AuthPhase::Refreshing, AuthEvent::TokenIssued(Some(j), now)) => if token_reply_decodes(j) {
                &&& t == (TokenManager { phase: AuthPhase::Saving, token: t.token, ..self })
                &&& t.token.read_from(j, self.token.token_type, now)
                &&& a is Save
            } else {
                self.fails_with(t, a, AuthError::RefreshFailed)
            },
            (AuthPhase::Refreshing, AuthEvent::TokenIssued(None, _)) => if self.attempts < TOKEN_ATTEMPTS {
                &&& t == (TokenManager { attempts: (self.attempts + 1) as u32, ..self })
                &&& a matches AuthAction::RequestToken(req) && self.refreshes_with(req)
            } else {
                self.fails_with(t, a, AuthError::RefreshFailed)
            },
            (AuthPhase::Saving, AuthEvent::Saved(true)) => {
                t == (TokenManager { phase: AuthPhase::Idle, ..self }) && a is Done
            },
            (AuthPhase::Saving, AuthEvent::Saved(false)) => self.fails_with(t, a, AuthError::SaveFailed),
            _ => t == self && a is Nothing,
        }
    }

    /// A manager for an existing credential.
    pub fn from_token(client_id: String, client_secret: String, token: Token) -> (r: TokenManager)
        ensures
            r == (TokenManager { client_id, client_secret, token, phase: AuthPhase::Idle, attempts: 0 }),
    {
        TokenManager { client_id, client_secret, token, phase: AuthPhase::Idle, attempts: 0 }
    }

    /// A manager for an application credential still to be requested: its
    /// first `refresh` asks for one.
    pub fn from_get_app_token(client_id: String, client_secret: String) -> (r: TokenManager)
        ensures
            r.client_id == client_id,
            r.client_secret == client_secret,
            r.token.token_type == TokenType::AppAccessToken,
            r.token.access_token@ == Seq::<char>::empty(),
            r.phase == AuthPhase::Idle,
    {
        TokenManager {
            client_id,
            client_secret,
            token: Token::empty(TokenType::AppAccessToken),
            phase: AuthPhase::Idle,
            attempts: 0,
        }
    }

    /// Starts making the credential valid: asks for the validation endpoint.
    pub fn ensure_valid(&mut self) -> (a: AuthAction)
        ensures
            *final(self) == (TokenManager { phase: AuthPhase::Validating, ..*old(self) }),
            a is Validate,
    {
        self.phase = AuthPhase::Validating;
        AuthAction::Validate
    }

    /// Starts a refresh by the strategy the credential's kind calls for.
    pub fn refresh(&mut self) -> (a: AuthAction)
        ensures
            old(self).refresh_spec(*final(self), a),
    {
        self.phase = AuthPhase::Refreshing;
        self.attempts = 1;
        AuthAction::RequestToken(self.refresh_request())
    }

    /// The token-endpoint call that refreshes the current credential.
    fn refresh_request(&self) -> (req: TokenRequest)
        ensures
            self.refreshes_with(req),
    {
        match self.token.token_type {
            TokenType::AppAccessToken => TokenRequest::ClientCredentials {
                client_id: self.client_id.clone(),
                client_secret: self.client_secret.clone(),
            },
            TokenType::UserAccessToken => TokenRequest::RefreshToken {
                client_id: self.client_id.clone(),
                client_secret: self.client_secret.clone(),
                refresh_token: self.token.refresh_token.clone(),
            },
        }
    }

    /// Starts exchanging an authorization code for a user credential. A code
    /// is good for one exchange, so a failed call is not repeated.
    pub fn authorize(&mut self, code: String, redirect_uri: String) -> (a: AuthAction)
        ensures
            *final(self) == (TokenManager { phase: AuthPhase::Refreshing, attempts: TOKEN_ATTEMPTS, ..*old(self) }),
            a matches AuthAction::RequestToken(TokenRequest::AuthorizationCode { client_id, client_secret, code: c, redirect_uri: u })
                && client_id@ == old(self).client_id@ && client_secret@ == old(self).client_secret@
                && c == code && u == redirect_uri,
    {
        self.phase = AuthPhase::Refreshing;
        self.attempts = TOKEN_ATTEMPTS;
        AuthAction::RequestToken(TokenRequest::AuthorizationCode {
            client_id: self.client_id.clone(),
            client_secret: self.client_secret.clone(),
            code,
            redirect_uri,
        })
    }

    /// Advances the manager by the outcome of the call it asked for. A token
    /// call that fails outright is repeated, up to `TOKEN_ATTEMPTS` calls; a
    /// reply that grants no credential fails the refresh. A refreshed
    /// credential replaces the current one and must be saved before the
    /// manager reports it valid.
    pub fn step(&mut self, e: AuthEvent) -> (a: AuthAction)
        ensures
            old(self).step_spec(e, *final(self), a),
    {
        match (self.phase, e) {
            (AuthPhase::Validating, AuthEvent::Validated(None)) => self.refresh(),
            (AuthPhase::Validating, AuthEvent::Validated(Some(left))) => {
                if left < REFRESH_BELOW_SECS {
                    self.refresh()
                } else {
                    self.phase = AuthPhase::Idle;
                    AuthAction::Done
                }
            },
            (AuthPhase::Refreshing, AuthEvent::TokenIssued(Some(j), now)) => {
                match Token::from_json(&j, self.token.token_type, now) {
                    Some(t) => {
                        self.token = t;
                        self.phase = AuthPhase::Saving;
                        AuthAction::Save
                    },
                    None => {
                        self.phase = AuthPhase::Idle;
                        AuthAction::Failed(AuthError::RefreshFailed)
                    },
                }
            },
            (AuthPhase::Refreshing, AuthEvent::TokenIssued(None, _)) => {
                if self.attempts < TOKEN_ATTEMPTS {
                    self.attempts = self.attempts + 1;
                    AuthAction::RequestToken(self.refresh_request())
                } else {
                    self.phase = AuthPhase::Idle;
                    AuthAction::Failed(AuthError::RefreshFailed)
                }
            },
            (AuthPhase::Saving, AuthEvent::Saved(ok)) => {
                self.phase = AuthPhase::Idle;
                if ok {
                    AuthAction::Done
                } else {
                    AuthAction::Failed(AuthError::SaveFailed)
                }
            },
            _ => AuthAction::Nothing,
        }
    }
}

} // verus!
