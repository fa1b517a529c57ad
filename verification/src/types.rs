//! The data model: stored accounts, the credential document shared with the
//! Codex CLI, and the usage records reported for an account.
//!
//! Every type that owns text has a ghost counterpart (`...View`) in which the
//! text is a `Seq<char>`; contracts throughout the crate are stated over these
//! views.

use vstd::prelude::*;

verus! {

/// How an account authenticates. The two modes exclude each other: an account
/// holds either an API key or a token triple, never both.
#[derive(Debug, Clone, PartialEq, Eq)]
pub enum AuthData {
    /// A static bearer credential.
    ApiKey { key: String },
    /// An OAuth-style token triple, with the upstream account identifier that
    /// routes requests when the login belongs to several workspaces.
    ChatGPT {
        id_token: String,
        access_token: String,
        refresh_token: String,
        account_id: Option<String>,
    },
}

/// Ghost counterpart of [`AuthData`].
pub enum AuthDataView {
    ApiKey { key: Seq<char> },
    ChatGPT {
        id_token: Seq<char>,
        access_token: Seq<char>,
        refresh_token: Seq<char>,
        account_id: Option<Seq<char>>,
    },
}

impl View for AuthData {
    type V = AuthDataView;

    open spec fn view(&self) -> AuthDataView {
        match *self {
            AuthData::ApiKey { key } => AuthDataView::ApiKey { key: key@ },
            AuthData::ChatGPT { id_token, access_token, refresh_token, account_id } => {
                AuthDataView::ChatGPT {
                    id_token: id_token@,
                    access_token: access_token@,
                    refresh_token: refresh_token@,
                    account_id: account_id.deep_view(),
                }
            },
        }
    }
}

/// One managed identity.
#[derive(Debug, Clone, PartialEq, Eq)]
pub struct StoredAccount {
    /// Opaque identifier, unique among the stored accounts and stable across renames.
    pub id: String,
    /// The label shown to the user; need not be unique.
    pub name: String,
    /// Display hint taken from the identity token, if it carried one.
    pub email: Option<String>,
    /// Display hint taken from the identity token, if it carried one.
    pub plan_type: Option<String>,
    pub auth_data: AuthData,
}

/// Ghost counterpart of [`StoredAccount`].
pub struct StoredAccountView {
    pub id: Seq<char>,
    pub name: Seq<char>,
    pub email: Option<Seq<char>>,
    pub plan_type: Option<Seq<char>>,
    pub auth_data: AuthDataView,
}

impl View for StoredAccount {
    type V = StoredAccountView;

    open spec fn view(&self) -> StoredAccountView {
        StoredAccountView {
            id: self.id@,
            name: self.name@,
            email: self.email.deep_view(),
            plan_type: self.plan_type.deep_view(),
            auth_data: self.auth_data@,
        }
    }
}

impl StoredAccount {
    /// An account that authenticates with an API key. It carries no display hints.
    pub fn new_api_key(id: String, name: String, key: String) -> (account: StoredAccount)
        ensures
            account@ == (StoredAccountView {
                id: id@,
                name: name@,
                email: None,
                plan_type: None,
                auth_data: AuthDataView::ApiKey { key: key@ },
            }),
    {
        StoredAccount { id, name, email: None, plan_type: None, auth_data: AuthData::ApiKey { key } }
    }

    /// An account that authenticates with a token triple.
    pub fn new_chatgpt(
        id: String,
        name: String,
        email: Option<String>,
        plan_type: Option<String>,
        id_token: String,
        access_token: String,
        refresh_token: String,
        account_id: Option<String>,
    ) -> (account: StoredAccount)
        ensures
            account@ == (StoredAccountView {
                id: id@,
                name: name@,
                email: email.deep_view(),
                plan_type: plan_type.deep_view(),
                auth_data: AuthDataView::ChatGPT {
                    id_token: id_token@,
                    access_token: access_token@,
                    refresh_token: refresh_token@,
                    account_id: account_id.deep_view(),
                },
            }),
    {
        StoredAccount {
            id,
            name,
            email,
            plan_type,
            auth_data: AuthData::ChatGPT { id_token, access_token, refresh_token, account_id },
        }
    }
}

/// The token triple as the credential document stores it.
#[derive(Debug, Clone, PartialEq, Eq)]
pub struct TokenData {
    pub id_token: String,
    pub access_token: String,
    pub refresh_token: String,
    pub account_id: Option<String>,
}

/// Ghost counterpart of [`TokenData`].
pub struct TokenDataView {
    pub id_token: Seq<char>,
    pub access_token: Seq<char>,
    pub refresh_token: Seq<char>,
    pub account_id: Option<Seq<char>>,
}

impl View for TokenData {
    type V = TokenDataView;

    open spec fn view(&self) -> TokenDataView {
        TokenDataView {
            id_token: self.id_token@,
            access_token: self.access_token@,
            refresh_token: self.refresh_token@,
            account_id: self.account_id.deep_view(),
        }
    }
}

/// A point in time: whole seconds since the Unix epoch, and the nanoseconds
/// past that second.
#[derive(Debug, Clone, Copy, PartialEq, Eq)]
pub struct Timestamp {
    pub seconds: i64,
    pub nanos: u32,
}

/// The credential document `auth.json`. Its field names and nesting are fixed
/// by the Codex CLI, which reads and writes the same file.
#[derive(Debug, Clone, PartialEq, Eq)]
pub struct AuthDotJson {
    pub openai_api_key: Option<String>,
    pub tokens: Option<TokenData>,
    /// When the tokens were last written; absent in API-key mode.
    pub last_refresh: Option<Timestamp>,
}

/// Ghost counterpart of [`AuthDotJson`].
pub struct AuthDotJsonView {
    pub openai_api_key: Option<Seq<char>>,
    pub tokens: Option<TokenDataView>,
    pub last_refresh: Option<Timestamp>,
}

impl View for AuthDotJson {
    type V = AuthDotJsonView;

    open spec fn view(&self) -> AuthDotJsonView {
        AuthDotJsonView {
            openai_api_key: self.openai_api_key.deep_view(),
            tokens: match self.tokens {
                Some(tokens) => Some(tokens@),
                None => None,
            },
            last_refresh: self.last_refresh,
        }
    }
}

impl AuthDotJsonView {
    /// A document as this library writes it: exactly one of the two credentials,
    /// and the refresh time exactly when the credential is a token triple.
    pub open spec fn is_canonical(self) -> bool {
        &&& self.openai_api_key is Some <==> self.tokens is None
        &&& self.last_refresh is Some <==> self.tokens is Some
    }
}

/// What can go wrong while switching accounts or importing one.
#[derive(Debug, Clone, Copy, PartialEq, Eq)]
pub enum AuthError {
    /// Neither the override nor the user's home directory is known.
    HomeDirectoryNotFound,
    /// A credential file could not be read.
    ReadFailed,
    /// A credential file does not hold a credential document.
    ParseFailed,
    /// A credential document holds neither an API key nor tokens.
    NoCredentials,
}

impl AuthError {
    /// The text of the error, for display.
    pub fn message(&self) -> (text: String)
        ensures
            text@ == self.message_text(),
    {
        match self {
            AuthError::HomeDirectoryNotFound => "Could not find home directory".to_owned(),
            AuthError::ReadFailed => "Failed to read auth.json".to_owned(),
            AuthError::ParseFailed => "Failed to parse auth.json".to_owned(),
            AuthError::NoCredentials => "auth.json contains neither API key nor tokens".to_owned(),
        }
    }

    pub open spec fn message_text(self) -> Seq<char> {
        match self {
            AuthError::HomeDirectoryNotFound => "Could not find home directory"@,
            AuthError::ReadFailed => "Failed to read auth.json"@,
            AuthError::ParseFailed => "Failed to parse auth.json"@,
            AuthError::NoCredentials => "auth.json contains neither API key nor tokens"@,
        }
    }
}

/// One rate-limit window as the backend reports it. `N` is the type in which
/// the backend's fractional numbers arrive; the library hands such numbers on
/// and never computes with them.
#[derive(Debug, Clone, PartialEq)]
pub struct RateLimitWindow<N> {
    pub used_percent: N,
    pub limit_window_seconds: Option<i32>,
    pub reset_at: Option<i64>,
}

/// The rate-limit block of the backend's answer.
#[derive(Debug, Clone, PartialEq)]
pub struct RateLimitDetails<N> {
    pub primary_window: Option<RateLimitWindow<N>>,
    pub secondary_window: Option<RateLimitWindow<N>>,
}

/// The credits block of the backend's answer.
#[derive(Debug, Clone, PartialEq)]
pub struct CreditStatusDetails<N> {
    pub has_credits: bool,
    pub unlimited: bool,
    pub balance: Option<N>,
}

/// The backend's answer to a usage request.
#[derive(Debug, Clone, PartialEq)]
pub struct RateLimitStatusPayload<N> {
    pub plan_type: String,
    pub rate_limit: Option<RateLimitDetails<N>>,
    pub credits: Option<CreditStatusDetails<N>>,
}

/// Ghost counterpart of [`RateLimitStatusPayload`].
pub struct RateLimitStatusPayloadView<N> {
    pub plan_type: Seq<char>,
    pub rate_limit: Option<RateLimitDetails<N>>,
    pub credits: Option<CreditStatusDetails<N>>,
}

impl<N> View for RateLimitStatusPayload<N> {
    type V = RateLimitStatusPayloadView<N>;

    open spec fn view(&self) -> RateLimitStatusPayloadView<N> {
        RateLimitStatusPayloadView {
            plan_type: self.plan_type@,
            rate_limit: self.rate_limit,
            credits: self.credits,
        }
    }
}

/// The usage of one account at the time of a fetch. A record with `error` set
/// stands for a failed fetch, not for an account without usage.
#[derive(Debug, Clone, PartialEq)]
pub struct UsageInfo<N> {
    pub account_id: String,
    pub plan_type: Option<String>,
    pub primary_used_percent: Option<N>,
    pub primary_window_minutes: Option<i64>,
    pub primary_resets_at: Option<i64>,
    pub secondary_used_percent: Option<N>,
    pub secondary_window_minutes: Option<i64>,
    pub secondary_resets_at: Option<i64>,
    pub has_credits: Option<bool>,
    pub unlimited_credits: Option<bool>,
    pub credits_balance: Option<N>,
    pub error: Option<String>,
}

/// Ghost counterpart of [`UsageInfo`].
pub struct UsageInfoView<N> {
    pub account_id: Seq<char>,
    pub plan_type: Option<Seq<char>>,
    pub primary_used_percent: Option<N>,
    pub primary_window_minutes: Option<i64>,
    pub primary_resets_at: Option<i64>,
    pub secondary_used_percent: Option<N>,
    pub secondary_window_minutes: Option<i64>,
    pub secondary_resets_at: Option<i64>,
    pub has_credits: Option<bool>,
    pub unlimited_credits: Option<bool>,
    pub credits_balance: Option<N>,
    pub error: Option<Seq<char>>,
}

impl<N> View for UsageInfo<N> {
    type V = UsageInfoView<N>;

    open spec fn view(&self) -> UsageInfoView<N> {
        UsageInfoView {
            account_id: self.account_id@,
            plan_type: self.plan_type.deep_view(),
            primary_used_percent: self.primary_used_percent,
            primary_window_minutes: self.primary_window_minutes,
            primary_resets_at: self.primary_resets_at,
            secondary_used_percent: self.secondary_used_percent,
            secondary_window_minutes: self.secondary_window_minutes,
            secondary_resets_at: self.secondary_resets_at,
            has_credits: self.has_credits,
            unlimited_credits: self.unlimited_credits,
            credits_balance: self.credits_balance,
            error: self.error.deep_view(),
        }
    }
}

impl<N> UsageInfoView<N> {
    /// The record of a failed fetch: the account, the reason, and nothing else.
    pub open spec fn failure(account_id: Seq<char>, message: Seq<char>) -> UsageInfoView<N> {
        UsageInfoView {
            account_id,
            plan_type: None,
            primary_used_percent: None,
            primary_window_minutes: None,
            primary_resets_at: None,
            secondary_used_percent: None,
            secondary_window_minutes: None,
            secondary_resets_at: None,
            has_credits: None,
            unlimited_credits: None,
            credits_balance: None,
            error: Some(message),
        }
    }

    /// No rate-limit window and no credit figure is present.
    pub open spec fn has_no_usage(self) -> bool {
        &&& self.primary_used_percent is None
        &&& self.primary_window_minutes is None
        &&& self.primary_resets_at is None
        &&& self.secondary_used_percent is None
        &&& self.secondary_window_minutes is None
        &&& self.secondary_resets_at is None
        &&& self.has_credits is None
        &&& self.unlimited_credits is None
        &&& self.credits_balance is None
    }
}

impl<N> UsageInfo<N> {
    /// The record of a failed fetch for `account_id`.
    pub fn error(account_id: String, message: String) -> (info: UsageInfo<N>)
        ensures
            info@ == UsageInfoView::<N>::failure(account_id@, message@),
    {
        UsageInfo {
            account_id,
            plan_type: None,
            primary_used_percent: None,
            primary_window_minutes: None,
            primary_resets_at: None,
            secondary_used_percent: None,
            secondary_window_minutes: None,
            secondary_resets_at: None,
            has_credits: None,
            unlimited_credits: None,
            credits_balance: None,
            error: Some(message),
        }
    }
}

/// Why the usage of an account could not be fetched.
#[derive(Debug, Clone, Copy, PartialEq, Eq)]
pub enum UsageError {
    /// The access token cannot be sent in a header.
    InvalidAccessToken,
    /// The request could not be sent, or no response came back.
    SendFailed,
    /// The response arrived but its body could not be read.
    BodyUnreadable,
    /// The body is not a usage payload.
    MalformedBody,
}

impl UsageError {
    /// The text of the error, for display and for the `error` field of a record.
    pub fn message(&self) -> (text: String)
        ensures
            text@ == self.message_text(),
    {
        match self {
            UsageError::InvalidAccessToken => "Invalid access token".to_owned(),
            UsageError::SendFailed => "Failed to send usage request".to_owned(),
            UsageError::BodyUnreadable => "Failed to read response body".to_owned(),
            UsageError::MalformedBody => "Failed to parse usage response".to_owned(),
        }
    }

    pub open spec fn message_text(self) -> Seq<char> {
        match self {
            UsageError::InvalidAccessToken => "Invalid access token"@,
            UsageError::SendFailed => "Failed to send usage request"@,
            UsageError::BodyUnreadable => "Failed to read response body"@,
            UsageError::MalformedBody => "Failed to parse usage response"@,
        }
    }
}

} // verus!
