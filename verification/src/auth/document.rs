//! The two ways between an account's credentials and the credential document.

use crate::types::{
    AuthData, AuthDataView, AuthDotJson, AuthDotJsonView, AuthError, Timestamp, TokenData,
    TokenDataView,
};
use vstd::prelude::*;

verus! {

/// The document that makes `auth` the active credentials when written at `now`.
///
/// An API key is stored alone. A token triple is stored with the time of
/// writing as its refresh time.
pub open spec fn document_of(auth: AuthDataView, now: Timestamp) -> AuthDotJsonView {
    match auth {
        AuthDataView::ApiKey { key } => AuthDotJsonView {
            openai_api_key: Some(key),
            tokens: None,
            last_refresh: None,
        },
        AuthDataView::ChatGPT { id_token, access_token, refresh_token, account_id } => {
            AuthDotJsonView {
                openai_api_key: None,
                tokens: Some(TokenDataView { id_token, access_token, refresh_token, account_id }),
                last_refresh: Some(now),
            }
        },
    }
}

/// The credentials that a document holds, if it holds any. Where a document
/// holds both an API key and tokens, the API key counts.
pub open spec fn auth_of_document(doc: AuthDotJsonView) -> Option<AuthDataView> {
    match doc.openai_api_key {
        Some(key) => Some(AuthDataView::ApiKey { key }),
        None => match doc.tokens {
            Some(tokens) => Some(
                AuthDataView::ChatGPT {
                    id_token: tokens.id_token,
                    access_token: tokens.access_token,
                    refresh_token: tokens.refresh_token,
                    account_id: tokens.account_id,
                },
            ),
            None => None,
        },
    }
}

/// `doc` is a document for `auth`, written at some time.
pub open spec fn is_document_of(doc: AuthDotJsonView, auth: AuthDataView) -> bool {
    exists|now: Timestamp| doc == #[trigger] document_of(auth, now)
}

/// Copies text that may be absent.
pub fn clone_text(text: &Option<String>) -> (copy: Option<String>)
    ensures
        copy.deep_view() == text.deep_view(),
{
    match text {
        Some(text) => Some(text.clone()),
        None => None,
    }
}

/// Builds the document for `auth` as of `now`.
pub fn to_document(auth: &AuthData, now: Timestamp) -> (doc: AuthDotJson)
    ensures
        doc@ == document_of(auth@, now),
{
    match auth {
        AuthData::ApiKey { key } => AuthDotJson {
            openai_api_key: Some(key.clone()),
            tokens: None,
            last_refresh: None,
        },
        AuthData::ChatGPT { id_token, access_token, refresh_token, account_id } => AuthDotJson {
            openai_api_key: None,
            tokens: Some(
                TokenData {
                    id_token: id_token.clone(),
                    access_token: access_token.clone(),
                    refresh_token: refresh_token.clone(),
                    account_id: clone_text(account_id),
                },
            ),
            last_refresh: Some(now),
        },
    }
}

/// Reads the credentials out of a document.
///
/// A document without an API key and without tokens is refused. A document
/// with both is read as an API key.
pub fn from_document(doc: AuthDotJson) -> (auth: Result<AuthData, AuthError>)
    ensures
        match auth {
            Ok(auth) => auth_of_document(doc@) == Some(auth@),
            Err(error) => error == AuthError::NoCredentials && auth_of_document(doc@) is None,
        },
        auth is Err <==> doc.openai_api_key is None && doc.tokens is None,
        doc.openai_api_key is Some ==> auth is Ok && auth->Ok_0 is ApiKey,
{
    match doc.openai_api_key {
        Some(key) => Ok(AuthData::ApiKey { key }),
        None => match doc.tokens {
            Some(tokens) => Ok(
                AuthData::ChatGPT {
                    id_token: tokens.id_token,
                    access_token: tokens.access_token,
                    refresh_token: tokens.refresh_token,
                    account_id: tokens.account_id,
                },
            ),
            None => Err(AuthError::NoCredentials),
        },
    }
}

/// Writing credentials into a document and reading the document back gives
/// the same credentials: the same mode, and the same text in every field.
/// The document in between is one that holds exactly one of the two credentials.
pub proof fn lemma_document_round_trip(auth: AuthDataView, now: Timestamp)
    ensures
        auth_of_document(document_of(auth, now)) == Some(auth),
        document_of(auth, now).is_canonical(),
{
}

/// What every document for `auth` looks like, whenever it was written: an
/// API key leaves the tokens and the refresh time out, a token triple leaves
/// the API key out and has a refresh time.
pub proof fn lemma_document_shape(doc: AuthDotJsonView, auth: AuthDataView)
    requires
        is_document_of(doc, auth),
    ensures
        auth_of_document(doc) == Some(auth),
        doc.is_canonical(),
        auth is ApiKey ==> doc.openai_api_key == Some(auth->key) && doc.tokens is None
            && doc.last_refresh is None,
        auth is ChatGPT ==> doc.openai_api_key is None && doc.tokens is Some
            && doc.last_refresh is Some,
{
    let now = choose|now: Timestamp| doc == #[trigger] document_of(auth, now);
    lemma_document_round_trip(auth, now);
}

/// A document with an API key is read as an API key, whether or not it holds
/// tokens as well; a document with neither credential is read as nothing.
pub proof fn lemma_api_key_wins(doc: AuthDotJsonView)
    ensures
        doc.openai_api_key is Some ==> auth_of_document(doc) == Some(
            AuthDataView::ApiKey { key: doc.openai_api_key->0 },
        ),
        auth_of_document(doc) is None <==> doc.openai_api_key is None && doc.tokens is None,
{
}

} // verus!
