//! Switching accounts: where the credential document lives, what is written
//! into it, and what is read out of one.
//!
//! Nothing here touches the disk. [`switch_to_account`] returns what is to be
//! written and where; the caller creates the directory, writes the file and
//! restricts its permissions.

use crate::auth::document::{
    auth_of_document, from_document, is_document_of, lemma_document_shape, to_document,
};
use crate::base64url::{self, base64url_decoding};
use crate::clock;
use crate::json::{self, json_document, json_strings, string_at, string_member};
use crate::types::{
    AuthData, AuthDataView, AuthDotJson, AuthDotJsonView, AuthError, StoredAccount,
    StoredAccountView,
};
use vstd::prelude::*;
use vstd::slice::slice_subrange;
use vstd::string::StringSliceAdditionalSpecFns;
use vstd::utf8::encode_utf8;

verus! {

/// A place below a directory that is taken as given: the directory, and the
/// names that lead down from it, outermost first.
#[derive(Debug, Clone, PartialEq, Eq)]
pub struct CodexPath {
    pub base: String,
    pub segments: Vec<String>,
}

/// Ghost counterpart of [`CodexPath`].
pub struct CodexPathView {
    pub base: Seq<char>,
    pub segments: Seq<Seq<char>>,
}

impl View for CodexPath {
    type V = CodexPathView;

    open spec fn view(&self) -> CodexPathView {
        CodexPathView { base: self.base@, segments: self.segments.deep_view() }
    }
}

impl CodexPathView {
    /// The place called `name` directly below this one.
    pub open spec fn join(self, name: Seq<char>) -> CodexPathView {
        CodexPathView { base: self.base, segments: self.segments.push(name) }
    }
}

impl CodexPath {
    /// The place called `name` directly below this one.
    pub fn join(self, name: &str) -> (joined: CodexPath)
        ensures
            joined@ == self@.join(name@),
    {
        let mut segments = self.segments;
        segments.push(name.to_owned());
        let joined = CodexPath { base: self.base, segments };
        proof {
            assert(joined@.segments =~= self@.segments.push(name@));
        }
        joined
    }

    /// A copy of this place.
    pub fn duplicate(&self) -> (copy: CodexPath)
        ensures
            copy@ == self@,
    {
        let mut segments: Vec<String> = Vec::new();
        let mut i: usize = 0;
        while i < self.segments.len()
            invariant
                i <= self.segments.len(),
                segments.len() == i,
                forall|j: int| 0 <= j < i ==> (#[trigger] segments[j])@ == self.segments[j]@,
            decreases self.segments.len() - i,
        {
            segments.push(self.segments[i].clone());
            i = i + 1;
        }
        let copy = CodexPath { base: self.base.clone(), segments };
        proof {
            assert(copy@.segments =~= self@.segments);
        }
        copy
    }
}

/// The name of the credential document inside the Codex home.
pub const AUTH_FILE_NAME: &'static str = "auth.json";

/// The permission bits of the credential document: the owner may read and
/// write it, and nobody else may do anything with it.
pub const AUTH_FILE_MODE: u32 = 0o600;

/// The Codex home: the directory that the override names, as it stands, or
/// else `.codex` below the user's home directory. There is none where
/// neither is known.
pub open spec fn codex_home_of(
    codex_home: Option<Seq<char>>,
    home_dir: Option<Seq<char>>,
) -> Option<CodexPathView> {
    match codex_home {
        Some(dir) => Some(CodexPathView { base: dir, segments: Seq::empty() }),
        None => match home_dir {
            Some(home) => Some(CodexPathView { base: home, segments: seq![".codex"@] }),
            None => None,
        },
    }
}

/// Resolves the Codex home from the value of the `CODEX_HOME` variable and
/// the user's home directory, each as far as the caller found it.
pub fn get_codex_home(codex_home: Option<String>, home_dir: Option<String>) -> (home: Result<
    CodexPath,
    AuthError,
>)
    ensures
        match home {
            Ok(path) => codex_home_of(codex_home.deep_view(), home_dir.deep_view()) == Some(path@),
            Err(error) => error == AuthError::HomeDirectoryNotFound && codex_home is None
                && home_dir is None,
        },
{
    match codex_home {
        Some(dir) => {
            let path = CodexPath { base: dir, segments: Vec::new() };
            proof {
                assert(path@.segments =~= Seq::empty());
            }
            Ok(path)
        },
        None => match home_dir {
            Some(home) => {
                let path = CodexPath { base: home, segments: Vec::new() }.join(".codex");
                proof {
                    assert(path@.segments =~= seq![".codex"@]);
                }
                Ok(path)
            },
            None => Err(AuthError::HomeDirectoryNotFound),
        },
    }
}

/// The place of the credential document: `auth.json` in the Codex home.
pub fn get_codex_auth_file(codex_home: Option<String>, home_dir: Option<String>) -> (file: Result<
    CodexPath,
    AuthError,
>)
    ensures
        match file {
            Ok(path) => codex_home_of(codex_home.deep_view(), home_dir.deep_view()) matches Some(
                home,
            ) && path@ == home.join("auth.json"@),
            Err(error) => error == AuthError::HomeDirectoryNotFound && codex_home is None
                && home_dir is None,
        },
{
    match get_codex_home(codex_home, home_dir) {
        Ok(home) => Ok(home.join(AUTH_FILE_NAME)),
        Err(error) => Err(error),
    }
}

/// Builds the credential document of `account`, stamped with the current time
/// where it holds tokens.
pub fn create_auth_json(account: &StoredAccount) -> (doc: AuthDotJson)
    ensures
        is_document_of(doc@, account.auth_data@),
        auth_of_document(doc@) == Some(account.auth_data@),
        doc@.is_canonical(),
        account.auth_data is ApiKey ==> doc@.openai_api_key is Some && doc@.tokens is None
            && doc@.last_refresh is None,
        account.auth_data is ChatGPT ==> doc@.openai_api_key is None && doc@.tokens is Some
            && doc@.last_refresh is Some,
{
    let written_at = clock::now();
    let doc = to_document(&account.auth_data, written_at);
    proof {
        lemma_document_shape(doc@, account.auth_data@);
    }
    doc
}

/// What has to happen on disk to make an account the active one.
#[derive(Debug, Clone, PartialEq, Eq)]
pub struct SwitchPlan {
    /// The directory to create, with its parents, unless it exists.
    pub directory: CodexPath,
    /// The file to write in place of whatever it held.
    pub file: CodexPath,
    /// What the file is to hold.
    pub document: AuthDotJson,
    /// The permission bits that the file is to end up with, where the
    /// platform has such bits.
    pub mode: u32,
}

/// Plans the switch to `account`.
///
/// The document goes to `auth.json` in the Codex home, which is resolved as
/// in [`get_codex_home`]; without a home there is no plan. The file is to be
/// readable and writable by its owner alone.
pub fn switch_to_account(
    account: &StoredAccount,
    codex_home: Option<String>,
    home_dir: Option<String>,
) -> (plan: Result<SwitchPlan, AuthError>)
    ensures
        match plan {
            Ok(plan) => {
                &&& codex_home_of(codex_home.deep_view(), home_dir.deep_view()) == Some(
                    plan.directory@,
                )
                &&& plan.file@ == plan.directory@.join("auth.json"@)
                &&& is_document_of(plan.document@, account.auth_data@)
                &&& plan.document@.is_canonical()
                &&& account.auth_data is ApiKey ==> plan.document@.openai_api_key is Some
                    && plan.document@.tokens is None && plan.document@.last_refresh is None
                &&& account.auth_data is ChatGPT ==> plan.document@.openai_api_key is None
                    && plan.document@.tokens is Some && plan.document@.last_refresh is Some
                &&& plan.mode == 0o600
                &&& plan.mode & 0o077 == 0
            },
            Err(error) => error == AuthError::HomeDirectoryNotFound && codex_home is None
                && home_dir is None,
        },
{
    let directory = match get_codex_home(codex_home, home_dir) {
        Ok(directory) => directory,
        Err(error) => {
            return Err(error);
        },
    };
    let document = create_auth_json(account);
    let file = directory.duplicate().join(AUTH_FILE_NAME);
    proof {
        assert(0o600u32 & 0o077u32 == 0) by (bit_vector);
    }
    Ok(SwitchPlan { directory, file, document, mode: AUTH_FILE_MODE })
}

/// The byte that separates the parts of a compact token.
pub const FULL_STOP: u8 = 0x2e;

/// The parts of `text` that full stops separate, in order. Text without a
/// full stop is one part; two full stops in a row have an empty part between
/// them.
pub open spec fn dot_separated_parts(text: Seq<u8>) -> Seq<Seq<u8>>
    decreases text.len(),
{
    if text.len() == 0 {
        seq![Seq::empty()]
    } else {
        let before = dot_separated_parts(text.drop_last());
        if text.last() == FULL_STOP {
            before.push(Seq::empty())
        } else {
            before.update(before.len() - 1, before.last().push(text.last()))
        }
    }
}

/// The middle part of a text of exactly three parts.
pub fn middle_part<'a>(text: &'a [u8]) -> (middle: Option<&'a [u8]>)
    ensures
        match middle {
            Some(part) => dot_separated_parts(text@).len() == 3 && part@ == dot_separated_parts(
                text@,
            )[1],
            None => dot_separated_parts(text@).len() != 3,
        },
{
    let mut dots: usize = 0;
    let mut first: usize = 0;
    let mut second: usize = 0;
    let mut i: usize = 0;
    while i < text.len()
        invariant
            i <= text.len(),
            dots <= i,
            dot_separated_parts(text@.take(i as int)).len() == dots + 1,
            dots >= 1 ==> first < i,
            dots == 1 ==> dot_separated_parts(text@.take(i as int))[1] == text@.subrange(
                first + 1,
                i as int,
            ),
            dots >= 2 ==> first < second < i && dot_separated_parts(text@.take(i as int))[1]
                == text@.subrange(first + 1, second as int),
        decreases text.len() - i,
    {
        proof {
            // The parts of one byte more are defined from the parts so far.
            assert(text@.take(i + 1).drop_last() =~= text@.take(i as int));
        }
        if text[i] == FULL_STOP {
            if dots == 0 {
                first = i;
            } else if dots == 1 {
                second = i;
            }
            dots = dots + 1;
        }
        i = i + 1;
    }
    proof {
        assert(text@.take(i as int) =~= text@);
    }
    if dots == 2 {
        Some(slice_subrange(text, first + 1, second))
    } else {
        None
    }
}

/// The display claims among the strings of an identity token's payload: the
/// e-mail address at the top, and the plan label inside the OpenAI claims.
pub open spec fn claims_in(strings: Map<Seq<Seq<char>>, Seq<char>>) -> (
    Option<Seq<char>>,
    Option<Seq<char>>,
) {
    (
        string_at(strings, seq!["email"@]),
        string_at(strings, seq!["https://api.openai.com/auth"@, "chatgpt_plan_type"@]),
    )
}

/// The display claims of an identity token, given by its bytes.
///
/// A token has three parts, and the middle one is a JSON document in
/// URL-safe base64. Anything else yields no claims. No signature is looked
/// at: the claims are hints for display and prove nothing.
pub open spec fn claims_of_token(token: Seq<u8>) -> (Option<Seq<char>>, Option<Seq<char>>) {
    let parts = dot_separated_parts(token);
    if parts.len() != 3 {
        (None, None)
    } else {
        match base64url_decoding(parts[1]) {
            None => (None, None),
            Some(payload) => match json_document(payload) {
                None => (None, None),
                Some(strings) => claims_in(strings),
            },
        }
    }
}

/// Picks the display claims out of a token's payload.
pub fn claims_from_json(payload: &serde_json::Value) -> (claims: (Option<String>, Option<String>))
    ensures
        (claims.0.deep_view(), claims.1.deep_view()) == claims_in(json_strings(*payload)),
{
    let email = string_member(payload, "email");
    let plan_type = match json::member(payload, "https://api.openai.com/auth") {
        Some(auth) => string_member(auth, "chatgpt_plan_type"),
        None => None,
    };
    proof {
        assert(seq!["https://api.openai.com/auth"@] + seq!["chatgpt_plan_type"@]
            =~= seq!["https://api.openai.com/auth"@, "chatgpt_plan_type"@]);
    }
    (email, plan_type)
}

/// Reads the display claims of an identity token, without validating it.
///
/// A token that does not have exactly three parts, a middle part that is not
/// URL-safe base64, and a payload that is not JSON all yield no claims; none
/// of them is an error.
pub fn parse_id_token_claims(id_token: &str) -> (claims: (Option<String>, Option<String>))
    ensures
        (claims.0.deep_view(), claims.1.deep_view()) == claims_of_token(id_token.spec_bytes()),
        dot_separated_parts(id_token.spec_bytes()).len() != 3 ==> claims.0 is None
            && claims.1 is None,
        dot_separated_parts(id_token.spec_bytes()).len() == 3 && base64url_decoding(
            dot_separated_parts(id_token.spec_bytes())[1],
        ) is None ==> claims.0 is None && claims.1 is None,
{
    let middle = match middle_part(id_token.as_bytes()) {
        Some(middle) => middle,
        None => {
            return (None, None);
        },
    };
    let payload = match base64url::decode(middle) {
        Some(payload) => payload,
        None => {
            return (None, None);
        },
    };
    match json::from_slice(payload.as_slice()) {
        Some(json) => claims_from_json(&json),
        None => (None, None),
    }
}

/// What the caller found at the place of a credential document.
#[derive(Debug, Clone, PartialEq, Eq)]
pub enum DocumentFile {
    /// There is no file.
    Missing,
    /// There is a file, and it could not be read.
    Unreadable,
    /// The file was read and does not hold a credential document.
    Malformed,
    /// The file holds this document.
    Document(AuthDotJson),
}

/// Ghost counterpart of [`DocumentFile`].
pub enum DocumentFileView {
    Missing,
    Unreadable,
    Malformed,
    Document(AuthDotJsonView),
}

impl View for DocumentFile {
    type V = DocumentFileView;

    open spec fn view(&self) -> DocumentFileView {
        match *self {
            DocumentFile::Missing => DocumentFileView::Missing,
            DocumentFile::Unreadable => DocumentFileView::Unreadable,
            DocumentFile::Malformed => DocumentFileView::Malformed,
            DocumentFile::Document(doc) => DocumentFileView::Document(doc@),
        }
    }
}

/// The account that a document yields, if the document holds credentials.
/// An account with tokens gets the display claims of its identity token; an
/// account with an API key has none.
pub open spec fn account_of_document(
    doc: AuthDotJsonView,
    account_id: Seq<char>,
    account_name: Seq<char>,
) -> Option<StoredAccountView> {
    match auth_of_document(doc) {
        None => None,
        Some(auth) => {
            let claims: (Option<Seq<char>>, Option<Seq<char>>) = match auth {
                AuthDataView::ApiKey { .. } => (None, None),
                AuthDataView::ChatGPT { id_token, .. } => claims_of_token(encode_utf8(id_token)),
            };
            Some(
                StoredAccountView {
                    id: account_id,
                    name: account_name,
                    email: claims.0,
                    plan_type: claims.1,
                    auth_data: auth,
                },
            )
        },
    }
}

/// What importing a file comes to: the account of its document, or the first
/// thing that stands in the way.
pub open spec fn imported_account(
    file: DocumentFileView,
    account_id: Seq<char>,
    account_name: Seq<char>,
) -> Result<StoredAccountView, AuthError> {
    match file {
        DocumentFileView::Missing => Err(AuthError::ReadFailed),
        DocumentFileView::Unreadable => Err(AuthError::ReadFailed),
        DocumentFileView::Malformed => Err(AuthError::ParseFailed),
        DocumentFileView::Document(doc) => match account_of_document(
            doc,
            account_id,
            account_name,
        ) {
            Some(account) => Ok(account),
            None => Err(AuthError::NoCredentials),
        },
    }
}

/// Makes a stored account out of an existing credential file, under the
/// identifier and the name that the caller chose.
///
/// A file that cannot be read or does not hold a document fails the import,
/// and so does a document with neither credential. A document with both is
/// imported as an API-key account. Claims that cannot be read from the
/// identity token leave the display fields empty and do not fail the import.
pub fn import_from_auth_json(file: DocumentFile, account_id: String, account_name: String) -> (account:
    Result<StoredAccount, AuthError>)
    ensures
        match account {
            Ok(account) => imported_account(file@, account_id@, account_name@) == Ok::<
                StoredAccountView,
                AuthError,
            >(account@),
            Err(error) => imported_account(file@, account_id@, account_name@) == Err::<
                StoredAccountView,
                AuthError,
            >(error),
        },
        file matches DocumentFile::Document(doc) ==> (account is Err <==> doc.openai_api_key is None
            && doc.tokens is None),
        file matches DocumentFile::Document(doc) ==> (doc.openai_api_key is Some ==> account is Ok
            && account->Ok_0.auth_data is ApiKey),
{
    let doc = match file {
        DocumentFile::Missing => {
            return Err(AuthError::ReadFailed);
        },
        DocumentFile::Unreadable => {
            return Err(AuthError::ReadFailed);
        },
        DocumentFile::Malformed => {
            return Err(AuthError::ParseFailed);
        },
        DocumentFile::Document(doc) => doc,
    };
    match from_document(doc) {
        Ok(AuthData::ApiKey { key }) => Ok(StoredAccount::new_api_key(account_id, account_name, key)),
        Ok(AuthData::ChatGPT { id_token, access_token, refresh_token, account_id: upstream_id }) => {
            let (email, plan_type) = parse_id_token_claims(id_token.as_str());
            Ok(
                StoredAccount::new_chatgpt(
                    account_id,
                    account_name,
                    email,
                    plan_type,
                    id_token,
                    access_token,
                    refresh_token,
                    upstream_id,
                ),
            )
        },
        Err(error) => Err(error),
    }
}

/// The active credential document, given what stands at its place: none
/// where there is no file.
pub open spec fn current_auth_of(file: DocumentFileView) -> Result<
    Option<AuthDotJsonView>,
    AuthError,
> {
    match file {
        DocumentFileView::Missing => Ok(None),
        DocumentFileView::Unreadable => Err(AuthError::ReadFailed),
        DocumentFileView::Malformed => Err(AuthError::ParseFailed),
        DocumentFileView::Document(doc) => Ok(Some(doc)),
    }
}

/// Reads the active credential document out of what the caller found at
/// [`get_codex_auth_file`]. A missing file is no error: nobody is logged in.
pub fn read_current_auth(file: DocumentFile) -> (current: Result<Option<AuthDotJson>, AuthError>)
    ensures
        match current {
            Ok(Some(doc)) => current_auth_of(file@) == Ok::<Option<AuthDotJsonView>, AuthError>(
                Some(doc@),
            ),
            Ok(None) => current_auth_of(file@) == Ok::<Option<AuthDotJsonView>, AuthError>(None),
            Err(error) => current_auth_of(file@) == Err::<Option<AuthDotJsonView>, AuthError>(
                error,
            ),
        },
{
    match file {
        DocumentFile::Missing => Ok(None),
        DocumentFile::Unreadable => Err(AuthError::ReadFailed),
        DocumentFile::Malformed => Err(AuthError::ParseFailed),
        DocumentFile::Document(doc) => Ok(Some(doc)),
    }
}

/// Whether the Codex CLI is logged in: there is a credential document, and it
/// holds an API key or tokens.
pub open spec fn active_login_of(file: DocumentFileView) -> Result<bool, AuthError> {
    match current_auth_of(file) {
        Ok(Some(doc)) => Ok(doc.openai_api_key is Some || doc.tokens is Some),
        Ok(None) => Ok(false),
        Err(error) => Err(error),
    }
}

/// Checks for an active login in what the caller found at
/// [`get_codex_auth_file`]. A file that cannot be read or understood is an
/// error, not a missing login.
pub fn has_active_login(file: DocumentFile) -> (active: Result<bool, AuthError>)
    ensures
        active == active_login_of(file@),
{
    match read_current_auth(file) {
        Ok(Some(auth)) => Ok(auth.openai_api_key.is_some() || auth.tokens.is_some()),
        Ok(None) => Ok(false),
        Err(error) => Err(error),
    }
}

} // verus!
