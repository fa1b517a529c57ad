use codex_accounts::auth::document::{clone_text, from_document, to_document};
use codex_accounts::auth::switcher::{
    create_auth_json, get_codex_auth_file, get_codex_home, has_active_login,
    import_from_auth_json, read_current_auth, switch_to_account, CodexPath, DocumentFile,
    AUTH_FILE_MODE, AUTH_FILE_NAME,
};
use codex_accounts::types::{
    AuthData, AuthDotJson, AuthError, StoredAccount, Timestamp, TokenData,
};

fn text(s: &str) -> Option<String> {
    Some(s.to_string())
}

fn path(base: &str, segments: &[&str]) -> CodexPath {
    CodexPath { base: base.to_string(), segments: segments.iter().map(|s| s.to_string()).collect() }
}

fn api_key_auth() -> AuthData {
    AuthData::ApiKey { key: "sk-live-123".to_string() }
}

fn token_auth(account_id: Option<&str>) -> AuthData {
    AuthData::ChatGPT {
        id_token: "head.body.sig".to_string(),
        access_token: "access".to_string(),
        refresh_token: "refresh".to_string(),
        account_id: account_id.map(|s| s.to_string()),
    }
}

fn tokens(id_token: &str) -> TokenData {
    TokenData {
        id_token: id_token.to_string(),
        access_token: "access".to_string(),
        refresh_token: "refresh".to_string(),
        account_id: text("org-1"),
    }
}

fn account_with(auth_data: AuthData) -> StoredAccount {
    StoredAccount {
        id: "id-1".to_string(),
        name: "main".to_string(),
        email: None,
        plan_type: None,
        auth_data,
    }
}

fn encoded(payload: &str) -> String {
    base64::Engine::encode(&base64::engine::general_purpose::URL_SAFE_NO_PAD, payload)
}

#[test]
fn override_names_the_codex_home() {
    assert_eq!(get_codex_home(text("/srv/codex"), text("/home/u")), Ok(path("/srv/codex", &[])));
    assert_eq!(get_codex_home(text("/srv/codex"), None), Ok(path("/srv/codex", &[])));
    assert_eq!(get_codex_home(text(""), text("/home/u")), Ok(path("", &[])));
}

#[test]
fn codex_home_defaults_to_dot_codex() {
    assert_eq!(get_codex_home(None, text("/home/u")), Ok(path("/home/u", &[".codex"])));
}

#[test]
fn codex_home_needs_a_home() {
    assert_eq!(get_codex_home(None, None), Err(AuthError::HomeDirectoryNotFound));
    assert_eq!(get_codex_auth_file(None, None), Err(AuthError::HomeDirectoryNotFound));
}

#[test]
fn auth_file_sits_in_the_codex_home() {
    assert_eq!(AUTH_FILE_NAME, "auth.json");
    assert_eq!(
        get_codex_auth_file(None, text("/home/u")),
        Ok(path("/home/u", &[".codex", "auth.json"]))
    );
    assert_eq!(get_codex_auth_file(text("/srv/codex"), text("/home/u")), Ok(path("/srv/codex", &["auth.json"])));
}

#[test]
fn paths_join_and_copy() {
    let home = path("/home/u", &[".codex"]);
    assert_eq!(home.duplicate(), home);
    assert_eq!(home.duplicate().join("auth.json"), path("/home/u", &[".codex", "auth.json"]));
    assert_eq!(path("/", &[]).join("a").join("b"), path("/", &["a", "b"]));
    assert_eq!(path("/", &[]).duplicate(), path("/", &[]));
}

#[test]
fn api_key_document_holds_the_key_alone() {
    let doc = to_document(&api_key_auth(), Timestamp { seconds: 5, nanos: 6 });
    assert_eq!(doc, AuthDotJson { openai_api_key: text("sk-live-123"), tokens: None, last_refresh: None });
}

#[test]
fn token_document_holds_tokens_and_time() {
    let now = Timestamp { seconds: 1_700_000_000, nanos: 123 };
    let doc = to_document(&token_auth(Some("org-1")), now);
    assert_eq!(
        doc,
        AuthDotJson {
            openai_api_key: None,
            tokens: Some(TokenData {
                id_token: "head.body.sig".to_string(),
                access_token: "access".to_string(),
                refresh_token: "refresh".to_string(),
                account_id: text("org-1"),
            }),
            last_refresh: Some(now),
        }
    );
}

#[test]
fn documents_round_trip() {
    let now = Timestamp { seconds: 42, nanos: 0 };
    for auth in [api_key_auth(), token_auth(Some("org-1")), token_auth(None)] {
        assert_eq!(from_document(to_document(&auth, now)), Ok(auth));
    }
    let empty = AuthData::ApiKey { key: String::new() };
    assert_eq!(from_document(to_document(&empty, now)), Ok(empty));
}

#[test]
fn document_without_credentials_is_refused() {
    let doc = AuthDotJson { openai_api_key: None, tokens: None, last_refresh: None };
    assert_eq!(from_document(doc), Err(AuthError::NoCredentials));
    let stamped = AuthDotJson {
        openai_api_key: None,
        tokens: None,
        last_refresh: Some(Timestamp { seconds: 1, nanos: 2 }),
    };
    assert_eq!(from_document(stamped), Err(AuthError::NoCredentials));
}

#[test]
fn document_with_both_credentials_is_an_api_key() {
    let doc = AuthDotJson {
        openai_api_key: text("sk-both"),
        tokens: Some(tokens("a.b.c")),
        last_refresh: Some(Timestamp { seconds: 1, nanos: 2 }),
    };
    assert_eq!(from_document(doc), Ok(AuthData::ApiKey { key: "sk-both".to_string() }));
}

#[test]
fn absent_text_copies_as_absent() {
    assert_eq!(clone_text(&None), None);
    assert_eq!(clone_text(&text("x")), text("x"));
}

#[test]
fn created_document_for_an_api_key() {
    let doc = create_auth_json(&account_with(api_key_auth()));
    assert_eq!(doc, AuthDotJson { openai_api_key: text("sk-live-123"), tokens: None, last_refresh: None });
}

#[test]
fn created_document_for_tokens_is_stamped_now() {
    let before = chrono::Utc::now().timestamp();
    let doc = create_auth_json(&account_with(token_auth(None)));
    let after = chrono::Utc::now().timestamp();
    assert_eq!(doc.openai_api_key, None);
    assert_eq!(
        doc.tokens,
        Some(TokenData {
            id_token: "head.body.sig".to_string(),
            access_token: "access".to_string(),
            refresh_token: "refresh".to_string(),
            account_id: None,
        })
    );
    let stamp = doc.last_refresh.unwrap();
    assert!(before <= stamp.seconds && stamp.seconds <= after);
    assert!(stamp.seconds > 1_600_000_000);
    assert!(stamp.nanos < 2_000_000_000);
}

#[test]
fn switch_plan_for_an_api_key() {
    let plan = switch_to_account(&account_with(api_key_auth()), None, text("/home/u")).unwrap();
    assert_eq!(plan.directory, path("/home/u", &[".codex"]));
    assert_eq!(plan.file, path("/home/u", &[".codex", "auth.json"]));
    assert_eq!(plan.document.openai_api_key, text("sk-live-123"));
    assert_eq!(plan.document.tokens, None);
    assert_eq!(plan.document.last_refresh, None);
    assert_eq!(plan.mode, 0o600);
}

#[test]
fn switch_plan_for_tokens() {
    let before = chrono::Utc::now().timestamp();
    let plan =
        switch_to_account(&account_with(token_auth(Some("org-1"))), text("/srv/codex"), None)
            .unwrap();
    let after = chrono::Utc::now().timestamp();
    assert_eq!(plan.directory, path("/srv/codex", &[]));
    assert_eq!(plan.file, path("/srv/codex", &["auth.json"]));
    assert_eq!(plan.document.openai_api_key, None);
    assert_eq!(plan.document.tokens.as_ref().map(|t| t.access_token.as_str()), Some("access"));
    assert_eq!(plan.document.tokens.as_ref().and_then(|t| t.account_id.as_deref()), Some("org-1"));
    let stamp = plan.document.last_refresh.unwrap();
    assert!(before <= stamp.seconds && stamp.seconds <= after);
    assert_eq!(from_document(plan.document), Ok(token_auth(Some("org-1"))));
}

#[test]
fn switch_plan_shuts_out_group_and_others() {
    let plan = switch_to_account(&account_with(api_key_auth()), text("/x"), None).unwrap();
    assert_eq!(plan.mode & 0o077, 0);
    assert_eq!(plan.mode & 0o700, 0o600);
    assert_eq!(AUTH_FILE_MODE, 0o600);
}

#[test]
fn switch_without_a_home_fails() {
    assert_eq!(
        switch_to_account(&account_with(api_key_auth()), None, None),
        Err(AuthError::HomeDirectoryNotFound)
    );
}

#[test]
fn import_of_an_api_key_document() {
    let doc = AuthDotJson { openai_api_key: text("sk-1"), tokens: None, last_refresh: None };
    assert_eq!(
        import_from_auth_json(DocumentFile::Document(doc), "id-9".to_string(), "imported".to_string()),
        Ok(StoredAccount {
            id: "id-9".to_string(),
            name: "imported".to_string(),
            email: None,
            plan_type: None,
            auth_data: AuthData::ApiKey { key: "sk-1".to_string() },
        })
    );
}

#[test]
fn import_of_tokens_reads_the_claims() {
    let payload = "{\"email\":\"u@x.com\",\"https://api.openai.com/auth\":{\"chatgpt_plan_type\":\"pro\"}}";
    let id_token = format!("{}.{}.{}", encoded("{\"alg\":\"none\"}"), encoded(payload), "sig");
    let doc = AuthDotJson {
        openai_api_key: None,
        tokens: Some(tokens(&id_token)),
        last_refresh: Some(Timestamp { seconds: 1, nanos: 2 }),
    };
    assert_eq!(
        import_from_auth_json(DocumentFile::Document(doc), "id-2".to_string(), "team".to_string()),
        Ok(StoredAccount {
            id: "id-2".to_string(),
            name: "team".to_string(),
            email: text("u@x.com"),
            plan_type: text("pro"),
            auth_data: AuthData::ChatGPT {
                id_token,
                access_token: "access".to_string(),
                refresh_token: "refresh".to_string(),
                account_id: text("org-1"),
            },
        })
    );
}

#[test]
fn import_survives_an_unreadable_identity_token() {
    for id_token in ["", "garbage", "a.b.c", "a.!!!.c", "a.b.c.d"] {
        let doc = AuthDotJson { openai_api_key: None, tokens: Some(tokens(id_token)), last_refresh: None };
        let account = import_from_auth_json(DocumentFile::Document(doc), "id".to_string(), "n".to_string()).unwrap();
        assert_eq!(account.email, None);
        assert_eq!(account.plan_type, None);
        assert_eq!(
            account.auth_data,
            AuthData::ChatGPT {
                id_token: id_token.to_string(),
                access_token: "access".to_string(),
                refresh_token: "refresh".to_string(),
                account_id: text("org-1"),
            }
        );
    }
}

#[test]
fn import_without_credentials_fails() {
    let doc = AuthDotJson { openai_api_key: None, tokens: None, last_refresh: None };
    assert_eq!(
        import_from_auth_json(DocumentFile::Document(doc), "id".to_string(), "n".to_string()),
        Err(AuthError::NoCredentials)
    );
}

#[test]
fn import_with_both_credentials_is_an_api_key_account() {
    let payload = "{\"email\":\"u@x.com\"}";
    let id_token = format!("h.{}.s", encoded(payload));
    let doc = AuthDotJson {
        openai_api_key: text("sk-both"),
        tokens: Some(tokens(&id_token)),
        last_refresh: None,
    };
    let account = import_from_auth_json(DocumentFile::Document(doc), "id".to_string(), "n".to_string()).unwrap();
    assert_eq!(account.auth_data, AuthData::ApiKey { key: "sk-both".to_string() });
    assert_eq!(account.email, None);
    assert_eq!(account.plan_type, None);
}

#[test]
fn login_is_active_with_either_credential() {
    let with = |doc: AuthDotJson| has_active_login(DocumentFile::Document(doc));
    assert_eq!(has_active_login(DocumentFile::Missing), Ok(false));
    assert_eq!(
        with(AuthDotJson {
            openai_api_key: None,
            tokens: None,
            last_refresh: Some(Timestamp { seconds: 1, nanos: 0 }),
        }),
        Ok(false)
    );
    assert_eq!(
        with(AuthDotJson { openai_api_key: text("sk"), tokens: None, last_refresh: None }),
        Ok(true)
    );
    assert_eq!(
        with(AuthDotJson { openai_api_key: None, tokens: Some(tokens("a.b.c")), last_refresh: None }),
        Ok(true)
    );
    assert_eq!(
        with(AuthDotJson {
            openai_api_key: text(""),
            tokens: Some(tokens("a.b.c")),
            last_refresh: None,
        }),
        Ok(true)
    );
}

#[test]
fn login_check_fails_on_a_broken_file() {
    assert_eq!(has_active_login(DocumentFile::Unreadable), Err(AuthError::ReadFailed));
    assert_eq!(has_active_login(DocumentFile::Malformed), Err(AuthError::ParseFailed));
}

#[test]
fn current_auth_is_what_the_file_holds() {
    let doc = AuthDotJson { openai_api_key: text("sk"), tokens: None, last_refresh: None };
    assert_eq!(read_current_auth(DocumentFile::Document(doc.clone())), Ok(Some(doc)));
    let empty = AuthDotJson { openai_api_key: None, tokens: None, last_refresh: None };
    assert_eq!(read_current_auth(DocumentFile::Document(empty.clone())), Ok(Some(empty)));
    assert_eq!(read_current_auth(DocumentFile::Missing), Ok(None));
    assert_eq!(read_current_auth(DocumentFile::Unreadable), Err(AuthError::ReadFailed));
    assert_eq!(read_current_auth(DocumentFile::Malformed), Err(AuthError::ParseFailed));
}

#[test]
fn import_fails_on_a_file_without_a_document() {
    let import = |file| import_from_auth_json(file, "id".to_string(), "n".to_string());
    assert_eq!(import(DocumentFile::Missing), Err(AuthError::ReadFailed));
    assert_eq!(import(DocumentFile::Unreadable), Err(AuthError::ReadFailed));
    assert_eq!(import(DocumentFile::Malformed), Err(AuthError::ParseFailed));
}

#[test]
fn auth_errors_have_their_messages() {
    assert_eq!(AuthError::HomeDirectoryNotFound.message(), "Could not find home directory");
    assert_eq!(AuthError::ReadFailed.message(), "Failed to read auth.json");
    assert_eq!(AuthError::ParseFailed.message(), "Failed to parse auth.json");
    assert_eq!(
        AuthError::NoCredentials.message(),
        "auth.json contains neither API key nor tokens"
    );
}

#[test]
fn accounts_are_built_from_their_parts() {
    let key = StoredAccount::new_api_key("i".to_string(), "n".to_string(), "k".to_string());
    assert_eq!(
        key,
        StoredAccount {
            id: "i".to_string(),
            name: "n".to_string(),
            email: None,
            plan_type: None,
            auth_data: AuthData::ApiKey { key: "k".to_string() },
        }
    );
    let chat = StoredAccount::new_chatgpt(
        "i".to_string(),
        "n".to_string(),
        text("e@x"),
        text("plus"),
        "it".to_string(),
        "at".to_string(),
        "rt".to_string(),
        text("org"),
    );
    assert_eq!(chat.email, text("e@x"));
    assert_eq!(chat.plan_type, text("plus"));
    assert_eq!(
        chat.auth_data,
        AuthData::ChatGPT {
            id_token: "it".to_string(),
            access_token: "at".to_string(),
            refresh_token: "rt".to_string(),
            account_id: text("org"),
        }
    );
}
