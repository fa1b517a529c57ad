//! Usage of an account: rate limits and credits.
//!
//! Fetching usage takes one exchange with the backend, which the caller
//! performs. [`get_account_usage`] says whether an exchange is needed and with
//! which request; [`usage_from_reply`] turns what came back into a record.
//! [`refresh_all_usage`] settles the outcomes of many accounts at once.

use crate::http::{
    header_value_text, headers_view, is_header_value, lemma_header_value_concat, status_digits,
    status_text, Header, HttpStatus,
};
use crate::types::{
    AuthData, AuthDataView, CreditStatusDetails, RateLimitDetails, RateLimitStatusPayload,
    RateLimitStatusPayloadView, RateLimitWindow, StoredAccount, StoredAccountView, UsageError,
    UsageInfo, UsageInfoView,
};
use vstd::prelude::*;

verus! {

/// The root of the backend's API.
pub const CHATGPT_BACKEND_API: &'static str = "https://chatgpt.com/backend-api";

/// A `GET` request to the backend: where it goes and the headers it carries.
#[derive(Debug, Clone, PartialEq, Eq)]
pub struct UsageRequest {
    pub url: String,
    pub headers: Vec<Header>,
}

/// Ghost counterpart of [`UsageRequest`].
pub struct UsageRequestView {
    pub url: Seq<char>,
    pub headers: Seq<(Seq<char>, Seq<char>)>,
}

impl View for UsageRequest {
    type V = UsageRequestView;

    open spec fn view(&self) -> UsageRequestView {
        UsageRequestView { url: self.url@, headers: headers_view(self.headers@) }
    }
}

/// The request that asks for the usage behind `access_token`: the client's
/// name, the token as a bearer credential, and the upstream account
/// identifier where there is one that a header can carry.
pub open spec fn usage_request_for(
    access_token: Seq<char>,
    chatgpt_account_id: Option<Seq<char>>,
) -> UsageRequestView {
    let fixed = seq![
        ("user-agent"@, "codex-cli/1.0.0"@),
        ("authorization"@, "Bearer "@ + access_token),
    ];
    UsageRequestView {
        url: "https://chatgpt.com/backend-api"@ + "/wham/usage"@,
        headers: if chatgpt_account_id is Some && header_value_text(chatgpt_account_id->0) {
            fixed.push(("chatgpt-account-id"@, chatgpt_account_id->0))
        } else {
            fixed
        },
    }
}

/// Builds the usage request for a token-mode account.
///
/// A token that no header can carry is refused. An upstream account
/// identifier that no header can carry is left out, and the request goes
/// without it.
pub fn usage_request(access_token: &str, chatgpt_account_id: &Option<String>) -> (request: Result<
    UsageRequest,
    UsageError,
>)
    ensures
        match request {
            Ok(request) => header_value_text(access_token@) && request@ == usage_request_for(
                access_token@,
                chatgpt_account_id.deep_view(),
            ),
            Err(error) => error == UsageError::InvalidAccessToken && !header_value_text(
                access_token@,
            ),
        },
{
    let authorization = "Bearer ".to_owned().concat(access_token);
    proof {
        reveal_strlit("Bearer ");
        lemma_header_value_concat("Bearer "@, access_token@);
    }
    if !is_header_value(authorization.as_str()) {
        return Err(UsageError::InvalidAccessToken);
    }
    let mut headers: Vec<Header> = Vec::new();
    headers.push(Header { name: "user-agent".to_owned(), value: "codex-cli/1.0.0".to_owned() });
    headers.push(Header { name: "authorization".to_owned(), value: authorization });
    match chatgpt_account_id {
        Some(id) => {
            if is_header_value(id.as_str()) {
                headers.push(Header { name: "chatgpt-account-id".to_owned(), value: id.clone() });
            }
        },
        None => {},
    }
    let url = CHATGPT_BACKEND_API.to_owned().concat("/wham/usage");
    let request = UsageRequest { url, headers };
    proof {
        assert(request@.headers =~= usage_request_for(
            access_token@,
            chatgpt_account_id.deep_view(),
        ).headers);
    }
    Ok(request)
}

/// The number of minutes that a window of `seconds` seconds is reported as:
/// the seconds divided by sixty, rounded up. (A negative length, which no
/// backend should send, rounds towards zero as the machine's division does.)
pub open spec fn window_minutes(seconds: int) -> int {
    if seconds + 59 >= 0 {
        (seconds + 59) / 60
    } else {
        -((-(seconds + 59)) / 60)
    }
}

/// For a length that is not negative, `window_minutes` is the least number
/// of whole minutes that cover it: the length divided by sixty, rounded up.
pub proof fn lemma_window_minutes_is_ceiling(seconds: int)
    requires
        seconds >= 0,
    ensures
        60 * (window_minutes(seconds) - 1) < seconds <= 60 * window_minutes(seconds),
        seconds % 60 == 0 ==> window_minutes(seconds) == seconds / 60,
        seconds % 60 != 0 ==> window_minutes(seconds) == seconds / 60 + 1,
{
}

/// The two windows of a rate-limit block, primary first; none where the block is absent.
pub open spec fn windows_of<N>(rate_limit: Option<RateLimitDetails<N>>) -> (
    Option<RateLimitWindow<N>>,
    Option<RateLimitWindow<N>>,
) {
    match rate_limit {
        Some(details) => (details.primary_window, details.secondary_window),
        None => (None, None),
    }
}

/// The share of a window that is used up, where the window is present.
pub open spec fn used_percent_of<N>(window: Option<RateLimitWindow<N>>) -> Option<N> {
    match window {
        Some(window) => Some(window.used_percent),
        None => None,
    }
}

/// The length of a window in minutes, where the window is present and has a length.
pub open spec fn minutes_of<N>(window: Option<RateLimitWindow<N>>) -> Option<i64> {
    match window {
        Some(window) => match window.limit_window_seconds {
            Some(seconds) => Some(window_minutes(seconds as int) as i64),
            None => None,
        },
        None => None,
    }
}

/// The time at which a window starts afresh, where the window is present and says so.
pub open spec fn resets_at_of<N>(window: Option<RateLimitWindow<N>>) -> Option<i64> {
    match window {
        Some(window) => window.reset_at,
        None => None,
    }
}

/// The usage record that a payload of the backend amounts to. What the
/// payload lacks, the record lacks; nothing is filled in.
pub open spec fn usage_of_payload<N>(
    account_id: Seq<char>,
    payload: RateLimitStatusPayloadView<N>,
) -> UsageInfoView<N> {
    let (primary, secondary) = windows_of(payload.rate_limit);
    UsageInfoView {
        account_id,
        plan_type: Some(payload.plan_type),
        primary_used_percent: used_percent_of(primary),
        primary_window_minutes: minutes_of(primary),
        primary_resets_at: resets_at_of(primary),
        secondary_used_percent: used_percent_of(secondary),
        secondary_window_minutes: minutes_of(secondary),
        secondary_resets_at: resets_at_of(secondary),
        has_credits: match payload.credits {
            Some(credits) => Some(credits.has_credits),
            None => None,
        },
        unlimited_credits: match payload.credits {
            Some(credits) => Some(credits.unlimited),
            None => None,
        },
        credits_balance: match payload.credits {
            Some(credits) => credits.balance,
            None => None,
        },
        error: None,
    }
}

/// The primary and the secondary window of a rate-limit block.
pub fn extract_rate_limits<N>(rate_limit: Option<RateLimitDetails<N>>) -> (windows: (
    Option<RateLimitWindow<N>>,
    Option<RateLimitWindow<N>>,
))
    ensures
        windows == windows_of(rate_limit),
{
    match rate_limit {
        Some(details) => (details.primary_window, details.secondary_window),
        None => (None, None),
    }
}

/// The credits block, as it stands.
pub fn extract_credits<N>(credits: Option<CreditStatusDetails<N>>) -> (extracted: Option<
    CreditStatusDetails<N>,
>)
    ensures
        extracted == credits,
{
    credits
}

/// Takes a window apart into what a usage record holds of it.
fn window_figures<N>(window: Option<RateLimitWindow<N>>) -> (figures: (
    Option<N>,
    Option<i64>,
    Option<i64>,
))
    ensures
        figures == (used_percent_of(window), minutes_of(window), resets_at_of(window)),
{
    match window {
        Some(window) => {
            let minutes = match window.limit_window_seconds {
                Some(seconds) => Some((seconds as i64 + 59) / 60),
                None => None,
            };
            (Some(window.used_percent), minutes, window.reset_at)
        },
        None => (None, None, None),
    }
}

/// Turns the backend's payload into the usage record of `account_id`.
pub fn convert_payload_to_usage_info<N>(account_id: &str, payload: RateLimitStatusPayload<N>) -> (info:
    UsageInfo<N>)
    ensures
        info@ == usage_of_payload(account_id@, payload@),
{
    let (primary, secondary) = extract_rate_limits(payload.rate_limit);
    let credits = extract_credits(payload.credits);
    let (primary_used_percent, primary_window_minutes, primary_resets_at) = window_figures(primary);
    let (secondary_used_percent, secondary_window_minutes, secondary_resets_at) = window_figures(
        secondary,
    );
    let (has_credits, unlimited_credits, credits_balance) = match credits {
        Some(credits) => (Some(credits.has_credits), Some(credits.unlimited), credits.balance),
        None => (None, None, None),
    };
    UsageInfo {
        account_id: account_id.to_owned(),
        plan_type: Some(payload.plan_type),
        primary_used_percent,
        primary_window_minutes,
        primary_resets_at,
        secondary_used_percent,
        secondary_window_minutes,
        secondary_resets_at,
        has_credits,
        unlimited_credits,
        credits_balance,
        error: None,
    }
}

/// The body of a response, as far as the caller could make sense of it.
#[derive(Debug, Clone, PartialEq)]
pub enum ReplyBody<N> {
    /// The body could not be read.
    Unreadable,
    /// The body was read and is not a usage payload.
    Malformed,
    /// The body is this payload.
    Payload(RateLimitStatusPayload<N>),
}

/// What came of sending a usage request.
#[derive(Debug, Clone, PartialEq)]
pub enum UsageReply<N> {
    /// The request could not be sent, or no response arrived.
    SendFailed,
    /// A response arrived.
    Response { status: HttpStatus, body: ReplyBody<N> },
}

/// Ghost counterpart of [`ReplyBody`].
pub enum ReplyBodyView<N> {
    Unreadable,
    Malformed,
    Payload(RateLimitStatusPayloadView<N>),
}

/// Ghost counterpart of [`UsageReply`].
pub enum UsageReplyView<N> {
    SendFailed,
    Response { status: HttpStatus, body: ReplyBodyView<N> },
}

impl<N> View for ReplyBody<N> {
    type V = ReplyBodyView<N>;

    open spec fn view(&self) -> ReplyBodyView<N> {
        match *self {
            ReplyBody::Unreadable => ReplyBodyView::Unreadable,
            ReplyBody::Malformed => ReplyBodyView::Malformed,
            ReplyBody::Payload(payload) => ReplyBodyView::Payload(payload@),
        }
    }
}

impl<N> View for UsageReply<N> {
    type V = UsageReplyView<N>;

    open spec fn view(&self) -> UsageReplyView<N> {
        match *self {
            UsageReply::SendFailed => UsageReplyView::SendFailed,
            UsageReply::Response { status, body } => UsageReplyView::Response {
                status,
                body: body@,
            },
        }
    }
}

/// The outcome of a fetch, with the record taken by its view.
pub open spec fn outcome_view<N>(outcome: Result<UsageInfo<N>, UsageError>) -> Result<
    UsageInfoView<N>,
    UsageError,
> {
    match outcome {
        Ok(info) => Ok(info@),
        Err(error) => Err(error),
    }
}

/// What a reply means for the account that asked.
///
/// A response that does not report success yields a failure record that
/// names the status, whatever its body holds. Only a successful response is
/// read, and only a payload yields usage.
pub open spec fn usage_of_reply<N>(account_id: Seq<char>, reply: UsageReplyView<N>) -> Result<
    UsageInfoView<N>,
    UsageError,
> {
    match reply {
        UsageReplyView::SendFailed => Err(UsageError::SendFailed),
        UsageReplyView::Response { status, body } => if !status.is_success_code() {
            Ok(UsageInfoView::failure(account_id, "API error: "@ + status_text(status.code())))
        } else {
            match body {
                ReplyBodyView::Unreadable => Err(UsageError::BodyUnreadable),
                ReplyBodyView::Malformed => Err(UsageError::MalformedBody),
                ReplyBodyView::Payload(payload) => Ok(usage_of_payload(account_id, payload)),
            }
        },
    }
}

/// Turns the reply to a usage request into the outcome of the fetch.
pub fn usage_from_reply<N>(account_id: &str, reply: UsageReply<N>) -> (outcome: Result<
    UsageInfo<N>,
    UsageError,
>)
    ensures
        outcome_view(outcome) == usage_of_reply(account_id@, reply@),
{
    match reply {
        UsageReply::SendFailed => Err(UsageError::SendFailed),
        UsageReply::Response { status, body } => {
            if !status.is_success() {
                let message = "API error: ".to_owned().concat(status.describe().as_str());
                return Ok(UsageInfo::error(account_id.to_owned(), message));
            }
            match body {
                ReplyBody::Unreadable => Err(UsageError::BodyUnreadable),
                ReplyBody::Malformed => Err(UsageError::MalformedBody),
                ReplyBody::Payload(payload) => Ok(
                    convert_payload_to_usage_info(account_id, payload),
                ),
            }
        },
    }
}

/// The failure record of a response that does not report success shows the
/// digits of the status right after its fixed opening, and holds no usage.
pub proof fn lemma_api_error_shows_status<N>(
    account_id: Seq<char>,
    status: HttpStatus,
    body: ReplyBodyView<N>,
)
    requires
        !status.is_success_code(),
    ensures
        ({
            &&& usage_of_reply(account_id, UsageReplyView::Response { status, body }) matches Ok(
                info,
            )
            &&& info.account_id == account_id
            &&& info.plan_type is None
            &&& info.has_no_usage()
            &&& info.error matches Some(text)
            &&& text.len() >= 14
            &&& text.subrange(0, 11) == "API error: "@
            &&& text.subrange(11, 14) == status_digits(status.code() as int)
        }),
{
    reveal_strlit("API error: ");
}

/// The next thing to do for an account whose usage is wanted.
#[derive(Debug, PartialEq)]
pub enum UsageStep<N> {
    /// Nothing is to be asked: the outcome stands.
    Settled(Result<UsageInfo<N>, UsageError>),
    /// The backend is to be asked with this request; its reply goes to
    /// [`usage_from_reply`].
    Ask(UsageRequest),
}

/// Ghost counterpart of [`UsageStep`].
pub enum UsageStepView<N> {
    Settled(Result<UsageInfoView<N>, UsageError>),
    Ask(UsageRequestView),
}

impl<N> View for UsageStep<N> {
    type V = UsageStepView<N>;

    open spec fn view(&self) -> UsageStepView<N> {
        match *self {
            UsageStep::Settled(outcome) => UsageStepView::Settled(outcome_view(outcome)),
            UsageStep::Ask(request) => UsageStepView::Ask(request@),
        }
    }
}

/// The record of an account that authenticates with an API key: the backend
/// keeps no usage for such accounts.
pub open spec fn api_key_usage<N>(account_id: Seq<char>) -> UsageInfoView<N> {
    UsageInfoView {
        plan_type: Some("api_key"@),
        ..UsageInfoView::failure(account_id, "usage info not available for API key accounts"@)
    }
}

/// The first step for a token-mode account.
pub open spec fn token_step<N>(
    access_token: Seq<char>,
    chatgpt_account_id: Option<Seq<char>>,
) -> UsageStepView<N> {
    if header_value_text(access_token) {
        UsageStepView::Ask(usage_request_for(access_token, chatgpt_account_id))
    } else {
        UsageStepView::Settled(Err(UsageError::InvalidAccessToken))
    }
}

/// The first step for any account.
pub open spec fn first_step<N>(account: StoredAccountView) -> UsageStepView<N> {
    match account.auth_data {
        AuthDataView::ApiKey { .. } => UsageStepView::Settled(Ok(api_key_usage(account.id))),
        AuthDataView::ChatGPT { access_token, account_id, .. } => token_step(
            access_token,
            account_id,
        ),
    }
}

/// The first step for a token-mode account: the request to send, or the
/// reason why none can be sent.
pub fn get_usage_with_chatgpt_token<N>(
    access_token: &str,
    chatgpt_account_id: &Option<String>,
) -> (step: UsageStep<N>)
    ensures
        step@ == token_step::<N>(access_token@, chatgpt_account_id.deep_view()),
{
    match usage_request(access_token, chatgpt_account_id) {
        Ok(request) => UsageStep::Ask(request),
        Err(error) => UsageStep::Settled(Err(error)),
    }
}

/// Begins fetching the usage of `account`.
///
/// For an account with an API key nothing is asked of the backend: the step
/// is settled at once, with a record that says why there is no usage.
pub fn get_account_usage<N>(account: &StoredAccount) -> (step: UsageStep<N>)
    ensures
        step@ == first_step::<N>(account@),
        account.auth_data is ApiKey ==> ({
            &&& step matches UsageStep::Settled(Ok(info))
            &&& info@.account_id == account.id@
            &&& info@.plan_type == Some("api_key"@)
            &&& info@.has_no_usage()
            &&& info@.error matches Some(text)
            &&& text.len() > 0
        }),
{
    match &account.auth_data {
        AuthData::ApiKey { .. } => {
            let info = UsageInfo {
                account_id: account.id.clone(),
                plan_type: Some("api_key".to_owned()),
                primary_used_percent: None,
                primary_window_minutes: None,
                primary_resets_at: None,
                secondary_used_percent: None,
                secondary_window_minutes: None,
                secondary_resets_at: None,
                has_credits: None,
                unlimited_credits: None,
                credits_balance: None,
                error: Some("usage info not available for API key accounts".to_owned()),
            };
            proof {
                reveal_strlit("usage info not available for API key accounts");
            }
            UsageStep::Settled(Ok(info))
        },
        AuthData::ChatGPT { access_token, account_id, .. } => get_usage_with_chatgpt_token(
            access_token.as_str(),
            account_id,
        ),
    }
}

/// Every record that the library makes for an account carries the
/// identifier of that account, whether it was settled at once or read from a
/// reply, and whether the fetch succeeded or failed.
pub proof fn lemma_records_carry_the_account<N>(
    account: StoredAccountView,
    reply: UsageReplyView<N>,
)
    ensures
        first_step::<N>(account) matches UsageStepView::Settled(outcome) ==> settled_usage(
            account.id,
            outcome,
        ).account_id == account.id,
        settled_usage(account.id, usage_of_reply(account.id, reply)).account_id == account.id,
{
}

/// The record that stands for an account once its fetch has ended: the usage
/// that was fetched, or a failure record with the reason.
pub open spec fn settled_usage<N>(
    account_id: Seq<char>,
    outcome: Result<UsageInfoView<N>, UsageError>,
) -> UsageInfoView<N> {
    match outcome {
        Ok(info) => info,
        Err(error) => UsageInfoView::failure(account_id, error.message_text()),
    }
}

/// Settles the fetch of one account, so that a failure becomes a record too.
pub fn usage_or_error<N>(account: &StoredAccount, outcome: Result<UsageInfo<N>, UsageError>) -> (info:
    UsageInfo<N>)
    ensures
        info@ == settled_usage(account.id@, outcome_view(outcome)),
{
    match outcome {
        Ok(info) => info,
        Err(error) => UsageInfo::error(account.id.clone(), error.message()),
    }
}

/// Settles the fetches of many accounts. `outcomes` holds one outcome for
/// each account, in the order of `accounts`, however the fetches were run.
///
/// The records come back in the order of the accounts. A fetch that failed
/// leaves a failure record in its place and touches no other.
pub fn refresh_all_usage<N>(
    accounts: &[StoredAccount],
    outcomes: Vec<Result<UsageInfo<N>, UsageError>>,
) -> (records: Vec<UsageInfo<N>>)
    requires
        outcomes.len() == accounts.len(),
    ensures
        records.len() == accounts.len(),
        forall|i: int|
            0 <= i < accounts.len() ==> (#[trigger] records[i])@ == settled_usage(
                accounts[i].id@,
                outcome_view(outcomes[i]),
            ),
{
    let mut records: Vec<UsageInfo<N>> = Vec::new();
    let mut position: usize = 0;
    for outcome in all: outcomes
        invariant
            position == all.index(),
            records.len() == position,
            all.seq() == outcomes@,
            outcomes.len() == accounts.len(),
            forall|i: int|
                0 <= i < position ==> (#[trigger] records[i])@ == settled_usage(
                    accounts[i].id@,
                    outcome_view(outcomes[i]),
                ),
    {
        let info = usage_or_error(&accounts[position], outcome);
        records.push(info);
        position = position + 1;
    }
    records
}

} // verus!
