//! The gateway to the trading API: which request each operation makes, how a
//! usable token is come by, which account a session works on, and how every
//! failure becomes a `PublicError`.

use vstd::prelude::*;
use vstd::string::StringExecFns;
use crate::clock::Timestamp;
use crate::creds::{offered_at, stored_at, CachedToken, Creds};
use crate::text::{join3, same_text, text_of, view_of};

verus! {

/// The address that every endpoint path is joined onto.
pub const PUBLIC_API: &'static str = "https://api.public.com";

/// Every failure that the gateway reports.
#[derive(Debug, Clone, PartialEq, Eq)]
pub enum PublicError {
    /// No account of the requested type exists.
    AccountTypeNotFound,
    /// The vault could not supply the long-lived secret.
    MissingCredentials,
    /// An account-scoped operation was asked for before an account was chosen.
    MissingAccountId,
    /// The server answered with an error, or its answer could not be read:
    /// a code and a message.
    ServiceError(String, String),
    /// No answer was obtained at all.
    HttpError(String),
    /// The endpoint path does not join onto the base address.
    InvalidUri,
}

/// A `PublicError` as a mathematical value.
pub ghost enum ErrorModel {
    AccountTypeNotFound,
    MissingCredentials,
    MissingAccountId,
    ServiceError(Seq<char>, Seq<char>),
    HttpError(Seq<char>),
    InvalidUri,
}

impl View for PublicError {
    type V = ErrorModel;

    open spec fn view(&self) -> ErrorModel {
        match self {
            PublicError::AccountTypeNotFound => ErrorModel::AccountTypeNotFound,
            PublicError::MissingCredentials => ErrorModel::MissingCredentials,
            PublicError::MissingAccountId => ErrorModel::MissingAccountId,
            PublicError::ServiceError(code, message) => ErrorModel::ServiceError(
                code@,
                message@,
            ),
            PublicError::HttpError(detail) => ErrorModel::HttpError(detail@),
            PublicError::InvalidUri => ErrorModel::InvalidUri,
        }
    }
}

/// The body that the server sends with a status outside 200 to 299.
#[derive(Debug, Clone, PartialEq, Eq)]
pub struct ServiceErrorMsg {
    pub error: String,
    pub message: String,
}

/// One account of the user, as the server lists it.
#[derive(Debug, Clone, PartialEq, Eq)]
pub struct Account {
    pub account_id: String,
    pub account_type: String,
    pub options_level: String,
    pub brokerage_account_type: String,
    pub trade_permissions: String,
}

/// The kinds of instrument that the server knows.
#[derive(Debug, Clone, Copy, PartialEq, Eq)]
#[allow(non_camel_case_types)]
pub enum InstrumentType {
    EQUITY,
    OPTION,
    MULTI_LEG_INSTRUMENT,
    CRYPTO,
    ALT,
    TREASURY,
    BOND,
    INDEX,
}

/// Whether an option is a right to buy or a right to sell.
#[derive(Debug, Clone, Copy, PartialEq, Eq, Structural)]
pub enum OptionType {
    CALL,
    PUT,
}

/// What is traded: a symbol and its kind.
#[derive(Debug, Clone, PartialEq, Eq)]
pub struct Instrument {
    pub symbol: String,
    pub itype: InstrumentType,
}

/// The market's present prices for one instrument. Prices are kept as the
/// server writes them.
#[derive(Debug, Clone, PartialEq, Eq)]
pub struct Quote {
    pub instrument: Instrument,
    pub outcome: String,
    pub last: String,
    pub last_timestamp: String,
    pub bid: String,
    pub bid_size: Option<u64>,
    pub bid_timestamp: String,
    pub ask: String,
    pub ask_size: Option<u64>,
    pub ask_timestamp: String,
    pub volume: u64,
    pub open_interest: Option<u64>,
}

/// The answer to a request for quotes.
#[derive(Debug, Clone, PartialEq, Eq)]
pub struct QuotesResponse {
    pub quotes: Vec<Quote>,
}

/// The options on one symbol that expire on one date.
#[derive(Debug, Clone, PartialEq, Eq)]
pub struct OptionChain {
    pub base_symbol: String,
    pub calls: Vec<Quote>,
    pub puts: Vec<Quote>,
}

/// The sensitivities of an option's price, as the server writes them.
#[derive(Debug, Clone, PartialEq, Eq)]
pub struct OptionGreeks {
    pub delta: String,
    pub gamma: String,
    pub theta: String,
    pub vega: String,
    pub rho: String,
    pub implied_volatility: String,
}

/// What came back for one request: the status, and, where the program read
/// the body as an error message and it was one, that message.
#[derive(Debug, Clone, PartialEq, Eq)]
pub struct Reply {
    pub status: u16,
    pub error_body: Option<ServiceErrorMsg>,
}

/// The code of the error for an error body that could not be read.
pub open spec fn malformed_error_code() -> Seq<char> {
    "MalformedJsonErrorResponse"@
}

/// The message of the error for an error body that could not be read.
pub open spec fn malformed_error_message() -> Seq<char> {
    "Couldnt parse server error json response"@
}

/// The code of the error for a body that is not of the expected shape.
pub open spec fn malformed_response_code() -> Seq<char> {
    "MalformedJsonResponse"@
}

/// What the message of that error starts with.
pub open spec fn malformed_response_prefix() -> Seq<char> {
    "Couldnt parse json response: "@
}

/// A status from 200 to 299.
pub open spec fn is_success(status: u16) -> bool {
    200 <= status < 300
}

/// The error that stands for an answer with a status outside 200 to 299.
pub open spec fn service_error_of(error_body: Option<ServiceErrorMsg>) -> ErrorModel {
    match error_body {
        Some(msg) => ErrorModel::ServiceError(msg.error@, msg.message@),
        None => ErrorModel::ServiceError(malformed_error_code(), malformed_error_message()),
    }
}

/// Whether `status` lies from 200 to 299.
pub fn status_is_success(status: u16) -> (success: bool)
    ensures
        success == is_success(status),
{
    200 <= status && status < 300
}

/// The error for an answer with a status outside 200 to 299: the server's
/// own code and message where its body held them, a fixed pair where not.
pub fn service_error(error_body: Option<ServiceErrorMsg>) -> (error: PublicError)
    ensures
        error@ == service_error_of(error_body),
{
    match error_body {
        Some(msg) => PublicError::ServiceError(msg.error, msg.message),
        None => PublicError::ServiceError(
            "MalformedJsonErrorResponse".to_owned(),
            "Couldnt parse server error json response".to_owned(),
        ),
    }
}

/// The error for a body with a status from 200 to 299 that is not of the
/// expected shape; `detail` says what the decoder found.
pub fn malformed_response(detail: &str) -> (error: PublicError)
    ensures
        error@ == ErrorModel::ServiceError(
            malformed_response_code(),
            malformed_response_prefix() + detail@,
        ),
{
    let mut message = "Couldnt parse json response: ".to_owned();
    message.append(detail);
    PublicError::ServiceError("MalformedJsonResponse".to_owned(), message)
}

/// Sorts what came of sending a request: a transport failure, described by
/// its text, becomes `HttpError`; an answer with a status outside 200 to 299
/// becomes `ServiceError`; any other answer is handed on unchanged.
pub fn handle_response(response: Result<Reply, String>) -> (handled: Result<Reply, PublicError>)
    ensures
        match response {
            Err(detail) => handled matches Err(e) && e@ == ErrorModel::HttpError(detail@),
            Ok(reply) => if is_success(reply.status) {
                handled == Ok::<Reply, PublicError>(reply)
            } else {
                handled matches Err(e) && e@ == service_error_of(reply.error_body)
            },
        },
{
    let reply = match response {
        Ok(reply) => reply,
        Err(detail) => {
            return Err(PublicError::HttpError(detail));
        },
    };
    if !status_is_success(reply.status) {
        return Err(service_error(reply.error_body));
    }
    Ok(reply)
}

/// The account at index `i` is of the type `account_type`, and none after it
/// is.
pub open spec fn is_last_of_type(accounts: Seq<Account>, account_type: Seq<char>, i: int) -> bool {
    &&& 0 <= i < accounts.len()
    &&& accounts[i].account_type@ == account_type
    &&& forall|j: int| i < j < accounts.len() ==> accounts[j].account_type@ != account_type
}

/// No account is of the type `account_type`.
pub open spec fn none_of_type(accounts: Seq<Account>, account_type: Seq<char>) -> bool {
    forall|j: int| 0 <= j < accounts.len() ==> accounts[j].account_type@ != account_type
}

/// The index of the last account of the type `account_type`, in list order.
pub fn select_account(accounts: &Vec<Account>, account_type: &str) -> (found: Option<usize>)
    ensures
        match found {
            Some(i) => is_last_of_type(accounts@, account_type@, i as int),
            None => none_of_type(accounts@, account_type@),
        },
{
    let mut i: usize = accounts.len();
    while i > 0
        invariant
            i <= accounts.len(),
            forall|j: int| i <= j < accounts.len() ==> accounts@[j].account_type@ != account_type@,
        decreases i,
    {
        i = i - 1;
        if same_text(accounts[i].account_type.as_str(), account_type) {
            return Some(i);
        }
    }
    None
}

/// The choice of an account is determined: at most one index is that of the
/// last account of a type, however many accounts of that type the list holds.
pub proof fn lemma_last_of_type_is_unique(
    accounts: Seq<Account>,
    account_type: Seq<char>,
    i: int,
    j: int,
)
    requires
        is_last_of_type(accounts, account_type, i),
        is_last_of_type(accounts, account_type, j),
    ensures
        i == j,
{
}

/// What joining `path` onto the address `base` gives, as `url::Url` does it:
/// the text of the resulting URL, or nothing where `base` is no absolute URL
/// or `path` does not join onto it.
pub uninterp spec fn url_join(base: Seq<char>, path: Seq<char>) -> Option<Seq<char>>;

/// Parses `base` with `url::Url::parse`, joins `path` onto it with
/// `url::Url::join`, and takes the result's text (`String::from`). Not
/// proved: that the outcome is `url_join` of the two texts, which is to say
/// that it depends on the two texts alone.
#[verifier::external_body]
pub(crate) fn join_url(base: &str, path: &str) -> (uri: Option<String>)
    ensures
        view_of(uri) == url_join(base@, path@),
{
    match url::Url::parse(base) {
        Ok(base) => match base.join(path) {
            Ok(uri) => Some(String::from(uri)),
            Err(_) => None,
        },
        Err(_) => None,
    }
}

/// The HTTP method of a request.
#[derive(Debug, Clone, Copy, PartialEq, Eq)]
pub enum Method {
    Get,
    Post,
}

/// What a request carries in its body.
#[derive(Debug, Clone, PartialEq, Eq)]
pub enum Payload {
    Empty,
    PersonalToken { validity_in_minutes: i64, secret: String },
    Quotes { instruments: Vec<Instrument> },
    OptionExpirations { instrument: Instrument },
    OptionChain { instrument: Instrument, expiration_date: String },
}

/// One request, ready to be sent once a token is at hand (where it is
/// `authenticated`).
#[derive(Debug, Clone, PartialEq, Eq)]
pub struct Call {
    pub method: Method,
    pub uri: String,
    pub authenticated: bool,
    pub payload: Payload,
}

/// A header line of a request.
#[derive(Debug, Clone, PartialEq, Eq)]
pub struct Header {
    pub name: String,
    pub value: String,
}

/// `call` is the outcome of planning a request for `path`: the request with
/// the joined address, or `InvalidUri` where the path does not join.
pub open spec fn planned(
    base: Seq<char>,
    path: Seq<char>,
    method: Method,
    authenticated: bool,
    payload: Payload,
    call: Result<Call, PublicError>,
) -> bool {
    match url_join(base, path) {
        Some(uri) => call matches Ok(c) && c.method == method && c.uri@ == uri && c.authenticated
            == authenticated && c.payload == payload,
        None => call matches Err(e) && e@ == ErrorModel::InvalidUri,
    }
}

/// `call` is the outcome of planning a request whose path holds the account
/// id between `prefix` and `suffix`: `MissingAccountId` where no account
/// was chosen, else as `planned` says.
pub open spec fn planned_for_account(
    account: Option<Seq<char>>,
    base: Seq<char>,
    prefix: Seq<char>,
    suffix: Seq<char>,
    method: Method,
    payload: Payload,
    call: Result<Call, PublicError>,
) -> bool {
    match account {
        Some(id) => planned(base, prefix + id + suffix, method, true, payload, call),
        None => call matches Err(e) && e@ == ErrorModel::MissingAccountId,
    }
}

/// The address that a join gave, or `InvalidUri` where it gave none.
pub fn uri_from(joined: Option<String>) -> (uri: Result<String, PublicError>)
    ensures
        match joined {
            Some(joined) => uri == Ok::<String, PublicError>(joined),
            None => uri matches Err(e) && e@ == ErrorModel::InvalidUri,
        },
{
    match joined {
        Some(uri) => Ok(uri),
        None => Err(PublicError::InvalidUri),
    }
}

/// The path of an endpoint that holds the account id between `prefix` and
/// `suffix`, or `MissingAccountId` where no account was chosen.
pub fn account_path(account_id: Option<&str>, prefix: &str, suffix: &str) -> (path: Result<
    String,
    PublicError,
>)
    ensures
        match account_id {
            Some(id) => path matches Ok(p) && p@ == prefix@ + id@ + suffix@,
            None => path matches Err(e) && e@ == ErrorModel::MissingAccountId,
        },
{
    match account_id {
        Some(id) => Ok(join3(prefix, id, suffix)),
        None => Err(PublicError::MissingAccountId),
    }
}

/// The value of the `authorization` header for `token`.
pub open spec fn bearer_of(token: Seq<char>) -> Seq<char> {
    "Bearer "@ + token
}

/// The headers of a request that carries `token`.
pub open spec fn headers_of(authenticated: bool, token: Seq<char>, headers: Seq<Header>) -> bool {
    if authenticated {
        &&& headers.len() == 2
        &&& headers[0].name@ == "authorization"@
        &&& headers[0].value@ == bearer_of(token)
        &&& headers[1].name@ == "accept"@
        &&& headers[1].value@ == "*/*"@
    } else {
        headers.len() == 0
    }
}

impl Call {
    /// The header lines to send with this request: for an authenticated one
    /// the bearer `token` and an accept-all line, in this order; none for
    /// any other.
    pub fn headers(&self, token: &str) -> (headers: Vec<Header>)
        ensures
            headers_of(self.authenticated, token@, headers@),
    {
        let mut headers: Vec<Header> = Vec::new();
        if self.authenticated {
            let mut value = "Bearer ".to_owned();
            value.append(token);
            headers.push(Header { name: "authorization".to_owned(), value });
            headers.push(Header { name: "accept".to_owned(), value: "*/*".to_owned() });
        }
        headers
    }
}

/// What the token machine is told.
#[derive(Debug, Clone, PartialEq, Eq)]
pub enum TokenEvent {
    /// A request needs a token.
    Start,
    /// The vault answered: the long-lived secret, or nothing where it failed.
    Secret(Option<String>),
    /// The token exchange ended well: the new token.
    Issued(String),
    /// The token exchange failed.
    Refused(PublicError),
}

/// What the token machine asks for next.
#[derive(Debug, Clone, PartialEq, Eq)]
pub enum TokenAction {
    /// Go on with this token.
    Use(String),
    /// Ask the vault for the long-lived secret.
    FetchSecret,
    /// Send this request, which exchanges the secret for a token.
    Exchange(Call),
    /// Give up with this error.
    Fail(PublicError),
}

/// The path of the endpoint that issues tokens.
pub open spec fn token_path() -> Seq<char> {
    "/userapiauthservice/personal/access-tokens"@
}

/// The path of the endpoint that lists the accounts.
pub open spec fn accounts_path() -> Seq<char> {
    "/userapigateway/trading/account"@
}

/// `action` answers `event` at the instant `now`, for a client with the
/// address `base` whose store is in state `store`.
pub open spec fn token_action(
    base: Seq<char>,
    store: Option<CachedToken>,
    event: TokenEvent,
    now: Timestamp,
    action: TokenAction,
) -> bool {
    match event {
        TokenEvent::Start => match offered_at(store, now) {
            Some(token) => action matches TokenAction::Use(t) && t@ == token,
            None => action is FetchSecret,
        },
        TokenEvent::Secret(None) => action matches TokenAction::Fail(e) && e@
            == ErrorModel::MissingCredentials,
        TokenEvent::Secret(Some(secret)) => match url_join(base, token_path()) {
            Some(uri) => action matches TokenAction::Exchange(c) && c.method == Method::Post
                && c.uri@ == uri && !c.authenticated && c.payload == (Payload::PersonalToken {
                validity_in_minutes: crate::creds::TOKEN_TTL,
                secret,
            }),
            None => action matches TokenAction::Fail(e) && e@ == ErrorModel::InvalidUri,
        },
        TokenEvent::Issued(token) => action matches TokenAction::Use(t) && t@ == token@,
        TokenEvent::Refused(error) => action == TokenAction::Fail(error),
    }
}

/// The state of the store after `event` was answered at `now`: a token that
/// was issued replaces what was cached; nothing else touches the store.
pub open spec fn store_after(
    store: Option<CachedToken>,
    event: TokenEvent,
    now: Timestamp,
) -> Option<CachedToken> {
    match event {
        TokenEvent::Issued(token) => stored_at(token@, now),
        _ => store,
    }
}

/// The client's side of a session: the address, the account chosen and the
/// token store.
pub struct PublicClient {
    base_url: String,
    account_id: Option<String>,
    creds: Creds,
}

impl PublicClient {
    /// The address that paths are joined onto.
    pub closed spec fn base(&self) -> Seq<char> {
        self.base_url@
    }

    /// The id of the account chosen, if one was.
    pub closed spec fn account(&self) -> Option<Seq<char>> {
        view_of(self.account_id)
    }

    /// The state of the token store.
    pub closed spec fn store(&self) -> Option<CachedToken> {
        self.creds@
    }

    /// A client for `PUBLIC_API` with no account chosen, around the store
    /// `creds`.
    pub fn new(creds: Creds) -> (client: Result<Self, PublicError>)
        ensures
            client matches Ok(c) && c.base() == PUBLIC_API@ && c.account() is None && c.store()
                == creds@,
    {
        Ok(Self { base_url: PUBLIC_API.to_owned(), account_id: None, creds })
    }

    /// The id of the account chosen, if one was.
    pub fn account_id(&self) -> (id: Option<&str>)
        ensures
            text_of(id) == self.account(),
    {
        match &self.account_id {
            Some(id) => Some(id.as_str()),
            None => None,
        }
    }

    /// The token store.
    pub fn creds(&self) -> (creds: &Creds)
        ensures
            creds@ == self.store(),
    {
        &self.creds
    }

    /// Chooses the last of `accounts`, in list order, whose type is
    /// `account_type`. Where there is none the choice made before stands.
    pub fn set_account(&mut self, accounts: &Vec<Account>, account_type: &str) -> (done: Result<
        (),
        PublicError,
    >)
        ensures
            final(self).base() == old(self).base(),
            final(self).store() == old(self).store(),
            match done {
                Ok(()) => exists|i: int|
                    is_last_of_type(accounts@, account_type@, i) && final(self).account() == Some(
                        (#[trigger] accounts@[i]).account_id@,
                    ),
                Err(e) => e@ == ErrorModel::AccountTypeNotFound && none_of_type(
                    accounts@,
                    account_type@,
                ) && final(self).account() == old(self).account(),
            },
    {
        match select_account(accounts, account_type) {
            Some(i) => {
                self.account_id = Some(accounts[i].account_id.clone());
                Ok(())
            },
            None => Err(PublicError::AccountTypeNotFound),
        }
    }

    /// The address of the endpoint at `path`.
    pub fn make_uri(&self, path: &str) -> (uri: Result<String, PublicError>)
        ensures
            match url_join(self.base(), path@) {
                Some(joined) => uri matches Ok(u) && u@ == joined,
                None => uri matches Err(e) && e@ == ErrorModel::InvalidUri,
            },
    {
        uri_from(join_url(self.base_url.as_str(), path))
    }

    fn plan(&self, path: &str, method: Method, authenticated: bool, payload: Payload) -> (call:
        Result<Call, PublicError>)
        ensures
            planned(self.base(), path@, method, authenticated, payload, call),
    {
        match self.make_uri(path) {
            Ok(uri) => Ok(Call { method, uri, authenticated, payload }),
            Err(e) => Err(e),
        }
    }

    fn plan_for_account(&self, prefix: &str, suffix: &str, method: Method, payload: Payload) -> (call:
        Result<Call, PublicError>)
        ensures
            planned_for_account(
                self.account(),
                self.base(),
                prefix@,
                suffix@,
                method,
                payload,
                call,
            ),
    {
        match account_path(self.account_id(), prefix, suffix) {
            Ok(path) => self.plan(path.as_str(), method, true, payload),
            Err(e) => Err(e),
        }
    }

    /// An authenticated GET of `path`.
    pub fn get(&self, path: &str) -> (call: Result<Call, PublicError>)
        ensures
            planned(self.base(), path@, Method::Get, true, Payload::Empty, call),
    {
        self.plan(path, Method::Get, true, Payload::Empty)
    }

    /// An authenticated POST of `payload` to `path`.
    pub fn post(&self, path: &str, payload: Payload) -> (call: Result<Call, PublicError>)
        ensures
            planned(self.base(), path@, Method::Post, true, payload, call),
    {
        self.plan(path, Method::Post, true, payload)
    }

    /// The request that exchanges the long-lived secret for a token valid
    /// for `request_ttl` minutes. It carries no token itself.
    pub fn create_personal_token(&self, public_secret: String, request_ttl: i64) -> (call: Result<
        Call,
        PublicError,
    >)
        ensures
            planned(
                self.base(),
                token_path(),
                Method::Post,
                false,
                (Payload::PersonalToken { validity_in_minutes: request_ttl, secret: public_secret }),
                call,
            ),
    {
        self.plan(
            "/userapiauthservice/personal/access-tokens",
            Method::Post,
            false,
            Payload::PersonalToken { validity_in_minutes: request_ttl, secret: public_secret },
        )
    }

    /// One step towards a usable token, at the instant `now`. A start is
    /// answered from the store; the vault's answer by the exchange request,
    /// or `MissingCredentials` where there is no secret; the end of the
    /// exchange by storing and using the new token, or by its failure.
    pub fn access_token_at(&mut self, event: TokenEvent, now: Timestamp) -> (action: TokenAction)
        requires
            event is Issued ==> now.can_advance(crate::creds::TOKEN_REFRESH as int),
        ensures
            token_action(old(self).base(), old(self).store(), event, now, action),
            final(self).store() == store_after(old(self).store(), event, now),
            final(self).base() == old(self).base(),
            final(self).account() == old(self).account(),
    {
        match event {
            TokenEvent::Start => match self.creds.access_token_at(now) {
                Some(token) => TokenAction::Use(token.to_owned()),
                None => TokenAction::FetchSecret,
            },
            TokenEvent::Secret(None) => TokenAction::Fail(PublicError::MissingCredentials),
            TokenEvent::Secret(Some(secret)) => {
                let ttl = self.creds.ttl();
                match self.create_personal_token(secret, ttl) {
                    Ok(call) => TokenAction::Exchange(call),
                    Err(e) => TokenAction::Fail(e),
                }
            },
            TokenEvent::Issued(token) => {
                self.creds.refresh_at(token.as_str(), now);
                TokenAction::Use(token)
            },
            TokenEvent::Refused(error) => TokenAction::Fail(error),
        }
    }

    /// One step towards a usable token, at the system clock's present
    /// reading.
    pub fn access_token(&mut self, event: TokenEvent) -> (action: TokenAction)
        ensures
            exists|now: Timestamp|
                now.from_clock() && #[trigger] token_action(
                    old(self).base(),
                    old(self).store(),
                    event,
                    now,
                    action,
                ) && final(self).store() == store_after(old(self).store(), event, now),
            final(self).base() == old(self).base(),
            final(self).account() == old(self).account(),
    {
        let now = crate::clock::utc_now();
        self.access_token_at(event, now)
    }

    /// The request that lists the accounts.
    pub fn get_accounts(&self) -> (call: Result<Call, PublicError>)
        ensures
            planned(self.base(), accounts_path(), Method::Get, true, Payload::Empty, call),
    {
        self.get("/userapigateway/trading/account")
    }

    /// The request for the portfolio of the account chosen.
    pub fn get_account_portfolio(&self) -> (call: Result<Call, PublicError>)
        ensures
            planned_for_account(
                self.account(),
                self.base(),
                "/userapigateway/trading/"@,
                "/portfolio/v2"@,
                Method::Get,
                Payload::Empty,
                call,
            ),
    {
        self.plan_for_account(
            "/userapigateway/trading/",
            "/portfolio/v2",
            Method::Get,
            Payload::Empty,
        )
    }

    /// The request for quotes of `symbols`.
    pub fn get_quotes(&self, symbols: Vec<Instrument>) -> (call: Result<Call, PublicError>)
        ensures
            planned_for_account(
                self.account(),
                self.base(),
                "/userapigateway/marketdata/"@,
                "/quotes"@,
                Method::Post,
                (Payload::Quotes { instruments: symbols }),
                call,
            ),
    {
        self.plan_for_account(
            "/userapigateway/marketdata/",
            "/quotes",
            Method::Post,
            Payload::Quotes { instruments: symbols },
        )
    }

    /// The request for the expiration dates of the options on `instrument`.
    pub fn get_option_expirations(&self, instrument: Instrument) -> (call: Result<
        Call,
        PublicError,
    >)
        ensures
            planned_for_account(
                self.account(),
                self.base(),
                "/userapigateway/marketdata/"@,
                "/option-expirations"@,
                Method::Post,
                (Payload::OptionExpirations { instrument }),
                call,
            ),
    {
        self.plan_for_account(
            "/userapigateway/marketdata/",
            "/option-expirations",
            Method::Post,
            Payload::OptionExpirations { instrument },
        )
    }

    /// The request for the options on `instrument` that expire on
    /// `expiration_date`.
    pub fn get_option_chain(&self, instrument: Instrument, expiration_date: String) -> (call:
        Result<Call, PublicError>)
        ensures
            planned_for_account(
                self.account(),
                self.base(),
                "/userapigateway/marketdata/"@,
                "/option-chain"@,
                Method::Post,
                (Payload::OptionChain { instrument, expiration_date }),
                call,
            ),
    {
        self.plan_for_account(
            "/userapigateway/marketdata/",
            "/option-chain",
            Method::Post,
            Payload::OptionChain { instrument, expiration_date },
        )
    }

    /// The request for the greeks of the option `osi_option_symbol`.
    pub fn get_option_greeks(&self, osi_option_symbol: String) -> (call: Result<Call, PublicError>)
        ensures
            planned_for_account(
                self.account(),
                self.base(),
                "/userapigateway/option-details/"@,
                "/"@ + osi_option_symbol@ + "/greeks"@,
                Method::Get,
                Payload::Empty,
                call,
            ),
    {
        let suffix = join3("/", osi_option_symbol.as_str(), "/greeks");
        self.plan_for_account(
            "/userapigateway/option-details/",
            suffix.as_str(),
            Method::Get,
            Payload::Empty,
        )
    }
}

/// A token that was issued at `now` is what a later start is answered with,
/// as long as that start comes within `TOKEN_REFRESH` minutes; from then on a
/// start is answered by asking for the secret again.
pub proof fn lemma_issued_token_is_used_until_expiry(
    base: Seq<char>,
    store: Option<CachedToken>,
    token: String,
    now: Timestamp,
    later: Timestamp,
    action: TokenAction,
)
    requires
        now.can_advance(crate::creds::TOKEN_REFRESH as int),
        token_action(
            base,
            store_after(store, TokenEvent::Issued(token), now),
            TokenEvent::Start,
            later,
            action,
        ),
    ensures
        later.is_before(now.plus_minutes(crate::creds::TOKEN_REFRESH as int)) ==> (action matches
            TokenAction::Use(t) && t@ == token@),
        !later.is_before(now.plus_minutes(crate::creds::TOKEN_REFRESH as int))
            ==> action is FetchSecret,
{
}

} // verus!
