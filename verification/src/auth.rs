//! What the authentication service answers, and what the client makes of it.
//!
//! The requests themselves are sent by the driver. It hands in the status
//! code and the body of each answer; the functions here say what the answer
//! means.

use crate::json::{
    bool_member, count_member, json_string, load_object, lookup, lookup_bool, lookup_count,
    lookup_object, lookup_text, member, members_view, object_member, object_members,
    read_members, text_member, write_string, JsonMembers, JsonNode, JsonNodeView,
};
use crate::text::str_eq;
use vstd::prelude::*;
use vstd::string::*;

verus! {

/// The members of a JSON object, each value read as a document.
pub type Members = Seq<(Seq<char>, JsonNodeView)>;

/// What is still asked of the user after a login: nothing (`false`), or a
/// step that is named.
#[derive(Debug, Clone, PartialEq, Eq)]
pub enum BoolOrString {
    Bool(bool),
    String(String),
}

impl BoolOrString {
    /// Whether a document fits: a truth value or a string.
    pub open spec fn fits(node: JsonNodeView) -> bool {
        node is Bool || node is Text
    }

    /// Whether the value holds what the document says.
    pub open spec fn describes(&self, node: JsonNodeView) -> bool {
        match (self, node) {
            (BoolOrString::Bool(b), JsonNodeView::Bool(found)) => *b == found,
            (BoolOrString::String(s), JsonNodeView::Text(found)) => s@ == found,
            _ => false,
        }
    }

    /// Takes the value out of a document.
    pub fn from_node(node: &JsonNode) -> (r: Option<Self>)
        ensures
            r is Some <==> Self::fits(node@),
            r matches Some(value) ==> value.describes(node@),
    {
        match node {
            JsonNode::Bool(b) => Some(BoolOrString::Bool(*b)),
            JsonNode::Text(s) => Some(BoolOrString::String(s.clone())),
            _ => None,
        }
    }
}

/// The user as the service knows them.
#[derive(Debug, Clone, PartialEq, Eq)]
pub struct User {
    pub id: usize,
    pub nickname: String,
}

impl User {
    /// Whether the members fit: a count `id`, a string `nickname`.
    pub open spec fn fits(members: Members) -> bool {
        &&& count_member(members, "id"@) is Some
        &&& text_member(members, "nickname"@) is Some
    }

    /// Whether the user is what the members say.
    pub open spec fn describes(&self, members: Members) -> bool {
        &&& count_member(members, "id"@) == Some(self.id)
        &&& text_member(members, "nickname"@) == Some(self.nickname@)
    }

    /// Takes the user out of the members of its object.
    pub fn from_members(members: &JsonMembers) -> (r: Option<Self>)
        ensures
            r is Some <==> Self::fits(members_view(members@)),
            r matches Some(user) ==> user.describes(members_view(members@)),
    {
        match (lookup_count(members, "id"), lookup_text(members, "nickname")) {
            (Some(id), Some(nickname)) => Some(Self { id, nickname: nickname.clone() }),
            _ => None,
        }
    }
}

/// The service's answer to a login and to a second-factor login.
#[derive(Debug, Clone, PartialEq, Eq)]
pub struct LoginResponse {
    pub success: bool,
    pub token: String,
    pub action_required: BoolOrString,
    pub user: Option<User>,
}

impl LoginResponse {
    /// Whether the `user` member fits: absent, `null`, or a user.
    pub open spec fn user_fits(members: Members) -> bool {
        match member(members, "user"@) {
            None => true,
            Some(JsonNodeView::Null) => true,
            Some(JsonNodeView::Object(raw)) => read_members(raw) matches Some(inner) && User::fits(
                inner,
            ),
            Some(_) => false,
        }
    }

    /// Whether the members fit: truth value `success`, string `token`,
    /// `action_required` a truth value or a string, and `user` absent, `null`
    /// or a user.
    pub open spec fn fits(members: Members) -> bool {
        &&& bool_member(members, "success"@) is Some
        &&& text_member(members, "token"@) is Some
        &&& member(members, "action_required"@) matches Some(action) && BoolOrString::fits(action)
        &&& Self::user_fits(members)
    }

    /// Whether the answer holds what the members say.
    pub open spec fn describes(&self, members: Members) -> bool {
        &&& bool_member(members, "success"@) == Some(self.success)
        &&& text_member(members, "token"@) == Some(self.token@)
        &&& member(members, "action_required"@) matches Some(action)
            && self.action_required.describes(action)
        &&& match self.user {
            Some(user) => object_member(members, "user"@) matches Some(inner) && user.describes(
                inner,
            ),
            None => member(members, "user"@) is None || member(members, "user"@) == Some(
                JsonNodeView::Null,
            ),
        }
    }

    /// Takes the answer out of the members of its object.
    pub fn from_members(members: &JsonMembers) -> (r: Option<Self>)
        ensures
            r is Some <==> Self::fits(members_view(members@)),
            r matches Some(response) ==> response.describes(members_view(members@)),
    {
        let action = match lookup(members, "action_required") {
            Some(node) => BoolOrString::from_node(node),
            None => None,
        };
        let user: Option<Option<User>> = match lookup(members, "user") {
            None => Some(None),
            Some(JsonNode::Null) => Some(None),
            Some(JsonNode::Object(_)) => match lookup_object(members, "user") {
                Some(inner) => match User::from_members(&inner) {
                    Some(user) => Some(Some(user)),
                    None => None,
                },
                None => None,
            },
            Some(_) => None,
        };
        match (lookup_bool(members, "success"), lookup_text(members, "token"), action, user) {
            (Some(success), Some(token), Some(action_required), Some(user)) => Some(
                Self { success, token: token.clone(), action_required, user },
            ),
            _ => None,
        }
    }

    /// Reads the answer from the body of a response.
    pub fn parse(body: &str) -> (r: Option<Self>)
        ensures
            r is Some <==> (object_members(body@) matches Some(members) && Self::fits(members)),
            r matches Some(response) ==> response.describes(object_members(body@)->0),
    {
        match load_object(body) {
            Some(members) => Self::from_members(&members),
            None => None,
        }
    }
}

/// The service's answer to a request for a remote login: where to send the
/// user's browser.
#[derive(Debug, Clone, PartialEq, Eq)]
pub struct RedirectResponse {
    pub url: String,
}

impl RedirectResponse {
    /// Whether the members fit: a string `url`.
    pub open spec fn fits(members: Members) -> bool {
        text_member(members, "url"@) is Some
    }

    /// Whether the answer holds what the members say.
    pub open spec fn describes(&self, members: Members) -> bool {
        text_member(members, "url"@) == Some(self.url@)
    }

    /// Takes the answer out of the members of its object.
    pub fn from_members(members: &JsonMembers) -> (r: Option<Self>)
        ensures
            r is Some <==> Self::fits(members_view(members@)),
            r matches Some(response) ==> response.describes(members_view(members@)),
    {
        match lookup_text(members, "url") {
            Some(url) => Some(Self { url: url.clone() }),
            None => None,
        }
    }

    /// Reads the answer from the body of a response.
    pub fn parse(body: &str) -> (r: Option<Self>)
        ensures
            r is Some <==> (object_members(body@) matches Some(members) && Self::fits(members)),
            r matches Some(response) ==> response.describes(object_members(body@)->0),
    {
        match load_object(body) {
            Some(members) => Self::from_members(&members),
            None => None,
        }
    }
}

/// The service's answer to a request to set the nickname.
#[derive(Debug, Clone, PartialEq, Eq)]
pub struct NicknameResponse {
    pub success: bool,
    pub token: Option<String>,
    pub error: Option<String>,
}

/// Whether an optional string member fits: absent, `null`, or a string.
pub open spec fn optional_text_fits(members: Members, key: Seq<char>) -> bool {
    match member(members, key) {
        None => true,
        Some(JsonNodeView::Null) => true,
        Some(JsonNodeView::Text(_)) => true,
        Some(_) => false,
    }
}

/// The string of an optional string member.
pub open spec fn optional_text(members: Members, key: Seq<char>) -> Option<Seq<char>> {
    match member(members, key) {
        Some(JsonNodeView::Text(s)) => Some(s),
        _ => None,
    }
}

/// Looks an optional string member up: nothing where it does not fit, and
/// otherwise the string, if there is one.
pub fn lookup_optional_text(members: &JsonMembers, key: &str) -> (r: Option<Option<String>>)
    ensures
        r is Some <==> optional_text_fits(members_view(members@), key@),
        r matches Some(found) ==> (match found {
            Some(s) => optional_text(members_view(members@), key@) == Some(s@),
            None => optional_text(members_view(members@), key@) is None,
        }),
{
    match lookup(members, key) {
        None => Some(None),
        Some(JsonNode::Null) => Some(None),
        Some(JsonNode::Text(s)) => Some(Some(s.clone())),
        Some(_) => None,
    }
}

impl NicknameResponse {
    /// Whether the members fit: a truth value `success`; `token` and `error`
    /// each absent, `null` or a string.
    pub open spec fn fits(members: Members) -> bool {
        &&& bool_member(members, "success"@) is Some
        &&& optional_text_fits(members, "token"@)
        &&& optional_text_fits(members, "error"@)
    }

    /// Whether the answer holds what the members say.
    pub open spec fn describes(&self, members: Members) -> bool {
        &&& bool_member(members, "success"@) == Some(self.success)
        &&& match self.token {
            Some(token) => optional_text(members, "token"@) == Some(token@),
            None => optional_text(members, "token"@) is None,
        }
        &&& match self.error {
            Some(error) => optional_text(members, "error"@) == Some(error@),
            None => optional_text(members, "error"@) is None,
        }
    }

    /// Takes the answer out of the members of its object.
    pub fn from_members(members: &JsonMembers) -> (r: Option<Self>)
        ensures
            r is Some <==> Self::fits(members_view(members@)),
            r matches Some(response) ==> response.describes(members_view(members@)),
    {
        match (
            lookup_bool(members, "success"),
            lookup_optional_text(members, "token"),
            lookup_optional_text(members, "error"),
        ) {
            (Some(success), Some(token), Some(error)) => Some(Self { success, token, error }),
            _ => None,
        }
    }

    /// Reads the answer from the body of a response.
    pub fn parse(body: &str) -> (r: Option<Self>)
        ensures
            r is Some <==> (object_members(body@) matches Some(members) && Self::fits(members)),
            r matches Some(response) ==> response.describes(object_members(body@)->0),
    {
        match load_object(body) {
            Some(members) => Self::from_members(&members),
            None => None,
        }
    }
}

/// Why a login, a remote login or a change of nickname failed.
#[derive(Debug, Clone, PartialEq, Eq)]
pub enum LoginErrors {
    ConnectionError,
    InvalidResponse,
    InvalidCredentials,
    NicknameMissing,
    ServerError,
    Unknown(String),
}

/// The mathematical value of a [`LoginErrors`].
pub enum LoginFault {
    ConnectionError,
    InvalidResponse,
    InvalidCredentials,
    NicknameMissing,
    ServerError,
    Unknown(Seq<char>),
}

impl View for LoginErrors {
    type V = LoginFault;

    open spec fn view(&self) -> LoginFault {
        match self {
            LoginErrors::ConnectionError => LoginFault::ConnectionError,
            LoginErrors::InvalidResponse => LoginFault::InvalidResponse,
            LoginErrors::InvalidCredentials => LoginFault::InvalidCredentials,
            LoginErrors::NicknameMissing => LoginFault::NicknameMissing,
            LoginErrors::ServerError => LoginFault::ServerError,
            LoginErrors::Unknown(err) => LoginFault::Unknown(err@),
        }
    }
}

impl LoginErrors {
    /// The sentence shown for the error.
    pub open spec fn text(&self) -> Seq<char> {
        match self {
            LoginErrors::ConnectionError => "Connection Error"@,
            LoginErrors::InvalidResponse => "Invalid response received from server"@,
            LoginErrors::InvalidCredentials => "Incorrect email or password"@,
            LoginErrors::ServerError => "Internal Server Error"@,
            LoginErrors::NicknameMissing => "Please set a Nickname on the website first"@,
            LoginErrors::Unknown(err) => "Error: "@ + err@,
        }
    }

    /// The sentence shown for the error.
    pub fn message(&self) -> (r: String)
        ensures
            r@ == self.text(),
    {
        match self {
            LoginErrors::ConnectionError => "Connection Error".to_owned(),
            LoginErrors::InvalidResponse => "Invalid response received from server".to_owned(),
            LoginErrors::InvalidCredentials => "Incorrect email or password".to_owned(),
            LoginErrors::ServerError => "Internal Server Error".to_owned(),
            LoginErrors::NicknameMissing => "Please set a Nickname on the website first".to_owned(),
            LoginErrors::Unknown(err) => {
                let mut r = "Error: ".to_owned();
                r.append(err.as_str());
                r
            },
        }
    }
}

/// Why a second-factor login failed.
#[derive(Debug, Clone, PartialEq, Eq)]
pub enum TotpErrors {
    ConnectionError,
    InvalidResponse,
    InvalidTotp,
    ServerError,
    Unknown(String),
}

/// The mathematical value of a [`TotpErrors`].
pub enum TotpFault {
    ConnectionError,
    InvalidResponse,
    InvalidTotp,
    ServerError,
    Unknown(Seq<char>),
}

impl View for TotpErrors {
    type V = TotpFault;

    open spec fn view(&self) -> TotpFault {
        match self {
            TotpErrors::ConnectionError => TotpFault::ConnectionError,
            TotpErrors::InvalidResponse => TotpFault::InvalidResponse,
            TotpErrors::InvalidTotp => TotpFault::InvalidTotp,
            TotpErrors::ServerError => TotpFault::ServerError,
            TotpErrors::Unknown(err) => TotpFault::Unknown(err@),
        }
    }
}

impl TotpErrors {
    /// The sentence shown for the error.
    pub open spec fn text(&self) -> Seq<char> {
        match self {
            TotpErrors::ConnectionError => "Connection Error"@,
            TotpErrors::InvalidResponse => "Invalid response received from server"@,
            TotpErrors::InvalidTotp => "Incorrect 2FA code"@,
            TotpErrors::ServerError => "Internal Server Error"@,
            TotpErrors::Unknown(err) => "Unknown Error: "@ + err@,
        }
    }

    /// The sentence shown for the error.
    pub fn message(&self) -> (r: String)
        ensures
            r@ == self.text(),
    {
        match self {
            TotpErrors::ConnectionError => "Connection Error".to_owned(),
            TotpErrors::InvalidResponse => "Invalid response received from server".to_owned(),
            TotpErrors::InvalidTotp => "Incorrect 2FA code".to_owned(),
            TotpErrors::ServerError => "Internal Server Error".to_owned(),
            TotpErrors::Unknown(err) => {
                let mut r = "Unknown Error: ".to_owned();
                r.append(err.as_str());
                r
            },
        }
    }
}

/// The port of the service: 3000 in a debug build, 8443 otherwise.
pub open spec fn port_text(debug: bool) -> Seq<char> {
    if debug {
        "3000"@
    } else {
        "8443"@
    }
}

/// The address of one of the service's entry points.
pub open spec fn service_address(host: Seq<char>, debug: bool, path: Seq<char>) -> Seq<char> {
    "https://"@ + host + ":"@ + port_text(debug) + path
}

/// The address of one of the service's entry points:
/// `https://<host>:<port><path>`.
pub fn service_endpoint(host: &str, debug: bool, path: &str) -> (r: String)
    ensures
        r@ == service_address(host@, debug, path@),
{
    let mut r = "https://".to_owned();
    r.append(host);
    r.append(":");
    r.append(
        if debug {
            "3000"
        } else {
            "8443"
        },
    );
    r.append(path);
    r
}

/// Where a login is sent.
pub fn login_endpoint(host: &str, debug: bool) -> (r: String)
    ensures
        r@ == service_address(host@, debug, "/api/login"@),
{
    service_endpoint(host, debug, "/api/login")
}

/// Where the request for a remote login is sent.
pub fn remotelogin_endpoint(host: &str, debug: bool) -> (r: String)
    ensures
        r@ == service_address(host@, debug, "/api/auth/42"@),
{
    service_endpoint(host, debug, "/api/auth/42")
}

/// Where a change of nickname is sent.
pub fn set_nickname_endpoint(host: &str, debug: bool) -> (r: String)
    ensures
        r@ == service_address(host@, debug, "/api/profile/set-nickname"@),
{
    service_endpoint(host, debug, "/api/profile/set-nickname")
}

/// Where a second-factor login is sent.
pub fn login2fa_endpoint(host: &str, debug: bool) -> (r: String)
    ensures
        r@ == service_address(host@, debug, "/api/auth/2fa/login"@),
{
    service_endpoint(host, debug, "/api/auth/2fa/login")
}

/// The value of the header that presents a bearer token.
pub fn bearer(token: &str) -> (r: String)
    ensures
        r@ == "Bearer "@ + token@,
{
    let mut r = "Bearer ".to_owned();
    r.append(token);
    r
}

/// The body of a login: `{"email":..,"password":..}`.
pub fn login_body(email: &str, password: &str) -> (r: String)
    ensures
        r@ == "{\"email\":"@ + json_string(email@) + ",\"password\":"@ + json_string(password@)
            + "}"@,
{
    let mut r = "{\"email\":".to_owned();
    let email = write_string(email);
    r.append(email.as_str());
    r.append(",\"password\":");
    let password = write_string(password);
    r.append(password.as_str());
    r.append("}");
    r
}

/// The body of a change of nickname: `{"nickname":..}`.
pub fn nickname_body(nickname: &str) -> (r: String)
    ensures
        r@ == "{\"nickname\":"@ + json_string(nickname@) + "}"@,
{
    let mut r = "{\"nickname\":".to_owned();
    let nickname = write_string(nickname);
    r.append(nickname.as_str());
    r.append("}");
    r
}

/// The body of a second-factor login: `{"totp_code":..}`.
pub fn totp_body(totp_code: &str) -> (r: String)
    ensures
        r@ == "{\"totp_code\":"@ + json_string(totp_code@) + "}"@,
{
    let mut r = "{\"totp_code\":".to_owned();
    let totp_code = write_string(totp_code);
    r.append(totp_code.as_str());
    r.append("}");
    r
}

/// Whether a status code says that the server failed: 500 to 599.
pub open spec fn is_server_error(status: u16) -> bool {
    500 <= status < 600
}

/// Whether a status code says that the request was at fault: 400 to 499.
pub open spec fn is_client_error(status: u16) -> bool {
    400 <= status < 500
}

/// How the service was reached.
#[derive(Debug, Clone, PartialEq, Eq)]
pub enum Exchange {
    /// No HTTP client could be built; the string says why.
    NoClient(String),
    /// The request could not be sent or no response came.
    Unreachable,
    /// A response came, with this status code and this body.
    Answered(u16, String),
}

/// The mathematical value of an [`Exchange`].
pub enum ExchangeView {
    NoClient(Seq<char>),
    Unreachable,
    Answered(u16, Seq<char>),
}

impl View for Exchange {
    type V = ExchangeView;

    open spec fn view(&self) -> ExchangeView {
        match self {
            Exchange::NoClient(why) => ExchangeView::NoClient(why@),
            Exchange::Unreachable => ExchangeView::Unreachable,
            Exchange::Answered(status, body) => ExchangeView::Answered(*status, body@),
        }
    }
}

/// The fault that a login answer shows, if any. The first that applies: no
/// client; no response; a server error; a client error, which here means
/// wrong credentials; a body that is no login answer; `success` unset;
/// `action_required` set to `true`; `"nickname"` asked for; any step asked
/// for but `"2fa"`.
pub open spec fn login_fault(exchange: ExchangeView) -> Option<LoginFault> {
    match exchange {
        ExchangeView::NoClient(why) => Some(LoginFault::Unknown(why)),
        ExchangeView::Unreachable => Some(LoginFault::ConnectionError),
        ExchangeView::Answered(status, body) => if is_server_error(status) {
            Some(LoginFault::ServerError)
        } else if is_client_error(status) {
            Some(LoginFault::InvalidCredentials)
        } else {
            match object_members(body) {
                Some(members) => if !LoginResponse::fits(members) {
                    Some(LoginFault::InvalidResponse)
                } else if !bool_member(members, "success"@)->0 {
                    Some(LoginFault::Unknown("Success set to false"@))
                } else {
                    match member(members, "action_required"@) {
                        Some(JsonNodeView::Bool(true)) => Some(
                            LoginFault::Unknown("action_required set to true"@),
                        ),
                        Some(JsonNodeView::Text(step)) => if step == "nickname"@ {
                            Some(LoginFault::NicknameMissing)
                        } else if step == "2fa"@ {
                            None
                        } else {
                            Some(
                                LoginFault::Unknown("Invalid value for action_required(String)"@),
                            )
                        },
                        _ => None,
                    }
                },
                None => Some(LoginFault::InvalidResponse),
            }
        },
    }
}

/// Says what a login's answer means: the answer itself where nothing is
/// wrong with it, the fault where something is.
pub fn login(exchange: &Exchange) -> (r: Result<LoginResponse, LoginErrors>)
    ensures
        r is Err <==> login_fault(exchange@) is Some,
        r matches Err(e) ==> login_fault(exchange@) == Some(e@),
        r matches Ok(response) ==> exchange@ matches ExchangeView::Answered(_, body)
            && response.describes(object_members(body)->0),
{
    match exchange {
        Exchange::NoClient(why) => Err(LoginErrors::Unknown(why.clone())),
        Exchange::Unreachable => Err(LoginErrors::ConnectionError),
        Exchange::Answered(status, body) => {
            if 500 <= *status && *status < 600 {
                return Err(LoginErrors::ServerError);
            } else if 400 <= *status && *status < 500 {
                return Err(LoginErrors::InvalidCredentials);
            }
            let response = match LoginResponse::parse(body.as_str()) {
                Some(response) => response,
                None => {
                    return Err(LoginErrors::InvalidResponse);
                },
            };
            if !response.success {
                return Err(LoginErrors::Unknown("Success set to false".to_owned()));
            }
            match &response.action_required {
                BoolOrString::Bool(true) => {
                    return Err(LoginErrors::Unknown("action_required set to true".to_owned()));
                },
                BoolOrString::String(step) => {
                    if str_eq(step.as_str(), "nickname") {
                        return Err(LoginErrors::NicknameMissing);
                    } else if str_eq(step.as_str(), "2fa") {
                    } else {
                        return Err(
                            LoginErrors::Unknown(
                                "Invalid value for action_required(String)".to_owned(),
                            ),
                        );
                    }
                },
                _ => {},
            }
            Ok(response)
        },
    }
}

/// The fault that the answer to a request for a remote login shows, if any.
pub open spec fn redirect_fault(exchange: ExchangeView) -> Option<LoginFault> {
    match exchange {
        ExchangeView::NoClient(why) => Some(LoginFault::Unknown(why)),
        ExchangeView::Unreachable => Some(LoginFault::ConnectionError),
        ExchangeView::Answered(status, body) => if is_server_error(status) {
            Some(LoginFault::ServerError)
        } else if is_client_error(status) {
            Some(LoginFault::Unknown("Received client error from redirect response"@))
        } else if object_members(body) matches Some(members) && RedirectResponse::fits(members) {
            None
        } else {
            Some(LoginFault::InvalidResponse)
        },
    }
}

/// Says what the answer to a request for a remote login means.
pub fn remotelogin(exchange: &Exchange) -> (r: Result<RedirectResponse, LoginErrors>)
    ensures
        r is Err <==> redirect_fault(exchange@) is Some,
        r matches Err(e) ==> redirect_fault(exchange@) == Some(e@),
        r matches Ok(response) ==> exchange@ matches ExchangeView::Answered(_, body)
            && response.describes(object_members(body)->0),
{
    match exchange {
        Exchange::NoClient(why) => Err(LoginErrors::Unknown(why.clone())),
        Exchange::Unreachable => Err(LoginErrors::ConnectionError),
        Exchange::Answered(status, body) => {
            if 500 <= *status && *status < 600 {
                Err(LoginErrors::ServerError)
            } else if 400 <= *status && *status < 500 {
                Err(
                    LoginErrors::Unknown(
                        "Received client error from redirect response".to_owned(),
                    ),
                )
            } else {
                match RedirectResponse::parse(body.as_str()) {
                    Some(response) => Ok(response),
                    None => Err(LoginErrors::InvalidResponse),
                }
            }
        },
    }
}

/// The fault that the answer to a change of nickname shows, if any.
pub open spec fn nickname_fault(exchange: ExchangeView) -> Option<LoginFault> {
    match exchange {
        ExchangeView::NoClient(why) => Some(LoginFault::Unknown(why)),
        ExchangeView::Unreachable => Some(LoginFault::ConnectionError),
        ExchangeView::Answered(status, body) => if is_server_error(status) {
            Some(LoginFault::ServerError)
        } else if is_client_error(status) {
            Some(LoginFault::Unknown("Received client error from nickname response"@))
        } else if object_members(body) matches Some(members) && NicknameResponse::fits(members) {
            None
        } else {
            Some(LoginFault::InvalidResponse)
        },
    }
}

/// Says what the answer to a change of nickname means.
pub fn set_nickname(exchange: &Exchange) -> (r: Result<NicknameResponse, LoginErrors>)
    ensures
        r is Err <==> nickname_fault(exchange@) is Some,
        r matches Err(e) ==> nickname_fault(exchange@) == Some(e@),
        r matches Ok(response) ==> exchange@ matches ExchangeView::Answered(_, body)
            && response.describes(object_members(body)->0),
{
    match exchange {
        Exchange::NoClient(why) => Err(LoginErrors::Unknown(why.clone())),
        Exchange::Unreachable => Err(LoginErrors::ConnectionError),
        Exchange::Answered(status, body) => {
            if 500 <= *status && *status < 600 {
                Err(LoginErrors::ServerError)
            } else if 400 <= *status && *status < 500 {
                Err(
                    LoginErrors::Unknown(
                        "Received client error from nickname response".to_owned(),
                    ),
                )
            } else {
                match NicknameResponse::parse(body.as_str()) {
                    Some(response) => Ok(response),
                    None => Err(LoginErrors::InvalidResponse),
                }
            }
        },
    }
}

/// The fault that the answer to a second-factor login shows, if any. A client
/// error here means a wrong code.
pub open spec fn totp_fault(exchange: ExchangeView) -> Option<TotpFault> {
    match exchange {
        ExchangeView::NoClient(why) => Some(TotpFault::Unknown(why)),
        ExchangeView::Unreachable => Some(TotpFault::ConnectionError),
        ExchangeView::Answered(status, body) => if is_server_error(status) {
            Some(TotpFault::ServerError)
        } else if is_client_error(status) {
            Some(TotpFault::InvalidTotp)
        } else {
            match object_members(body) {
                Some(members) => if !LoginResponse::fits(members) {
                    Some(TotpFault::InvalidResponse)
                } else if !bool_member(members, "success"@)->0 {
                    Some(TotpFault::Unknown("Success set to false"@))
                } else {
                    None
                },
                None => Some(TotpFault::InvalidResponse),
            }
        },
    }
}

/// Says what the answer to a second-factor login means.
pub fn login2fa(exchange: &Exchange) -> (r: Result<LoginResponse, TotpErrors>)
    ensures
        r is Err <==> totp_fault(exchange@) is Some,
        r matches Err(e) ==> totp_fault(exchange@) == Some(e@),
        r matches Ok(response) ==> exchange@ matches ExchangeView::Answered(_, body)
            && response.describes(object_members(body)->0),
{
    match exchange {
        Exchange::NoClient(why) => Err(TotpErrors::Unknown(why.clone())),
        Exchange::Unreachable => Err(TotpErrors::ConnectionError),
        Exchange::Answered(status, body) => {
            if 500 <= *status && *status < 600 {
                Err(TotpErrors::ServerError)
            } else if 400 <= *status && *status < 500 {
                Err(TotpErrors::InvalidTotp)
            } else {
                match LoginResponse::parse(body.as_str()) {
                    Some(response) => {
                        if !response.success {
                            Err(TotpErrors::Unknown("Success set to false".to_owned()))
                        } else {
                            Ok(response)
                        }
                    },
                    None => Err(TotpErrors::InvalidResponse),
                }
            }
        },
    }
}

} // verus!
