use pong_cli::auth::{
    bearer, login, login2fa, login2fa_endpoint, login_body, login_endpoint, nickname_body,
    remotelogin, remotelogin_endpoint, service_endpoint, set_nickname, set_nickname_endpoint,
    totp_body, BoolOrString, Exchange, LoginErrors, LoginResponse, NicknameResponse,
    RedirectResponse, TotpErrors, User,
};

fn answered(status: u16, body: &str) -> Exchange {
    Exchange::Answered(status, body.to_string())
}

#[test]
fn login_without_further_action() {
    let body = "{\"success\":true,\"token\":\"t0\",\"action_required\":false,\"user\":{\"id\":4,\"nickname\":\"ann\"}}";
    let response = login(&answered(200, body)).unwrap();
    assert_eq!(
        response,
        LoginResponse {
            success: true,
            token: "t0".to_string(),
            action_required: BoolOrString::Bool(false),
            user: Some(User { id: 4, nickname: "ann".to_string() }),
        }
    );
}

#[test]
fn login_that_asks_for_the_second_factor() {
    let body = "{\"success\":true,\"token\":\"t0\",\"action_required\":\"2fa\"}";
    let response = login(&answered(200, body)).unwrap();
    assert_eq!(response.action_required, BoolOrString::String("2fa".to_string()));
    assert_eq!(response.user, None);
    let body = "{\"success\":true,\"token\":\"t0\",\"action_required\":\"2fa\",\"user\":null}";
    assert_eq!(login(&answered(200, body)).unwrap().user, None);
}

#[test]
fn login_faults() {
    assert_eq!(
        login(&Exchange::NoClient("no tls".to_string())),
        Err(LoginErrors::Unknown("no tls".to_string()))
    );
    assert_eq!(login(&Exchange::Unreachable), Err(LoginErrors::ConnectionError));
    assert_eq!(login(&answered(500, "")), Err(LoginErrors::ServerError));
    assert_eq!(login(&answered(599, "{}")), Err(LoginErrors::ServerError));
    assert_eq!(login(&answered(400, "")), Err(LoginErrors::InvalidCredentials));
    assert_eq!(login(&answered(401, "{}")), Err(LoginErrors::InvalidCredentials));
    assert_eq!(login(&answered(499, "{}")), Err(LoginErrors::InvalidCredentials));
    assert_eq!(login(&answered(200, "")), Err(LoginErrors::InvalidResponse));
    assert_eq!(login(&answered(200, "{}")), Err(LoginErrors::InvalidResponse));
    assert_eq!(login(&answered(600, "{}")), Err(LoginErrors::InvalidResponse));
    assert_eq!(login(&answered(399, "[]")), Err(LoginErrors::InvalidResponse));
    assert_eq!(
        login(&answered(200, "{\"success\":true,\"token\":\"t\",\"action_required\":1}")),
        Err(LoginErrors::InvalidResponse)
    );
    assert_eq!(
        login(&answered(200, "{\"success\":true,\"token\":\"t\",\"action_required\":false,\"user\":7}")),
        Err(LoginErrors::InvalidResponse)
    );
    assert_eq!(
        login(&answered(200, "{\"success\":true,\"token\":\"t\",\"action_required\":false,\"user\":{\"id\":1}}")),
        Err(LoginErrors::InvalidResponse)
    );
    assert_eq!(
        login(&answered(200, "{\"success\":false,\"token\":\"t\",\"action_required\":false}")),
        Err(LoginErrors::Unknown("Success set to false".to_string()))
    );
    assert_eq!(
        login(&answered(200, "{\"success\":true,\"token\":\"t\",\"action_required\":true}")),
        Err(LoginErrors::Unknown("action_required set to true".to_string()))
    );
    assert_eq!(
        login(&answered(200, "{\"success\":true,\"token\":\"t\",\"action_required\":\"nickname\"}")),
        Err(LoginErrors::NicknameMissing)
    );
    assert_eq!(
        login(&answered(200, "{\"success\":true,\"token\":\"t\",\"action_required\":\"other\"}")),
        Err(LoginErrors::Unknown("Invalid value for action_required(String)".to_string()))
    );
}

#[test]
fn remote_login_answers() {
    assert_eq!(
        remotelogin(&answered(200, "{\"url\":\"https://example.org/go\"}")),
        Ok(RedirectResponse { url: "https://example.org/go".to_string() })
    );
    assert_eq!(remotelogin(&answered(200, "{}")), Err(LoginErrors::InvalidResponse));
    assert_eq!(remotelogin(&answered(200, "{\"url\":1}")), Err(LoginErrors::InvalidResponse));
    assert_eq!(remotelogin(&answered(503, "{\"url\":\"x\"}")), Err(LoginErrors::ServerError));
    assert_eq!(
        remotelogin(&answered(404, "{\"url\":\"x\"}")),
        Err(LoginErrors::Unknown("Received client error from redirect response".to_string()))
    );
    assert_eq!(remotelogin(&Exchange::Unreachable), Err(LoginErrors::ConnectionError));
    assert_eq!(
        remotelogin(&Exchange::NoClient("why".to_string())),
        Err(LoginErrors::Unknown("why".to_string()))
    );
}

#[test]
fn nickname_answers() {
    assert_eq!(
        set_nickname(&answered(200, "{\"success\":true,\"token\":\"t1\"}")),
        Ok(NicknameResponse { success: true, token: Some("t1".to_string()), error: None })
    );
    assert_eq!(
        set_nickname(&answered(200, "{\"success\":false,\"token\":null,\"error\":\"taken\"}")),
        Ok(NicknameResponse { success: false, token: None, error: Some("taken".to_string()) })
    );
    assert_eq!(
        set_nickname(&answered(200, "{\"success\":true,\"token\":5}")),
        Err(LoginErrors::InvalidResponse)
    );
    assert_eq!(set_nickname(&answered(200, "{\"token\":\"t\"}")), Err(LoginErrors::InvalidResponse));
    assert_eq!(set_nickname(&answered(500, "{}")), Err(LoginErrors::ServerError));
    assert_eq!(
        set_nickname(&answered(409, "{}")),
        Err(LoginErrors::Unknown("Received client error from nickname response".to_string()))
    );
    assert_eq!(set_nickname(&Exchange::Unreachable), Err(LoginErrors::ConnectionError));
}

#[test]
fn second_factor_answers() {
    let body = "{\"success\":true,\"token\":\"t2\",\"action_required\":true}";
    assert_eq!(login2fa(&answered(200, body)).unwrap().token, "t2");
    assert_eq!(
        login2fa(&answered(200, "{\"success\":false,\"token\":\"t2\",\"action_required\":false}")),
        Err(TotpErrors::Unknown("Success set to false".to_string()))
    );
    assert_eq!(login2fa(&answered(200, "{\"token\":\"t2\"}")), Err(TotpErrors::InvalidResponse));
    assert_eq!(login2fa(&answered(403, "{}")), Err(TotpErrors::InvalidTotp));
    assert_eq!(login2fa(&answered(500, "{}")), Err(TotpErrors::ServerError));
    assert_eq!(login2fa(&Exchange::Unreachable), Err(TotpErrors::ConnectionError));
    assert_eq!(
        login2fa(&Exchange::NoClient("x".to_string())),
        Err(TotpErrors::Unknown("x".to_string()))
    );
}

#[test]
fn auth_error_messages() {
    assert_eq!(LoginErrors::ConnectionError.message(), "Connection Error");
    assert_eq!(LoginErrors::InvalidResponse.message(), "Invalid response received from server");
    assert_eq!(LoginErrors::InvalidCredentials.message(), "Incorrect email or password");
    assert_eq!(LoginErrors::ServerError.message(), "Internal Server Error");
    assert_eq!(
        LoginErrors::NicknameMissing.message(),
        "Please set a Nickname on the website first"
    );
    assert_eq!(LoginErrors::Unknown("x".to_string()).message(), "Error: x");
    assert_eq!(TotpErrors::ConnectionError.message(), "Connection Error");
    assert_eq!(TotpErrors::InvalidResponse.message(), "Invalid response received from server");
    assert_eq!(TotpErrors::InvalidTotp.message(), "Incorrect 2FA code");
    assert_eq!(TotpErrors::ServerError.message(), "Internal Server Error");
    assert_eq!(TotpErrors::Unknown("x".to_string()).message(), "Unknown Error: x");
}

#[test]
fn service_addresses() {
    assert_eq!(login_endpoint("example.org", false), "https://example.org:8443/api/login");
    assert_eq!(login_endpoint("localhost", true), "https://localhost:3000/api/login");
    assert_eq!(remotelogin_endpoint("h", false), "https://h:8443/api/auth/42");
    assert_eq!(set_nickname_endpoint("h", false), "https://h:8443/api/profile/set-nickname");
    assert_eq!(login2fa_endpoint("h", true), "https://h:3000/api/auth/2fa/login");
    assert_eq!(service_endpoint("h", true, "/x"), "https://h:3000/x");
    assert_eq!(bearer("tok"), "Bearer tok");
    assert_eq!(login_body("a@b.c", "p\"w"), "{\"email\":\"a@b.c\",\"password\":\"p\\\"w\"}");
    assert_eq!(nickname_body("ann"), "{\"nickname\":\"ann\"}");
    assert_eq!(totp_body("123456"), "{\"totp_code\":\"123456\"}");
}
