use pong_cli::app::ChannelEvents;
use pong_cli::auth::LoginErrors;
use pong_cli::callback::{
    callback, callback_reply, collect_parameters, cors_header, find_parameter,
};

fn pairs(list: &[(&str, &str)]) -> Vec<(String, String)> {
    list.iter().map(|(k, v)| (k.to_string(), v.to_string())).collect()
}

#[test]
fn a_token_and_a_flag_are_accepted() {
    let reply = callback("token=abc&nickname_required=true");
    assert_eq!(reply.status, 200);
    assert_eq!(reply.body, "OK");
    match reply.event {
        ChannelEvents::RemoteRedirectCallback((token, nickname_required)) => {
            assert_eq!(token, "abc");
            assert!(nickname_required);
        }
        other => panic!("{:?}", other),
    }
    let reply = callback("nickname_required=false&x=1&token=a%20b%2Bc+d");
    assert_eq!(reply.status, 200);
    match reply.event {
        ChannelEvents::RemoteRedirectCallback((token, nickname_required)) => {
            assert_eq!(token, "a b+c d");
            assert!(!nickname_required);
        }
        other => panic!("{:?}", other),
    }
}

#[test]
fn anything_else_is_a_bad_request() {
    for query in [
        "",
        "token=abc",
        "nickname_required=true",
        "token=abc&nickname_required=yes",
        "token=abc&nickname_required=TRUE",
        "token=abc&nickname_required=",
        "Token=abc&nickname_required=true",
        "token=abc&nickname_required=true&nickname_required=1",
    ] {
        let reply = callback(query);
        assert_eq!(reply.status, 400, "{}", query);
        assert_eq!(reply.body, "Bad Request");
        match reply.event {
            ChannelEvents::RemoteRedirectError(LoginErrors::InvalidResponse) => {}
            other => panic!("{}: {:?}", query, other),
        }
    }
}

#[test]
fn the_last_of_several_values_counts() {
    let reply = callback("token=a&token=b&nickname_required=maybe&nickname_required=false");
    assert_eq!(reply.status, 200);
    match reply.event {
        ChannelEvents::RemoteRedirectCallback((token, nickname_required)) => {
            assert_eq!(token, "b");
            assert!(!nickname_required);
        }
        other => panic!("{:?}", other),
    }
}

#[test]
fn an_empty_token_is_a_token() {
    let reply = callback("token&nickname_required=true");
    assert_eq!(reply.status, 200);
    match reply.event {
        ChannelEvents::RemoteRedirectCallback((token, _)) => assert_eq!(token, ""),
        other => panic!("{:?}", other),
    }
}

#[test]
fn parameters_are_found_from_the_end() {
    let list = collect_parameters(&pairs(&[("a", "1"), ("b", "2"), ("a", "3")]));
    assert_eq!(find_parameter(&list, "a"), Some(&"3".to_string()));
    assert_eq!(find_parameter(&list, "b"), Some(&"2".to_string()));
    assert_eq!(find_parameter(&list, "c"), None);
    assert_eq!(list.len(), 2);
    assert_eq!(find_parameter(&collect_parameters(&pairs(&[])), "a"), None);
}

#[test]
fn reply_from_pairs() {
    let reply = callback_reply(&pairs(&[("token", "t"), ("nickname_required", "false")]));
    assert_eq!(reply.status, 200);
    let reply = callback_reply(&pairs(&[("token", "t")]));
    assert_eq!(reply.status, 400);
}

#[test]
fn every_answer_may_be_read_by_any_page() {
    assert_eq!(cors_header(), ("Access-Control-Allow-Origin", "*"));
}
