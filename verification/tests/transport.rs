use pong_cli::websocket::errors::WebSocketErrors;
use pong_cli::websocket::events::errors::EventError;
use pong_cli::websocket::events::request::{CreateRoomRequest, PaddleMoveDirection};
use pong_cli::websocket::events::websocketevents::{NumberString, WebSocketEvents};
use pong_cli::websocket::{ConnectOutcome, Incoming, Phase, SocketIoClient};

const URL: &str = "wss://localhost:8443/socket.io/?token=abc&EIO=4&transport=websocket";
const OPEN: &str = "0{\"sid\":\"lv_VI97HAXpY6yYWAAAC\",\"upgrades\":[],\"pingInterval\":25000,\"pingTimeout\":20000,\"maxPayload\":1000000}";

fn text(frame: &str) -> Incoming {
    Incoming::Text(frame.to_string())
}

fn connected() -> SocketIoClient {
    let mut client = SocketIoClient::new(URL, "abc").unwrap();
    assert_eq!(client.connected(ConnectOutcome::Connected), Ok(()));
    client
}

fn ready() -> SocketIoClient {
    let mut client = connected();
    client.engineio_handshake(&text(OPEN)).unwrap();
    client.socketio_handshake(&text("40{\"sid\":\"x\"}")).unwrap();
    assert_eq!(client.current_phase(), Phase::Ready);
    client
}

#[test]
fn new_takes_a_uri_and_waits_for_the_connection() {
    let client = SocketIoClient::new(URL, "abc").unwrap();
    assert_eq!(client.current_phase(), Phase::Connecting);
}

#[test]
fn new_rejects_what_is_no_uri() {
    assert_eq!(SocketIoClient::new("not a url", "abc").err(), Some(WebSocketErrors::UrlParsingError));
    assert_eq!(SocketIoClient::new("", "abc").err(), Some(WebSocketErrors::UrlParsingError));
    assert_eq!(
        SocketIoClient::new("wss://ho st/socket.io/", "abc").err(),
        Some(WebSocketErrors::UrlParsingError)
    );
}

#[test]
fn a_refused_connection_closes_the_transport() {
    let mut client = SocketIoClient::new(URL, "abc").unwrap();
    assert_eq!(client.connected(ConnectOutcome::Refused), Err(WebSocketErrors::ConnectionError));
    assert_eq!(client.current_phase(), Phase::Closed);
}

#[test]
fn a_missing_connector_closes_the_transport() {
    let mut client = SocketIoClient::new(URL, "abc").unwrap();
    assert_eq!(
        client.connected(ConnectOutcome::ConnectorFailed("no tls".to_string())),
        Err(WebSocketErrors::Unknown("no tls".to_string()))
    );
    assert_eq!(client.current_phase(), Phase::Closed);
}

#[test]
fn connecting_twice_changes_nothing() {
    let mut client = connected();
    assert_eq!(
        client.connected(ConnectOutcome::Connected),
        Err(WebSocketErrors::ConnectionError)
    );
    assert_eq!(client.current_phase(), Phase::OuterHandshake);
}

#[test]
fn the_handshake_reaches_ready() {
    let mut client = connected();
    assert_eq!(client.current_phase(), Phase::OuterHandshake);
    let frame = client.engineio_handshake(&text(OPEN)).unwrap();
    assert_eq!(frame, "40{\"token\":\"abc\"}");
    assert_eq!(client.current_phase(), Phase::InnerHandshake);
    assert_eq!(client.socketio_handshake(&text("40{\"sid\":\"x\"}")), Ok(()));
    assert_eq!(client.current_phase(), Phase::Ready);
}

#[test]
fn rejected_credentials_close_the_transport() {
    let mut client = connected();
    client.engineio_handshake(&text(OPEN)).unwrap();
    assert_eq!(
        client.socketio_handshake(&text("44{\"message\":\"invalid token\"}")),
        Err(WebSocketErrors::InvalidCredentials)
    );
    assert_eq!(client.current_phase(), Phase::Closed);
    assert_eq!(
        client.create_room(CreateRoomRequest::singleplayer()),
        Err(EventError::ConnectionError)
    );
}

#[test]
fn the_token_is_escaped_in_the_connect_frame() {
    let mut client = SocketIoClient::new(URL, "a\"b").unwrap();
    client.connected(ConnectOutcome::Connected).unwrap();
    assert_eq!(client.engineio_handshake(&text(OPEN)).unwrap(), "40{\"token\":\"a\\\"b\"}");
}

#[test]
fn outer_handshake_fails_on_anything_but_a_valid_open_frame() {
    let bad = [
        text("40{\"sid\":\"x\"}"),
        text("1{\"sid\":\"x\",\"upgrades\":[],\"pingInterval\":1,\"pingTimeout\":1,\"maxPayload\":1}"),
        text("0{\"sid\":\"x\"}"),
        text("0{\"sid\":1,\"upgrades\":[],\"pingInterval\":1,\"pingTimeout\":1,\"maxPayload\":1}"),
        text("0{\"sid\":\"x\",\"upgrades\":[1],\"pingInterval\":1,\"pingTimeout\":1,\"maxPayload\":1}"),
        text("0{\"sid\":\"x\",\"upgrades\":[],\"pingInterval\":-1,\"pingTimeout\":1,\"maxPayload\":1}"),
        text("0{\"sid\":\"x\",\"upgrades\":[],\"pingInterval\":1.5,\"pingTimeout\":1,\"maxPayload\":1}"),
        text("0{\"sid\":\"x\",\"upgrades\":[],\"pingInterval\":1,\"pingTimeout\":1}"),
        text("0{not json"),
        text("0[1,2]"),
        text("{\"sid\":\"x\"}"),
        text("hello"),
        text(""),
        Incoming::Other,
        Incoming::Lost,
    ];
    for incoming in bad {
        let mut client = connected();
        assert_eq!(
            client.engineio_handshake(&incoming),
            Err(WebSocketErrors::HandshakeError),
            "{:?}",
            incoming
        );
        assert_eq!(client.current_phase(), Phase::Closed);
        assert_eq!(
            client.socketio_handshake(&text("40{\"sid\":\"x\"}")),
            Err(WebSocketErrors::HandshakeError)
        );
        assert_eq!(client.current_phase(), Phase::Closed);
    }
}

#[test]
fn outer_handshake_takes_upgrades_and_unknown_members() {
    let mut client = connected();
    let open = "0{\"sid\":\"x\",\"upgrades\":[\"websocket\",\"polling\"],\"pingInterval\":1,\"pingTimeout\":2,\"maxPayload\":3,\"extra\":null}";
    assert!(client.engineio_handshake(&text(open)).is_ok());
}

#[test]
fn inner_handshake_fails_on_anything_but_a_valid_connect_frame() {
    let bad = [
        (text("41{\"sid\":\"x\"}"), WebSocketErrors::HandshakeError),
        (text("42[\"joined_room\",{}]"), WebSocketErrors::HandshakeError),
        (text("0{\"sid\":\"x\"}"), WebSocketErrors::HandshakeError),
        (text("40{\"sid\":5}"), WebSocketErrors::HandshakeError),
        (text("40{}"), WebSocketErrors::HandshakeError),
        (text("40[\"x\"]"), WebSocketErrors::HandshakeError),
        (text("40{oops"), WebSocketErrors::HandshakeError),
        (text("40"), WebSocketErrors::HandshakeError),
        (text("44{}"), WebSocketErrors::InvalidCredentials),
        (text("44{oops"), WebSocketErrors::InvalidCredentials),
        (text("44"), WebSocketErrors::HandshakeError),
        (Incoming::Other, WebSocketErrors::HandshakeError),
        (Incoming::Lost, WebSocketErrors::HandshakeError),
    ];
    for (incoming, expected) in bad {
        let mut client = connected();
        client.engineio_handshake(&text(OPEN)).unwrap();
        assert_eq!(client.socketio_handshake(&incoming), Err(expected), "{:?}", incoming);
        assert_eq!(client.current_phase(), Phase::Closed);
    }
}

#[test]
fn handshake_steps_out_of_turn_change_nothing() {
    let mut client = SocketIoClient::new(URL, "abc").unwrap();
    assert_eq!(client.engineio_handshake(&text(OPEN)), Err(WebSocketErrors::HandshakeError));
    assert_eq!(client.current_phase(), Phase::Connecting);
    assert_eq!(
        client.socketio_handshake(&text("40{\"sid\":\"x\"}")),
        Err(WebSocketErrors::HandshakeError)
    );
    assert_eq!(client.current_phase(), Phase::Connecting);
    let mut client = ready();
    assert_eq!(client.engineio_handshake(&text(OPEN)), Err(WebSocketErrors::HandshakeError));
    assert_eq!(client.current_phase(), Phase::Ready);
}

#[test]
fn a_failed_send_during_the_handshake_closes_the_transport() {
    let mut client = connected();
    client.engineio_handshake(&text(OPEN)).unwrap();
    assert_eq!(client.handshake_failed(), WebSocketErrors::HandshakeError);
    assert_eq!(client.current_phase(), Phase::Closed);
}

#[test]
fn requests_need_a_ready_transport() {
    let client = connected();
    assert_eq!(client.create_room(CreateRoomRequest::multiplayer()), Err(EventError::ConnectionError));
    assert_eq!(client.join_room("ABC123".to_string()), Err(EventError::ConnectionError));
    assert_eq!(
        client.paddle_move((PaddleMoveDirection::Up, PaddleMoveDirection::Down)),
        Err(EventError::ConnectionError)
    );
    assert_eq!(client.pause_game(true), Err(EventError::ConnectionError));
}

#[test]
fn request_frames() {
    let client = ready();
    assert_eq!(
        client.create_room(CreateRoomRequest::singleplayer()).unwrap(),
        "42[\"create_room\",{\"isSinglePlayer\":true,\"isRemote\":false}]"
    );
    assert_eq!(
        client.create_room(CreateRoomRequest::multiplayer()).unwrap(),
        "42[\"create_room\",{\"isSinglePlayer\":false,\"isRemote\":true}]"
    );
    assert_eq!(
        client.join_room("ABC123".to_string()).unwrap(),
        "42[\"join_room\",{\"roomId\":\"ABC123\"}]"
    );
    assert_eq!(
        client.paddle_move((PaddleMoveDirection::Up, PaddleMoveDirection::Idle)).unwrap(),
        "42[\"paddle_move\",{\"moveP1\":\"up\",\"moveP2\":\"none\"}]"
    );
    assert_eq!(client.pause_game(true).unwrap(), "42[\"game_pause\",true]");
    assert_eq!(client.pause_game(false).unwrap(), "42[\"game_pause\",false]");
}

#[test]
fn create_room_gives_the_room_id() {
    let client = ready();
    let frame = client.create_room(CreateRoomRequest::singleplayer()).unwrap();
    assert_eq!(frame, "42[\"create_room\",{\"isSinglePlayer\":true,\"isRemote\":false}]");
    let reply = text("42[\"room_created\",{\"roomId\":\"R1\",\"success\":true}]");
    assert_eq!(client.create_room_reply(&reply), Ok("R1".to_string()));
}

#[test]
fn create_room_that_the_server_turns_down() {
    let client = ready();
    client.create_room(CreateRoomRequest::singleplayer()).unwrap();
    assert_eq!(
        client.create_room_reply(&text("42[\"create_error\",{}]")),
        Err(EventError::CreateRoomError)
    );
}

#[test]
fn create_room_reply_without_success_is_invalid() {
    let client = ready();
    assert_eq!(
        client.create_room_reply(&text("42[\"room_created\",{\"roomId\":\"R1\",\"success\":false}]")),
        Err(EventError::InvalidResponse)
    );
}

#[test]
fn create_room_reply_with_a_payload_that_does_not_fit() {
    let client = ready();
    let replies = [
        "42[\"room_created\",{\"roomId\":\"R1\"}]",
        "42[\"room_created\",{\"roomId\":7,\"success\":true}]",
        "42[\"room_created\",{\"success\":true}]",
        "42[\"room_created\",\"R1\"]",
        "42[\"room_created\",null]",
    ];
    for reply in replies {
        match client.create_room_reply(&text(reply)) {
            Err(EventError::SerializingError(_)) => {}
            other => panic!("{}: {:?}", reply, other),
        }
    }
}

#[test]
fn create_room_reply_with_another_name_is_invalid() {
    let client = ready();
    assert_eq!(
        client.create_room_reply(&text("42[\"joined_room\",{\"roomId\":\"R1\",\"success\":true}]")),
        Err(EventError::InvalidResponse)
    );
    assert_eq!(
        client.create_room_reply(&text("42[\"join_error\",{}]")),
        Err(EventError::InvalidResponse)
    );
}

#[test]
fn join_room_replies() {
    let client = ready();
    assert_eq!(client.join_room_reply(&text("42[\"joined_room\",{}]")), Ok(()));
    assert_eq!(client.join_room_reply(&text("42[\"joined_room\",null]")), Ok(()));
    assert_eq!(
        client.join_room_reply(&text("42[\"join_error\",{}]")),
        Err(EventError::JoinRoomError)
    );
    assert_eq!(
        client.join_room_reply(&text("42[\"room_created\",{}]")),
        Err(EventError::InvalidResponse)
    );
}

#[test]
fn a_reply_with_another_opcode_is_invalid_whatever_it_holds() {
    let client = ready();
    let replies = [
        "40[\"room_created\",{\"roomId\":\"R1\",\"success\":true}]",
        "43[\"room_created\",{\"roomId\":\"R1\",\"success\":true}]",
        "0{\"sid\":\"x\"}",
        "2[]",
        "41{not json at all",
        "4242[\"joined_room\",{}]",
    ];
    for reply in replies {
        assert_eq!(SocketIoClient::reply(&text(reply)).err(), Some(EventError::InvalidResponse));
        assert_eq!(client.create_room_reply(&text(reply)), Err(EventError::InvalidResponse));
        assert_eq!(client.join_room_reply(&text(reply)), Err(EventError::InvalidResponse));
    }
}

#[test]
fn a_reply_that_does_not_decode_is_a_connection_error() {
    let client = ready();
    for incoming in [text("2"), text("hello"), text("{\"a\":1}"), Incoming::Other, Incoming::Lost] {
        assert_eq!(client.create_room_reply(&incoming), Err(EventError::ConnectionError));
        assert_eq!(client.join_room_reply(&incoming), Err(EventError::ConnectionError));
    }
}

#[test]
fn a_reply_that_is_no_envelope_is_a_serializing_error() {
    let client = ready();
    let replies = [
        "42{\"name\":\"room_created\"}",
        "42[\"room_created\"]",
        "42[\"room_created\",{},{}]",
        "42[1,{}]",
        "42[]",
        "42[\"room_created\",",
        "42{oops",
    ];
    for reply in replies {
        match client.create_room_reply(&text(reply)) {
            Err(EventError::SerializingError(_)) => {}
            other => panic!("{}: {:?}", reply, other),
        }
    }
}

#[test]
fn the_reader_s_own_message_is_kept() {
    match SocketIoClient::reply(&text("42[\"a\",")) {
        Err(EventError::SerializingError(message)) => {
            assert!(message.contains("EOF"), "{}", message);
        }
        other => panic!("{:?}", other),
    }
    match SocketIoClient::reply(&text("42[\"a\"]")) {
        Err(EventError::SerializingError(message)) => {
            assert_eq!(message, "expected an array of an event name and a payload");
        }
        other => panic!("{:?}", other),
    }
}

#[test]
fn keep_alive_is_answered_with_a_pong() {
    let client = ready();
    let received = client.wait_for_events(&text("2"));
    assert_eq!(received.event, Ok(WebSocketEvents::Ping));
    assert_eq!(received.reply, Some("3".to_string()));
}

#[test]
fn only_the_bare_probe_is_a_ping() {
    let client = ready();
    for frame in ["3", "22", "2 ", " 2", "2{}", "2[]", ""] {
        let received = client.wait_for_events(&text(frame));
        assert_eq!(received.reply, None, "{:?}", frame);
        assert_ne!(received.event, Ok(WebSocketEvents::Ping), "{:?}", frame);
    }
}

#[test]
fn pong_that_could_not_be_sent() {
    assert_eq!(SocketIoClient::pong_sent(true), Ok(WebSocketEvents::Ping));
    assert_eq!(SocketIoClient::pong_sent(false), Err(EventError::ConnectionError));
}

#[test]
fn events_are_told_apart_by_name() {
    let client = ready();
    let received = client
        .wait_for_events(&text("42[\"joined_room\",{\"roomId\":\"R1\",\"message\":\"hi\",\"success\":true}]"));
    assert_eq!(received.reply, None);
    match received.event {
        Ok(WebSocketEvents::JoinedRoom(event)) => {
            assert_eq!(event.room_id, "R1");
            assert_eq!(event.message, "hi");
            assert!(event.success);
        }
        other => panic!("{:?}", other),
    }
    let received = client.wait_for_events(&text("42[\"game_pause_state\",true]"));
    assert_eq!(received.event, Ok(WebSocketEvents::GamePauseState(true)));
    let received = client.wait_for_events(&text("42[\"game_aborted\",{\"message\":\"bye\"}]"));
    match received.event {
        Ok(WebSocketEvents::GameAborted(event)) => assert_eq!(event.message, "bye"),
        other => panic!("{:?}", other),
    }
}

#[test]
fn game_state_event() {
    let client = ready();
    let frame = "42[\"game_state\",{\"ballX\":400.5,\"ballY\":300,\"paddle1Y\":250.25,\"paddle2Y\":-1e2,\"ownerScore\":3,\"guestScore\":4}]";
    match client.wait_for_events(&text(frame)).event {
        Ok(WebSocketEvents::GameState(event)) => {
            assert_eq!(event.ball_x.parse::<f64>().unwrap(), 400.5);
            assert_eq!(event.ball_y.parse::<f64>().unwrap(), 300.0);
            assert_eq!(event.paddle1_y.parse::<f64>().unwrap(), 250.25);
            assert_eq!(event.paddle2_y.parse::<f64>().unwrap(), -100.0);
            assert_eq!(event.owner_score, 3);
            assert_eq!(event.guest_score, 4);
        }
        other => panic!("{:?}", other),
    }
}

#[test]
fn game_start_event() {
    let client = ready();
    let frame = "42[\"game_start\",{\"message\":\"go\",\"roomId\":\"R1\",\"ballX\":400,\"ballY\":300,\"ballVX\":5,\"ballVY\":-5,\"paddle1Y\":250,\"paddle2Y\":250,\"ownerScore\":0,\"guestScore\":0,\"owner\":{\"id\":7,\"nickname\":\"ann\"},\"guest\":{\"id\":\"ai\",\"nickname\":\"bot\"},\"isOwner\":true,\"success\":true}]";
    match client.wait_for_events(&text(frame)).event {
        Ok(WebSocketEvents::GameStart(event)) => {
            assert_eq!(event.ball_x, "400");
            assert_eq!(event.ball_vy, "-5");
            assert_eq!(event.owner.id, NumberString::Number(7));
            assert_eq!(event.owner.nickname, "ann");
            assert_eq!(event.guest.id, NumberString::String("ai".to_string()));
            assert_eq!(event.guest.nickname, "bot");
            assert!(event.is_owner);
            assert!(event.success);
        }
        other => panic!("{:?}", other),
    }
}

#[test]
fn game_start_event_needs_no_more_than_its_listed_members() {
    let client = ready();
    let frame = "42[\"game_start\",{\"ballX\":1,\"ballY\":2,\"ballVX\":3,\"ballVY\":4,\"paddle1Y\":5,\"paddle2Y\":6,\"ownerScore\":0,\"guestScore\":0,\"owner\":{\"id\":1,\"nickname\":\"a\"},\"guest\":{\"id\":2,\"nickname\":\"b\"},\"isOwner\":false,\"success\":true}]";
    match client.wait_for_events(&text(frame)).event {
        Ok(WebSocketEvents::GameStart(event)) => {
            assert_eq!(event.paddle2_y, "6");
            assert!(!event.is_owner);
        }
        other => panic!("{:?}", other),
    }
    let without_owner = "42[\"game_start\",{\"ballX\":1,\"ballY\":2,\"ballVX\":3,\"ballVY\":4,\"paddle1Y\":5,\"paddle2Y\":6,\"ownerScore\":0,\"guestScore\":0,\"guest\":{\"id\":2,\"nickname\":\"b\"},\"isOwner\":false,\"success\":true}]";
    assert_eq!(
        client.wait_for_events(&text(without_owner)).event,
        Err(EventError::InvalidResponse)
    );
}

#[test]
fn game_over_event() {
    let client = ready();
    let frame = "42[\"game_over\",{\"winner\":\"ann\",\"finalScore\":{\"owner\":5,\"guest\":2},\"message\":\"done\"}]";
    match client.wait_for_events(&text(frame)).event {
        Ok(WebSocketEvents::GameOver(event)) => {
            assert_eq!(event.winner, "ann");
            assert_eq!(event.final_score.owner, 5);
            assert_eq!(event.final_score.guest, 2);
            assert_eq!(event.message, "done");
        }
        other => panic!("{:?}", other),
    }
}

#[test]
fn the_opcode_of_an_unasked_event_is_not_looked_at() {
    let client = ready();
    let received = client.wait_for_events(&text("7[\"game_pause_state\",false]"));
    assert_eq!(received.event, Ok(WebSocketEvents::GamePauseState(false)));
}

#[test]
fn an_unknown_name_is_an_invalid_response() {
    let client = ready();
    for frame in ["42[\"room_created\",{\"roomId\":\"R1\",\"success\":true}]", "42[\"nope\",{}]", "42[\"\",{}]"] {
        assert_eq!(client.wait_for_events(&text(frame)).event, Err(EventError::InvalidResponse));
    }
}

#[test]
fn a_payload_that_does_not_fit_is_an_invalid_response() {
    let client = ready();
    let frames = [
        "42[\"joined_room\",{\"roomId\":\"R1\",\"message\":\"hi\"}]",
        "42[\"joined_room\",[\"R1\",\"hi\",true]]",
        "42[\"game_pause_state\",\"yes\"]",
        "42[\"game_pause_state\",{}]",
        "42[\"game_aborted\",{}]",
        "42[\"game_state\",{\"ballX\":\"1\",\"ballY\":300,\"paddle1Y\":250,\"paddle2Y\":1,\"ownerScore\":3,\"guestScore\":4}]",
        "42[\"game_state\",{\"ballX\":1,\"ballY\":300,\"paddle1Y\":250,\"paddle2Y\":1,\"ownerScore\":3.5,\"guestScore\":4}]",
        "42[\"game_state\",{\"ballX\":1,\"ballY\":300,\"paddle1Y\":250,\"paddle2Y\":1,\"ownerScore\":-3,\"guestScore\":4}]",
        "42[\"game_over\",{\"winner\":\"ann\",\"finalScore\":{\"owner\":5},\"message\":\"done\"}]",
        "42[\"game_over\",{\"winner\":\"ann\",\"finalScore\":5,\"message\":\"done\"}]",
    ];
    for frame in frames {
        assert_eq!(
            client.wait_for_events(&text(frame)).event,
            Err(EventError::InvalidResponse),
            "{}",
            frame
        );
    }
}

#[test]
fn faults_of_an_unasked_delivery() {
    let client = ready();
    assert_eq!(client.wait_for_events(&Incoming::Lost).event, Err(EventError::ConnectionError));
    assert_eq!(client.wait_for_events(&Incoming::Other).event, Err(EventError::InvalidResponse));
    assert_eq!(client.wait_for_events(&text("hello")).event, Err(EventError::InvalidResponse));
    assert_eq!(client.wait_for_events(&text("{\"a\":1}")).event, Err(EventError::InvalidResponse));
    match client.wait_for_events(&text("42{\"a\":1}")).event {
        Err(EventError::SerializingError(_)) => {}
        other => panic!("{:?}", other),
    }
}

#[test]
fn a_transport_that_is_not_ready_reads_nothing() {
    let mut client = ready();
    client.close().unwrap();
    let received = client.wait_for_events(&text("2"));
    assert_eq!(received.event, Err(EventError::ConnectionError));
    assert_eq!(received.reply, None);
    assert_eq!(
        client.create_room_reply(&text("42[\"room_created\",{\"roomId\":\"R1\",\"success\":true}]")),
        Err(EventError::ConnectionError)
    );
    assert_eq!(
        client.join_room_reply(&text("42[\"joined_room\",{}]")),
        Err(EventError::ConnectionError)
    );
    let client = connected();
    assert_eq!(client.wait_for_events(&text("2")).event, Err(EventError::ConnectionError));
}

#[test]
fn close_gives_the_connection_up_once() {
    let mut client = ready();
    assert_eq!(client.close(), Ok(()));
    assert_eq!(client.current_phase(), Phase::Closed);
    assert_eq!(client.close(), Err(EventError::ConnectionError));
    assert_eq!(client.pause_game(true), Err(EventError::ConnectionError));
}

#[test]
fn error_messages() {
    assert_eq!(WebSocketErrors::ConnectionError.message(), "Connection Error");
    assert_eq!(WebSocketErrors::InvalidResponse.message(), "Invalid response received from server");
    assert_eq!(WebSocketErrors::HandshakeError.message(), "Error during Socket.io Handshake");
    assert_eq!(WebSocketErrors::InvalidCredentials.message(), "Incorrect email or password");
    assert_eq!(WebSocketErrors::ServerError.message(), "Internal Server Error");
    assert_eq!(WebSocketErrors::UrlParsingError.message(), "Unable to parse url");
    assert_eq!(WebSocketErrors::Unknown("x".to_string()).message(), "Unknown Error: x");
    assert_eq!(
        EventError::SerializingError("x".to_string()).message(),
        "Unable to deserialize Response: x"
    );
    assert_eq!(EventError::ConnectionError.message(), "Connection Error");
    assert_eq!(EventError::InvalidResponse.message(), "Invalid Response");
    assert_eq!(EventError::CreateRoomError.message(), "Unable to create room");
    assert_eq!(EventError::JoinRoomError.message(), "Unable to join room");
}

#[test]
fn a_room_request_joins_the_room_that_is_named() {
    let client = ready();
    assert_eq!(
        client.room_request(Some("R1".to_string())).unwrap(),
        "42[\"join_room\",{\"roomId\":\"R1\"}]"
    );
    assert_eq!(client.room_request(Some("R1".to_string())), client.join_room("R1".to_string()));
}

#[test]
fn a_room_request_without_a_name_asks_for_a_room_for_two() {
    let client = ready();
    assert_eq!(
        client.room_request(None).unwrap(),
        "42[\"create_room\",{\"isSinglePlayer\":false,\"isRemote\":true}]"
    );
}

#[test]
fn a_room_request_needs_a_ready_transport() {
    let client = connected();
    assert_eq!(client.room_request(None), Err(EventError::ConnectionError));
    assert_eq!(client.room_request(Some("R1".to_string())), Err(EventError::ConnectionError));
    assert_eq!(
        client.room_reply(true, &text("42[\"joined_room\",{}]")),
        Err(EventError::ConnectionError)
    );
    assert_eq!(
        client.room_reply(false, &text("42[\"room_created\",{\"roomId\":\"R1\",\"success\":true}]")),
        Err(EventError::ConnectionError)
    );
}

#[test]
fn a_room_reply_is_read_as_the_request_asks() {
    let client = ready();
    let joined = text("42[\"joined_room\",{}]");
    let created = text("42[\"room_created\",{\"roomId\":\"R1\",\"success\":true}]");
    assert_eq!(client.room_reply(true, &joined), Ok(None));
    assert_eq!(client.room_reply(false, &created), Ok(Some("R1".to_string())));
    assert_eq!(client.room_reply(true, &created), Err(EventError::InvalidResponse));
    assert_eq!(client.room_reply(false, &joined), Err(EventError::InvalidResponse));
    assert_eq!(
        client.room_reply(true, &text("42[\"join_error\",{}]")),
        Err(EventError::JoinRoomError)
    );
    assert_eq!(
        client.room_reply(false, &text("42[\"create_error\",{}]")),
        Err(EventError::CreateRoomError)
    );
    assert_eq!(client.room_reply(true, &text("43[\"joined_room\",{}]")), Err(EventError::InvalidResponse));
    assert_eq!(client.room_reply(false, &Incoming::Lost), Err(EventError::ConnectionError));
}
