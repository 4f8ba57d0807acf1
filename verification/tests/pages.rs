use pong_cli::auth::{LoginErrors, TotpErrors};
use pong_cli::ui::game::{CurrentPlayer, Game, GameResult, GameResultPlayer};
use pong_cli::ui::game_lobby::GameLobbyPage;
use pong_cli::ui::game_over::GameOverPage;
use pong_cli::ui::gamemode::{GameModePage, GameModes};
use pong_cli::ui::host_selector::{Field as HostField, HostSelectorPage};
use pong_cli::ui::input::{
    ascii_alphanumeric, ascii_digit, ascii_graphic, ascii_upper, KeyCode, KeyEvent, KeyKind,
};
use pong_cli::ui::join_room::JoinRoomPage;
use pong_cli::ui::login::{Field as LoginField, LoginPage};
use pong_cli::ui::nickname_page::NicknamePage;
use pong_cli::ui::pages::{LoginType, PageKind, PageResults, Pages};
use pong_cli::ui::totp::TotpPage;
use pong_cli::websocket::events::errors::EventError;
use pong_cli::websocket::events::request::PaddleMoveDirection;
use pong_cli::websocket::events::websocketevents::{
    FinalScore, GameOverEvent, GameStartEvent, GameStartEventPlayer, GameStateEvent, NumberString,
};
use std::time::Instant;

const CONTROL: u8 = 2;
const SHIFT: u8 = 1;

fn press(code: KeyCode) -> KeyEvent {
    KeyEvent::press(code)
}

fn with(code: KeyCode, modifiers: u8) -> KeyEvent {
    KeyEvent { code, modifiers, kind: KeyKind::Press }
}

fn release(code: KeyCode) -> KeyEvent {
    KeyEvent { code, modifiers: 0, kind: KeyKind::Release }
}

fn player(id: u32, nickname: &str) -> GameStartEventPlayer {
    GameStartEventPlayer { id: NumberString::Number(id), nickname: nickname.to_string() }
}

fn start_event(is_owner: bool) -> GameStartEvent {
    GameStartEvent {
        ball_x: "400".to_string(),
        ball_y: "300".to_string(),
        ball_vx: "5".to_string(),
        ball_vy: "-5".to_string(),
        paddle1_y: "250".to_string(),
        paddle2_y: "260".to_string(),
        owner_score: 0,
        guest_score: 0,
        owner: player(1, "ann"),
        guest: player(2, "bob"),
        is_owner,
        success: true,
    }
}

#[test]
fn character_classes() {
    assert!(ascii_graphic('!') && ascii_graphic('~') && ascii_graphic('a') && ascii_graphic('0'));
    assert!(!ascii_graphic(' ') && !ascii_graphic('\u{7f}') && !ascii_graphic('é'));
    assert!(ascii_digit('0') && ascii_digit('9') && !ascii_digit('a') && !ascii_digit('/'));
    assert!(ascii_alphanumeric('a') && ascii_alphanumeric('Z') && ascii_alphanumeric('5'));
    assert!(!ascii_alphanumeric('-') && !ascii_alphanumeric('é') && !ascii_alphanumeric('['));
    assert_eq!(ascii_upper('a'), 'A');
    assert_eq!(ascii_upper('z'), 'Z');
    assert_eq!(ascii_upper('A'), 'A');
    assert_eq!(ascii_upper('5'), '5');
    assert_eq!(ascii_upper('é'), 'é');
    for c in ['a', 'q', 'z', 'A', '0', '{', '`', 'ß'] {
        assert_eq!(ascii_upper(c), c.to_ascii_uppercase());
        assert_eq!(ascii_graphic(c), c.is_ascii_graphic());
        assert_eq!(ascii_alphanumeric(c), c.is_ascii_alphanumeric());
        assert_eq!(ascii_digit(c), c.is_ascii_digit());
    }
}

#[test]
fn game_modes_move_as_listed() {
    assert_eq!(GameModes::SinglePlayer.toggle(), GameModes::CreateRoom);
    assert_eq!(GameModes::CreateRoom.toggle(), GameModes::JoinRoom);
    assert_eq!(GameModes::JoinRoom.toggle(), GameModes::SinglePlayer);
    assert_eq!(GameModes::SinglePlayer.prev(), GameModes::SinglePlayer);
    assert_eq!(GameModes::CreateRoom.prev(), GameModes::SinglePlayer);
    assert_eq!(GameModes::JoinRoom.prev(), GameModes::CreateRoom);
    assert_eq!(GameModes::SinglePlayer.next(), GameModes::CreateRoom);
    assert_eq!(GameModes::CreateRoom.next(), GameModes::JoinRoom);
    assert_eq!(GameModes::JoinRoom.next(), GameModes::JoinRoom);
}

#[test]
fn game_mode_page_keys() {
    let mut page = GameModePage::new();
    assert!(page.needs_update());
    assert_eq!(page.selection, GameModes::SinglePlayer);
    page.drawn();
    assert!(!page.needs_update());
    assert_eq!(page.key_event(&press(KeyCode::Char('x'))), None);
    assert!(!page.needs_update());
    assert_eq!(page.key_event(&press(KeyCode::Down)), None);
    assert_eq!(page.selection, GameModes::CreateRoom);
    assert!(page.needs_update());
    assert_eq!(
        page.key_event(&press(KeyCode::Enter)),
        Some(PageResults::GameModeChosen(GameModes::CreateRoom))
    );
    assert_eq!(page.key_event(&press(KeyCode::Tab)), None);
    assert_eq!(page.selection, GameModes::JoinRoom);
    assert_eq!(page.key_event(&press(KeyCode::Up)), None);
    assert_eq!(page.selection, GameModes::CreateRoom);
    assert_eq!(page.key_event(&press(KeyCode::Esc)), Some(PageResults::Exit));
    page.focus_widget(GameModes::JoinRoom);
    assert_eq!(
        page.key_event(&press(KeyCode::Enter)),
        Some(PageResults::GameModeChosen(GameModes::JoinRoom))
    );
}

#[test]
fn lobby_page() {
    let mut page = GameLobbyPage::new("R1".to_string());
    assert!(page.needs_update());
    assert_eq!(page.caption(), "Room ID: R1");
    page.drawn();
    assert!(!page.needs_update());
    assert_eq!(page.key_event(&press(KeyCode::Enter)), None);
    assert_eq!(page.key_event(&press(KeyCode::Esc)), Some(PageResults::BackToMenu));
    assert_eq!(page.room_id, "R1");
}

#[test]
fn game_over_page() {
    let result = GameResult {
        won: true,
        player_a: GameResultPlayer { player: player(1, "ann"), score: 5 },
        player_b: GameResultPlayer { player: player(2, "bob"), score: 3 },
    };
    let mut page = GameOverPage::new(result);
    assert!(page.needs_update());
    assert_eq!(page.title(), "You won");
    assert_eq!(page.key_event(&press(KeyCode::Esc)), Some(PageResults::GameOver));
    assert_eq!(page.key_event(&press(KeyCode::Enter)), Some(PageResults::GameOver));
    assert_eq!(page.key_event(&press(KeyCode::Char('q'))), None);
    page.game_result.won = false;
    assert_eq!(page.title(), "You lost");
    page.drawn();
    assert!(!page.needs_update());
}

#[test]
fn host_page_starts_with_the_proposed_host() {
    assert_eq!(HostSelectorPage::new(true).host.value(), "localhost");
    let page = HostSelectorPage::new(false);
    assert_eq!(page.host.value(), "ft-transcendence.at");
    assert_eq!(page.host.cursor(), 19);
    assert_eq!(page.selected_field, HostField::LocalLogin);
    assert!(page.needs_update());
    assert_eq!(page.error_message, None);
}

#[test]
fn host_page_typing() {
    let mut page = HostSelectorPage::new(true);
    page.drawn();
    assert_eq!(page.key_event(&press(KeyCode::Char('1'))), None);
    assert_eq!(page.host.value(), "localhost1");
    assert!(page.needs_update());
    assert_eq!(page.key_event(&with(KeyCode::Char('X'), SHIFT)), None);
    assert_eq!(page.host.value(), "localhost1X");
    assert_eq!(page.key_event(&press(KeyCode::Backspace)), None);
    assert_eq!(page.host.value(), "localhost1");
    page.drawn();
    assert_eq!(page.key_event(&press(KeyCode::Char(' '))), None);
    assert_eq!(page.key_event(&press(KeyCode::Char('é'))), None);
    assert_eq!(page.host.value(), "localhost1");
    assert!(!page.needs_update());
    assert_eq!(page.key_event(&press(KeyCode::Other)), None);
    assert!(!page.needs_update());
}

#[test]
fn host_page_editing_keys_go_through_the_input_library() {
    let mut page = HostSelectorPage::new(true);
    assert_eq!(page.key_event(&with(KeyCode::Char('a'), CONTROL)), None);
    assert_eq!(page.host.value(), "localhost");
    assert_eq!(page.host.cursor(), 0);
    assert_eq!(page.key_event(&press(KeyCode::Char('x'))), None);
    assert_eq!(page.host.value(), "xlocalhost");
    assert_eq!(page.key_event(&with(KeyCode::Char('u'), CONTROL)), None);
    assert_eq!(page.host.value(), "");
}

#[test]
fn host_page_takes_no_more_than_32_bytes() {
    let mut page = HostSelectorPage::new(true);
    for _ in 0..40 {
        page.key_event(&press(KeyCode::Char('a')));
    }
    assert_eq!(page.host.value().len(), 32);
    assert_eq!(page.host.value(), "localhostaaaaaaaaaaaaaaaaaaaaaaa");
}

#[test]
fn host_page_selection_and_enter() {
    let mut page = HostSelectorPage::new(true);
    assert_eq!(
        page.key_event(&press(KeyCode::Enter)),
        Some(PageResults::HostSelected(("localhost".to_string(), LoginType::LocalLogin)))
    );
    assert_eq!(page.key_event(&press(KeyCode::Down)), None);
    assert_eq!(page.selected_field, HostField::RemoteLogin);
    assert_eq!(
        page.key_event(&press(KeyCode::Enter)),
        Some(PageResults::HostSelected(("localhost".to_string(), LoginType::RemoteLogin)))
    );
    assert_eq!(page.key_event(&press(KeyCode::Up)), None);
    assert_eq!(page.selected_field, HostField::LocalLogin);
    assert_eq!(page.key_event(&press(KeyCode::Tab)), None);
    assert_eq!(page.selected_field, HostField::RemoteLogin);
    page.focus_other_widget();
    assert_eq!(page.selected_field, HostField::LocalLogin);
    assert_eq!(page.key_event(&press(KeyCode::Esc)), Some(PageResults::Exit));
}

#[test]
fn host_page_complains_of_an_empty_host() {
    let mut page = HostSelectorPage::new(true);
    for _ in 0..9 {
        page.key_event(&press(KeyCode::Backspace));
    }
    assert_eq!(page.host.value(), "");
    page.drawn();
    assert_eq!(page.key_event(&press(KeyCode::Enter)), None);
    assert_eq!(page.error_message, Some("Host can't be empty".to_string()));
    assert!(page.needs_update());
    page.host_error(&LoginErrors::ServerError);
    assert_eq!(page.error_message, Some("Internal Server Error".to_string()));
}

#[test]
fn login_page_keys() {
    let mut page = LoginPage::new();
    assert_eq!(page.selected_field, LoginField::Email);
    for c in "a@b.c".chars() {
        assert_eq!(page.key_event(&press(KeyCode::Char(c))), None);
    }
    assert_eq!(page.email.value(), "a@b.c");
    assert_eq!(page.password.value(), "");
    assert_eq!(page.key_event(&press(KeyCode::Enter)), None);
    assert_eq!(page.selected_field, LoginField::Password);
    for c in "pw1".chars() {
        page.key_event(&press(KeyCode::Char(c)));
    }
    page.key_event(&press(KeyCode::Char('x')));
    page.key_event(&press(KeyCode::Backspace));
    assert_eq!(page.email.value(), "a@b.c");
    assert_eq!(page.password.value(), "pw1");
    assert_eq!(
        page.key_event(&press(KeyCode::Enter)),
        Some(PageResults::Login(("a@b.c".to_string(), "pw1".to_string())))
    );
    assert_eq!(page.key_event(&press(KeyCode::Tab)), None);
    assert_eq!(page.selected_field, LoginField::Email);
    assert_eq!(page.key_event(&press(KeyCode::Esc)), Some(PageResults::Exit));
    assert_eq!(page.key_event(&press(KeyCode::Up)), None);
}

#[test]
fn login_page_error_empties_the_password() {
    let mut page = LoginPage::new();
    page.key_event(&press(KeyCode::Char('a')));
    page.key_event(&press(KeyCode::Tab));
    page.key_event(&press(KeyCode::Char('b')));
    page.key_event(&press(KeyCode::Tab));
    page.drawn();
    page.login_error(&LoginErrors::InvalidCredentials);
    assert_eq!(page.email.value(), "a");
    assert_eq!(page.password.value(), "");
    assert_eq!(page.selected_field, LoginField::Password);
    assert!(page.needs_update());
    assert_eq!(page.error_message, Some("Incorrect email or password".to_string()));
}

#[test]
fn login_page_takes_no_more_than_32_bytes_a_field() {
    let mut page = LoginPage::new();
    for _ in 0..40 {
        page.key_event(&press(KeyCode::Char('e')));
    }
    page.key_event(&press(KeyCode::Tab));
    for _ in 0..33 {
        page.key_event(&press(KeyCode::Char('p')));
    }
    assert_eq!(page.email.value().len(), 32);
    assert_eq!(page.password.value().len(), 32);
}

#[test]
fn totp_page_keys() {
    let mut page = TotpPage::new();
    for c in "12a3 4567".chars() {
        assert_eq!(page.key_event(&press(KeyCode::Char(c))), None);
    }
    assert_eq!(page.totp_code.value(), "123456");
    assert_eq!(page.key_event(&press(KeyCode::Enter)), Some(PageResults::Totp("123456".to_string())));
    page.key_event(&press(KeyCode::Backspace));
    assert_eq!(page.totp_code.value(), "12345");
    page.drawn();
    assert_eq!(page.key_event(&press(KeyCode::Enter)), None);
    assert_eq!(page.error_message, Some("2FA code too short".to_string()));
    assert!(page.needs_update());
    assert_eq!(page.key_event(&press(KeyCode::Esc)), Some(PageResults::Exit));
    page.totp_error(&TotpErrors::InvalidTotp);
    assert_eq!(page.totp_code.value(), "");
    assert_eq!(page.error_message, Some("Incorrect 2FA code".to_string()));
}

#[test]
fn join_room_page_keys() {
    let mut page = JoinRoomPage::new();
    for c in "ab-1".chars() {
        assert_eq!(page.key_event(&press(KeyCode::Char(c))), None);
    }
    assert_eq!(page.input.value(), "AB1");
    assert_eq!(page.key_event(&press(KeyCode::Enter)), None);
    for c in "cD9xyz".chars() {
        page.key_event(&press(KeyCode::Char(c)));
    }
    assert_eq!(page.input.value(), "AB1CD9");
    assert_eq!(
        page.key_event(&press(KeyCode::Enter)),
        Some(PageResults::JoinRoom("AB1CD9".to_string()))
    );
    page.key_event(&press(KeyCode::Backspace));
    assert_eq!(page.input.value(), "AB1CD");
    assert_eq!(page.key_event(&press(KeyCode::Esc)), Some(PageResults::BackToMenu));
    page.join_error(&EventError::JoinRoomError);
    assert_eq!(page.input.value(), "");
    assert_eq!(page.error_message, Some("Unable to join room".to_string()));
    assert!(page.needs_update());
}

#[test]
fn join_room_page_upper_case_comes_before_the_input_library() {
    let mut page = JoinRoomPage::new();
    page.key_event(&press(KeyCode::Char('a')));
    page.key_event(&with(KeyCode::Char('h'), CONTROL));
    assert_eq!(page.input.value(), "A");
}

#[test]
fn nickname_page_keys() {
    let mut page = NicknamePage::new();
    page.drawn();
    assert_eq!(page.key_event(&press(KeyCode::Enter)), None);
    assert_eq!(page.error_message, Some("Nickname can't be empty".to_string()));
    for c in "ann e".chars() {
        page.key_event(&press(KeyCode::Char(c)));
    }
    assert_eq!(page.nickname.value(), "anne");
    assert_eq!(
        page.key_event(&press(KeyCode::Enter)),
        Some(PageResults::NicknameSelected("anne".to_string()))
    );
    page.nickname_error(&LoginErrors::Unknown("taken".to_string()));
    assert_eq!(page.error_message, Some("Error: taken".to_string()));
    assert_eq!(page.nickname.value(), "anne");
    assert_eq!(page.key_event(&press(KeyCode::Esc)), Some(PageResults::Exit));
}

#[test]
fn game_page_starts_from_the_start_event() {
    let game = Game::new(start_event(true));
    assert_eq!(game.current_player, CurrentPlayer::PlayerA);
    assert_eq!(game.player_a.player.nickname, "ann");
    assert_eq!(game.player_a.pos_y, "250");
    assert_eq!(game.player_b.player.nickname, "bob");
    assert_eq!(game.player_b.pos_y, "260");
    assert_eq!(game.ball.pos_x, "400");
    assert_eq!(game.ball.pos_y, "300");
    assert_eq!(game.player_a.score, 0);
    assert!(!game.paused);
    assert!(game.needs_update());
    assert_eq!(Game::new(start_event(false)).current_player, CurrentPlayer::PlayerB);
    assert_eq!(CurrentPlayer::from(true), CurrentPlayer::PlayerA);
    assert_eq!(CurrentPlayer::from(false), CurrentPlayer::PlayerB);
}

#[test]
fn game_page_takes_the_server_s_state() {
    let mut game = Game::new(start_event(true));
    game.drawn();
    game.update(&GameStateEvent {
        ball_x: "1.5".to_string(),
        ball_y: "2.5".to_string(),
        paddle1_y: "3".to_string(),
        paddle2_y: "4".to_string(),
        owner_score: 2,
        guest_score: 1,
    });
    assert_eq!(game.ball.pos_x, "1.5");
    assert_eq!(game.ball.pos_y, "2.5");
    assert_eq!(game.player_a.pos_y, "3");
    assert_eq!(game.player_b.pos_y, "4");
    assert_eq!(game.player_a.score, 2);
    assert_eq!(game.player_b.score, 1);
    assert!(game.needs_update());
    game.drawn();
    game.set_paused(true);
    assert!(game.paused);
    assert!(game.needs_update());
}

#[test]
fn game_page_result() {
    let over = GameOverEvent {
        winner: "ann".to_string(),
        final_score: FinalScore { owner: 5, guest: 3 },
        message: "done".to_string(),
    };
    let result = Game::new(start_event(true)).game_over(&over);
    assert!(result.won);
    assert_eq!(result.player_a.score, 5);
    assert_eq!(result.player_b.score, 3);
    assert_eq!(result.player_a.player, player(1, "ann"));
    assert_eq!(result.player_b.player, player(2, "bob"));
    assert!(!Game::new(start_event(false)).game_over(&over).won);
    let draw = GameOverEvent {
        winner: "".to_string(),
        final_score: FinalScore { owner: 3, guest: 3 },
        message: "".to_string(),
    };
    assert!(!Game::new(start_event(true)).game_over(&draw).won);
    assert!(!Game::new(start_event(false)).game_over(&draw).won);
}

#[test]
fn game_page_paddle_keys() {
    let mut game = Game::new(start_event(true));
    let now = Instant::now();
    assert_eq!(
        game.key_event_at(&press(KeyCode::Char('w')), now),
        Some(PageResults::UpdatePaddleMovement((PaddleMoveDirection::Up, PaddleMoveDirection::Idle)))
    );
    assert_eq!(game.key_event_at(&press(KeyCode::Char('w')), now), None);
    assert_eq!(
        game.key_event_at(&press(KeyCode::Down), now),
        Some(PageResults::UpdatePaddleMovement((PaddleMoveDirection::Up, PaddleMoveDirection::Down)))
    );
    assert_eq!(
        game.key_event_at(&press(KeyCode::Char('s')), now),
        Some(PageResults::UpdatePaddleMovement((PaddleMoveDirection::Down, PaddleMoveDirection::Down)))
    );
    assert_eq!(game.key_event_at(&release(KeyCode::Char('w')), now), None);
    assert_eq!(
        game.key_event_at(&release(KeyCode::Char('s')), now),
        Some(PageResults::UpdatePaddleMovement((PaddleMoveDirection::Idle, PaddleMoveDirection::Down)))
    );
    assert_eq!(
        game.key_event_at(&release(KeyCode::Down), now),
        Some(PageResults::UpdatePaddleMovement((PaddleMoveDirection::Idle, PaddleMoveDirection::Idle)))
    );
    assert_eq!(game.key_event_at(&release(KeyCode::Down), now), None);
}

#[test]
fn game_page_other_keys() {
    let mut game = Game::new(start_event(true));
    let now = Instant::now();
    assert_eq!(game.key_event_at(&press(KeyCode::Esc), now), Some(PageResults::BackToMenu));
    assert_eq!(game.key_event_at(&release(KeyCode::Esc), now), None);
    assert_eq!(game.key_event_at(&press(KeyCode::Char('p')), now), Some(PageResults::GamePaused(true)));
    game.set_paused(true);
    assert_eq!(game.key_event_at(&press(KeyCode::Char(' ')), now), Some(PageResults::GamePaused(false)));
    assert_eq!(game.key_event_at(&press(KeyCode::Enter), now), None);
    assert_eq!(game.key_event(&press(KeyCode::Char('x'))), None);
}

#[test]
fn game_page_tick_flushes_what_has_stopped() {
    let mut game = Game::new(start_event(true));
    let now = Instant::now();
    game.key_event_at(&press(KeyCode::Char('w')), now);
    game.key_event_at(&press(KeyCode::Up), now);
    game.key_event_at(&press(KeyCode::Up), now);
    assert_eq!(game.tick_after(30, 30), None);
    assert_eq!(game.tick_after(31, 31), Some((PaddleMoveDirection::Up, PaddleMoveDirection::Idle)));
    assert_eq!(game.tick_after(500, 500), None);
    assert_eq!(game.tick_after(501, 501), Some((PaddleMoveDirection::Idle, PaddleMoveDirection::Idle)));
    assert_eq!(game.tick_after(9999, 9999), None);
    assert_eq!(game.tick(), None);
}

#[test]
fn pages_route_presses_only_except_in_a_game() {
    let mut page = Pages::GameModeSelector(GameModePage::new());
    assert_eq!(page.key_event(&release(KeyCode::Esc)), None);
    assert_eq!(page.key_event(&KeyEvent { code: KeyCode::Esc, modifiers: 0, kind: KeyKind::Repeat }), None);
    assert_eq!(page.key_event(&press(KeyCode::Esc)), Some(PageResults::Exit));
    let mut page = Pages::HostSelector(HostSelectorPage::new(true));
    assert_eq!(page.key_event(&release(KeyCode::Char('x'))), None);
    match &page {
        Pages::HostSelector(host) => assert_eq!(host.host.value(), "localhost"),
        other => panic!("{:?}", other),
    }
    let mut page = Pages::Game(Game::new(start_event(true)));
    let now = Instant::now();
    page.key_event_at(&press(KeyCode::Up), now);
    assert_eq!(
        page.key_event_at(&release(KeyCode::Up), now),
        Some(PageResults::UpdatePaddleMovement((PaddleMoveDirection::Idle, PaddleMoveDirection::Idle)))
    );
    for mut page in [
        Pages::Login(LoginPage::new()),
        Pages::TotpPage(TotpPage::new()),
        Pages::NicknameSelector(NicknamePage::new()),
    ] {
        assert_eq!(page.key_event(&press(KeyCode::Esc)), Some(PageResults::Exit));
    }
    for mut page in [
        Pages::JoinRoom(JoinRoomPage::new()),
        Pages::GameLobby(GameLobbyPage::new("R1".to_string())),
    ] {
        assert_eq!(page.key_event(&press(KeyCode::Esc)), Some(PageResults::BackToMenu));
    }
}

#[test]
fn pages_know_whether_there_is_something_to_draw() {
    let mut page = Pages::Login(LoginPage::new());
    assert!(page.needs_update());
    page.drawn();
    assert!(!page.needs_update());
    page.key_event(&press(KeyCode::Char('a')));
    assert!(page.needs_update());
    let mut page = Pages::Game(Game::new(start_event(true)));
    assert!(page.needs_update());
    page.drawn();
    assert!(!page.needs_update());
}

#[test]
fn a_key_never_changes_the_kind_of_page() {
    let pages: Vec<fn() -> Pages> = vec![
        || Pages::HostSelector(HostSelectorPage::new(true)),
        || Pages::NicknameSelector(NicknamePage::new()),
        || Pages::Login(LoginPage::new()),
        || Pages::TotpPage(TotpPage::new()),
        || Pages::GameModeSelector(GameModePage::new()),
        || Pages::JoinRoom(JoinRoomPage::new()),
        || Pages::GameLobby(GameLobbyPage::new("R1".to_string())),
        || Pages::Game(Game::new(start_event(true))),
    ];
    let codes = [
        KeyCode::Esc,
        KeyCode::Enter,
        KeyCode::Tab,
        KeyCode::Backspace,
        KeyCode::Up,
        KeyCode::Down,
        KeyCode::Char('a'),
        KeyCode::Char('1'),
        KeyCode::Other,
    ];
    for page in pages {
        for code in codes {
            let mut page = page();
            let kind = page.kind();
            page.key_event(&press(code));
            assert_eq!(page.kind(), kind);
        }
    }
    assert_eq!(Pages::Login(LoginPage::new()).kind(), PageKind::Login);
    assert_eq!(Pages::Game(Game::new(start_event(true))).kind(), PageKind::Game);
}
