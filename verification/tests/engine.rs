use laravox::engine::archive::{extension, path_kind};
use laravox::engine::data::get_system;
use laravox::engine::font::code_points;
use laravox::engine::input::{first_pressed, last_character, KEY_LIST, MOUSE_BUTTON_LIST, PAD_BUTTON_LIST};
use laravox::engine::main_loop::{main_step, module_entry, reload_state, ContextInfo, MainStep, ScriptState};
use laravox::engine::meta::meta_text;
use laravox::engine::network::{drain_events, fit_user_data, get_status, status_code, USER_DATA_BYTES};
use laravox::engine::sound::select_alias;
use laravox::engine::texture::draw_order;
use laravox::engine::window::{exit_key, message_level, MessageLevel};
use renet::{ConnectionConfig, RenetClient, RenetServer};

#[test]
fn extension_between_first_and_second_dot() {
    assert_eq!(extension("font/main.ttf"), Some(".ttf".to_string()));
    assert_eq!(extension("a.b.c"), Some(".b".to_string()));
    assert_eq!(extension("noext"), None);
    assert_eq!(extension("a."), Some(".".to_string()));
    assert_eq!(extension(".hidden"), Some(".hidden".to_string()));
    assert_eq!(extension(""), None);
}

#[test]
fn path_kind_codes() {
    assert_eq!(path_kind(false, true, false, false), None);
    assert_eq!(path_kind(true, true, false, false), Some(0));
    assert_eq!(path_kind(true, false, true, false), Some(1));
    assert_eq!(path_kind(true, false, false, true), Some(2));
    assert_eq!(path_kind(true, false, false, false), None);
    assert_eq!(path_kind(true, true, true, true), Some(0));
}

#[test]
fn system_codes() {
    assert_eq!(get_system("linux"), 0);
    assert_eq!(get_system("windows"), 1);
    assert_eq!(get_system("mac"), 2);
    assert_eq!(get_system("android"), 3);
    assert_eq!(get_system("ios"), 4);
    assert_eq!(get_system("macos"), 2);
    assert_eq!(get_system("freebsd"), 5);
    assert_eq!(get_system(""), 5);
}

#[test]
fn font_code_points() {
    assert_eq!(code_points(&vec![(65, 67), (10, 9), (48, 48)]), vec![65, 66, 67, 48]);
    assert_eq!(code_points(&vec![]), Vec::<i32>::new());
    assert_eq!(code_points(&vec![(3, 1)]), Vec::<i32>::new());
    assert_eq!(code_points(&vec![(2, 3), (1, 2)]), vec![2, 3, 1, 2]);
    assert_eq!(
        code_points(&vec![(i32::MAX - 1, i32::MAX)]),
        vec![i32::MAX - 1, i32::MAX]
    );
}

#[test]
fn first_pressed_code() {
    assert_eq!(first_pressed(&[39, 44, 45], &[false, true, true]), Some(44));
    assert_eq!(first_pressed(&[39, 44, 45], &[false, false, false]), None);
    assert_eq!(first_pressed(&[], &[]), None);
    assert_eq!(first_pressed(&KEY_LIST, &[true; 109]), Some(39));
    assert_eq!(MOUSE_BUTTON_LIST.len(), 7);
    assert_eq!(PAD_BUTTON_LIST[16], 17);
}

#[test]
fn last_character_zero_is_none() {
    assert_eq!(last_character(0), None);
    assert_eq!(last_character(65), Some(65));
    assert_eq!(last_character(-1), Some(-1));
}

#[test]
fn main_loop_steps() {
    assert!(matches!(main_step(&ScriptState::Success, Ok(true)), MainStep::Reload));
    assert!(matches!(main_step(&ScriptState::Success, Ok(false)), MainStep::Exit));
    assert!(matches!(
        main_step(&ScriptState::Failure("a".to_string()), Ok(true)),
        MainStep::Reload
    ));
    match main_step(&ScriptState::Success, Err("boom".to_string())) {
        MainStep::Stay(ScriptState::Failure(error)) => assert_eq!(error, "boom"),
        other => panic!("unexpected step {:?}", other),
    }
    match main_step(&ScriptState::Failure("first".to_string()), Err("second".to_string())) {
        MainStep::Fatal(error) => assert_eq!(error, "second"),
        other => panic!("unexpected step {:?}", other),
    }
}

#[test]
fn reload_states() {
    assert!(matches!(reload_state(Ok(())), ScriptState::Success));
    match reload_state(Err("syntax".to_string())) {
        ScriptState::Failure(error) => assert_eq!(error, "syntax"),
        other => panic!("unexpected state {:?}", other),
    }
}

fn context(name: Option<&str>, sync: bool, full: bool) -> ContextInfo {
    ContextInfo {
        icon: None,
        name: name.map(|n| n.to_string()),
        scale: (1024, 768),
        sync,
        full,
        rate: 60,
        log: false,
    }
}

#[test]
fn context_flags_and_title() {
    assert_eq!(context(None, true, true).config_flags(64, 2), 66);
    assert_eq!(context(None, true, false).config_flags(64, 2), 64);
    assert_eq!(context(None, false, true).config_flags(64, 2), 2);
    assert_eq!(context(None, false, false).config_flags(64, 2), 0);
    assert_eq!(context(None, true, true).title(), "Laravox");
    assert_eq!(context(Some("Game"), true, true).title(), "Game");
}

#[test]
fn status_codes() {
    assert_eq!(status_code(true, false), 0);
    assert_eq!(status_code(true, true), 0);
    assert_eq!(status_code(false, true), 1);
    assert_eq!(status_code(false, false), 2);
}

#[test]
fn client_status() {
    let mut client = RenetClient::new(ConnectionConfig::default());
    assert_eq!(get_status(&client), 1);
    client.set_connected();
    assert_eq!(get_status(&client), 0);
    client.disconnect();
    assert_eq!(get_status(&client), 2);
}

#[test]
fn user_data_fitted() {
    let data = fit_user_data(&vec![1, 2, 3]);
    assert_eq!(USER_DATA_BYTES, 256);
    assert_eq!(data.len(), 256);
    assert_eq!(&data[..3], &[1, 2, 3]);
    assert!(data[3..].iter().all(|b| *b == 0));

    let long: Vec<u8> = (0..300).map(|i| (i % 251) as u8).collect();
    let data = fit_user_data(&long);
    assert_eq!(&data[..], &long[..256]);

    let data = fit_user_data(&vec![]);
    assert!(data.iter().all(|b| *b == 0));
}

#[test]
fn server_events_drained() {
    let mut server = RenetServer::new(ConnectionConfig::default());
    server.add_connection(7);
    server.add_connection(9);
    server.remove_connection(7);
    server.add_connection(11);
    let (enter, leave) = drain_events(&mut server);
    assert_eq!(enter, vec![7, 9, 11]);
    assert_eq!(leave, vec![7]);
    let (enter, leave) = drain_events(&mut server);
    assert!(enter.is_empty());
    assert!(leave.is_empty());
    assert!(server.get_event().is_none());
}

#[test]
fn alias_selection() {
    assert_eq!(select_alias(None, 4), None);
    assert_eq!(select_alias(Some(2), 4), Some(2));
    assert_eq!(select_alias(Some(4), 4), None);
    assert_eq!(select_alias(Some(0), 0), None);
}

#[test]
fn texture_draw_order() {
    let keys = vec![(2, 1), (1, 5), (1, 3), (2, 1), (0, 9)];
    assert_eq!(draw_order(&keys), vec![4, 2, 1, 0, 3]);
    assert_eq!(draw_order(&vec![]), Vec::<usize>::new());
}

#[test]
fn equal_keys_keep_given_order() {
    let keys = vec![(3, 3), (3, 3), (3, 3), (1, 1)];
    assert_eq!(draw_order(&keys), vec![3, 0, 1, 2]);
}

#[test]
fn window_exit_key_and_levels() {
    assert_eq!(exit_key(None), 0);
    assert_eq!(exit_key(Some(256)), 256);
    assert_eq!(message_level(0), MessageLevel::Info);
    assert_eq!(message_level(1), MessageLevel::Warning);
    assert_eq!(message_level(2), MessageLevel::Error);
    assert_eq!(message_level(99), MessageLevel::Error);
}

#[test]
fn archive_module_entries() {
    assert_eq!(module_entry("main/main"), Some("main.lua".to_string()));
    assert_eq!(module_entry("main/game/player"), Some("game/player.lua".to_string()));
    assert_eq!(module_entry("x/main/a/main/b"), Some("a/.lua".to_string()));
    assert_eq!(module_entry("main/"), Some(".lua".to_string()));
    assert_eq!(module_entry("other"), None);
    assert_eq!(module_entry("mai"), None);
}

#[test]
fn meta_file_text() {
    let blocks = vec![
        "  ---Font API.\nlaravox.font = {}\n".to_string(),
        "---@class Font\nFont = {}".to_string(),
    ];
    assert_eq!(
        meta_text(&blocks),
        "---@meta\n\n---@class flak\nflak = {}\n\n---Font API.\nlaravox.font = {}\n\n---@class Font\nFont = {}\n\n"
    );
    assert_eq!(meta_text(&vec![]), "---@meta\n\n---@class flak\nflak = {}\n\n");
}
