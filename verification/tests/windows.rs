use ts3_client::api::{
    api_url, connect, connect_named, disconnect, mute, muted_after, serve_line, status, ApiError,
    ServeEvent,
};
use ts3_client::audio::VoiceMode;
use ts3_client::client::{ChannelInfo, Command, Status, Update};
use ts3_client::config::{Config, ConfigFile, Profile};
use ts3_client::i18n::Lang;
use ts3_client::interface::{
    apply_volume_change, auto_start_switched, button_pressed, channel_label, client_label,
    connected, device_label, input_device_picked, log_file_is_full, output_device_picked,
    ptt_key_name, ptt_keys, slider_moved, start_options, start_plan, status_label, voice_modes,
    volume_reset, AppState, AudioCommand, Colour, MAX_LOG_LINES,
};
use ts3_client::texts::{english, japanese};
use ts3_client::tray::{
    close_requested, icon_event, make_icon, menu_chosen, IconEvent, MouseButton, WindowCommand,
};
use ts3_client::volumes::VolumeMap;

fn config(name: &str, address: &str, nickname: &str) -> Config {
    let mut config = Config::load(ConfigFile::Unreadable);
    config.profiles[0] = Profile {
        name: name.to_owned(),
        address: address.to_owned(),
        nickname: nickname.to_owned(),
    };
    config
}

fn target(command: &Option<Command>) -> Option<(&str, &str)> {
    match command {
        Some(Command::Connect { address, nickname }) => Some((address, nickname)),
        _ => None,
    }
}

#[test]
fn request_to_connect_is_granted() {
    let config = config("home", " host \n", "\u{3000}me ");
    let handled = connect(&config, &english());
    assert_eq!(handled.reply, Ok("connecting\n"));
    assert_eq!(handled.line, "API: connect request (home)");
    assert_eq!(target(&handled.command), Some(("host", "me")));
    let handled = connect_named(&config, "home", &japanese());
    assert_eq!(handled.reply, Ok("connecting\n"));
    assert_eq!(handled.line, "API: 接続要求 (home)");
    assert_eq!(target(&handled.command), Some(("host", "me")));
}

#[test]
fn request_with_an_incomplete_profile_is_refused() {
    for (address, nickname) in [("", "me"), ("host", ""), ("  ", "me"), ("host", "\t")] {
        let handled = connect(&config("home", address, nickname), &english());
        assert_eq!(handled.reply, Err(ApiError::BadRequest));
        assert_eq!(handled.line, "API: profile \"home\" is missing an address or nickname");
        assert!(handled.command.is_none());
    }
    assert_eq!(ApiError::BadRequest.code(), 400);
}

#[test]
fn request_for_an_unknown_profile_is_refused() {
    let handled = connect_named(&config("home", "host", "me"), "work", &japanese());
    assert_eq!(handled.reply, Err(ApiError::NotFound));
    assert_eq!(handled.line, "API: 未登録のプロファイル名「work」への接続要求");
    assert!(handled.command.is_none());
    assert_eq!(ApiError::NotFound.code(), 404);
}

#[test]
fn selected_profile_can_be_asked_for_by_name() {
    let mut config = config("home", "host", "me");
    config.add_profile();
    config.profiles[1].address = "elsewhere".to_owned();
    assert!(config.select_profile(1));
    let by_name = connect_named(&config, "Profile2", &english());
    assert_eq!(target(&by_name.command), Some(("elsewhere", "me")));
    assert_eq!(format!("{by_name:?}"), format!("{:?}", connect(&config, &english())));
}

#[test]
fn request_to_disconnect() {
    let handled = disconnect(&japanese());
    assert_eq!(handled.reply, Ok("disconnecting\n"));
    assert_eq!(handled.line, "API: 切断要求");
    assert!(matches!(handled.command, Some(Command::Disconnect)));
}

#[test]
fn requests_to_mute() {
    let mut muted = false;
    let handled = mute(&mut muted, "toggle", &english()).unwrap();
    assert!(muted);
    assert_eq!(handled.reply, "muted=true\n");
    assert_eq!(handled.line, "API: mute ON");
    let handled = mute(&mut muted, "toggle", &japanese()).unwrap();
    assert!(!muted);
    assert_eq!(handled.reply, "muted=false\n");
    assert_eq!(handled.line, "API: ミュート OFF");
    for before in [true, false] {
        assert_eq!(muted_after(before, "on"), Some(true));
        assert_eq!(muted_after(before, "off"), Some(false));
        assert_eq!(muted_after(before, "ON"), None);
    }
    muted = true;
    assert_eq!(mute(&mut muted, "louder", &english()).err(), Some(ApiError::NotFound));
    assert!(muted);
}

#[test]
fn status_is_told() {
    let server_name = "My Server".to_owned();
    let told = status(&Status::Connected { server_name }, false);
    assert_eq!(told.status, "connected");
    assert_eq!(told.server_name.as_deref(), Some("My Server"));
    assert_eq!(told.error, None);
    assert!(!told.muted);
    let told = status(&Status::Error("down".to_owned()), true);
    assert_eq!(told.status, "error");
    assert_eq!(told.server_name, None);
    assert_eq!(told.error.as_deref(), Some("down"));
    assert!(told.muted);
    assert_eq!(status(&Status::Connecting, true).status, "connecting");
    assert_eq!(status(&Status::Disconnected, true).status, "disconnected");
}

#[test]
fn serving_is_logged() {
    assert_eq!(api_url(9871), "http://127.0.0.1:9871/api/");
    assert_eq!(
        serve_line(&ServeEvent::Listening, 9871, &japanese()),
        "StreamDeck用API待受中: http://127.0.0.1:9871/api/"
    );
    assert_eq!(
        serve_line(&ServeEvent::Failed("broken".to_owned()), 9871, &english()),
        "API server error: broken"
    );
    assert_eq!(
        serve_line(&ServeEvent::BindFailed("in use".to_owned()), 80, &english()),
        "Failed to start the API server (port 80): in use"
    );
}

#[test]
fn log_keeps_the_latest_lines() {
    let mut state = AppState::new();
    let lines = (0..250).map(|i| Update::Log(i.to_string())).collect();
    state.apply_updates(lines);
    assert_eq!(state.log.len(), MAX_LOG_LINES);
    assert_eq!(state.log[0], "50");
    assert_eq!(state.log[199], "249");
    state.push_log("more".to_owned());
    assert_eq!(state.log.len(), 200);
    assert_eq!(state.log[199], "more");
}

#[test]
fn last_status_and_tree_are_shown() {
    let mut state = AppState::new();
    assert_eq!(state.status, Status::Disconnected);
    state.apply_updates(vec![
        Update::Status(Status::Connecting),
        Update::Snapshot(vec![ChannelInfo { name: "c".to_owned(), clients: Vec::new() }]),
        Update::Status(Status::Error("down".to_owned())),
        Update::Log("line".to_owned()),
    ]);
    assert_eq!(state.status, Status::Error("down".to_owned()));
    assert_eq!(state.channels.len(), 1);
    state.apply_update(Update::Snapshot(Vec::new()));
    assert!(state.channels.is_empty());
    assert_eq!(state.log, ["line"]);
}

#[test]
fn button_connects_and_disconnects() {
    let complete = config("home", " host", "me");
    let connecting = Status::Connecting;
    assert!(connected(&connecting));
    assert!(!connected(&Status::Error("e".to_owned())));
    assert!(matches!(button_pressed(&connecting, &complete), Some(Command::Disconnect)));
    let command = button_pressed(&Status::Disconnected, &complete);
    assert_eq!(target(&command), Some(("host", "me")));
    assert_eq!(
        format!("{command:?}"),
        format!("{:?}", connect(&complete, &english()).command)
    );
    assert!(button_pressed(&Status::Disconnected, &config("home", "host", " ")).is_none());
}

#[test]
fn status_is_worded_and_coloured() {
    let server_name = "My Server".to_owned();
    assert_eq!(
        status_label(&Status::Connected { server_name }, &japanese()),
        ("接続済: My Server".to_owned(), Some(Colour { red: 0, green: 160, blue: 60 }))
    );
    assert_eq!(
        status_label(&Status::Error("down".to_owned()), &english()),
        ("Error: down".to_owned(), Some(Colour { red: 200, green: 60, blue: 60 }))
    );
    assert_eq!(status_label(&Status::Connecting, &english()), ("Connecting...".to_owned(), None));
    assert_eq!(status_label(&Status::Disconnected, &japanese()), ("未接続".to_owned(), None));
}

#[test]
fn tree_labels() {
    assert_eq!(channel_label("Lobby"), "📁 Lobby");
    assert_eq!(client_label("bob", 1.0f32.to_bits(), "100"), "👤 bob");
    assert_eq!(client_label("bob", 0.5f32.to_bits(), "50"), "👤 bob 🔊50%");
}

#[test]
fn volume_changes_reach_both_maps() {
    let mut config = config("home", "host", "me");
    let mut live = VolumeMap::new();
    assert!(slider_moved("bob", 3, 0, false, false).is_none());
    let change = slider_moved("bob", 3, 0.5f32.to_bits(), true, false).unwrap();
    assert!(!change.save);
    apply_volume_change(&mut config, &mut live, &change);
    assert_eq!(config.volumes.get("bob"), Some(0.5f32.to_bits()));
    assert_eq!(live.get("bob"), Some(0.5f32.to_bits()));
    let change = slider_moved("bob", 3, 0.4f32.to_bits(), false, true).unwrap();
    assert!(change.save);
    let change = volume_reset("bob", change.client_id);
    assert!(change.save);
    assert_eq!(change.client_id, 3);
    apply_volume_change(&mut config, &mut live, &change);
    assert_eq!(config.volumes.get("bob"), None);
    assert_eq!(live.get("bob"), None);
}

#[test]
fn picking_a_device_tells_the_audio_thread() {
    let mut config = config("home", "host", "me");
    assert!(input_device_picked(&mut config, None).is_none());
    let command = input_device_picked(&mut config, Some("mic".to_owned()));
    assert!(matches!(command, Some(AudioCommand::SetInputDevice(Some(name))) if name == "mic"));
    assert_eq!(device_label(&config.input_device, &english()), "mic");
    let command = output_device_picked(&mut config, Some("out".to_owned()));
    assert!(matches!(command, Some(AudioCommand::SetOutputDevice(Some(_)))));
    let command = output_device_picked(&mut config, None);
    assert!(matches!(command, Some(AudioCommand::SetOutputDevice(None))));
    assert_eq!(device_label(&config.output_device, &japanese()), "(既定のデバイス)");
}

#[test]
fn modes_and_keys_to_choose_from() {
    let modes = voice_modes(&japanese());
    assert_eq!(
        modes,
        [
            (VoiceMode::Always, "常時送信"),
            (VoiceMode::VoiceActivation, "ボイス検出"),
            (VoiceMode::PushToTalk, "プッシュトゥトーク"),
        ]
    );
    let keys = ptt_keys(&japanese());
    assert_eq!(
        keys,
        [
            (0x05, "マウス サイド1"),
            (0x06, "マウス サイド2"),
            (0xa0, "左Shift"),
            (0xa2, "左Ctrl"),
            (0xa4, "左Alt"),
            (0x1d, "無変換"),
            (0x7b, "F12"),
        ]
    );
    for (vk, name) in keys {
        assert_eq!(ptt_key_name(vk, &japanese()), name);
    }
    assert_eq!(ptt_key_name(0x41, &japanese()), "?");
}

#[test]
fn starting_with_windows() {
    let mut config = config("home", "host", "me");
    assert!(auto_start_switched(&mut config, true, Ok(()), &english()).is_none());
    assert!(config.auto_start);
    let line = auto_start_switched(&mut config, false, Err("denied".to_owned()), &japanese());
    assert_eq!(line.as_deref(), Some("自動起動の設定に失敗: denied"));
    assert!(config.auto_start);
}

fn options(args: &[&str]) -> ts3_client::interface::StartOptions {
    start_options(&args.iter().map(|arg| arg.to_string()).collect())
}

#[test]
fn command_line_is_read() {
    let plain = options(&["ts3-client"]);
    assert!(!plain.minimized && !plain.autoconnect && plain.lang.is_none());
    let all = options(&["ts3-client", "--minimized", "--lang", "ja", "--autoconnect"]);
    assert!(all.minimized && all.autoconnect);
    assert_eq!(all.lang, Some(Lang::Ja));
    assert_eq!(options(&["x", "--lang", "en"]).lang, Some(Lang::En));
    assert_eq!(options(&["x", "--ja"]).lang, Some(Lang::Ja));
    assert_eq!(options(&["x", "--en"]).lang, Some(Lang::En));
    assert_eq!(options(&["x", "--lang", "fr"]).lang, None);
    assert_eq!(options(&["x", "ja"]).lang, None);
    assert_eq!(options(&["x", "--ja", "--lang", "en"]).lang, Some(Lang::En));
}

#[test]
fn start_follows_the_options() {
    let mut config = config("home", " host", "me");
    let plan = start_plan(options(&["x"]), &config);
    assert!(!plan.register && !plan.hide && plan.connect.is_none());
    config.auto_start = true;
    let plan = start_plan(options(&["x", "--minimized", "--autoconnect"]), &config);
    assert!(plan.register && plan.hide);
    assert_eq!(target(&plan.connect), Some((" host", "me")));
}

#[test]
fn log_file_is_begun_anew_past_5_mib() {
    assert!(!log_file_is_full(5 * 1024 * 1024));
    assert!(log_file_is_full(5 * 1024 * 1024 + 1));
}

#[test]
fn closing_hides_until_the_exit_item_is_chosen() {
    assert_eq!(close_requested(false), [WindowCommand::CancelClose, WindowCommand::Hide]);
    let outcome = menu_chosen("exit");
    assert!(outcome.exit);
    assert_eq!(outcome.commands, [WindowCommand::Show, WindowCommand::Close]);
    assert!(close_requested(outcome.exit).is_empty());
}

#[test]
fn menu_and_icon_open_the_window() {
    let outcome = menu_chosen("open");
    assert!(!outcome.exit);
    assert_eq!(outcome.commands, [WindowCommand::Show, WindowCommand::Focus]);
    let outcome = menu_chosen("other");
    assert!(!outcome.exit && outcome.commands.is_empty());
    let shown = [WindowCommand::Show, WindowCommand::Focus];
    assert_eq!(icon_event(IconEvent::Released(MouseButton::Left)), shown);
    assert_eq!(icon_event(IconEvent::DoubleClick(MouseButton::Left)), shown);
    assert!(icon_event(IconEvent::Pressed(MouseButton::Left)).is_empty());
    assert!(icon_event(IconEvent::Released(MouseButton::Right)).is_empty());
    assert!(icon_event(IconEvent::Pointer).is_empty());
}

#[test]
fn icon_is_a_disc() {
    let mut expected = vec![0u8; 32 * 32 * 4];
    for y in 0..32usize {
        for x in 0..32usize {
            let dx = x as f32 - 15.5;
            let dy = y as f32 - 15.5;
            if (dx * dx + dy * dy).sqrt() <= 15.0 {
                let i = (y * 32 + x) * 4;
                expected[i..i + 4].copy_from_slice(&[30, 120, 220, 255]);
            }
        }
    }
    assert_eq!(make_icon(), expected);
}
