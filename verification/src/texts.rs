//! The table of interface texts, in English and in Japanese.
//!
//! A text may hold the placeholders `{0}`, `{1}` and so on; the field says what goes there.

use vstd::prelude::*;

verus! {

/// Every text of the interface in one language.
#[derive(Clone, Copy)]
pub struct Texts {
    // The main window.
    pub profile_label: &'static str,
    pub connect: &'static str,
    pub disconnect: &'static str,
    pub mute: &'static str,
    pub settings_button: &'static str,
    pub status_disconnected: &'static str,
    pub status_connecting: &'static str,
    /// `{0}`: server name
    pub status_connected: &'static str,
    /// `{0}`: error
    pub status_error: &'static str,
    pub log_heading: &'static str,
    pub no_channels: &'static str,
    pub volume_hover: &'static str,
    /// `{0}`: nickname
    pub volume_of: &'static str,
    pub reset_100: &'static str,
    pub connect_hint: &'static str,
    // The settings window.
    pub settings_title: &'static str,
    pub profile_settings: &'static str,
    pub audio_settings: &'static str,
    pub general_settings: &'static str,
    pub col_profile_name: &'static str,
    pub col_address: &'static str,
    pub col_nickname: &'static str,
    pub delete_profile: &'static str,
    pub add_profile: &'static str,
    pub api_hint: &'static str,
    pub input_device: &'static str,
    pub output_device: &'static str,
    pub default_device: &'static str,
    pub voice_mode: &'static str,
    pub mode_always: &'static str,
    pub mode_vad: &'static str,
    pub mode_ptt: &'static str,
    pub vad_threshold: &'static str,
    pub input_level: &'static str,
    pub ptt_key: &'static str,
    pub ptt_note: &'static str,
    pub auto_start: &'static str,
    /// `{0}`: error
    pub auto_start_failed: &'static str,
    pub api_label: &'static str,
    pub language_label: &'static str,
    pub show_log: &'static str,
    // The tray menu.
    pub tray_open: &'static str,
    pub tray_exit: &'static str,
    // Log lines of the connection worker.
    /// `{0}`: address, `{1}`: nickname
    pub connecting_to: &'static str,
    pub already_connected: &'static str,
    pub disconnecting: &'static str,
    pub disconnected_done: &'static str,
    pub server_closed: &'static str,
    pub connection_lost: &'static str,
    pub handshake_timeout_log: &'static str,
    pub handshake_timeout_status: &'static str,
    /// `{0}`: error
    pub send_audio_error: &'static str,
    pub capture_stopped: &'static str,
    /// `{0}`: limit of attempts
    pub reconnect_giveup: &'static str,
    /// `{0}`: seconds, `{1}`: attempt, `{2}`: limit
    pub reconnect_in: &'static str,
    pub reconnect_cancel: &'static str,
    // Log lines of the audio devices.
    /// `{0}`: device name, `{1}`: sample rate, `{2}`: channel count
    pub playback_device: &'static str,
    /// `{0}`: device name, `{1}`: sample rate, `{2}`: channel count
    pub capture_device: &'static str,
    /// `{0}`: device name
    pub device_fallback: &'static str,
    /// `{0}`: error
    pub playback_init_failed: &'static str,
    pub capture_init_failed: &'static str,
    pub playback_switch_failed: &'static str,
    pub capture_switch_failed: &'static str,
    pub playback_rebuild: &'static str,
    pub capture_rebuild: &'static str,
    /// `{0}`: error
    pub playback_rebuild_failed: &'static str,
    pub capture_rebuild_failed: &'static str,
    // Log lines of the HTTP API.
    /// `{0}`: URL
    pub api_listening: &'static str,
    /// `{0}`: error
    pub api_error: &'static str,
    /// `{0}`: port, `{1}`: error
    pub api_bind_failed: &'static str,
    /// `{0}`: profile name
    pub api_connect_req: &'static str,
    pub api_disconnect_req: &'static str,
    /// `{0}`: ON or OFF
    pub api_mute: &'static str,
    /// `{0}`: profile name
    pub api_unknown_profile: &'static str,
    /// `{0}`: profile name
    pub api_profile_incomplete: &'static str,
    // Names of the push-to-talk keys.
    pub key_mouse_side1: &'static str,
    pub key_mouse_side2: &'static str,
    pub key_lshift: &'static str,
    pub key_lctrl: &'static str,
    pub key_lalt: &'static str,
    pub key_muhenkan: &'static str,
    pub key_f12: &'static str,
}

/// The English texts.
pub open spec fn english_texts() -> Texts {
    Texts {
        profile_label: "Profile:",
        connect: "Connect",
        disconnect: "Disconnect",
        mute: "Mute",
        settings_button: "⚙ Settings",
        status_disconnected: "Not connected",
        status_connecting: "Connecting...",
        status_connected: "Connected: {0}",
        status_error: "Error: {0}",
        log_heading: "Log",
        no_channels: "(no channel data)",
        volume_hover: "Right-click to adjust volume",
        volume_of: "Volume of {0}",
        reset_100: "Reset to 100%",
        connect_hint: "Set the profile address and nickname in Settings first",
        settings_title: "Settings - TS3 Client",
        profile_settings: "Profiles",
        audio_settings: "Audio",
        general_settings: "General",
        col_profile_name: "Profile name",
        col_address: "Address",
        col_nickname: "Nickname",
        delete_profile: "Delete this profile",
        add_profile: "Add a profile",
        api_hint: "Connect by name from StreamDeck: /api/connect/<profile name>",
        input_device: "Input device:",
        output_device: "Output device:",
        default_device: "(default device)",
        voice_mode: "Transmission:",
        mode_always: "Continuous",
        mode_vad: "Voice activation",
        mode_ptt: "Push to talk",
        vad_threshold: "Threshold:",
        input_level: "Input level:",
        ptt_key: "Key:",
        ptt_note: "(works while the window is unfocused)",
        auto_start: "Start with Windows (minimized to tray)",
        auto_start_failed: "Failed to configure autostart: {0}",
        api_label: "StreamDeck API:",
        language_label: "Language:",
        show_log: "Show log panel",
        tray_open: "Open",
        tray_exit: "Exit",
        connecting_to: "Connecting to {0} as {1}",
        already_connected: "Already connected. Disconnect first",
        disconnecting: "Disconnecting",
        disconnected_done: "Disconnected",
        server_closed: "Disconnected by the server",
        connection_lost: "Connection lost",
        handshake_timeout_log: "Connection timeout: no response from the server",
        handshake_timeout_status: "Connection timeout",
        send_audio_error: "Failed to send audio: {0}",
        capture_stopped: "Audio capture stopped",
        reconnect_giveup: "Gave up after {0} reconnect attempts",
        reconnect_in: "Reconnecting in {0}s ({1}/{2})",
        reconnect_cancel: "Reconnect cancelled",
        playback_device: "Playback device: {0} ({1}Hz {2}ch)",
        capture_device: "Capture device: {0} ({1}Hz {2}ch)",
        device_fallback: "Device \"{0}\" not found, using the default device",
        playback_init_failed: "Failed to initialize the playback device: {0}",
        capture_init_failed: "Failed to initialize the capture device: {0}",
        playback_switch_failed: "Failed to switch the playback device: {0}",
        capture_switch_failed: "Failed to switch the capture device: {0}",
        playback_rebuild: "Playback stream error detected, rebuilding",
        capture_rebuild: "Capture stream error detected, rebuilding",
        playback_rebuild_failed: "Failed to rebuild the playback stream: {0} (pick a device again in the audio settings)",
        capture_rebuild_failed: "Failed to rebuild the capture stream: {0} (pick a device again in the audio settings)",
        api_listening: "StreamDeck API listening at {0}",
        api_error: "API server error: {0}",
        api_bind_failed: "Failed to start the API server (port {0}): {1}",
        api_connect_req: "API: connect request ({0})",
        api_disconnect_req: "API: disconnect request",
        api_mute: "API: mute {0}",
        api_unknown_profile: "API: connect request for unknown profile \"{0}\"",
        api_profile_incomplete: "API: profile \"{0}\" is missing an address or nickname",
        key_mouse_side1: "Mouse Side 1",
        key_mouse_side2: "Mouse Side 2",
        key_lshift: "Left Shift",
        key_lctrl: "Left Ctrl",
        key_lalt: "Left Alt",
        key_muhenkan: "Muhenkan (JP key)",
        key_f12: "F12",
    }
}

/// The Japanese texts.
pub open spec fn japanese_texts() -> Texts {
    Texts {
        profile_label: "プロファイル:",
        connect: "接続",
        disconnect: "切断",
        mute: "ミュート",
        settings_button: "⚙ 設定",
        status_disconnected: "未接続",
        status_connecting: "接続中...",
        status_connected: "接続済: {0}",
        status_error: "エラー: {0}",
        log_heading: "ログ",
        no_channels: "(チャンネル情報なし)",
        volume_hover: "右クリックで音量調整",
        volume_of: "{0} の音量",
        reset_100: "100%に戻す",
        connect_hint: "設定でプロファイルのアドレスとニックネームを入力してください",
        settings_title: "設定 - TS3 Client",
        profile_settings: "プロファイル設定",
        audio_settings: "音声設定",
        general_settings: "一般設定",
        col_profile_name: "プロファイル名",
        col_address: "アドレス",
        col_nickname: "ニックネーム",
        delete_profile: "このプロファイルを削除",
        add_profile: "プロファイルを追加",
        api_hint: "StreamDeckから名前指定で接続: /api/connect/プロファイル名",
        input_device: "入力デバイス:",
        output_device: "出力デバイス:",
        default_device: "(既定のデバイス)",
        voice_mode: "送信モード:",
        mode_always: "常時送信",
        mode_vad: "ボイス検出",
        mode_ptt: "プッシュトゥトーク",
        vad_threshold: "閾値:",
        input_level: "入力レベル:",
        ptt_key: "キー:",
        ptt_note: "(ウィンドウ非フォーカスでも有効)",
        auto_start: "Windows起動時に自動起動(トレイに格納)",
        auto_start_failed: "自動起動の設定に失敗: {0}",
        api_label: "StreamDeck用API:",
        language_label: "言語:",
        show_log: "ログを表示",
        tray_open: "開く",
        tray_exit: "終了",
        connecting_to: "{0} に {1} として接続します",
        already_connected: "すでに接続中です。先に切断してください",
        disconnecting: "切断します",
        disconnected_done: "切断しました",
        server_closed: "サーバから切断されました",
        connection_lost: "接続が失われました",
        handshake_timeout_log: "接続タイムアウト: サーバからの応答がありません",
        handshake_timeout_status: "接続タイムアウト",
        send_audio_error: "音声送信エラー: {0}",
        capture_stopped: "音声キャプチャが停止しました",
        reconnect_giveup: "再接続を{0}回試みましたが失敗しました",
        reconnect_in: "{0}秒後に再接続します ({1}/{2})",
        reconnect_cancel: "再接続を中止します",
        playback_device: "再生デバイス: {0} ({1}Hz {2}ch)",
        capture_device: "録音デバイス: {0} ({1}Hz {2}ch)",
        device_fallback: "デバイス「{0}」が見つからないため既定のデバイスを使います",
        playback_init_failed: "再生デバイスの初期化に失敗: {0}",
        capture_init_failed: "録音デバイスの初期化に失敗: {0}",
        playback_switch_failed: "再生デバイスの切替に失敗: {0}",
        capture_switch_failed: "録音デバイスの切替に失敗: {0}",
        playback_rebuild: "再生ストリームのエラーを検出、作り直します",
        capture_rebuild: "録音ストリームのエラーを検出、作り直します",
        playback_rebuild_failed: "再生ストリームの再作成に失敗: {0} (音声設定からデバイスを選び直してください)",
        capture_rebuild_failed: "録音ストリームの再作成に失敗: {0} (音声設定からデバイスを選び直してください)",
        api_listening: "StreamDeck用API待受中: {0}",
        api_error: "APIサーバエラー: {0}",
        api_bind_failed: "APIサーバの起動に失敗 (ポート{0}): {1}",
        api_connect_req: "API: 接続要求 ({0})",
        api_disconnect_req: "API: 切断要求",
        api_mute: "API: ミュート {0}",
        api_unknown_profile: "API: 未登録のプロファイル名「{0}」への接続要求",
        api_profile_incomplete: "API: プロファイル「{0}」はアドレスまたはニックネームが未設定です",
        key_mouse_side1: "マウス サイド1",
        key_mouse_side2: "マウス サイド2",
        key_lshift: "左Shift",
        key_lctrl: "左Ctrl",
        key_lalt: "左Alt",
        key_muhenkan: "無変換",
        key_f12: "F12",
    }
}

/// The table of English texts.
pub fn english() -> (texts: Texts)
    ensures
        texts == english_texts(),
{
    Texts {
        profile_label: "Profile:",
        connect: "Connect",
        disconnect: "Disconnect",
        mute: "Mute",
        settings_button: "⚙ Settings",
        status_disconnected: "Not connected",
        status_connecting: "Connecting...",
        status_connected: "Connected: {0}",
        status_error: "Error: {0}",
        log_heading: "Log",
        no_channels: "(no channel data)",
        volume_hover: "Right-click to adjust volume",
        volume_of: "Volume of {0}",
        reset_100: "Reset to 100%",
        connect_hint: "Set the profile address and nickname in Settings first",
        settings_title: "Settings - TS3 Client",
        profile_settings: "Profiles",
        audio_settings: "Audio",
        general_settings: "General",
        col_profile_name: "Profile name",
        col_address: "Address",
        col_nickname: "Nickname",
        delete_profile: "Delete this profile",
        add_profile: "Add a profile",
        api_hint: "Connect by name from StreamDeck: /api/connect/<profile name>",
        input_device: "Input device:",
        output_device: "Output device:",
        default_device: "(default device)",
        voice_mode: "Transmission:",
        mode_always: "Continuous",
        mode_vad: "Voice activation",
        mode_ptt: "Push to talk",
        vad_threshold: "Threshold:",
        input_level: "Input level:",
        ptt_key: "Key:",
        ptt_note: "(works while the window is unfocused)",
        auto_start: "Start with Windows (minimized to tray)",
        auto_start_failed: "Failed to configure autostart: {0}",
        api_label: "StreamDeck API:",
        language_label: "Language:",
        show_log: "Show log panel",
        tray_open: "Open",
        tray_exit: "Exit",
        connecting_to: "Connecting to {0} as {1}",
        already_connected: "Already connected. Disconnect first",
        disconnecting: "Disconnecting",
        disconnected_done: "Disconnected",
        server_closed: "Disconnected by the server",
        connection_lost: "Connection lost",
        handshake_timeout_log: "Connection timeout: no response from the server",
        handshake_timeout_status: "Connection timeout",
        send_audio_error: "Failed to send audio: {0}",
        capture_stopped: "Audio capture stopped",
        reconnect_giveup: "Gave up after {0} reconnect attempts",
        reconnect_in: "Reconnecting in {0}s ({1}/{2})",
        reconnect_cancel: "Reconnect cancelled",
        playback_device: "Playback device: {0} ({1}Hz {2}ch)",
        capture_device: "Capture device: {0} ({1}Hz {2}ch)",
        device_fallback: "Device \"{0}\" not found, using the default device",
        playback_init_failed: "Failed to initialize the playback device: {0}",
        capture_init_failed: "Failed to initialize the capture device: {0}",
        playback_switch_failed: "Failed to switch the playback device: {0}",
        capture_switch_failed: "Failed to switch the capture device: {0}",
        playback_rebuild: "Playback stream error detected, rebuilding",
        capture_rebuild: "Capture stream error detected, rebuilding",
        playback_rebuild_failed: "Failed to rebuild the playback stream: {0} (pick a device again in the audio settings)",
        capture_rebuild_failed: "Failed to rebuild the capture stream: {0} (pick a device again in the audio settings)",
        api_listening: "StreamDeck API listening at {0}",
        api_error: "API server error: {0}",
        api_bind_failed: "Failed to start the API server (port {0}): {1}",
        api_connect_req: "API: connect request ({0})",
        api_disconnect_req: "API: disconnect request",
        api_mute: "API: mute {0}",
        api_unknown_profile: "API: connect request for unknown profile \"{0}\"",
        api_profile_incomplete: "API: profile \"{0}\" is missing an address or nickname",
        key_mouse_side1: "Mouse Side 1",
        key_mouse_side2: "Mouse Side 2",
        key_lshift: "Left Shift",
        key_lctrl: "Left Ctrl",
        key_lalt: "Left Alt",
        key_muhenkan: "Muhenkan (JP key)",
        key_f12: "F12",
    }
}

/// The table of Japanese texts.
pub fn japanese() -> (texts: Texts)
    ensures
        texts == japanese_texts(),
{
    Texts {
        profile_label: "プロファイル:",
        connect: "接続",
        disconnect: "切断",
        mute: "ミュート",
        settings_button: "⚙ 設定",
        status_disconnected: "未接続",
        status_connecting: "接続中...",
        status_connected: "接続済: {0}",
        status_error: "エラー: {0}",
        log_heading: "ログ",
        no_channels: "(チャンネル情報なし)",
        volume_hover: "右クリックで音量調整",
        volume_of: "{0} の音量",
        reset_100: "100%に戻す",
        connect_hint: "設定でプロファイルのアドレスとニックネームを入力してください",
        settings_title: "設定 - TS3 Client",
        profile_settings: "プロファイル設定",
        audio_settings: "音声設定",
        general_settings: "一般設定",
        col_profile_name: "プロファイル名",
        col_address: "アドレス",
        col_nickname: "ニックネーム",
        delete_profile: "このプロファイルを削除",
        add_profile: "プロファイルを追加",
        api_hint: "StreamDeckから名前指定で接続: /api/connect/プロファイル名",
        input_device: "入力デバイス:",
        output_device: "出力デバイス:",
        default_device: "(既定のデバイス)",
        voice_mode: "送信モード:",
        mode_always: "常時送信",
        mode_vad: "ボイス検出",
        mode_ptt: "プッシュトゥトーク",
        vad_threshold: "閾値:",
        input_level: "入力レベル:",
        ptt_key: "キー:",
        ptt_note: "(ウィンドウ非フォーカスでも有効)",
        auto_start: "Windows起動時に自動起動(トレイに格納)",
        auto_start_failed: "自動起動の設定に失敗: {0}",
        api_label: "StreamDeck用API:",
        language_label: "言語:",
        show_log: "ログを表示",
        tray_open: "開く",
        tray_exit: "終了",
        connecting_to: "{0} に {1} として接続します",
        already_connected: "すでに接続中です。先に切断してください",
        disconnecting: "切断します",
        disconnected_done: "切断しました",
        server_closed: "サーバから切断されました",
        connection_lost: "接続が失われました",
        handshake_timeout_log: "接続タイムアウト: サーバからの応答がありません",
        handshake_timeout_status: "接続タイムアウト",
        send_audio_error: "音声送信エラー: {0}",
        capture_stopped: "音声キャプチャが停止しました",
        reconnect_giveup: "再接続を{0}回試みましたが失敗しました",
        reconnect_in: "{0}秒後に再接続します ({1}/{2})",
        reconnect_cancel: "再接続を中止します",
        playback_device: "再生デバイス: {0} ({1}Hz {2}ch)",
        capture_device: "録音デバイス: {0} ({1}Hz {2}ch)",
        device_fallback: "デバイス「{0}」が見つからないため既定のデバイスを使います",
        playback_init_failed: "再生デバイスの初期化に失敗: {0}",
        capture_init_failed: "録音デバイスの初期化に失敗: {0}",
        playback_switch_failed: "再生デバイスの切替に失敗: {0}",
        capture_switch_failed: "録音デバイスの切替に失敗: {0}",
        playback_rebuild: "再生ストリームのエラーを検出、作り直します",
        capture_rebuild: "録音ストリームのエラーを検出、作り直します",
        playback_rebuild_failed: "再生ストリームの再作成に失敗: {0} (音声設定からデバイスを選び直してください)",
        capture_rebuild_failed: "録音ストリームの再作成に失敗: {0} (音声設定からデバイスを選び直してください)",
        api_listening: "StreamDeck用API待受中: {0}",
        api_error: "APIサーバエラー: {0}",
        api_bind_failed: "APIサーバの起動に失敗 (ポート{0}): {1}",
        api_connect_req: "API: 接続要求 ({0})",
        api_disconnect_req: "API: 切断要求",
        api_mute: "API: ミュート {0}",
        api_unknown_profile: "API: 未登録のプロファイル名「{0}」への接続要求",
        api_profile_incomplete: "API: プロファイル「{0}」はアドレスまたはニックネームが未設定です",
        key_mouse_side1: "マウス サイド1",
        key_mouse_side2: "マウス サイド2",
        key_lshift: "左Shift",
        key_lctrl: "左Ctrl",
        key_lalt: "左Alt",
        key_muhenkan: "無変換",
        key_f12: "F12",
    }
}

/// The English texts, word for word.
pub proof fn english_reads()
    ensures
        english_texts().profile_label@ == "Profile:"@,
        english_texts().connect@ == "Connect"@,
        english_texts().disconnect@ == "Disconnect"@,
        english_texts().mute@ == "Mute"@,
        english_texts().settings_button@ == "⚙ Settings"@,
        english_texts().status_disconnected@ == "Not connected"@,
        english_texts().status_connecting@ == "Connecting..."@,
        english_texts().status_connected@ == "Connected: {0}"@,
        english_texts().status_error@ == "Error: {0}"@,
        english_texts().log_heading@ == "Log"@,
        english_texts().no_channels@ == "(no channel data)"@,
        english_texts().volume_hover@ == "Right-click to adjust volume"@,
        english_texts().volume_of@ == "Volume of {0}"@,
        english_texts().reset_100@ == "Reset to 100%"@,
        english_texts().connect_hint@ == "Set the profile address and nickname in Settings first"@,
        english_texts().settings_title@ == "Settings - TS3 Client"@,
        english_texts().profile_settings@ == "Profiles"@,
        english_texts().audio_settings@ == "Audio"@,
        english_texts().general_settings@ == "General"@,
        english_texts().col_profile_name@ == "Profile name"@,
        english_texts().col_address@ == "Address"@,
        english_texts().col_nickname@ == "Nickname"@,
        english_texts().delete_profile@ == "Delete this profile"@,
        english_texts().add_profile@ == "Add a profile"@,
        english_texts().api_hint@ == "Connect by name from StreamDeck: /api/connect/<profile name>"@,
        english_texts().input_device@ == "Input device:"@,
        english_texts().output_device@ == "Output device:"@,
        english_texts().default_device@ == "(default device)"@,
        english_texts().voice_mode@ == "Transmission:"@,
        english_texts().mode_always@ == "Continuous"@,
        english_texts().mode_vad@ == "Voice activation"@,
        english_texts().mode_ptt@ == "Push to talk"@,
        english_texts().vad_threshold@ == "Threshold:"@,
        english_texts().input_level@ == "Input level:"@,
        english_texts().ptt_key@ == "Key:"@,
        english_texts().ptt_note@ == "(works while the window is unfocused)"@,
        english_texts().auto_start@ == "Start with Windows (minimized to tray)"@,
        english_texts().auto_start_failed@ == "Failed to configure autostart: {0}"@,
        english_texts().api_label@ == "StreamDeck API:"@,
        english_texts().language_label@ == "Language:"@,
        english_texts().show_log@ == "Show log panel"@,
        english_texts().tray_open@ == "Open"@,
        english_texts().tray_exit@ == "Exit"@,
        english_texts().connecting_to@ == "Connecting to {0} as {1}"@,
        english_texts().already_connected@ == "Already connected. Disconnect first"@,
        english_texts().disconnecting@ == "Disconnecting"@,
        english_texts().disconnected_done@ == "Disconnected"@,
        english_texts().server_closed@ == "Disconnected by the server"@,
        english_texts().connection_lost@ == "Connection lost"@,
        english_texts().handshake_timeout_log@ == "Connection timeout: no response from the server"@,
        english_texts().handshake_timeout_status@ == "Connection timeout"@,
        english_texts().send_audio_error@ == "Failed to send audio: {0}"@,
        english_texts().capture_stopped@ == "Audio capture stopped"@,
        english_texts().reconnect_giveup@ == "Gave up after {0} reconnect attempts"@,
        english_texts().reconnect_in@ == "Reconnecting in {0}s ({1}/{2})"@,
        english_texts().reconnect_cancel@ == "Reconnect cancelled"@,
        english_texts().playback_device@ == "Playback device: {0} ({1}Hz {2}ch)"@,
        english_texts().capture_device@ == "Capture device: {0} ({1}Hz {2}ch)"@,
        english_texts().device_fallback@ == "Device \"{0}\" not found, using the default device"@,
        english_texts().playback_init_failed@ == "Failed to initialize the playback device: {0}"@,
        english_texts().capture_init_failed@ == "Failed to initialize the capture device: {0}"@,
        english_texts().playback_switch_failed@ == "Failed to switch the playback device: {0}"@,
        english_texts().capture_switch_failed@ == "Failed to switch the capture device: {0}"@,
        english_texts().playback_rebuild@ == "Playback stream error detected, rebuilding"@,
        english_texts().capture_rebuild@ == "Capture stream error detected, rebuilding"@,
        english_texts().playback_rebuild_failed@ == "Failed to rebuild the playback stream: {0} (pick a device again in the audio settings)"@,
        english_texts().capture_rebuild_failed@ == "Failed to rebuild the capture stream: {0} (pick a device again in the audio settings)"@,
        english_texts().api_listening@ == "StreamDeck API listening at {0}"@,
        english_texts().api_error@ == "API server error: {0}"@,
        english_texts().api_bind_failed@ == "Failed to start the API server (port {0}): {1}"@,
        english_texts().api_connect_req@ == "API: connect request ({0})"@,
        english_texts().api_disconnect_req@ == "API: disconnect request"@,
        english_texts().api_mute@ == "API: mute {0}"@,
        english_texts().api_unknown_profile@ == "API: connect request for unknown profile \"{0}\""@,
        english_texts().api_profile_incomplete@ == "API: profile \"{0}\" is missing an address or nickname"@,
        english_texts().key_mouse_side1@ == "Mouse Side 1"@,
        english_texts().key_mouse_side2@ == "Mouse Side 2"@,
        english_texts().key_lshift@ == "Left Shift"@,
        english_texts().key_lctrl@ == "Left Ctrl"@,
        english_texts().key_lalt@ == "Left Alt"@,
        english_texts().key_muhenkan@ == "Muhenkan (JP key)"@,
        english_texts().key_f12@ == "F12"@,
{
}

/// The Japanese texts, word for word.
pub proof fn japanese_reads()
    ensures
        japanese_texts().profile_label@ == "プロファイル:"@,
        japanese_texts().connect@ == "接続"@,
        japanese_texts().disconnect@ == "切断"@,
        japanese_texts().mute@ == "ミュート"@,
        japanese_texts().settings_button@ == "⚙ 設定"@,
        japanese_texts().status_disconnected@ == "未接続"@,
        japanese_texts().status_connecting@ == "接続中..."@,
        japanese_texts().status_connected@ == "接続済: {0}"@,
        japanese_texts().status_error@ == "エラー: {0}"@,
        japanese_texts().log_heading@ == "ログ"@,
        japanese_texts().no_channels@ == "(チャンネル情報なし)"@,
        japanese_texts().volume_hover@ == "右クリックで音量調整"@,
        japanese_texts().volume_of@ == "{0} の音量"@,
        japanese_texts().reset_100@ == "100%に戻す"@,
        japanese_texts().connect_hint@ == "設定でプロファイルのアドレスとニックネームを入力してください"@,
        japanese_texts().settings_title@ == "設定 - TS3 Client"@,
        japanese_texts().profile_settings@ == "プロファイル設定"@,
        japanese_texts().audio_settings@ == "音声設定"@,
        japanese_texts().general_settings@ == "一般設定"@,
        japanese_texts().col_profile_name@ == "プロファイル名"@,
        japanese_texts().col_address@ == "アドレス"@,
        japanese_texts().col_nickname@ == "ニックネーム"@,
        japanese_texts().delete_profile@ == "このプロファイルを削除"@,
        japanese_texts().add_profile@ == "プロファイルを追加"@,
        japanese_texts().api_hint@ == "StreamDeckから名前指定で接続: /api/connect/プロファイル名"@,
        japanese_texts().input_device@ == "入力デバイス:"@,
        japanese_texts().output_device@ == "出力デバイス:"@,
        japanese_texts().default_device@ == "(既定のデバイス)"@,
        japanese_texts().voice_mode@ == "送信モード:"@,
        japanese_texts().mode_always@ == "常時送信"@,
        japanese_texts().mode_vad@ == "ボイス検出"@,
        japanese_texts().mode_ptt@ == "プッシュトゥトーク"@,
        japanese_texts().vad_threshold@ == "閾値:"@,
        japanese_texts().input_level@ == "入力レベル:"@,
        japanese_texts().ptt_key@ == "キー:"@,
        japanese_texts().ptt_note@ == "(ウィンドウ非フォーカスでも有効)"@,
        japanese_texts().auto_start@ == "Windows起動時に自動起動(トレイに格納)"@,
        japanese_texts().auto_start_failed@ == "自動起動の設定に失敗: {0}"@,
        japanese_texts().api_label@ == "StreamDeck用API:"@,
        japanese_texts().language_label@ == "言語:"@,
        japanese_texts().show_log@ == "ログを表示"@,
        japanese_texts().tray_open@ == "開く"@,
        japanese_texts().tray_exit@ == "終了"@,
        japanese_texts().connecting_to@ == "{0} に {1} として接続します"@,
        japanese_texts().already_connected@ == "すでに接続中です。先に切断してください"@,
        japanese_texts().disconnecting@ == "切断します"@,
        japanese_texts().disconnected_done@ == "切断しました"@,
        japanese_texts().server_closed@ == "サーバから切断されました"@,
        japanese_texts().connection_lost@ == "接続が失われました"@,
        japanese_texts().handshake_timeout_log@ == "接続タイムアウト: サーバからの応答がありません"@,
        japanese_texts().handshake_timeout_status@ == "接続タイムアウト"@,
        japanese_texts().send_audio_error@ == "音声送信エラー: {0}"@,
        japanese_texts().capture_stopped@ == "音声キャプチャが停止しました"@,
        japanese_texts().reconnect_giveup@ == "再接続を{0}回試みましたが失敗しました"@,
        japanese_texts().reconnect_in@ == "{0}秒後に再接続します ({1}/{2})"@,
        japanese_texts().reconnect_cancel@ == "再接続を中止します"@,
        japanese_texts().playback_device@ == "再生デバイス: {0} ({1}Hz {2}ch)"@,
        japanese_texts().capture_device@ == "録音デバイス: {0} ({1}Hz {2}ch)"@,
        japanese_texts().device_fallback@ == "デバイス「{0}」が見つからないため既定のデバイスを使います"@,
        japanese_texts().playback_init_failed@ == "再生デバイスの初期化に失敗: {0}"@,
        japanese_texts().capture_init_failed@ == "録音デバイスの初期化に失敗: {0}"@,
        japanese_texts().playback_switch_failed@ == "再生デバイスの切替に失敗: {0}"@,
        japanese_texts().capture_switch_failed@ == "録音デバイスの切替に失敗: {0}"@,
        japanese_texts().playback_rebuild@ == "再生ストリームのエラーを検出、作り直します"@,
        japanese_texts().capture_rebuild@ == "録音ストリームのエラーを検出、作り直します"@,
        japanese_texts().playback_rebuild_failed@ == "再生ストリームの再作成に失敗: {0} (音声設定からデバイスを選び直してください)"@,
        japanese_texts().capture_rebuild_failed@ == "録音ストリームの再作成に失敗: {0} (音声設定からデバイスを選び直してください)"@,
        japanese_texts().api_listening@ == "StreamDeck用API待受中: {0}"@,
        japanese_texts().api_error@ == "APIサーバエラー: {0}"@,
        japanese_texts().api_bind_failed@ == "APIサーバの起動に失敗 (ポート{0}): {1}"@,
        japanese_texts().api_connect_req@ == "API: 接続要求 ({0})"@,
        japanese_texts().api_disconnect_req@ == "API: 切断要求"@,
        japanese_texts().api_mute@ == "API: ミュート {0}"@,
        japanese_texts().api_unknown_profile@ == "API: 未登録のプロファイル名「{0}」への接続要求"@,
        japanese_texts().api_profile_incomplete@ == "API: プロファイル「{0}」はアドレスまたはニックネームが未設定です"@,
        japanese_texts().key_mouse_side1@ == "マウス サイド1"@,
        japanese_texts().key_mouse_side2@ == "マウス サイド2"@,
        japanese_texts().key_lshift@ == "左Shift"@,
        japanese_texts().key_lctrl@ == "左Ctrl"@,
        japanese_texts().key_lalt@ == "左Alt"@,
        japanese_texts().key_muhenkan@ == "無変換"@,
        japanese_texts().key_f12@ == "F12"@,
{
}

} // verus!
