//! Both languages say everything, with the same placeholders.

use crate::i18n::{placeholder, texts_of, Lang};
use crate::text::{decimal, decimal_is_digits, decimal_is_unambiguous, digit, occurs_at};
use crate::texts::{english_texts, japanese_texts, Texts};
use vstd::prelude::*;

verus! {

/// Whether a text holds the placeholder of argument `n`.
pub open spec fn holds(text: Seq<char>, n: nat) -> bool {
    exists|at: int| occurs_at(text, placeholder(n), at)
}

/// Neither text is missing, and both hold the same placeholders.
pub open spec fn matched(a: &str, b: &str) -> bool {
    &&& a@.len() > 0
    &&& b@.len() > 0
    &&& forall|n: nat| holds(a@, n) <==> #[trigger] holds(b@, n)
}

/// The placeholders of `slots` stand in a text at the positions `at`, and no other brace opens.
spec fn is_marked(text: Seq<char>, at: Seq<int>, slots: Seq<nat>) -> bool {
    &&& at.len() == slots.len()
    &&& forall|k: int|
        0 <= k < at.len() ==> {
            &&& 0 <= #[trigger] at[k] <= text.len() - 3
            &&& slots[k] < 10
            &&& text[at[k]] == '{'
            &&& text[at[k] + 1] == digit(slots[k] as int)
            &&& text[at[k] + 2] == '}'
        }
    &&& forall|i: int| 0 <= i < text.len() && #[trigger] text[i] == '{' ==> at.contains(i)
}

proof fn marks_are_what_is_held(text: Seq<char>, at: Seq<int>, slots: Seq<nat>)
    requires
        is_marked(text, at, slots),
    ensures
        forall|n: nat| #[trigger] holds(text, n) <==> slots.contains(n),
{
    assert forall|n: nat| #[trigger] holds(text, n) <==> slots.contains(n) by {
        if slots.contains(n) {
            let k = choose|k: int| 0 <= k < slots.len() && slots[k] == n;
            let p = at[k];
            assert(decimal(n) == seq![digit(n as int)]);
            assert(text.subrange(p, p + 3) =~= placeholder(n));
            assert(occurs_at(text, placeholder(n), p));
        }
        if holds(text, n) {
            let p = choose|p: int| occurs_at(text, placeholder(n), p);
            let found = text.subrange(p, p + placeholder(n).len());
            assert(found[0] == text[p] && placeholder(n)[0] == '{');
            assert(at.contains(p));
            let k = choose|k: int| 0 <= k < at.len() && at[k] == p;
            decimal_is_digits(n);
            assert(found[1] == text[p + 1] && found[1] == decimal(n)[0]);
            assert(found[2] == text[p + 2]);
            assert(decimal(n).len() == 1) by {
                if decimal(n).len() > 1 {
                    assert(placeholder(n)[2] == decimal(n)[1]);
                }
            }
            assert(decimal(slots[k]) == seq![digit(slots[k] as int)]);
            assert(decimal(n) =~= decimal(slots[k]));
            decimal_is_unambiguous(n, slots[k]);
        }
    }
}

proof fn plain_texts_match(a: &str, b: &str)
    requires
        a@.len() > 0,
        b@.len() > 0,
        !a@.contains('{'),
        !b@.contains('{'),
    ensures
        matched(a, b),
{
    assert forall|i: int| 0 <= i < a@.len() implies #[trigger] a@[i] != '{' by {
        assert(a@.contains(a@[i]));
    }
    assert forall|i: int| 0 <= i < b@.len() implies #[trigger] b@[i] != '{' by {
        assert(b@.contains(b@[i]));
    }
    marks_are_what_is_held(a@, Seq::empty(), Seq::empty());
    marks_are_what_is_held(b@, Seq::empty(), Seq::empty());
}

proof fn marked_texts_match(
    a: &str,
    at_a: Seq<int>,
    slots_a: Seq<nat>,
    b: &str,
    at_b: Seq<int>,
    slots_b: Seq<nat>,
)
    requires
        is_marked(a@, at_a, slots_a),
        is_marked(b@, at_b, slots_b),
        slots_a.len() > 0,
        slots_b.len() > 0,
        slots_a.to_set() =~= slots_b.to_set(),
    ensures
        matched(a, b),
{
    marks_are_what_is_held(a@, at_a, slots_a);
    marks_are_what_is_held(b@, at_b, slots_b);
    assert(at_a[0] <= a@.len() - 3 && at_b[0] <= b@.len() - 3);
    assert forall|n: nat| holds(a@, n) <==> #[trigger] holds(b@, n) by {
        assert(slots_a.contains(n) <==> slots_a.to_set().contains(n));
        assert(slots_b.contains(n) <==> slots_b.to_set().contains(n));
    }
}

/// Every text of one table is matched by that of the other.
pub open spec fn texts_match(a: Texts, b: Texts) -> bool {
    &&& matched(a.profile_label, b.profile_label)
    &&& matched(a.connect, b.connect)
    &&& matched(a.disconnect, b.disconnect)
    &&& matched(a.mute, b.mute)
    &&& matched(a.settings_button, b.settings_button)
    &&& matched(a.status_disconnected, b.status_disconnected)
    &&& matched(a.status_connecting, b.status_connecting)
    &&& matched(a.status_connected, b.status_connected)
    &&& matched(a.status_error, b.status_error)
    &&& matched(a.log_heading, b.log_heading)
    &&& matched(a.no_channels, b.no_channels)
    &&& matched(a.volume_hover, b.volume_hover)
    &&& matched(a.volume_of, b.volume_of)
    &&& matched(a.reset_100, b.reset_100)
    &&& matched(a.connect_hint, b.connect_hint)
    &&& matched(a.settings_title, b.settings_title)
    &&& matched(a.profile_settings, b.profile_settings)
    &&& matched(a.audio_settings, b.audio_settings)
    &&& matched(a.general_settings, b.general_settings)
    &&& matched(a.col_profile_name, b.col_profile_name)
    &&& matched(a.col_address, b.col_address)
    &&& matched(a.col_nickname, b.col_nickname)
    &&& matched(a.delete_profile, b.delete_profile)
    &&& matched(a.add_profile, b.add_profile)
    &&& matched(a.api_hint, b.api_hint)
    &&& matched(a.input_device, b.input_device)
    &&& matched(a.output_device, b.output_device)
    &&& matched(a.default_device, b.default_device)
    &&& matched(a.voice_mode, b.voice_mode)
    &&& matched(a.mode_always, b.mode_always)
    &&& matched(a.mode_vad, b.mode_vad)
    &&& matched(a.mode_ptt, b.mode_ptt)
    &&& matched(a.vad_threshold, b.vad_threshold)
    &&& matched(a.input_level, b.input_level)
    &&& matched(a.ptt_key, b.ptt_key)
    &&& matched(a.ptt_note, b.ptt_note)
    &&& matched(a.auto_start, b.auto_start)
    &&& matched(a.auto_start_failed, b.auto_start_failed)
    &&& matched(a.api_label, b.api_label)
    &&& matched(a.language_label, b.language_label)
    &&& matched(a.show_log, b.show_log)
    &&& matched(a.tray_open, b.tray_open)
    &&& matched(a.tray_exit, b.tray_exit)
    &&& matched(a.connecting_to, b.connecting_to)
    &&& matched(a.already_connected, b.already_connected)
    &&& matched(a.disconnecting, b.disconnecting)
    &&& matched(a.disconnected_done, b.disconnected_done)
    &&& matched(a.server_closed, b.server_closed)
    &&& matched(a.connection_lost, b.connection_lost)
    &&& matched(a.handshake_timeout_log, b.handshake_timeout_log)
    &&& matched(a.handshake_timeout_status, b.handshake_timeout_status)
    &&& matched(a.send_audio_error, b.send_audio_error)
    &&& matched(a.capture_stopped, b.capture_stopped)
    &&& matched(a.reconnect_giveup, b.reconnect_giveup)
    &&& matched(a.reconnect_in, b.reconnect_in)
    &&& matched(a.reconnect_cancel, b.reconnect_cancel)
    &&& matched(a.playback_device, b.playback_device)
    &&& matched(a.capture_device, b.capture_device)
    &&& matched(a.device_fallback, b.device_fallback)
    &&& matched(a.playback_init_failed, b.playback_init_failed)
    &&& matched(a.capture_init_failed, b.capture_init_failed)
    &&& matched(a.playback_switch_failed, b.playback_switch_failed)
    &&& matched(a.capture_switch_failed, b.capture_switch_failed)
    &&& matched(a.playback_rebuild, b.playback_rebuild)
    &&& matched(a.capture_rebuild, b.capture_rebuild)
    &&& matched(a.playback_rebuild_failed, b.playback_rebuild_failed)
    &&& matched(a.capture_rebuild_failed, b.capture_rebuild_failed)
    &&& matched(a.api_listening, b.api_listening)
    &&& matched(a.api_error, b.api_error)
    &&& matched(a.api_bind_failed, b.api_bind_failed)
    &&& matched(a.api_connect_req, b.api_connect_req)
    &&& matched(a.api_disconnect_req, b.api_disconnect_req)
    &&& matched(a.api_mute, b.api_mute)
    &&& matched(a.api_unknown_profile, b.api_unknown_profile)
    &&& matched(a.api_profile_incomplete, b.api_profile_incomplete)
    &&& matched(a.key_mouse_side1, b.key_mouse_side1)
    &&& matched(a.key_mouse_side2, b.key_mouse_side2)
    &&& matched(a.key_lshift, b.key_lshift)
    &&& matched(a.key_lctrl, b.key_lctrl)
    &&& matched(a.key_lalt, b.key_lalt)
    &&& matched(a.key_muhenkan, b.key_muhenkan)
    &&& matched(a.key_f12, b.key_f12)
}

proof fn main_window_match(en: Texts, ja: Texts)
    requires
        en == english_texts(),
        ja == japanese_texts(),
    ensures
        matched(en.profile_label, ja.profile_label),
        matched(en.connect, ja.connect),
        matched(en.disconnect, ja.disconnect),
        matched(en.mute, ja.mute),
        matched(en.settings_button, ja.settings_button),
        matched(en.status_disconnected, ja.status_disconnected),
        matched(en.status_connecting, ja.status_connecting),
        matched(en.status_connected, ja.status_connected),
        matched(en.status_error, ja.status_error),
        matched(en.log_heading, ja.log_heading),
        matched(en.no_channels, ja.no_channels),
        matched(en.volume_hover, ja.volume_hover),
        matched(en.volume_of, ja.volume_of),
        matched(en.reset_100, ja.reset_100),
        matched(en.connect_hint, ja.connect_hint),
{
    assert(matched(en.profile_label, ja.profile_label)) by {
        reveal_strlit("Profile:");
        reveal_strlit("プロファイル:");
        plain_texts_match(en.profile_label, ja.profile_label);
    }
    assert(matched(en.connect, ja.connect)) by {
        reveal_strlit("Connect");
        reveal_strlit("接続");
        plain_texts_match(en.connect, ja.connect);
    }
    assert(matched(en.disconnect, ja.disconnect)) by {
        reveal_strlit("Disconnect");
        reveal_strlit("切断");
        plain_texts_match(en.disconnect, ja.disconnect);
    }
    assert(matched(en.mute, ja.mute)) by {
        reveal_strlit("Mute");
        reveal_strlit("ミュート");
        plain_texts_match(en.mute, ja.mute);
    }
    assert(matched(en.settings_button, ja.settings_button)) by {
        reveal_strlit("⚙ Settings");
        reveal_strlit("⚙ 設定");
        plain_texts_match(en.settings_button, ja.settings_button);
    }
    assert(matched(en.status_disconnected, ja.status_disconnected)) by {
        reveal_strlit("Not connected");
        reveal_strlit("未接続");
        plain_texts_match(en.status_disconnected, ja.status_disconnected);
    }
    assert(matched(en.status_connecting, ja.status_connecting)) by {
        reveal_strlit("Connecting...");
        reveal_strlit("接続中...");
        plain_texts_match(en.status_connecting, ja.status_connecting);
    }
    assert(matched(en.status_connected, ja.status_connected)) by {
        reveal_strlit("Connected: {0}");
        reveal_strlit("接続済: {0}");
        let at = seq![11int];
        let to = seq![5int];
        assert(at[0] == 11);
        assert(to[0] == 5);
        marked_texts_match(
            en.status_connected,
            at,
            seq![0nat],
            ja.status_connected,
            to,
            seq![0nat],
        );
    }
    assert(matched(en.status_error, ja.status_error)) by {
        reveal_strlit("Error: {0}");
        reveal_strlit("エラー: {0}");
        let at = seq![7int];
        let to = seq![5int];
        assert(at[0] == 7);
        assert(to[0] == 5);
        marked_texts_match(
            en.status_error,
            at,
            seq![0nat],
            ja.status_error,
            to,
            seq![0nat],
        );
    }
    assert(matched(en.log_heading, ja.log_heading)) by {
        reveal_strlit("Log");
        reveal_strlit("ログ");
        plain_texts_match(en.log_heading, ja.log_heading);
    }
    assert(matched(en.no_channels, ja.no_channels)) by {
        reveal_strlit("(no channel data)");
        reveal_strlit("(チャンネル情報なし)");
        plain_texts_match(en.no_channels, ja.no_channels);
    }
    assert(matched(en.volume_hover, ja.volume_hover)) by {
        reveal_strlit("Right-click to adjust volume");
        reveal_strlit("右クリックで音量調整");
        plain_texts_match(en.volume_hover, ja.volume_hover);
    }
    assert(matched(en.volume_of, ja.volume_of)) by {
        reveal_strlit("Volume of {0}");
        reveal_strlit("{0} の音量");
        let at = seq![10int];
        let to = seq![0int];
        assert(at[0] == 10);
        assert(to[0] == 0);
        marked_texts_match(
            en.volume_of,
            at,
            seq![0nat],
            ja.volume_of,
            to,
            seq![0nat],
        );
    }
    assert(matched(en.reset_100, ja.reset_100)) by {
        reveal_strlit("Reset to 100%");
        reveal_strlit("100%に戻す");
        plain_texts_match(en.reset_100, ja.reset_100);
    }
    assert(matched(en.connect_hint, ja.connect_hint)) by {
        reveal_strlit("Set the profile address and nickname in Settings first");
        reveal_strlit("設定でプロファイルのアドレスとニックネームを入力してください");
        plain_texts_match(en.connect_hint, ja.connect_hint);
    }
}

proof fn settings_window_match(en: Texts, ja: Texts)
    requires
        en == english_texts(),
        ja == japanese_texts(),
    ensures
        matched(en.settings_title, ja.settings_title),
        matched(en.profile_settings, ja.profile_settings),
        matched(en.audio_settings, ja.audio_settings),
        matched(en.general_settings, ja.general_settings),
        matched(en.col_profile_name, ja.col_profile_name),
        matched(en.col_address, ja.col_address),
        matched(en.col_nickname, ja.col_nickname),
        matched(en.delete_profile, ja.delete_profile),
        matched(en.add_profile, ja.add_profile),
        matched(en.api_hint, ja.api_hint),
        matched(en.input_device, ja.input_device),
        matched(en.output_device, ja.output_device),
        matched(en.default_device, ja.default_device),
        matched(en.voice_mode, ja.voice_mode),
        matched(en.mode_always, ja.mode_always),
        matched(en.mode_vad, ja.mode_vad),
        matched(en.mode_ptt, ja.mode_ptt),
        matched(en.vad_threshold, ja.vad_threshold),
        matched(en.input_level, ja.input_level),
        matched(en.ptt_key, ja.ptt_key),
        matched(en.ptt_note, ja.ptt_note),
        matched(en.auto_start, ja.auto_start),
        matched(en.auto_start_failed, ja.auto_start_failed),
        matched(en.api_label, ja.api_label),
        matched(en.language_label, ja.language_label),
        matched(en.show_log, ja.show_log),
{
    assert(matched(en.settings_title, ja.settings_title)) by {
        reveal_strlit("Settings - TS3 Client");
        reveal_strlit("設定 - TS3 Client");
        plain_texts_match(en.settings_title, ja.settings_title);
    }
    assert(matched(en.profile_settings, ja.profile_settings)) by {
        reveal_strlit("Profiles");
        reveal_strlit("プロファイル設定");
        plain_texts_match(en.profile_settings, ja.profile_settings);
    }
    assert(matched(en.audio_settings, ja.audio_settings)) by {
        reveal_strlit("Audio");
        reveal_strlit("音声設定");
        plain_texts_match(en.audio_settings, ja.audio_settings);
    }
    assert(matched(en.general_settings, ja.general_settings)) by {
        reveal_strlit("General");
        reveal_strlit("一般設定");
        plain_texts_match(en.general_settings, ja.general_settings);
    }
    assert(matched(en.col_profile_name, ja.col_profile_name)) by {
        reveal_strlit("Profile name");
        reveal_strlit("プロファイル名");
        plain_texts_match(en.col_profile_name, ja.col_profile_name);
    }
    assert(matched(en.col_address, ja.col_address)) by {
        reveal_strlit("Address");
        reveal_strlit("アドレス");
        plain_texts_match(en.col_address, ja.col_address);
    }
    assert(matched(en.col_nickname, ja.col_nickname)) by {
        reveal_strlit("Nickname");
        reveal_strlit("ニックネーム");
        plain_texts_match(en.col_nickname, ja.col_nickname);
    }
    assert(matched(en.delete_profile, ja.delete_profile)) by {
        reveal_strlit("Delete this profile");
        reveal_strlit("このプロファイルを削除");
        plain_texts_match(en.delete_profile, ja.delete_profile);
    }
    assert(matched(en.add_profile, ja.add_profile)) by {
        reveal_strlit("Add a profile");
        reveal_strlit("プロファイルを追加");
        plain_texts_match(en.add_profile, ja.add_profile);
    }
    assert(matched(en.api_hint, ja.api_hint)) by {
        reveal_strlit("Connect by name from StreamDeck: /api/connect/<profile name>");
        reveal_strlit("StreamDeckから名前指定で接続: /api/connect/プロファイル名");
        plain_texts_match(en.api_hint, ja.api_hint);
    }
    assert(matched(en.input_device, ja.input_device)) by {
        reveal_strlit("Input device:");
        reveal_strlit("入力デバイス:");
        plain_texts_match(en.input_device, ja.input_device);
    }
    assert(matched(en.output_device, ja.output_device)) by {
        reveal_strlit("Output device:");
        reveal_strlit("出力デバイス:");
        plain_texts_match(en.output_device, ja.output_device);
    }
    assert(matched(en.default_device, ja.default_device)) by {
        reveal_strlit("(default device)");
        reveal_strlit("(既定のデバイス)");
        plain_texts_match(en.default_device, ja.default_device);
    }
    assert(matched(en.voice_mode, ja.voice_mode)) by {
        reveal_strlit("Transmission:");
        reveal_strlit("送信モード:");
        plain_texts_match(en.voice_mode, ja.voice_mode);
    }
    assert(matched(en.mode_always, ja.mode_always)) by {
        reveal_strlit("Continuous");
        reveal_strlit("常時送信");
        plain_texts_match(en.mode_always, ja.mode_always);
    }
    assert(matched(en.mode_vad, ja.mode_vad)) by {
        reveal_strlit("Voice activation");
        reveal_strlit("ボイス検出");
        plain_texts_match(en.mode_vad, ja.mode_vad);
    }
    assert(matched(en.mode_ptt, ja.mode_ptt)) by {
        reveal_strlit("Push to talk");
        reveal_strlit("プッシュトゥトーク");
        plain_texts_match(en.mode_ptt, ja.mode_ptt);
    }
    assert(matched(en.vad_threshold, ja.vad_threshold)) by {
        reveal_strlit("Threshold:");
        reveal_strlit("閾値:");
        plain_texts_match(en.vad_threshold, ja.vad_threshold);
    }
    assert(matched(en.input_level, ja.input_level)) by {
        reveal_strlit("Input level:");
        reveal_strlit("入力レベル:");
        plain_texts_match(en.input_level, ja.input_level);
    }
    assert(matched(en.ptt_key, ja.ptt_key)) by {
        reveal_strlit("Key:");
        reveal_strlit("キー:");
        plain_texts_match(en.ptt_key, ja.ptt_key);
    }
    assert(matched(en.ptt_note, ja.ptt_note)) by {
        reveal_strlit("(works while the window is unfocused)");
        reveal_strlit("(ウィンドウ非フォーカスでも有効)");
        plain_texts_match(en.ptt_note, ja.ptt_note);
    }
    assert(matched(en.auto_start, ja.auto_start)) by {
        reveal_strlit("Start with Windows (minimized to tray)");
        reveal_strlit("Windows起動時に自動起動(トレイに格納)");
        plain_texts_match(en.auto_start, ja.auto_start);
    }
    assert(matched(en.auto_start_failed, ja.auto_start_failed)) by {
        reveal_strlit("Failed to configure autostart: {0}");
        reveal_strlit("自動起動の設定に失敗: {0}");
        let at = seq![31int];
        let to = seq![12int];
        assert(at[0] == 31);
        assert(to[0] == 12);
        marked_texts_match(
            en.auto_start_failed,
            at,
            seq![0nat],
            ja.auto_start_failed,
            to,
            seq![0nat],
        );
    }
    assert(matched(en.api_label, ja.api_label)) by {
        reveal_strlit("StreamDeck API:");
        reveal_strlit("StreamDeck用API:");
        plain_texts_match(en.api_label, ja.api_label);
    }
    assert(matched(en.language_label, ja.language_label)) by {
        reveal_strlit("Language:");
        reveal_strlit("言語:");
        plain_texts_match(en.language_label, ja.language_label);
    }
    assert(matched(en.show_log, ja.show_log)) by {
        reveal_strlit("Show log panel");
        reveal_strlit("ログを表示");
        plain_texts_match(en.show_log, ja.show_log);
    }
}

proof fn tray_menu_match(en: Texts, ja: Texts)
    requires
        en == english_texts(),
        ja == japanese_texts(),
    ensures
        matched(en.tray_open, ja.tray_open),
        matched(en.tray_exit, ja.tray_exit),
{
    assert(matched(en.tray_open, ja.tray_open)) by {
        reveal_strlit("Open");
        reveal_strlit("開く");
        plain_texts_match(en.tray_open, ja.tray_open);
    }
    assert(matched(en.tray_exit, ja.tray_exit)) by {
        reveal_strlit("Exit");
        reveal_strlit("終了");
        plain_texts_match(en.tray_exit, ja.tray_exit);
    }
}

proof fn worker_lines_match(en: Texts, ja: Texts)
    requires
        en == english_texts(),
        ja == japanese_texts(),
    ensures
        matched(en.connecting_to, ja.connecting_to),
        matched(en.already_connected, ja.already_connected),
        matched(en.disconnecting, ja.disconnecting),
        matched(en.disconnected_done, ja.disconnected_done),
        matched(en.server_closed, ja.server_closed),
        matched(en.connection_lost, ja.connection_lost),
        matched(en.handshake_timeout_log, ja.handshake_timeout_log),
        matched(en.handshake_timeout_status, ja.handshake_timeout_status),
        matched(en.send_audio_error, ja.send_audio_error),
        matched(en.capture_stopped, ja.capture_stopped),
        matched(en.reconnect_giveup, ja.reconnect_giveup),
        matched(en.reconnect_in, ja.reconnect_in),
        matched(en.reconnect_cancel, ja.reconnect_cancel),
{
    assert(matched(en.connecting_to, ja.connecting_to)) by {
        reveal_strlit("Connecting to {0} as {1}");
        reveal_strlit("{0} に {1} として接続します");
        let at = seq![14int, 21int];
        let to = seq![0int, 6int];
        assert(at[0] == 14 && at[1] == 21);
        assert(to[0] == 0 && to[1] == 6);
        marked_texts_match(
            en.connecting_to,
            at,
            seq![0nat, 1nat],
            ja.connecting_to,
            to,
            seq![0nat, 1nat],
        );
    }
    assert(matched(en.already_connected, ja.already_connected)) by {
        reveal_strlit("Already connected. Disconnect first");
        reveal_strlit("すでに接続中です。先に切断してください");
        plain_texts_match(en.already_connected, ja.already_connected);
    }
    assert(matched(en.disconnecting, ja.disconnecting)) by {
        reveal_strlit("Disconnecting");
        reveal_strlit("切断します");
        plain_texts_match(en.disconnecting, ja.disconnecting);
    }
    assert(matched(en.disconnected_done, ja.disconnected_done)) by {
        reveal_strlit("Disconnected");
        reveal_strlit("切断しました");
        plain_texts_match(en.disconnected_done, ja.disconnected_done);
    }
    assert(matched(en.server_closed, ja.server_closed)) by {
        reveal_strlit("Disconnected by the server");
        reveal_strlit("サーバから切断されました");
        plain_texts_match(en.server_closed, ja.server_closed);
    }
    assert(matched(en.connection_lost, ja.connection_lost)) by {
        reveal_strlit("Connection lost");
        reveal_strlit("接続が失われました");
        plain_texts_match(en.connection_lost, ja.connection_lost);
    }
    assert(matched(en.handshake_timeout_log, ja.handshake_timeout_log)) by {
        reveal_strlit("Connection timeout: no response from the server");
        reveal_strlit("接続タイムアウト: サーバからの応答がありません");
        plain_texts_match(en.handshake_timeout_log, ja.handshake_timeout_log);
    }
    assert(matched(en.handshake_timeout_status, ja.handshake_timeout_status)) by {
        reveal_strlit("Connection timeout");
        reveal_strlit("接続タイムアウト");
        plain_texts_match(en.handshake_timeout_status, ja.handshake_timeout_status);
    }
    assert(matched(en.send_audio_error, ja.send_audio_error)) by {
        reveal_strlit("Failed to send audio: {0}");
        reveal_strlit("音声送信エラー: {0}");
        let at = seq![22int];
        let to = seq![9int];
        assert(at[0] == 22);
        assert(to[0] == 9);
        marked_texts_match(
            en.send_audio_error,
            at,
            seq![0nat],
            ja.send_audio_error,
            to,
            seq![0nat],
        );
    }
    assert(matched(en.capture_stopped, ja.capture_stopped)) by {
        reveal_strlit("Audio capture stopped");
        reveal_strlit("音声キャプチャが停止しました");
        plain_texts_match(en.capture_stopped, ja.capture_stopped);
    }
    assert(matched(en.reconnect_giveup, ja.reconnect_giveup)) by {
        reveal_strlit("Gave up after {0} reconnect attempts");
        reveal_strlit("再接続を{0}回試みましたが失敗しました");
        let at = seq![14int];
        let to = seq![4int];
        assert(at[0] == 14);
        assert(to[0] == 4);
        marked_texts_match(
            en.reconnect_giveup,
            at,
            seq![0nat],
            ja.reconnect_giveup,
            to,
            seq![0nat],
        );
    }
    assert(matched(en.reconnect_in, ja.reconnect_in)) by {
        reveal_strlit("Reconnecting in {0}s ({1}/{2})");
        reveal_strlit("{0}秒後に再接続します ({1}/{2})");
        let at = seq![16int, 22int, 26int];
        let to = seq![0int, 14int, 18int];
        assert(at[0] == 16 && at[1] == 22 && at[2] == 26);
        assert(to[0] == 0 && to[1] == 14 && to[2] == 18);
        marked_texts_match(
            en.reconnect_in,
            at,
            seq![0nat, 1nat, 2nat],
            ja.reconnect_in,
            to,
            seq![0nat, 1nat, 2nat],
        );
    }
    assert(matched(en.reconnect_cancel, ja.reconnect_cancel)) by {
        reveal_strlit("Reconnect cancelled");
        reveal_strlit("再接続を中止します");
        plain_texts_match(en.reconnect_cancel, ja.reconnect_cancel);
    }
}

proof fn audio_lines_match(en: Texts, ja: Texts)
    requires
        en == english_texts(),
        ja == japanese_texts(),
    ensures
        matched(en.playback_device, ja.playback_device),
        matched(en.capture_device, ja.capture_device),
        matched(en.device_fallback, ja.device_fallback),
        matched(en.playback_init_failed, ja.playback_init_failed),
        matched(en.capture_init_failed, ja.capture_init_failed),
        matched(en.playback_switch_failed, ja.playback_switch_failed),
        matched(en.capture_switch_failed, ja.capture_switch_failed),
        matched(en.playback_rebuild, ja.playback_rebuild),
        matched(en.capture_rebuild, ja.capture_rebuild),
        matched(en.playback_rebuild_failed, ja.playback_rebuild_failed),
        matched(en.capture_rebuild_failed, ja.capture_rebuild_failed),
{
    assert(matched(en.playback_device, ja.playback_device)) by {
        reveal_strlit("Playback device: {0} ({1}Hz {2}ch)");
        reveal_strlit("再生デバイス: {0} ({1}Hz {2}ch)");
        let at = seq![17int, 22int, 28int];
        let to = seq![8int, 13int, 19int];
        assert(at[0] == 17 && at[1] == 22 && at[2] == 28);
        assert(to[0] == 8 && to[1] == 13 && to[2] == 19);
        marked_texts_match(
            en.playback_device,
            at,
            seq![0nat, 1nat, 2nat],
            ja.playback_device,
            to,
            seq![0nat, 1nat, 2nat],
        );
    }
    assert(matched(en.capture_device, ja.capture_device)) by {
        reveal_strlit("Capture device: {0} ({1}Hz {2}ch)");
        reveal_strlit("録音デバイス: {0} ({1}Hz {2}ch)");
        let at = seq![16int, 21int, 27int];
        let to = seq![8int, 13int, 19int];
        assert(at[0] == 16 && at[1] == 21 && at[2] == 27);
        assert(to[0] == 8 && to[1] == 13 && to[2] == 19);
        marked_texts_match(
            en.capture_device,
            at,
            seq![0nat, 1nat, 2nat],
            ja.capture_device,
            to,
            seq![0nat, 1nat, 2nat],
        );
    }
    assert(matched(en.device_fallback, ja.device_fallback)) by {
        reveal_strlit("Device \"{0}\" not found, using the default device");
        reveal_strlit("デバイス「{0}」が見つからないため既定のデバイスを使います");
        let at = seq![8int];
        let to = seq![5int];
        assert(at[0] == 8);
        assert(to[0] == 5);
        marked_texts_match(
            en.device_fallback,
            at,
            seq![0nat],
            ja.device_fallback,
            to,
            seq![0nat],
        );
    }
    assert(matched(en.playback_init_failed, ja.playback_init_failed)) by {
        reveal_strlit("Failed to initialize the playback device: {0}");
        reveal_strlit("再生デバイスの初期化に失敗: {0}");
        let at = seq![42int];
        let to = seq![15int];
        assert(at[0] == 42);
        assert(to[0] == 15);
        marked_texts_match(
            en.playback_init_failed,
            at,
            seq![0nat],
            ja.playback_init_failed,
            to,
            seq![0nat],
        );
    }
    assert(matched(en.capture_init_failed, ja.capture_init_failed)) by {
        reveal_strlit("Failed to initialize the capture device: {0}");
        reveal_strlit("録音デバイスの初期化に失敗: {0}");
        let at = seq![41int];
        let to = seq![15int];
        assert(at[0] == 41);
        assert(to[0] == 15);
        marked_texts_match(
            en.capture_init_failed,
            at,
            seq![0nat],
            ja.capture_init_failed,
            to,
            seq![0nat],
        );
    }
    assert(matched(en.playback_switch_failed, ja.playback_switch_failed)) by {
        reveal_strlit("Failed to switch the playback device: {0}");
        reveal_strlit("再生デバイスの切替に失敗: {0}");
        let at = seq![38int];
        let to = seq![14int];
        assert(at[0] == 38);
        assert(to[0] == 14);
        marked_texts_match(
            en.playback_switch_failed,
            at,
            seq![0nat],
            ja.playback_switch_failed,
            to,
            seq![0nat],
        );
    }
    assert(matched(en.capture_switch_failed, ja.capture_switch_failed)) by {
        reveal_strlit("Failed to switch the capture device: {0}");
        reveal_strlit("録音デバイスの切替に失敗: {0}");
        let at = seq![37int];
        let to = seq![14int];
        assert(at[0] == 37);
        assert(to[0] == 14);
        marked_texts_match(
            en.capture_switch_failed,
            at,
            seq![0nat],
            ja.capture_switch_failed,
            to,
            seq![0nat],
        );
    }
    assert(matched(en.playback_rebuild, ja.playback_rebuild)) by {
        reveal_strlit("Playback stream error detected, rebuilding");
        reveal_strlit("再生ストリームのエラーを検出、作り直します");
        plain_texts_match(en.playback_rebuild, ja.playback_rebuild);
    }
    assert(matched(en.capture_rebuild, ja.capture_rebuild)) by {
        reveal_strlit("Capture stream error detected, rebuilding");
        reveal_strlit("録音ストリームのエラーを検出、作り直します");
        plain_texts_match(en.capture_rebuild, ja.capture_rebuild);
    }
    assert(matched(en.playback_rebuild_failed, ja.playback_rebuild_failed)) by {
        reveal_strlit("Failed to rebuild the playback stream: {0} (pick a device again in the audio settings)");
        reveal_strlit("再生ストリームの再作成に失敗: {0} (音声設定からデバイスを選び直してください)");
        let at = seq![39int];
        let to = seq![16int];
        assert(at[0] == 39);
        assert(to[0] == 16);
        marked_texts_match(
            en.playback_rebuild_failed,
            at,
            seq![0nat],
            ja.playback_rebuild_failed,
            to,
            seq![0nat],
        );
    }
    assert(matched(en.capture_rebuild_failed, ja.capture_rebuild_failed)) by {
        reveal_strlit("Failed to rebuild the capture stream: {0} (pick a device again in the audio settings)");
        reveal_strlit("録音ストリームの再作成に失敗: {0} (音声設定からデバイスを選び直してください)");
        let at = seq![38int];
        let to = seq![16int];
        assert(at[0] == 38);
        assert(to[0] == 16);
        marked_texts_match(
            en.capture_rebuild_failed,
            at,
            seq![0nat],
            ja.capture_rebuild_failed,
            to,
            seq![0nat],
        );
    }
}

proof fn api_lines_match(en: Texts, ja: Texts)
    requires
        en == english_texts(),
        ja == japanese_texts(),
    ensures
        matched(en.api_listening, ja.api_listening),
        matched(en.api_error, ja.api_error),
        matched(en.api_bind_failed, ja.api_bind_failed),
        matched(en.api_connect_req, ja.api_connect_req),
        matched(en.api_disconnect_req, ja.api_disconnect_req),
        matched(en.api_mute, ja.api_mute),
        matched(en.api_unknown_profile, ja.api_unknown_profile),
        matched(en.api_profile_incomplete, ja.api_profile_incomplete),
{
    assert(matched(en.api_listening, ja.api_listening)) by {
        reveal_strlit("StreamDeck API listening at {0}");
        reveal_strlit("StreamDeck用API待受中: {0}");
        let at = seq![28int];
        let to = seq![19int];
        assert(at[0] == 28);
        assert(to[0] == 19);
        marked_texts_match(
            en.api_listening,
            at,
            seq![0nat],
            ja.api_listening,
            to,
            seq![0nat],
        );
    }
    assert(matched(en.api_error, ja.api_error)) by {
        reveal_strlit("API server error: {0}");
        reveal_strlit("APIサーバエラー: {0}");
        let at = seq![18int];
        let to = seq![11int];
        assert(at[0] == 18);
        assert(to[0] == 11);
        marked_texts_match(
            en.api_error,
            at,
            seq![0nat],
            ja.api_error,
            to,
            seq![0nat],
        );
    }
    assert(matched(en.api_bind_failed, ja.api_bind_failed)) by {
        reveal_strlit("Failed to start the API server (port {0}): {1}");
        reveal_strlit("APIサーバの起動に失敗 (ポート{0}): {1}");
        let at = seq![37int, 43int];
        let to = seq![17int, 23int];
        assert(at[0] == 37 && at[1] == 43);
        assert(to[0] == 17 && to[1] == 23);
        marked_texts_match(
            en.api_bind_failed,
            at,
            seq![0nat, 1nat],
            ja.api_bind_failed,
            to,
            seq![0nat, 1nat],
        );
    }
    assert(matched(en.api_connect_req, ja.api_connect_req)) by {
        reveal_strlit("API: connect request ({0})");
        reveal_strlit("API: 接続要求 ({0})");
        let at = seq![22int];
        let to = seq![11int];
        assert(at[0] == 22);
        assert(to[0] == 11);
        marked_texts_match(
            en.api_connect_req,
            at,
            seq![0nat],
            ja.api_connect_req,
            to,
            seq![0nat],
        );
    }
    assert(matched(en.api_disconnect_req, ja.api_disconnect_req)) by {
        reveal_strlit("API: disconnect request");
        reveal_strlit("API: 切断要求");
        plain_texts_match(en.api_disconnect_req, ja.api_disconnect_req);
    }
    assert(matched(en.api_mute, ja.api_mute)) by {
        reveal_strlit("API: mute {0}");
        reveal_strlit("API: ミュート {0}");
        let at = seq![10int];
        let to = seq![10int];
        assert(at[0] == 10);
        assert(to[0] == 10);
        marked_texts_match(
            en.api_mute,
            at,
            seq![0nat],
            ja.api_mute,
            to,
            seq![0nat],
        );
    }
    assert(matched(en.api_unknown_profile, ja.api_unknown_profile)) by {
        reveal_strlit("API: connect request for unknown profile \"{0}\"");
        reveal_strlit("API: 未登録のプロファイル名「{0}」への接続要求");
        let at = seq![42int];
        let to = seq![17int];
        assert(at[0] == 42);
        assert(to[0] == 17);
        marked_texts_match(
            en.api_unknown_profile,
            at,
            seq![0nat],
            ja.api_unknown_profile,
            to,
            seq![0nat],
        );
    }
    assert(matched(en.api_profile_incomplete, ja.api_profile_incomplete)) by {
        reveal_strlit("API: profile \"{0}\" is missing an address or nickname");
        reveal_strlit("API: プロファイル「{0}」はアドレスまたはニックネームが未設定です");
        let at = seq![14int];
        let to = seq![12int];
        assert(at[0] == 14);
        assert(to[0] == 12);
        marked_texts_match(
            en.api_profile_incomplete,
            at,
            seq![0nat],
            ja.api_profile_incomplete,
            to,
            seq![0nat],
        );
    }
}

proof fn key_names_match(en: Texts, ja: Texts)
    requires
        en == english_texts(),
        ja == japanese_texts(),
    ensures
        matched(en.key_mouse_side1, ja.key_mouse_side1),
        matched(en.key_mouse_side2, ja.key_mouse_side2),
        matched(en.key_lshift, ja.key_lshift),
        matched(en.key_lctrl, ja.key_lctrl),
        matched(en.key_lalt, ja.key_lalt),
        matched(en.key_muhenkan, ja.key_muhenkan),
        matched(en.key_f12, ja.key_f12),
{
    assert(matched(en.key_mouse_side1, ja.key_mouse_side1)) by {
        reveal_strlit("Mouse Side 1");
        reveal_strlit("マウス サイド1");
        plain_texts_match(en.key_mouse_side1, ja.key_mouse_side1);
    }
    assert(matched(en.key_mouse_side2, ja.key_mouse_side2)) by {
        reveal_strlit("Mouse Side 2");
        reveal_strlit("マウス サイド2");
        plain_texts_match(en.key_mouse_side2, ja.key_mouse_side2);
    }
    assert(matched(en.key_lshift, ja.key_lshift)) by {
        reveal_strlit("Left Shift");
        reveal_strlit("左Shift");
        plain_texts_match(en.key_lshift, ja.key_lshift);
    }
    assert(matched(en.key_lctrl, ja.key_lctrl)) by {
        reveal_strlit("Left Ctrl");
        reveal_strlit("左Ctrl");
        plain_texts_match(en.key_lctrl, ja.key_lctrl);
    }
    assert(matched(en.key_lalt, ja.key_lalt)) by {
        reveal_strlit("Left Alt");
        reveal_strlit("左Alt");
        plain_texts_match(en.key_lalt, ja.key_lalt);
    }
    assert(matched(en.key_muhenkan, ja.key_muhenkan)) by {
        reveal_strlit("Muhenkan (JP key)");
        reveal_strlit("無変換");
        plain_texts_match(en.key_muhenkan, ja.key_muhenkan);
    }
    assert(matched(en.key_f12, ja.key_f12)) by {
        reveal_strlit("F12");
        reveal_strlit("F12");
        plain_texts_match(en.key_f12, ja.key_f12);
    }
}

/// No text is missing in either language, and a placeholder occurs in a text of one language
/// exactly when it occurs in that of the other.
pub proof fn languages_say_the_same_things()
    ensures
        texts_match(texts_of(Lang::En), texts_of(Lang::Ja)),
{
    let en = english_texts();
    let ja = japanese_texts();
    main_window_match(en, ja);
    settings_window_match(en, ja);
    tray_menu_match(en, ja);
    worker_lines_match(en, ja);
    audio_lines_match(en, ja);
    api_lines_match(en, ja);
    key_names_match(en, ja);
}

} // verus!
