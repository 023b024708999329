use ts3_client::i18n::{detect_os_lang, fill, fmt, lang, starting_lang, substitute, t, Current, Lang};
use ts3_client::text::{blank, in_order, number, replace, same_text, trim, white_space};
use ts3_client::texts::{english, japanese};

#[test]
fn placeholders_are_filled() {
    assert_eq!(fmt("Connecting to {0} as {1}", &["host", "me"]), "Connecting to host as me");
    assert_eq!(fmt("{1} before {0}", &["a", "b"]), "b before a");
    assert_eq!(fmt("{0}{0} and {0}", &["x"]), "xx and x");
    assert_eq!(fmt("{0} {2}", &["a", "b"]), "a {2}");
    assert_eq!(fmt("nothing", &["a"]), "nothing");
    assert_eq!(fmt("{0}", &[]), "{0}");
    assert_eq!(fill("Error: {0}", "down"), "Error: down");
}

#[test]
fn later_arguments_see_what_earlier_ones_brought() {
    assert_eq!(fmt("{0}", &["{1}", "x"]), "x");
    assert_eq!(fmt("{1}", &["x", "{0}"]), "{0}");
}

#[test]
fn substituted_arguments_are_written_as_they_are() {
    assert_eq!(substitute("{0} and {1}", &["{1}", "{0}"]), "{1} and {0}");
    assert_eq!(substitute("{1}{0}{1}", &["a", "b"]), "bab");
    assert_eq!(substitute("{2} {0}}", &["a"]), "{2} a}");
    assert_eq!(substitute("plain", &["a"]), "plain");
    assert_eq!(substitute("{0}", &[]), "{0}");
    assert_eq!(substitute("{{0}", &["{0}"]), "{{0}");
}

#[test]
fn eleventh_argument_has_two_digits() {
    let args = ["a", "b", "c", "d", "e", "f", "g", "h", "i", "j", "k"];
    assert_eq!(fmt("{10}{1}{0}", &args), "kba");
}

#[test]
fn language_set_is_the_language_in_force() {
    let mut current = Current { code: 0 };
    assert_eq!(lang(current), Lang::En);
    ts3_client::i18n::set(&mut current, Lang::Ja);
    assert_eq!(lang(current), Lang::Ja);
    assert_eq!(t(current).connect, "接続");
    ts3_client::i18n::set(&mut current, Lang::En);
    assert_eq!(lang(current), Lang::En);
    assert_eq!(t(current).connect, "Connect");
    assert_eq!(lang(Current { code: 7 }), Lang::En);
}

#[test]
fn japanese_systems_are_told_by_the_primary_language() {
    assert_eq!(detect_os_lang(0x0411), Lang::Ja);
    assert_eq!(detect_os_lang(0x0011), Lang::Ja);
    assert_eq!(detect_os_lang(0x0409), Lang::En);
    assert_eq!(detect_os_lang(0x0412), Lang::En);
}

#[test]
fn session_language_comes_before_the_configured_one() {
    assert_eq!(starting_lang(Some(Lang::En), Some(Lang::Ja), Lang::Ja), Lang::En);
    assert_eq!(starting_lang(None, Some(Lang::En), Lang::Ja), Lang::En);
    assert_eq!(starting_lang(None, None, Lang::Ja), Lang::Ja);
}

#[test]
fn texts_of_the_two_languages() {
    let en = english();
    let ja = japanese();
    assert_eq!(en.reconnect_in, "Reconnecting in {0}s ({1}/{2})");
    assert_eq!(ja.reconnect_in, "{0}秒後に再接続します ({1}/{2})");
    assert_eq!(en.api_hint, "Connect by name from StreamDeck: /api/connect/<profile name>");
    assert_eq!(ja.connecting_to, "{0} に {1} として接続します");
    assert_eq!(ja.already_connected, "すでに接続中です。先に切断してください");
    assert_eq!(ja.handshake_timeout_log, "接続タイムアウト: サーバからの応答がありません");
    assert_eq!(ja.api_profile_incomplete, "API: プロファイル「{0}」はアドレスまたはニックネームが未設定です");
    assert_eq!(ja.key_muhenkan, "無変換");
}

#[test]
fn white_space_is_that_of_unicode() {
    for code in 0..=0x10ffffu32 {
        if let Some(c) = char::from_u32(code) {
            assert_eq!(white_space(c), c.is_whitespace(), "{code:x}");
        }
    }
}

#[test]
fn trimming_takes_white_space_off_both_ends() {
    for text in ["", " ", "a", " a b ", "\t\u{3000}名前\n", "a\u{a0}"] {
        assert_eq!(trim(text), text.trim());
        assert_eq!(trim(&trim(text)), trim(text));
        assert_eq!(blank(text), text.trim().is_empty());
    }
}

#[test]
fn numbers_are_written_in_decimal() {
    for n in [0, 9, 10, 99, 100, 9871, u64::MAX] {
        assert_eq!(number(n), n.to_string());
    }
}

#[test]
fn replacing_finds_occurrences_from_the_left() {
    for (text, pattern, by) in
        [("aaa", "aa", "b"), ("abcabc", "bc", ""), ("x", "y", "z"), ("", "a", "b"), ("{0}{0}", "{0}", "{0}")]
    {
        assert_eq!(replace(text, pattern, by), text.replace(pattern, by));
    }
}

#[test]
fn texts_are_ordered_like_strings() {
    let names = ["", "A", "Zoe", "a", "ab", "b", "あ", "名前", "😀"];
    for a in names {
        for b in names {
            assert_eq!(in_order(a, b), a <= b, "{a} {b}");
            assert_eq!(same_text(a, b), a == b);
        }
    }
}

#[test]
fn languages_use_the_same_placeholders() {
    let pairs = [
        (english().connecting_to, japanese().connecting_to),
        (english().reconnect_in, japanese().reconnect_in),
        (english().playback_device, japanese().playback_device),
        (english().api_bind_failed, japanese().api_bind_failed),
        (english().volume_of, japanese().volume_of),
        (english().tray_exit, japanese().tray_exit),
    ];
    for (en, ja) in pairs {
        assert!(!en.is_empty() && !ja.is_empty());
        for n in 0..10 {
            let placeholder = format!("{{{n}}}");
            assert_eq!(en.contains(&placeholder), ja.contains(&placeholder), "{en}");
        }
    }
}
