use ts3_client::audio::VoiceMode;
use ts3_client::config::{
    Config, ConfigFile, LegacyServerEntry, Profile, DEFAULT_VAD_THRESHOLD,
};
use ts3_client::i18n::Lang;
use ts3_client::volumes::{is_default_volume, VolumeMap, FULL_VOLUME};

fn profile(name: &str, address: &str, nickname: &str) -> Profile {
    Profile {
        name: name.to_owned(),
        address: address.to_owned(),
        nickname: nickname.to_owned(),
    }
}

fn three_profiles() -> Config {
    Config {
        profiles: vec![profile("a", "1", "x"), profile("b", "2", "y"), profile("c", "3", "z")],
        selected_profile: 1,
        ..Config::default()
    }
}

fn names(config: &Config) -> Vec<&str> {
    config.profiles.iter().map(|p| p.name.as_str()).collect()
}

#[test]
fn defaults_of_a_first_start() {
    let config = Config::default();
    assert!(config.profiles.is_empty());
    assert_eq!(config.voice_mode, VoiceMode::Always);
    assert_eq!(f32::from_bits(config.vad_threshold_db), -40.0);
    assert_eq!(DEFAULT_VAD_THRESHOLD, (-40.0f32).to_bits());
    assert_eq!(config.ptt_vk, 0x05);
    assert_eq!(config.api_port, 9871);
    assert!(!config.auto_start);
    assert!(config.volumes.entries.is_empty());
    assert_eq!(config.language, None);
}

#[test]
fn first_start_makes_an_empty_profile() {
    for file in [ConfigFile::NoPlace, ConfigFile::Unreadable, ConfigFile::Malformed] {
        let config = Config::load(file);
        assert_eq!(names(&config), ["Profile1"]);
        assert_eq!(config.selected().address, "");
        assert_eq!(config.selected().nickname, "");
        assert_eq!(config.selected_profile, 0);
    }
}

#[test]
fn single_address_becomes_a_profile() {
    let old = Config {
        address: Some("host".to_owned()),
        nickname: "me".to_owned(),
        ..Config::default()
    };
    let config = Config::load(ConfigFile::Parsed(old));
    assert_eq!(names(&config), ["Profile1"]);
    assert_eq!(config.selected().address, "host");
    assert_eq!(config.selected().nickname, "me");
    assert_eq!(config.address, None);
    assert_eq!(config.nickname, "");
}

#[test]
fn servers_become_profiles_with_the_one_nickname() {
    let old = Config {
        servers: vec![
            LegacyServerEntry { name: "a".to_owned(), address: "1".to_owned() },
            LegacyServerEntry { name: "b".to_owned(), address: "2".to_owned() },
        ],
        selected_server: 1,
        nickname: "me".to_owned(),
        ..Config::default()
    };
    let config = Config::load(ConfigFile::Parsed(old));
    assert_eq!(names(&config), ["a", "b"]);
    assert_eq!(config.profiles[0].nickname, "me");
    assert_eq!(config.selected().name, "b");
    assert_eq!(config.selected().address, "2");
    assert_eq!(config.selected().nickname, "me");
    assert!(config.servers.is_empty());
}

#[test]
fn selection_past_the_end_is_corrected() {
    let config = Config { selected_profile: 9, ..three_profiles() };
    assert_eq!(config.selected().name, "c");
    let config = config.normalize();
    assert_eq!(config.selected_profile, 0);
    assert_eq!(config.selected().name, "a");
    let again = format!("{config:?}");
    assert_eq!(format!("{:?}", config.normalize()), again);
}

#[test]
fn saved_configuration_is_what_is_read() {
    let mut config = three_profiles();
    config.nickname = "old".to_owned();
    config.selected_server = 4;
    config.input_device = Some("mic".to_owned());
    config.change_volume("bob", 0.5f32.to_bits());
    config.choose_language(Lang::Ja);
    let file = config.save();
    assert_eq!(file.nickname, "");
    assert_eq!(file.selected_server, 0);
    let read = Config::load(ConfigFile::Parsed(file));
    assert_eq!(names(&read), ["a", "b", "c"]);
    assert_eq!(read.selected().name, "b");
    assert_eq!(read.input_device.as_deref(), Some("mic"));
    assert_eq!(read.volumes.get("bob"), Some(0.5f32.to_bits()));
    assert_eq!(read.language, Some(Lang::Ja));
}

#[test]
fn added_profile_is_numbered_and_keeps_the_nickname() {
    let mut config = three_profiles();
    config.add_profile();
    assert_eq!(names(&config), ["a", "b", "c", "Profile4"]);
    assert_eq!(config.profiles[3].nickname, "z");
    assert_eq!(config.profiles[3].address, "");
    assert_eq!(config.selected().name, "b");
}

#[test]
fn deleting_keeps_the_selected_profile() {
    let mut config = three_profiles();
    assert!(config.delete_profile(0));
    assert_eq!(config.selected().name, "b");
    assert_eq!(config.selected_profile, 0);
    assert!(config.delete_profile(1));
    assert_eq!(names(&config), ["b"]);
    assert!(!config.delete_profile(0));
    assert_eq!(names(&config), ["b"]);
    let mut config = Config { selected_profile: 2, ..three_profiles() };
    assert!(config.delete_profile(2));
    assert_eq!(config.selected().name, "b");
    assert!(!config.delete_profile(5));
    let mut config = three_profiles();
    assert!(config.delete_profile(1));
    assert_eq!(config.selected().name, "c");
}

#[test]
fn profiles_are_found_by_name() {
    let mut config = three_profiles();
    config.profiles.push(profile("b", "4", "w"));
    assert_eq!(config.find_profile("b"), Some(1));
    assert_eq!(config.find_profile("B"), None);
    assert!(config.select_profile(3));
    assert_eq!(config.selected().address, "4");
    assert!(!config.select_profile(3));
    assert!(!config.select_profile(4));
    assert_eq!(config.selected_profile, 3);
}

#[test]
fn settings_tell_whether_they_changed() {
    let mut config = Config::default();
    assert!(config.choose_voice_mode(VoiceMode::PushToTalk));
    assert!(!config.choose_voice_mode(VoiceMode::PushToTalk));
    assert!(config.choose_ptt_key(0x7b));
    assert!(!config.choose_ptt_key(0x7b));
    assert!(!config.choose_input_device(None));
    assert!(config.choose_input_device(Some("mic".to_owned())));
    assert!(!config.choose_input_device(Some("mic".to_owned())));
    assert!(config.choose_output_device(Some("out".to_owned())));
    assert!(config.choose_output_device(None));
    assert_eq!(config.input_device.as_deref(), Some("mic"));
    assert_eq!(config.output_device, None);
}

#[test]
fn default_volume_is_within_half_a_percent() {
    let mut volume = 0.9f32;
    while volume < 1.1 {
        assert_eq!(is_default_volume(volume.to_bits()), (volume - 1.0).abs() < 0.005, "{volume}");
        volume = f32::from_bits(volume.to_bits() + 1);
    }
    for volume in [0.0f32, -1.0, 2.0, 0.5, f32::NAN, f32::INFINITY] {
        assert_eq!(is_default_volume(volume.to_bits()), (volume - 1.0).abs() < 0.005);
    }
    assert_eq!(FULL_VOLUME, 1.0f32.to_bits());
}

#[test]
fn volumes_are_kept_by_name() {
    let mut volumes = VolumeMap::new();
    volumes.change("bob", 0.5f32.to_bits());
    volumes.change("eve", 1.5f32.to_bits());
    assert_eq!(volumes.get("bob"), Some(0.5f32.to_bits()));
    assert_eq!(volumes.level("nobody"), FULL_VOLUME);
    volumes.change("bob", 0.7f32.to_bits());
    assert_eq!(volumes.get("bob"), Some(0.7f32.to_bits()));
    assert_eq!(volumes.entries.len(), 2);
    volumes.change("bob", 1.0f32.to_bits());
    assert_eq!(volumes.get("bob"), None);
    assert_eq!(volumes.level("eve"), 1.5f32.to_bits());
}

#[test]
fn clone_of_a_configuration_is_the_same() {
    let mut config = three_profiles();
    config.servers.push(LegacyServerEntry { name: "a".to_owned(), address: "1".to_owned() });
    config.nickname = "old".to_owned();
    config.address = Some("host".to_owned());
    config.change_volume("bob", 0.5f32.to_bits());
    assert_eq!(format!("{:?}", config.clone()), format!("{config:?}"));
}
