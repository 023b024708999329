//! The configuration: profiles to connect with, audio devices, volumes and the rest.
//!
//! It is kept in a file. When there is none, or it cannot be read or parsed, the program starts with
//! the defaults.

use crate::audio::VoiceMode;
use crate::i18n::Lang;
use crate::ordering::views;
use crate::text::{decimal, number, same_text};
use crate::volumes::{volume_changed, VolumeMap};
use vstd::prelude::*;

verus! {

/// A server to connect to and the nickname to use there.
#[derive(Debug)]
pub struct Profile {
    /// What the profile goes by in the interface and the HTTP API.
    pub name: String,
    pub address: String,
    pub nickname: String,
}

pub struct ProfileView {
    pub name: Seq<char>,
    pub address: Seq<char>,
    pub nickname: Seq<char>,
}

impl View for Profile {
    type V = ProfileView;

    open spec fn view(&self) -> ProfileView {
        ProfileView { name: self.name@, address: self.address@, nickname: self.nickname@ }
    }
}

impl Clone for Profile {
    fn clone(&self) -> (profile: Profile)
        ensures
            profile@ == self@,
    {
        Profile {
            name: self.name.clone(),
            address: self.address.clone(),
            nickname: self.nickname.clone(),
        }
    }
}

/// A server in the older file format, in which one nickname served for all of them.
#[derive(Debug)]
pub struct LegacyServerEntry {
    pub name: String,
    pub address: String,
}

pub struct LegacyServerEntryView {
    pub name: Seq<char>,
    pub address: Seq<char>,
}

impl View for LegacyServerEntry {
    type V = LegacyServerEntryView;

    open spec fn view(&self) -> LegacyServerEntryView {
        LegacyServerEntryView { name: self.name@, address: self.address@ }
    }
}

impl Clone for LegacyServerEntry {
    fn clone(&self) -> (server: LegacyServerEntry)
        ensures
            server@ == self@,
    {
        LegacyServerEntry { name: self.name.clone(), address: self.address.clone() }
    }
}

#[derive(Debug)]
pub struct Config {
    pub profiles: Vec<Profile>,
    pub selected_profile: usize,
    // The next four are read from files in older formats and never written.
    pub servers: Vec<LegacyServerEntry>,
    pub selected_server: usize,
    pub nickname: String,
    pub address: Option<String>,
    /// Without a name, the default device.
    pub input_device: Option<String>,
    pub output_device: Option<String>,
    pub voice_mode: VoiceMode,
    /// The threshold of voice activation in dBFS, a single-precision number held by its bit
    /// pattern.
    pub vad_threshold_db: u32,
    /// The push-to-talk key, as a Windows virtual key code.
    pub ptt_vk: i32,
    /// The port of the local HTTP API.
    pub api_port: u16,
    /// Whether to start with Windows, in the tray.
    pub auto_start: bool,
    /// Playback volumes by nickname.
    pub volumes: VolumeMap,
    /// The interface language; without one, that of the operating system.
    pub language: Option<Lang>,
}

pub struct ConfigView {
    pub profiles: Seq<ProfileView>,
    pub selected_profile: nat,
    pub servers: Seq<LegacyServerEntryView>,
    pub selected_server: nat,
    pub nickname: Seq<char>,
    pub address: Option<Seq<char>>,
    pub input_device: Option<Seq<char>>,
    pub output_device: Option<Seq<char>>,
    pub voice_mode: VoiceMode,
    pub vad_threshold_db: u32,
    pub ptt_vk: i32,
    pub api_port: u16,
    pub auto_start: bool,
    pub volumes: Map<Seq<char>, u32>,
    pub language: Option<Lang>,
}

/// The characters of a text that may be absent.
pub open spec fn optional_text(text: Option<String>) -> Option<Seq<char>> {
    match text {
        Some(text) => Some(text@),
        None => None,
    }
}

impl View for Config {
    type V = ConfigView;

    open spec fn view(&self) -> ConfigView {
        ConfigView {
            profiles: views(self.profiles@),
            selected_profile: self.selected_profile as nat,
            servers: views(self.servers@),
            selected_server: self.selected_server as nat,
            nickname: self.nickname@,
            address: optional_text(self.address),
            input_device: optional_text(self.input_device),
            output_device: optional_text(self.output_device),
            voice_mode: self.voice_mode,
            vad_threshold_db: self.vad_threshold_db,
            ptt_vk: self.ptt_vk,
            api_port: self.api_port,
            auto_start: self.auto_start,
            volumes: self.volumes@,
            language: self.language,
        }
    }
}

impl ConfigView {
    /// At least one profile, and the selection among them.
    pub open spec fn is_valid(self) -> bool {
        &&& self.profiles.len() > 0
        &&& self.selected_profile < self.profiles.len()
    }

    /// The profile that is selected; a selection past the end means the last one.
    pub open spec fn selected(self) -> ProfileView {
        if self.selected_profile < self.profiles.len() {
            self.profiles[self.selected_profile as int]
        } else {
            self.profiles.last()
        }
    }

    /// Brought over from an older format where there are no profiles yet.
    pub open spec fn migrated(self) -> ConfigView {
        if self.profiles.len() > 0 {
            self
        } else if self.servers.len() > 0 {
            ConfigView {
                profiles: self.servers.map_values(
                    |s: LegacyServerEntryView|
                        ProfileView {
                            name: s.name,
                            address: s.address,
                            nickname: self.nickname,
                        },
                ),
                selected_profile: self.selected_server,
                servers: Seq::empty(),
                nickname: Seq::empty(),
                ..self
            }
        } else {
            ConfigView {
                profiles: seq![
                    ProfileView {
                        name: "Profile1"@,
                        address: match self.address {
                            Some(address) => address,
                            None => Seq::empty(),
                        },
                        nickname: self.nickname,
                    },
                ],
                address: None,
                nickname: Seq::empty(),
                ..self
            }
        }
    }

    /// Brought over from an older format and with a selection that exists.
    pub open spec fn normalized(self) -> ConfigView {
        let c = self.migrated();
        if c.selected_profile < c.profiles.len() {
            c
        } else {
            ConfigView { selected_profile: 0, ..c }
        }
    }

    /// What a file that is written now holds: everything but what only older formats have.
    pub open spec fn saved(self) -> ConfigView {
        ConfigView {
            servers: Seq::empty(),
            selected_server: 0,
            nickname: Seq::empty(),
            address: None,
            ..self
        }
    }

    /// With one more profile, numbered, that goes by the nickname of the last one.
    pub open spec fn with_new_profile(self) -> ConfigView {
        let profile = ProfileView {
            name: "Profile"@ + decimal(self.profiles.len() + 1),
            address: Seq::empty(),
            nickname: if self.profiles.len() > 0 {
                self.profiles.last().nickname
            } else {
                Seq::empty()
            },
        };
        ConfigView { profiles: self.profiles.push(profile), ..self }
    }

    /// Without the profile at `i`, the selection moved along.
    pub open spec fn without_profile(self, i: int) -> ConfigView {
        let left = self.profiles.len() - 1;
        ConfigView {
            profiles: self.profiles.remove(i),
            selected_profile: if i < self.selected_profile {
                (self.selected_profile - 1) as nat
            } else if self.selected_profile >= left {
                (left - 1) as nat
            } else {
                self.selected_profile
            },
            ..self
        }
    }
}

/// The configuration of a first start. It has no profile yet: bringing it in order adds one.
pub open spec fn default_config() -> ConfigView {
    ConfigView {
        profiles: Seq::empty(),
        selected_profile: 0,
        servers: Seq::empty(),
        selected_server: 0,
        nickname: Seq::empty(),
        address: None,
        input_device: None,
        output_device: None,
        voice_mode: VoiceMode::Always,
        vad_threshold_db: DEFAULT_VAD_THRESHOLD,
        ptt_vk: 0x05,
        api_port: 9871,
        auto_start: false,
        volumes: Map::empty(),
        language: None,
    }
}

/// The bit pattern of -40.
pub const DEFAULT_VAD_THRESHOLD: u32 = 0xc220_0000;

/// What came of looking for the configuration file.
#[derive(Debug)]
pub enum ConfigFile {
    /// There is no place for configuration files.
    NoPlace,
    /// There is no such file, or it cannot be read.
    Unreadable,
    /// The file is not a configuration.
    Malformed,
    Parsed(Config),
}

/// The configuration that a file holds, or the defaults.
pub open spec fn file_contents(file: ConfigFile) -> ConfigView {
    match file {
        ConfigFile::Parsed(config) => config@,
        _ => default_config(),
    }
}

impl Default for Config {
    fn default() -> (config: Config)
        ensures
            config@ == default_config(),
    {
        let config = Config {
            profiles: Vec::new(),
            selected_profile: 0,
            servers: Vec::new(),
            selected_server: 0,
            nickname: String::new(),
            address: None,
            input_device: None,
            output_device: None,
            voice_mode: VoiceMode::Always,
            vad_threshold_db: DEFAULT_VAD_THRESHOLD,
            ptt_vk: 0x05,  // the first side button of the mouse
            api_port: 9871,
            auto_start: false,
            volumes: VolumeMap::new(),
            language: None,
        };
        proof {
            assert(config@.profiles =~= Seq::empty());
            assert(config@.servers =~= Seq::empty());
        }
        config
    }
}

/// The profiles of a file in the older format.
fn profiles_of_servers(servers: &Vec<LegacyServerEntry>, nickname: &String) -> (profiles: Vec<
    Profile,
>)
    ensures
        views(profiles@) == views(servers@).map_values(
            |s: LegacyServerEntryView|
                ProfileView { name: s.name, address: s.address, nickname: nickname@ },
        ),
{
    let mut profiles: Vec<Profile> = Vec::new();
    let n: usize = servers.len();
    let mut i: usize = 0;
    while i < n
        invariant
            n == servers@.len(),
            i <= n,
            profiles@.len() == i,
            forall|j: int|
                0 <= j < i ==> (#[trigger] profiles@[j])@ == (ProfileView {
                    name: servers@[j].name@,
                    address: servers@[j].address@,
                    nickname: nickname@,
                }),
        decreases n - i,
    {
        profiles.push(
            Profile {
                name: servers[i].name.clone(),
                address: servers[i].address.clone(),
                nickname: nickname.clone(),
            },
        );
        i = i + 1;
    }
    proof {
        assert(views(profiles@) =~= views(servers@).map_values(
            |s: LegacyServerEntryView|
                ProfileView { name: s.name, address: s.address, nickname: nickname@ },
        ));
    }
    profiles
}

/// A copy of a text that may be absent.
pub fn copied(text: &Option<String>) -> (copy: Option<String>)
    ensures
        optional_text(copy) == optional_text(*text),
{
    match text {
        Some(text) => Some(text.clone()),
        None => None,
    }
}

fn copied_profiles(profiles: &Vec<Profile>) -> (copy: Vec<Profile>)
    ensures
        views(copy@) == views(profiles@),
{
    let mut copy: Vec<Profile> = Vec::new();
    let n: usize = profiles.len();
    let mut i: usize = 0;
    while i < n
        invariant
            n == profiles@.len(),
            i <= n,
            copy@.len() == i,
            forall|j: int| 0 <= j < i ==> (#[trigger] copy@[j])@ == profiles@[j]@,
        decreases n - i,
    {
        copy.push(profiles[i].clone());
        i = i + 1;
    }
    proof {
        assert(views(copy@) =~= views(profiles@));
    }
    copy
}

fn copied_servers(servers: &Vec<LegacyServerEntry>) -> (copy: Vec<LegacyServerEntry>)
    ensures
        views(copy@) == views(servers@),
{
    let mut copy: Vec<LegacyServerEntry> = Vec::new();
    let n: usize = servers.len();
    let mut i: usize = 0;
    while i < n
        invariant
            n == servers@.len(),
            i <= n,
            copy@.len() == i,
            forall|j: int| 0 <= j < i ==> (#[trigger] copy@[j])@ == servers@[j]@,
        decreases n - i,
    {
        copy.push(servers[i].clone());
        i = i + 1;
    }
    proof {
        assert(views(copy@) =~= views(servers@));
    }
    copy
}

impl Clone for Config {
    fn clone(&self) -> (config: Config)
        ensures
            config@ == self@,
    {
        Config {
            profiles: copied_profiles(&self.profiles),
            selected_profile: self.selected_profile,
            servers: copied_servers(&self.servers),
            selected_server: self.selected_server,
            nickname: self.nickname.clone(),
            address: copied(&self.address),
            input_device: copied(&self.input_device),
            output_device: copied(&self.output_device),
            voice_mode: self.voice_mode,
            vad_threshold_db: self.vad_threshold_db,
            ptt_vk: self.ptt_vk,
            api_port: self.api_port,
            auto_start: self.auto_start,
            volumes: self.volumes.clone(),
            language: self.language,
        }
    }
}

/// Changes which device is used; no name means the default one. Tells whether that is a change.
fn choose_device(device: &mut Option<String>, choice: Option<String>) -> (changed: bool)
    ensures
        changed == (optional_text(*old(device)) != optional_text(choice)),
        optional_text(*final(device)) == optional_text(choice),
{
    let same = match (&*device, &choice) {
        (Some(a), Some(b)) => same_text(a.as_str(), b.as_str()),
        (None, None) => true,
        _ => false,
    };
    if same {
        false
    } else {
        *device = choice;
        true
    }
}

impl Config {
    /// The configuration to start with.
    pub fn load(file: ConfigFile) -> (config: Config)
        ensures
            config@ == file_contents(file).normalized(),
            config@.is_valid(),
            file matches ConfigFile::Parsed(read) ==> config@ == read@.normalized(),
            file matches ConfigFile::Parsed(read) ==> (read.selected_profile < read.profiles@.len()
                ==> config@ == read@),
    {
        match file {
            ConfigFile::Parsed(config) => config.normalize(),
            _ => Config::default().normalize(),
        }
    }

    /// Brings a configuration over from older formats and corrects what cannot be.
    pub fn normalize(self) -> (config: Config)
        ensures
            config@ == self@.normalized(),
            config@.is_valid(),
            config.profiles@.len() > 0 && config.selected_profile < config.profiles@.len(),
            self.selected_profile < self.profiles@.len() ==> config@ == self@,
    {
        let ghost given = self@;
        let mut config = self;
        if config.profiles.len() == 0 {
            let nickname = config.nickname;
            config.nickname = String::new();
            if config.servers.len() > 0 {
                config.profiles = profiles_of_servers(&config.servers, &nickname);
                config.servers = Vec::new();
                config.selected_profile = config.selected_server;
                proof {
                    assert(config@.servers =~= Seq::empty());
                    assert(config@.profiles =~= given.migrated().profiles);
                    assert(config@ == given.migrated());
                }
            } else {
                let address = match config.address {
                    Some(address) => address,
                    None => String::new(),
                };
                config.address = None;
                config.profiles.push(
                    Profile { name: "Profile1".to_owned(), address, nickname },
                );
                proof {
                    assert(config@.profiles =~= given.migrated().profiles);
                    assert(config@ == given.migrated());
                }
            }
        }
        if config.selected_profile >= config.profiles.len() {
            config.selected_profile = 0;
        }
        config
    }

    /// The profile that is selected.
    pub fn selected(&self) -> (profile: &Profile)
        requires
            self@.profiles.len() > 0,
        ensures
            profile@ == self@.selected(),
    {
        let last: usize = self.profiles.len() - 1;
        if self.selected_profile < last {
            &self.profiles[self.selected_profile]
        } else {
            &self.profiles[last]
        }
    }

    /// The configuration as it is written to the file.
    pub fn save(&self) -> (file: Config)
        ensures
            file@ == self@.saved(),
    {
        let mut file = self.clone();
        file.servers = Vec::new();
        file.selected_server = 0;
        file.nickname = String::new();
        file.address = None;
        proof {
            assert(file@.servers =~= Seq::empty());
        }
        file
    }

    /// The position of the first profile that goes by `name`.
    pub fn find_profile(&self, name: &str) -> (found: Option<usize>)
        ensures
            match found {
                Some(i) => i < self@.profiles.len() && self@.profiles[i as int].name == name@
                    && forall|j: int|
                    0 <= j < i ==> (#[trigger] self@.profiles[j]).name != name@,
                None => forall|j: int|
                    0 <= j < self@.profiles.len() ==> (#[trigger] self@.profiles[j]).name != name@,
            },
    {
        let n: usize = self.profiles.len();
        let mut i: usize = 0;
        while i < n
            invariant
                n == self.profiles@.len(),
                i <= n,
                forall|j: int| 0 <= j < i ==> (#[trigger] self@.profiles[j]).name != name@,
            decreases n - i,
        {
            proof {
                assert(self@.profiles[i as int] == self.profiles@[i as int]@);
            }
            if same_text(self.profiles[i].name.as_str(), name) {
                return Some(i);
            }
            i = i + 1;
        }
        None
    }

    /// Selects the profile at `i`. Tells whether that is a change.
    pub fn select_profile(&mut self, i: usize) -> (changed: bool)
        ensures
            changed == (i < old(self)@.profiles.len() && i != old(self)@.selected_profile),
            final(self)@ == (if changed {
                ConfigView { selected_profile: i as nat, ..old(self)@ }
            } else {
                old(self)@
            }),
    {
        if i < self.profiles.len() && i != self.selected_profile {
            self.selected_profile = i;
            true
        } else {
            false
        }
    }

    /// Adds a numbered profile that takes over the nickname of the last one.
    pub fn add_profile(&mut self)
        requires
            old(self)@.profiles.len() < usize::MAX,
        ensures
            final(self)@ == old(self)@.with_new_profile(),
    {
        let count: usize = self.profiles.len();
        let nickname = if count > 0 {
            self.profiles[count - 1].nickname.clone()
        } else {
            String::new()
        };
        let mut name = "Profile".to_owned();
        name.append(number((count + 1) as u64).as_str());
        self.profiles.push(Profile { name, address: String::new(), nickname });
        proof {
            assert(self@.profiles =~= old(self)@.with_new_profile().profiles);
        }
    }

    /// Removes the profile at `i`, but never the last one left. Tells whether it was removed.
    pub fn delete_profile(&mut self, i: usize) -> (deleted: bool)
        ensures
            deleted == (old(self)@.profiles.len() > 1 && i < old(self)@.profiles.len()),
            final(self)@ == (if deleted {
                old(self)@.without_profile(i as int)
            } else {
                old(self)@
            }),
    {
        if self.profiles.len() <= 1 || i >= self.profiles.len() {
            return false;
        }
        let _removed = self.profiles.remove(i);
        if i < self.selected_profile {
            self.selected_profile = self.selected_profile - 1;
        } else if self.selected_profile >= self.profiles.len() {
            self.selected_profile = self.profiles.len() - 1;
        }
        proof {
            assert(self@.profiles =~= old(self)@.profiles.remove(i as int));
        }
        true
    }

    /// Chooses the input device. Tells whether that is a change.
    pub fn choose_input_device(&mut self, choice: Option<String>) -> (changed: bool)
        ensures
            changed == (old(self)@.input_device != optional_text(choice)),
            final(self)@ == (ConfigView { input_device: optional_text(choice), ..old(self)@ }),
    {
        choose_device(&mut self.input_device, choice)
    }

    /// Chooses the output device. Tells whether that is a change.
    pub fn choose_output_device(&mut self, choice: Option<String>) -> (changed: bool)
        ensures
            changed == (old(self)@.output_device != optional_text(choice)),
            final(self)@ == (ConfigView { output_device: optional_text(choice), ..old(self)@ }),
    {
        choose_device(&mut self.output_device, choice)
    }

    /// Chooses when the microphone is sent. Tells whether that is a change.
    pub fn choose_voice_mode(&mut self, mode: VoiceMode) -> (changed: bool)
        ensures
            changed == (old(self)@.voice_mode != mode),
            final(self)@ == (ConfigView { voice_mode: mode, ..old(self)@ }),
    {
        let changed = self.voice_mode != mode;
        self.voice_mode = mode;
        changed
    }

    /// Chooses the push-to-talk key. Tells whether that is a change.
    pub fn choose_ptt_key(&mut self, vk: i32) -> (changed: bool)
        ensures
            changed == (old(self)@.ptt_vk != vk),
            final(self)@ == (ConfigView { ptt_vk: vk, ..old(self)@ }),
    {
        let changed = self.ptt_vk != vk;
        self.ptt_vk = vk;
        changed
    }

    /// Chooses the interface language.
    pub fn choose_language(&mut self, lang: Lang)
        ensures
            final(self)@ == (ConfigView { language: Some(lang), ..old(self)@ }),
    {
        self.language = Some(lang);
    }

    /// Remembers a change of volume.
    pub fn change_volume(&mut self, name: &str, volume: u32)
        ensures
            final(self)@ == (ConfigView {
                volumes: volume_changed(old(self)@.volumes, name@, volume),
                ..old(self)@
            }),
    {
        self.volumes.change(name, volume);
    }
}

/// Whatever the file is like, the configuration to start with has a profile and selects one.
pub proof fn started_configuration_is_valid(file: ConfigFile)
    ensures
        file_contents(file).normalized().is_valid(),
{
}

/// A configuration in order is left as it is, so bringing one in order twice does no more than
/// once.
pub proof fn normalizing_is_idempotent(config: ConfigView)
    ensures
        config.is_valid() ==> config.normalized() == config,
        config.normalized().normalized() == config.normalized(),
{
}

/// What is saved is what is read back: starting from the written file gives every setting as it
/// was.
pub proof fn saved_configuration_is_read_back(config: ConfigView)
    requires
        config.is_valid(),
    ensures
        config.saved().normalized() == config.saved(),
        config.saved().profiles == config.profiles,
        config.saved().selected_profile == config.selected_profile,
        config.saved().selected() == config.selected(),
        config.saved().input_device == config.input_device,
        config.saved().output_device == config.output_device,
        config.saved().voice_mode == config.voice_mode,
        config.saved().vad_threshold_db == config.vad_threshold_db,
        config.saved().ptt_vk == config.ptt_vk,
        config.saved().api_port == config.api_port,
        config.saved().auto_start == config.auto_start,
        config.saved().volumes == config.volumes,
        config.saved().language == config.language,
        config.saved().saved() == config.saved(),
{
}

/// Servers of the older format become profiles one for one, all with the one nickname, and the
/// selected server becomes the selected profile.
pub proof fn servers_become_profiles(config: ConfigView, i: int)
    requires
        config.profiles.len() == 0,
        0 <= i < config.servers.len(),
    ensures
        config.normalized().profiles.len() == config.servers.len(),
        config.normalized().profiles[i].name == config.servers[i].name,
        config.normalized().profiles[i].address == config.servers[i].address,
        config.normalized().profiles[i].nickname == config.nickname,
        config.selected_server < config.servers.len()
            ==> config.normalized().selected_profile == config.selected_server,
{
}

/// Adding a profile keeps the configuration valid and the selection where it is.
pub proof fn adding_a_profile_keeps_the_selection(config: ConfigView)
    requires
        config.is_valid(),
    ensures
        config.with_new_profile().is_valid(),
        config.with_new_profile().selected() == config.selected(),
{
}

/// Deleting one of several profiles keeps the configuration valid. The selected profile stays
/// selected, unless it is the one deleted.
pub proof fn deleting_a_profile_keeps_the_selection(config: ConfigView, i: int)
    requires
        config.is_valid(),
        config.profiles.len() > 1,
        0 <= i < config.profiles.len(),
    ensures
        config.without_profile(i).is_valid(),
        config.without_profile(i).profiles.len() == config.profiles.len() - 1,
        i != config.selected_profile ==> config.without_profile(i).selected() == config.selected(),
{
}

/// A file whose selection exists is loaded as it is, every setting and every profile; so what was
/// saved of a valid configuration comes back.
pub proof fn valid_file_is_loaded_as_it_is(file: ConfigFile, read: Config)
    requires
        file == ConfigFile::Parsed(read),
        0 <= read.selected_profile < read.profiles@.len(),
    ensures
        ({
            let loaded = file_contents(file).normalized();
            &&& loaded == read@
            &&& loaded.profiles == read.profiles@.map_values(|p: Profile| p@)
            &&& loaded.selected_profile == read.selected_profile
            &&& loaded.selected() == read.profiles@[read.selected_profile as int]@
            &&& loaded.input_device == optional_text(read.input_device)
            &&& loaded.output_device == optional_text(read.output_device)
            &&& loaded.voice_mode == read.voice_mode
            &&& loaded.vad_threshold_db == read.vad_threshold_db
            &&& loaded.ptt_vk == read.ptt_vk
            &&& loaded.api_port == read.api_port
            &&& loaded.auto_start == read.auto_start
            &&& loaded.volumes == read.volumes@
            &&& loaded.language == read.language
            &&& loaded.servers == read.servers@.map_values(|s: LegacyServerEntry| s@)
            &&& loaded.selected_server == read.selected_server
            &&& loaded.nickname == read.nickname@
            &&& loaded.address == optional_text(read.address)
        }),
{
    assert(views(read.profiles@) =~= read.profiles@.map_values(|p: Profile| p@));
    assert(views(read.servers@) =~= read.servers@.map_values(|s: LegacyServerEntry| s@));
}

/// Saving a configuration whose selection exists and loading what was saved gives every profile,
/// the selection and every setting back, and nothing of older formats.
pub proof fn saving_and_loading_gives_it_back(config: Config, saved: Config, file: ConfigFile)
    requires
        0 <= config.selected_profile < config.profiles@.len(),
        saved@ == config@.saved(),
        file == ConfigFile::Parsed(saved),
    ensures
        ({
            let loaded = file_contents(file).normalized();
            &&& loaded.profiles == config.profiles@.map_values(|p: Profile| p@)
            &&& loaded.selected_profile == config.selected_profile
            &&& loaded.input_device == optional_text(config.input_device)
            &&& loaded.output_device == optional_text(config.output_device)
            &&& loaded.voice_mode == config.voice_mode
            &&& loaded.vad_threshold_db == config.vad_threshold_db
            &&& loaded.ptt_vk == config.ptt_vk
            &&& loaded.api_port == config.api_port
            &&& loaded.auto_start == config.auto_start
            &&& loaded.volumes == config.volumes@
            &&& loaded.language == config.language
            &&& loaded.servers.len() == 0
            &&& loaded.selected_server == 0
            &&& loaded.nickname.len() == 0
            &&& loaded.address is None
        }),
{
    assert(views(config.profiles@) =~= config.profiles@.map_values(|p: Profile| p@));
}

/// Bringing a configuration in order touches no setting: only the profiles, the selection and what
/// older formats hold can change, and where there are profiles only a selection that does not exist.
pub proof fn settings_survive_normalizing(config: ConfigView)
    ensures
        ({
            let c = config.normalized();
            &&& c.input_device == config.input_device
            &&& c.output_device == config.output_device
            &&& c.voice_mode == config.voice_mode
            &&& c.vad_threshold_db == config.vad_threshold_db
            &&& c.ptt_vk == config.ptt_vk
            &&& c.api_port == config.api_port
            &&& c.auto_start == config.auto_start
            &&& c.volumes == config.volumes
            &&& c.language == config.language
            &&& c.profiles.len() > 0
            &&& c.selected_profile < c.profiles.len()
            &&& config.profiles.len() > 0 ==> {
                &&& c.profiles == config.profiles
                &&& c.selected_profile == (if config.selected_profile < config.profiles.len() {
                    config.selected_profile
                } else {
                    0
                })
                &&& c.servers == config.servers
                &&& c.selected_server == config.selected_server
                &&& c.nickname == config.nickname
                &&& c.address == config.address
            }
        }),
{
}

/// Without profiles the servers of an older file become the profiles, in order and under the one
/// nickname; without servers there is one profile with the single address of a still older file, or
/// none.
pub proof fn older_files_give_profiles(config: ConfigView)
    requires
        config.profiles.len() == 0,
    ensures
        ({
            let c = config.normalized();
            &&& config.servers.len() > 0 ==> {
                &&& c.profiles.len() == config.servers.len()
                &&& forall|i: int|
                    0 <= i < config.servers.len() ==> (#[trigger] c.profiles[i]) == (ProfileView {
                        name: config.servers[i].name,
                        address: config.servers[i].address,
                        nickname: config.nickname,
                    })
                &&& c.selected_profile == (if config.selected_server < config.servers.len() {
                    config.selected_server
                } else {
                    0
                })
            }
            &&& config.servers.len() == 0 ==> {
                &&& c.profiles.len() == 1
                &&& c.profiles[0].name == "Profile1"@
                &&& c.profiles[0].nickname == config.nickname
                &&& config.address matches Some(address) ==> c.profiles[0].address == address
                &&& config.address is None ==> c.profiles[0].address.len() == 0
                &&& c.selected_profile == 0
            }
        }),
{
}

/// A first start, or a file that cannot be used, gives one empty profile and the default settings.
pub proof fn unusable_file_gives_the_defaults(file: ConfigFile)
    requires
        !(file is Parsed),
    ensures
        ({
            let c = file_contents(file).normalized();
            &&& c.profiles.len() == 1
            &&& c.profiles[0].name == "Profile1"@
            &&& c.profiles[0].address.len() == 0
            &&& c.profiles[0].nickname.len() == 0
            &&& c.selected_profile == 0
            &&& c.input_device is None
            &&& c.output_device is None
            &&& c.voice_mode == VoiceMode::Always
            &&& c.vad_threshold_db == 0xc220_0000
            &&& c.ptt_vk == 0x05
            &&& c.api_port == 9871
            &&& !c.auto_start
            &&& c.volumes == Map::<Seq<char>, u32>::empty()
            &&& c.language is None
        }),
{
}

/// Adding a profile puts one at the end: numbered, without an address, under the nickname of the one
/// before. Nothing else changes.
pub proof fn added_profile_comes_last(config: ConfigView)
    ensures
        ({
            let c = config.with_new_profile();
            let n = config.profiles.len();
            &&& c.profiles.len() == n + 1
            &&& forall|i: int| 0 <= i < n ==> #[trigger] c.profiles[i] == config.profiles[i]
            &&& c.profiles[n as int].name == "Profile"@ + decimal(n + 1)
            &&& c.profiles[n as int].address.len() == 0
            &&& n > 0 ==> c.profiles[n as int].nickname == config.profiles[n - 1].nickname
            &&& n == 0 ==> c.profiles[n as int].nickname.len() == 0
            &&& c == (ConfigView { profiles: c.profiles, ..config })
        }),
{
}

/// Deleting a profile takes out that one and moves up those behind it. Nothing else changes but the
/// selection, which moves up with the profile selected, and else stays in place or falls back to the
/// last.
pub proof fn deleted_profile_is_gone(config: ConfigView, i: int)
    requires
        config.profiles.len() > 1,
        0 <= i < config.profiles.len(),
    ensures
        ({
            let c = config.without_profile(i);
            let left = config.profiles.len() - 1;
            &&& c.profiles.len() == left
            &&& forall|j: int| 0 <= j < i ==> #[trigger] c.profiles[j] == config.profiles[j]
            &&& forall|j: int| i <= j < left ==> #[trigger] c.profiles[j] == config.profiles[j + 1]
            &&& i < config.selected_profile ==> c.selected_profile == config.selected_profile - 1
            &&& i >= config.selected_profile && config.selected_profile < left
                ==> c.selected_profile == config.selected_profile
            &&& i >= config.selected_profile && config.selected_profile >= left
                ==> c.selected_profile == left - 1
            &&& c == (ConfigView {
                profiles: c.profiles,
                selected_profile: c.selected_profile,
                ..config
            })
        }),
{
}

/// The profile selected is the one at the position selected, or the last where there is none.
pub proof fn selection_is_by_position(config: ConfigView)
    requires
        config.profiles.len() > 0,
    ensures
        config.selected_profile < config.profiles.len() ==> config.selected()
            == config.profiles[config.selected_profile as int],
        config.selected_profile >= config.profiles.len() ==> config.selected()
            == config.profiles[config.profiles.len() - 1],
{
}

/// A configuration is seen as it is.
pub proof fn configuration_is_seen_as_it_is(
    config: Config,
    profile: Profile,
    server: LegacyServerEntry,
    text: String,
)
    ensures
        profile@.name == profile.name@ && profile@.address == profile.address@
            && profile@.nickname == profile.nickname@,
        server@.name == server.name@ && server@.address == server.address@,
        optional_text(Some(text)) == Some(text@),
        optional_text(None) is None,
        config@.profiles == config.profiles@.map_values(|p: Profile| p@),
        config@.selected_profile == config.selected_profile,
        config@.servers == config.servers@.map_values(|s: LegacyServerEntry| s@),
        config@.selected_server == config.selected_server,
        config@.nickname == config.nickname@,
        config@.address == optional_text(config.address),
        config@.input_device == optional_text(config.input_device),
        config@.output_device == optional_text(config.output_device),
        config@.voice_mode == config.voice_mode,
        config@.vad_threshold_db == config.vad_threshold_db,
        config@.ptt_vk == config.ptt_vk,
        config@.api_port == config.api_port,
        config@.auto_start == config.auto_start,
        config@.volumes == config.volumes@,
        config@.language == config.language,
{
    assert(views(config.profiles@) =~= config.profiles@.map_values(|p: Profile| p@));
    assert(views(config.servers@) =~= config.servers@.map_values(|s: LegacyServerEntry| s@));
}

/// What is saved of any configuration is all of it but what only older formats hold.
pub proof fn saving_leaves_out_only_what_is_old(config: ConfigView)
    ensures
        config.saved().profiles == config.profiles,
        config.saved().selected_profile == config.selected_profile,
        config.saved().input_device == config.input_device,
        config.saved().output_device == config.output_device,
        config.saved().voice_mode == config.voice_mode,
        config.saved().vad_threshold_db == config.vad_threshold_db,
        config.saved().ptt_vk == config.ptt_vk,
        config.saved().api_port == config.api_port,
        config.saved().auto_start == config.auto_start,
        config.saved().volumes == config.volumes,
        config.saved().language == config.language,
        config.saved().servers.len() == 0,
        config.saved().selected_server == 0,
        config.saved().nickname.len() == 0,
        config.saved().address is None,
{
}

} // verus!
