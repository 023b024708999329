//! The windows: what they show, and what their controls do.

use crate::api::{connect_command, connect_with, is_complete, ready};
use crate::audio::VoiceMode;
use crate::client::{
    after_update, ChannelInfo, ChannelInfoView, Command, CommandView, SenderView, Status,
    StatusView, Update, UpdateView,
};
use crate::config::{copied, optional_text, Config, ConfigView, ProfileView};
use crate::i18n::{fill, formatted, Lang};
use crate::ordering::views;
use crate::text::{is_white_space, same_text, trimmed};
use crate::texts::Texts;
use crate::volumes::{
    is_default_volume, near_full, volume_changed, volume_for, VolumeMap, FULL_VOLUME,
};
use std::collections::VecDeque;
use vstd::prelude::*;

verus! {

/// The number of lines that the log panel keeps.
pub const MAX_LOG_LINES: usize = 200;

/// What the main window shows.
#[derive(Debug)]
pub struct AppState {
    pub status: Status,
    pub channels: Vec<ChannelInfo>,
    pub log: VecDeque<String>,
}

pub struct AppStateView {
    pub status: StatusView,
    pub channels: Seq<ChannelInfoView>,
    pub log: Seq<Seq<char>>,
}

impl View for AppState {
    type V = AppStateView;

    open spec fn view(&self) -> AppStateView {
        AppStateView {
            status: self.status@,
            channels: views(self.channels@),
            log: views(self.log@),
        }
    }
}

/// The log with one more line; a full log loses its oldest.
pub open spec fn logged(log: Seq<Seq<char>>, line: Seq<char>) -> Seq<Seq<char>> {
    if log.len() >= MAX_LOG_LINES {
        log.drop_first().push(line)
    } else {
        log.push(line)
    }
}

/// What is shown after one update.
pub open spec fn updated(state: AppStateView, update: UpdateView) -> AppStateView {
    match update {
        UpdateView::Status(status) => AppStateView { status, ..state },
        UpdateView::Snapshot(channels) => AppStateView { channels, ..state },
        UpdateView::Log(line) => AppStateView { log: logged(state.log, line), ..state },
    }
}

/// What is shown after some updates.
pub open spec fn updated_by_all(state: AppStateView, updates: Seq<UpdateView>) -> AppStateView
    decreases updates.len(),
{
    if updates.len() == 0 {
        state
    } else {
        updated(updated_by_all(state, updates.drop_last()), updates.last())
    }
}

impl AppState {
    /// The window as it opens: not connected, no channels, an empty log.
    pub fn new() -> (state: AppState)
        ensures
            state@ == (AppStateView {
                status: StatusView::Disconnected,
                channels: Seq::empty(),
                log: Seq::empty(),
            }),
    {
        let state = AppState {
            status: Status::Disconnected,
            channels: Vec::new(),
            log: VecDeque::new(),
        };
        proof {
            assert(state@.channels =~= Seq::empty());
            assert(state@.log =~= Seq::empty());
        }
        state
    }

    /// Adds a line to the log.
    pub fn push_log(&mut self, line: String)
        ensures
            final(self)@ == (AppStateView { log: logged(old(self)@.log, line@), ..old(self)@ }),
    {
        if self.log.len() >= MAX_LOG_LINES {
            let _oldest = self.log.pop_front();
        }
        self.log.push_back(line);
        proof {
            assert(self@.log =~= logged(old(self)@.log, line@));
        }
    }

    /// Shows an update.
    pub fn apply_update(&mut self, update: Update)
        ensures
            final(self)@ == updated(old(self)@, update@),
    {
        match update {
            Update::Status(status) => {
                self.status = status;
            },
            Update::Snapshot(channels) => {
                self.channels = channels;
            },
            Update::Log(line) => self.push_log(line),
        }
    }

    /// Shows updates, in the order of the list.
    pub fn apply_updates(&mut self, updates: Vec<Update>)
        ensures
            final(self)@ == updated_by_all(old(self)@, views(updates@)),
    {
        let ghost sent = views(updates@);
        for update in received: updates
            invariant
                received.seq() == updates@,
                sent == views(updates@),
                self@ == updated_by_all(old(self)@, sent.take(received.index())),
        {
            proof {
                let i = received.index();
                assert(sent.take(i + 1).drop_last() =~= sent.take(i));
                assert(sent.take(i + 1).last() == update@);
            }
            self.apply_update(update);
        }
        proof {
            assert(sent.take(sent.len() as int) =~= sent);
        }
    }
}

/// The lines among some updates.
pub open spec fn lines_among(updates: Seq<UpdateView>) -> Seq<Seq<char>>
    decreases updates.len(),
{
    if updates.len() == 0 {
        Seq::empty()
    } else {
        match updates.last() {
            UpdateView::Log(line) => lines_among(updates.drop_last()).push(line),
            _ => lines_among(updates.drop_last()),
        }
    }
}

/// The last lines, as many as the log keeps.
pub open spec fn latest(lines: Seq<Seq<char>>) -> Seq<Seq<char>> {
    if lines.len() <= MAX_LOG_LINES {
        lines
    } else {
        lines.skip(lines.len() - MAX_LOG_LINES)
    }
}

/// Whatever arrives, the log holds the latest lines in the order they came, and no more of them than
/// it keeps.
pub proof fn log_holds_the_latest_lines(state: AppStateView, updates: Seq<UpdateView>)
    requires
        state.log.len() <= MAX_LOG_LINES,
    ensures
        updated_by_all(state, updates).log == latest(state.log + lines_among(updates)),
        updated_by_all(state, updates).log.len() <= MAX_LOG_LINES,
    decreases updates.len(),
{
    if updates.len() == 0 {
        assert(state.log + lines_among(updates) =~= state.log);
    } else {
        let before = updates.drop_last();
        log_holds_the_latest_lines(state, before);
        match updates.last() {
            UpdateView::Log(line) => {
                let lines = state.log + lines_among(before);
                assert(state.log + lines_among(updates) =~= lines.push(line));
                assert(logged(latest(lines), line) =~= latest(lines.push(line)));
            },
            _ => {},
        }
    }
}

/// The status and the channels shown are those of the last update that spoke of them.
pub proof fn last_word_is_shown(
    state: AppStateView,
    before: Seq<UpdateView>,
    update: UpdateView,
    after: Seq<UpdateView>,
)
    ensures
        (update is Status && forall|i: int|
            0 <= i < after.len() ==> !((#[trigger] after[i]) is Status)) ==> updated_by_all(
            state,
            before.push(update) + after,
        ).status == update->Status_0,
        (update is Snapshot && forall|i: int|
            0 <= i < after.len() ==> !((#[trigger] after[i]) is Snapshot)) ==> updated_by_all(
            state,
            before.push(update) + after,
        ).channels == update->Snapshot_0,
    decreases after.len(),
{
    let all = before.push(update) + after;
    if after.len() == 0 {
        assert(all =~= before.push(update));
        assert(all.drop_last() =~= before);
    } else {
        last_word_is_shown(state, before, update, after.drop_last());
        assert(all.drop_last() =~= before.push(update) + after.drop_last());
        assert(all.last() == after.last());
        assert(after.last() == after[after.len() - 1]);
        assert forall|i: int| 0 <= i < after.len() - 1 implies #[trigger] after.drop_last()[i]
            == after[i] by {}
    }
}

/// What the worker's end knows after some updates.
pub open spec fn known_after(sender: SenderView, updates: Seq<UpdateView>) -> SenderView
    decreases updates.len(),
{
    if updates.len() == 0 {
        sender
    } else {
        after_update(known_after(sender, updates.drop_last()), updates.last()).0
    }
}

/// The HTTP API tells the status that the window shows, once all updates have arrived.
pub proof fn api_and_window_agree_on_the_status(
    sender: SenderView,
    state: AppStateView,
    updates: Seq<UpdateView>,
)
    requires
        sender.status == state.status,
    ensures
        known_after(sender, updates).status == updated_by_all(state, updates).status,
    decreases updates.len(),
{
    if updates.len() > 0 {
        api_and_window_agree_on_the_status(sender, state, updates.drop_last());
    }
}

/// Whether there is a connection, or one in the making.
pub open spec fn in_use(status: StatusView) -> bool {
    !(status is Disconnected || status is Error)
}

/// Whether there is a connection, or one in the making. Meanwhile the profile cannot be changed and
/// the button disconnects.
pub fn connected(status: &Status) -> (result: bool)
    ensures
        result == in_use(status@),
        result == (status@ is Connected || status@ is Connecting),
{
    match status {
        Status::Disconnected => false,
        Status::Error(_) => false,
        _ => true,
    }
}

/// The command that the connection button gives; without one it cannot be pressed.
pub open spec fn button_command(status: StatusView, profile: ProfileView) -> Option<CommandView> {
    if in_use(status) {
        Some(CommandView::Disconnect)
    } else if is_complete(profile) {
        Some(connect_command(profile))
    } else {
        None
    }
}

/// The command that the connection button gives; without one it cannot be pressed.
pub fn button_pressed(status: &Status, config: &Config) -> (command: Option<Command>)
    requires
        config@.profiles.len() > 0,
    ensures
        match command {
            Some(command) => button_command(status@, config@.selected()) == Some(command@),
            None => button_command(status@, config@.selected()) is None,
        },
        command == Some(Command::Disconnect) <==> status@ is Connected || status@ is Connecting,
{
    if connected(status) {
        Some(Command::Disconnect)
    } else {
        let profile = config.selected();
        if ready(profile) {
            Some(connect_with(profile))
        } else {
            None
        }
    }
}

/// The button and the HTTP API connect alike: while there is no connection, pressing the button
/// gives the command that a request to connect with the selected profile gives.
pub proof fn button_and_api_connect_alike(status: StatusView, config: ConfigView, texts: Texts)
    requires
        !in_use(status),
    ensures
        button_command(status, config.selected()) == crate::api::connect_handled(
            config.selected(),
            texts,
        ).command,
{
}

/// A colour as red, green and blue.
#[derive(Debug, Clone, Copy, PartialEq, Eq, Structural)]
pub struct Colour {
    pub red: u8,
    pub green: u8,
    pub blue: u8,
}

/// The status as the window words it.
pub open spec fn status_words(status: StatusView, texts: Texts) -> Seq<char> {
    match status {
        StatusView::Disconnected => texts.status_disconnected@,
        StatusView::Connecting => texts.status_connecting@,
        StatusView::Connected { server_name } => formatted(
            texts.status_connected@,
            seq![server_name],
        ),
        StatusView::Error(error) => formatted(texts.status_error@, seq![error]),
    }
}

/// The colour of the status: green when connected, red on an error, else that of other text.
pub open spec fn status_colour(status: StatusView) -> Option<Colour> {
    match status {
        StatusView::Connected { .. } => Some(Colour { red: 0, green: 160, blue: 60 }),
        StatusView::Error(_) => Some(Colour { red: 200, green: 60, blue: 60 }),
        _ => None,
    }
}

/// The status as the window words and colours it.
pub fn status_label(status: &Status, texts: &Texts) -> (label: (String, Option<Colour>))
    ensures
        label.0@ == status_words(status@, *texts),
        label.1 == status_colour(status@),
{
    match status {
        Status::Disconnected => (texts.status_disconnected.to_owned(), None),
        Status::Connecting => (texts.status_connecting.to_owned(), None),
        Status::Connected { server_name } => (
            fill(texts.status_connected, server_name.as_str()),
            Some(Colour { red: 0, green: 160, blue: 60 }),
        ),
        Status::Error(error) => (
            fill(texts.status_error, error.as_str()),
            Some(Colour { red: 200, green: 60, blue: 60 }),
        ),
    }
}

/// A channel as the tree shows it.
pub fn channel_label(name: &str) -> (label: String)
    ensures
        label@ == "📁 "@ + name@,
{
    let mut label = "📁 ".to_owned();
    label.append(name);
    label
}

/// A user as the tree shows it: with the volume in percent, unless it is as good as full.
pub fn client_label(name: &str, volume: u32, percent: &str) -> (label: String)
    ensures
        label@ == (if near_full(volume) {
            "👤 "@ + name@
        } else {
            "👤 "@ + name@ + " 🔊"@ + percent@ + "%"@
        }),
{
    let mut label = "👤 ".to_owned();
    label.append(name);
    if !is_default_volume(volume) {
        label.append(" 🔊");
        label.append(percent);
        label.append("%");
    }
    label
}

/// A change of the volume that one user is played at.
#[derive(Debug)]
pub struct VolumeChange {
    pub name: String,
    pub client_id: u16,
    /// A single-precision number held by its bit pattern.
    pub volume: u32,
    /// Whether to save the configuration.
    pub save: bool,
}

/// The slider of a user was moved or let go. It is saved only once let go.
pub fn slider_moved(name: &str, client_id: u16, volume: u32, changed: bool, released: bool) -> (
    change: Option<VolumeChange>)
    ensures
        change is Some <==> changed || released,
        change matches Some(change) ==> change.name@ == name@ && change.client_id == client_id
            && change.volume == volume && change.save == released,
{
    if changed || released {
        Some(VolumeChange { name: name.to_owned(), client_id, volume, save: released })
    } else {
        None
    }
}

/// The volume of a user was put back to full.
pub fn volume_reset(name: &str, client_id: u16) -> (change: VolumeChange)
    ensures
        change.name@ == name@,
        change.client_id == client_id,
        change.volume == FULL_VOLUME,
        change.save,
{
    VolumeChange { name: name.to_owned(), client_id, volume: FULL_VOLUME, save: true }
}

/// Remembers a change of volume in the configuration and where the connection worker looks it up.
pub fn apply_volume_change(config: &mut Config, live: &mut VolumeMap, change: &VolumeChange)
    ensures
        final(config)@ == (ConfigView {
            volumes: volume_changed(old(config)@.volumes, change.name@, change.volume),
            ..old(config)@
        }),
        final(live)@ == volume_changed(old(live)@, change.name@, change.volume),
{
    config.change_volume(change.name.as_str(), change.volume);
    live.change(change.name.as_str(), change.volume);
}

/// The volumes that are saved and those that are played by stay alike, and the change touches no
/// other user.
pub proof fn volume_change_is_shared(
    saved: Map<Seq<char>, u32>,
    live: Map<Seq<char>, u32>,
    name: Seq<char>,
    volume: u32,
    other: Seq<char>,
)
    requires
        saved == live,
    ensures
        volume_changed(saved, name, volume) == volume_changed(live, name, volume),
        other != name ==> volume_for(volume_changed(saved, name, volume), other) == volume_for(
            saved,
            other,
        ),
{
}

/// A choice made in the audio settings, for the audio thread.
#[derive(Debug)]
pub enum AudioCommand {
    /// Without a name, the default device.
    SetInputDevice(Option<String>),
    SetOutputDevice(Option<String>),
}

pub enum AudioCommandView {
    SetInputDevice(Option<Seq<char>>),
    SetOutputDevice(Option<Seq<char>>),
}

impl View for AudioCommand {
    type V = AudioCommandView;

    open spec fn view(&self) -> AudioCommandView {
        match self {
            AudioCommand::SetInputDevice(name) => AudioCommandView::SetInputDevice(
                optional_text(*name),
            ),
            AudioCommand::SetOutputDevice(name) => AudioCommandView::SetOutputDevice(
                optional_text(*name),
            ),
        }
    }
}

/// An input device was picked. If it is another one, the audio thread is told.
pub fn input_device_picked(config: &mut Config, choice: Option<String>) -> (command: Option<
    AudioCommand,
>)
    ensures
        final(config)@ == (ConfigView { input_device: optional_text(choice), ..old(config)@ }),
        match command {
            Some(command) => old(config)@.input_device != optional_text(choice) && command@
                == AudioCommandView::SetInputDevice(optional_text(choice)),
            None => old(config)@.input_device == optional_text(choice),
        },
{
    let told = copied(&choice);
    if config.choose_input_device(choice) {
        Some(AudioCommand::SetInputDevice(told))
    } else {
        None
    }
}

/// An output device was picked. If it is another one, the audio thread is told.
pub fn output_device_picked(config: &mut Config, choice: Option<String>) -> (command: Option<
    AudioCommand,
>)
    ensures
        final(config)@ == (ConfigView { output_device: optional_text(choice), ..old(config)@ }),
        match command {
            Some(command) => old(config)@.output_device != optional_text(choice) && command@
                == AudioCommandView::SetOutputDevice(optional_text(choice)),
            None => old(config)@.output_device == optional_text(choice),
        },
{
    let told = copied(&choice);
    if config.choose_output_device(choice) {
        Some(AudioCommand::SetOutputDevice(told))
    } else {
        None
    }
}

/// The device that is used, as the settings show it.
pub fn device_label(device: &Option<String>, texts: &Texts) -> (label: String)
    ensures
        label@ == (match *device {
            Some(name) => name@,
            None => texts.default_device@,
        }),
{
    match device {
        Some(name) => name.clone(),
        None => texts.default_device.to_owned(),
    }
}

/// The modes to choose from, by name.
pub fn voice_modes(texts: &Texts) -> (modes: Vec<(VoiceMode, &'static str)>)
    ensures
        modes@ == seq![
            (VoiceMode::Always, texts.mode_always),
            (VoiceMode::VoiceActivation, texts.mode_vad),
            (VoiceMode::PushToTalk, texts.mode_ptt),
        ],
{
    vec![
        (VoiceMode::Always, texts.mode_always),
        (VoiceMode::VoiceActivation, texts.mode_vad),
        (VoiceMode::PushToTalk, texts.mode_ptt),
    ]
}

/// The keys that push-to-talk can go by: the virtual key code and the name of each.
pub open spec fn ptt_key_table(texts: Texts) -> Seq<(i32, &'static str)> {
    seq![
        (0x05i32, texts.key_mouse_side1),
        (0x06i32, texts.key_mouse_side2),
        (0xa0i32, texts.key_lshift),
        (0xa2i32, texts.key_lctrl),
        (0xa4i32, texts.key_lalt),
        (0x1di32, texts.key_muhenkan),
        (0x7bi32, texts.key_f12),
    ]
}

/// The keys that push-to-talk can go by.
pub fn ptt_keys(texts: &Texts) -> (keys: Vec<(i32, &'static str)>)
    ensures
        keys@ == ptt_key_table(*texts),
{
    vec![
        (0x05, texts.key_mouse_side1),
        (0x06, texts.key_mouse_side2),
        (0xa0, texts.key_lshift),
        (0xa2, texts.key_lctrl),
        (0xa4, texts.key_lalt),
        (0x1d, texts.key_muhenkan),
        (0x7b, texts.key_f12),
    ]
}

/// The name of a push-to-talk key: that in the table, or a question mark.
pub fn ptt_key_name(vk: i32, texts: &Texts) -> (name: &'static str)
    ensures
        forall|i: int|
            0 <= i < ptt_key_table(*texts).len() && (#[trigger] ptt_key_table(*texts)[i]).0 == vk
                ==> name@ == ptt_key_table(*texts)[i].1@,
        (forall|i: int|
            0 <= i < ptt_key_table(*texts).len() ==> (#[trigger] ptt_key_table(*texts)[i]).0 != vk)
            ==> name@ == "?"@,
{
    let keys = ptt_keys(texts);
    let mut i: usize = 0;
    while i < keys.len()
        invariant
            keys@ == ptt_key_table(*texts),
            i <= keys@.len(),
            forall|j: int| 0 <= j < i ==> (#[trigger] keys@[j]).0 != vk,
        decreases keys@.len() - i,
    {
        if keys[i].0 == vk {
            return keys[i].1;
        }
        i = i + 1;
    }
    "?"
}

/// Starting with Windows was switched on or off, and this came of it. Only a switch that succeeded
/// is remembered; then there is no log line.
pub fn auto_start_switched(
    config: &mut Config,
    wanted: bool,
    outcome: Result<(), String>,
    texts: &Texts,
) -> (line: Option<String>)
    ensures
        match outcome {
            Ok(_) => line is None && final(config)@ == (ConfigView {
                auto_start: wanted,
                ..old(config)@
            }),
            Err(error) => line is Some && line->Some_0@ == formatted(
                texts.auto_start_failed@,
                seq![error@],
            ) && final(config)@ == old(config)@,
        },
{
    match outcome {
        Ok(_) => {
            config.auto_start = wanted;
            None
        },
        Err(error) => Some(fill(texts.auto_start_failed, error.as_str())),
    }
}

/// What the command line asks for.
#[derive(Debug, Clone, Copy, PartialEq, Eq, Structural)]
pub struct StartOptions {
    /// Start in the tray.
    pub minimized: bool,
    /// Connect with the selected profile at once.
    pub autoconnect: bool,
    /// The language of this session.
    pub lang: Option<Lang>,
}

/// The language that the argument at `i` asks for: `--ja` and `--en`, or `ja` and `en` after
/// `--lang`.
pub open spec fn lang_asked_at(args: Seq<Seq<char>>, i: int) -> Option<Lang> {
    let after_lang = i > 0 && args[i - 1] == "--lang"@;
    if args[i] == "--ja"@ || after_lang && args[i] == "ja"@ {
        Some(Lang::Ja)
    } else if args[i] == "--en"@ || after_lang && args[i] == "en"@ {
        Some(Lang::En)
    } else {
        None
    }
}

/// The language that the first `n` arguments ask for: the last word on it.
pub open spec fn lang_asked(args: Seq<Seq<char>>, n: nat) -> Option<Lang>
    decreases n,
{
    if n == 0 {
        None
    } else {
        match lang_asked_at(args, n - 1) {
            Some(lang) => Some(lang),
            None => lang_asked(args, (n - 1) as nat),
        }
    }
}

/// What the command line asks for.
pub fn start_options(args: &Vec<String>) -> (options: StartOptions)
    ensures
        options.minimized == views(args@).contains("--minimized"@),
        options.autoconnect == views(args@).contains("--autoconnect"@),
        options.lang == lang_asked(views(args@), args@.len()),
{
    let mut options = StartOptions { minimized: false, autoconnect: false, lang: None };
    let ghost words = views(args@);
    let n: usize = args.len();
    let mut i: usize = 0;
    while i < n
        invariant
            n == args@.len(),
            words == views(args@),
            i <= n,
            options.minimized == (exists|j: int|
                0 <= j < i && #[trigger] words[j] == "--minimized"@),
            options.autoconnect == (exists|j: int|
                0 <= j < i && #[trigger] words[j] == "--autoconnect"@),
            options.lang == lang_asked(words, i as nat),
        decreases n - i,
    {
        let arg = args[i].as_str();
        proof {
            assert(arg@ == words[i as int]);
        }
        if same_text(arg, "--minimized") {
            options.minimized = true;
        }
        if same_text(arg, "--autoconnect") {
            options.autoconnect = true;
        }
        let after_lang = i > 0 && same_text(args[i - 1].as_str(), "--lang");
        proof {
            if i > 0 {
                assert(args@[i - 1]@ == words[i - 1]);
            }
        }
        if same_text(arg, "--ja") || after_lang && same_text(arg, "ja") {
            options.lang = Some(Lang::Ja);
        } else if same_text(arg, "--en") || after_lang && same_text(arg, "en") {
            options.lang = Some(Lang::En);
        }
        i = i + 1;
    }
    options
}

/// What is done at the start.
#[derive(Debug)]
pub struct StartPlan {
    /// Register for starting with Windows anew, in case the program was moved.
    pub register: bool,
    /// Hide the window.
    pub hide: bool,
    /// Connect.
    pub connect: Option<Command>,
}

/// What is done at the start.
pub fn start_plan(options: StartOptions, config: &Config) -> (plan: StartPlan)
    requires
        config@.profiles.len() > 0,
    ensures
        plan.register == config@.auto_start,
        plan.hide == options.minimized,
        match plan.connect {
            Some(command) => options.autoconnect && command@ == (CommandView::Connect {
                address: config@.selected().address,
                nickname: config@.selected().nickname,
            }),
            None => !options.autoconnect,
        },
{
    let connect = if options.autoconnect {
        let profile = config.selected();
        Some(
            Command::Connect {
                address: profile.address.clone(),
                nickname: profile.nickname.clone(),
            },
        )
    } else {
        None
    };
    StartPlan { register: config.auto_start, hide: options.minimized, connect }
}

/// The size in bytes past which the log file is begun anew.
pub const MAX_LOG_FILE: u64 = 5_242_880;

/// Whether to begin a log file of this size anew.
pub fn log_file_is_full(size: u64) -> (full: bool)
    ensures
        full == (size > MAX_LOG_FILE),
{
    size > MAX_LOG_FILE
}

/// Each way to ask for a language on the command line gives that language.
pub proof fn language_can_be_asked_for(before: Seq<Seq<char>>)
    ensures
        lang_asked(before.push("--ja"@), before.len() + 1) == Some(Lang::Ja),
        lang_asked(before.push("--en"@), before.len() + 1) == Some(Lang::En),
        lang_asked(before.push("--lang"@).push("ja"@), before.len() + 2) == Some(Lang::Ja),
        lang_asked(before.push("--lang"@).push("en"@), before.len() + 2) == Some(Lang::En),
{
    reveal_strlit("--ja");
    reveal_strlit("--en");
    reveal_strlit("ja");
    reveal_strlit("en");
    assert("--ja"@[2] != "--en"@[2]);
    assert("ja"@[0] != "en"@[0]);
    assert("--ja"@.len() == 4 && "--en"@.len() == 4 && "ja"@.len() == 2 && "en"@.len() == 2);
}

/// While there is a connection, or one in the making, the button disconnects and the profile cannot
/// be changed. Otherwise, after an error too, the button never disconnects: it connects, if there is
/// an address and a nickname that are more than white space, and cannot be pressed if not.
pub proof fn button_goes_by_the_status(
    server_name: Seq<char>,
    error: Seq<char>,
    profile: ProfileView,
)
    ensures
        in_use(StatusView::Connecting),
        in_use(StatusView::Connected { server_name }),
        !in_use(StatusView::Disconnected),
        !in_use(StatusView::Error(error)),
        button_command(StatusView::Connecting, profile) == Some(CommandView::Disconnect),
        button_command(StatusView::Connected { server_name }, profile) == Some(
            CommandView::Disconnect,
        ),
        button_command(StatusView::Disconnected, profile) == button_command(
            StatusView::Error(error),
            profile,
        ),
        match button_command(StatusView::Disconnected, profile) {
            Some(command) => {
                &&& command == (CommandView::Connect {
                    address: trimmed(profile.address),
                    nickname: trimmed(profile.nickname),
                })
                &&& exists|i: int|
                    0 <= i < profile.address.len() && !is_white_space(
                        #[trigger] profile.address[i],
                    )
                &&& exists|i: int|
                    0 <= i < profile.nickname.len() && !is_white_space(
                        #[trigger] profile.nickname[i],
                    )
            },
            None => {
                ||| forall|i: int|
                    0 <= i < profile.address.len() ==> is_white_space(
                        #[trigger] profile.address[i],
                    )
                ||| forall|i: int|
                    0 <= i < profile.nickname.len() ==> is_white_space(
                        #[trigger] profile.nickname[i],
                    )
            },
        },
{
}

/// An update changes only what it speaks of. A line goes to the end of the log, and the lines before
/// it move up where the log is full.
pub proof fn updates_change_what_they_speak_of(
    state: AppStateView,
    status: StatusView,
    channels: Seq<ChannelInfoView>,
    line: Seq<char>,
)
    ensures
        updated(state, UpdateView::Status(status)) == (AppStateView { status, ..state }),
        updated(state, UpdateView::Snapshot(channels)) == (AppStateView { channels, ..state }),
        ({
            let next = updated(state, UpdateView::Log(line));
            let n = state.log.len();
            let gone: int = if n >= MAX_LOG_LINES {
                1
            } else {
                0
            };
            &&& next.status == state.status
            &&& next.channels == state.channels
            &&& next.log.len() == n + 1 - gone
            &&& next.log[n - gone] == line
            &&& forall|i: int|
                0 <= i < n - gone ==> #[trigger] next.log[i] == state.log[i + gone]
        }),
{
}

/// Updates are shown one after the other: those of a list first, those of the next list on top.
pub proof fn updates_are_shown_in_turn(
    state: AppStateView,
    first: Seq<UpdateView>,
    second: Seq<UpdateView>,
    update: UpdateView,
)
    ensures
        updated_by_all(state, Seq::empty()) == state,
        updated_by_all(state, seq![update]) == updated(state, update),
        updated_by_all(state, first + second) == updated_by_all(
            updated_by_all(state, first),
            second,
        ),
    decreases second.len(),
{
    assert(seq![update].drop_last() =~= Seq::empty());
    reveal_with_fuel(updated_by_all, 2);
    if second.len() == 0 {
        assert(first + second =~= first);
    } else {
        updates_are_shown_in_turn(state, first, second.drop_last(), update);
        assert((first + second).drop_last() =~= first + second.drop_last());
        assert((first + second).last() == second.last());
    }
}

/// The status is worded by the texts and coloured: green for a connection, red for an error.
pub proof fn status_is_worded_and_coloured(
    server_name: Seq<char>,
    error: Seq<char>,
    texts: Texts,
)
    ensures
        status_words(StatusView::Disconnected, texts) == texts.status_disconnected@,
        status_words(StatusView::Connecting, texts) == texts.status_connecting@,
        status_words(StatusView::Connected { server_name }, texts) == formatted(
            texts.status_connected@,
            seq![server_name],
        ),
        status_words(StatusView::Error(error), texts) == formatted(
            texts.status_error@,
            seq![error],
        ),
        status_colour(StatusView::Disconnected) is None,
        status_colour(StatusView::Connecting) is None,
        status_colour(StatusView::Connected { server_name }) == Some(
            Colour { red: 0, green: 160, blue: 60 },
        ),
        status_colour(StatusView::Error(error)) == Some(Colour { red: 200, green: 60, blue: 60 }),
{
}

/// An argument that names no language leaves the language asked for as it was; with none that does,
/// none is asked for.
pub proof fn other_arguments_ask_for_no_language(args: Seq<Seq<char>>, arg: Seq<char>)
    requires
        arg != "--ja"@ && arg != "--en"@,
        args.len() > 0 && args.last() == "--lang"@ ==> arg != "ja"@ && arg != "en"@,
    ensures
        lang_asked(args.push(arg), args.len() + 1) == lang_asked(args, args.len()),
        lang_asked(args, 0) is None,
{
    lang_asked_goes_by_the_first(args.push(arg), args, args.len());
    if args.len() > 0 {
        assert(args.push(arg)[args.len() - 1] == args.last());
    }
}

proof fn lang_asked_goes_by_the_first(a: Seq<Seq<char>>, b: Seq<Seq<char>>, n: nat)
    requires
        n <= a.len(),
        n <= b.len(),
        forall|i: int| 0 <= i < n ==> a[i] == b[i],
    ensures
        lang_asked(a, n) == lang_asked(b, n),
    decreases n,
{
    if n > 0 {
        lang_asked_goes_by_the_first(a, b, (n - 1) as nat);
    }
}

/// The push-to-talk keys, by code and name, no code twice.
pub proof fn push_to_talk_keys(texts: Texts)
    ensures
        ({
            let keys = ptt_key_table(texts);
            &&& keys.len() == 7
            &&& keys[0] == (0x05i32, texts.key_mouse_side1)
            &&& keys[1] == (0x06i32, texts.key_mouse_side2)
            &&& keys[2] == (0xa0i32, texts.key_lshift)
            &&& keys[3] == (0xa2i32, texts.key_lctrl)
            &&& keys[4] == (0xa4i32, texts.key_lalt)
            &&& keys[5] == (0x1di32, texts.key_muhenkan)
            &&& keys[6] == (0x7bi32, texts.key_f12)
            &&& forall|i: int, j: int|
                0 <= i < j < keys.len() ==> (#[trigger] keys[i]).0 != (#[trigger] keys[j]).0
        }),
{
}

/// What the window shows and what the audio thread is told are seen as they are.
pub proof fn window_is_seen_as_it_is(state: AppState, device: Option<String>)
    ensures
        state@.status == state.status@,
        state@.channels == state.channels@.map_values(|c: ChannelInfo| c@),
        state@.log == state.log@.map_values(|line: String| line@),
        AudioCommand::SetInputDevice(device)@ == AudioCommandView::SetInputDevice(
            optional_text(device),
        ),
        AudioCommand::SetOutputDevice(device)@ == AudioCommandView::SetOutputDevice(
            optional_text(device),
        ),
{
    assert(views(state.channels@) =~= state.channels@.map_values(|c: ChannelInfo| c@));
    assert(views(state.log@) =~= state.log@.map_values(|line: String| line@));
}

} // verus!
