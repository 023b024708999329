//! The local HTTP API: what each request does and what is answered.
//!
//! - `/api/connect` connects with the selected profile,
//! - `/api/connect/{name}` with the profile of that name,
//! - `/api/disconnect` disconnects,
//! - `/api/mute/on`, `/api/mute/off` and `/api/mute/toggle` mute the microphone,
//! - `/api/status` tells the state of the connection and of the microphone.

use crate::client::{Command, CommandView, Status, StatusView};
use crate::config::{optional_text, Config, ConfigView, Profile, ProfileView};
use crate::i18n::{arguments, fill, fmt, formatted};
use crate::text::{
    blank, blank_is_what_trims_to_nothing, decimal, is_blank, is_white_space, number, same_text,
    trim, trimmed, trimming_is_idempotent,
};
use crate::texts::Texts;
use vstd::prelude::*;

verus! {

/// Why a request is refused.
#[derive(Debug, Clone, Copy, PartialEq, Eq, Structural)]
pub enum ApiError {
    /// The profile lacks an address or a nickname.
    BadRequest,
    /// There is no such profile or no such action.
    NotFound,
}

impl ApiError {
    /// The HTTP status code.
    pub fn code(self) -> (code: u16)
        ensures
            code == (match self {
                ApiError::BadRequest => 400u16,
                ApiError::NotFound => 404u16,
            }),
    {
        match self {
            ApiError::BadRequest => 400,
            ApiError::NotFound => 404,
        }
    }
}

/// A request that was decided on.
#[derive(Debug)]
pub struct Handled {
    /// What the connection worker is told, if anything.
    pub command: Option<Command>,
    /// What goes into the log.
    pub line: String,
    /// What is answered.
    pub reply: Result<&'static str, ApiError>,
}

pub struct HandledView {
    pub command: Option<CommandView>,
    pub line: Seq<char>,
    pub reply: Result<Seq<char>, ApiError>,
}

impl View for Handled {
    type V = HandledView;

    open spec fn view(&self) -> HandledView {
        HandledView {
            command: match self.command {
                Some(command) => Some(command@),
                None => None,
            },
            line: self.line@,
            reply: match self.reply {
                Ok(text) => Ok(text@),
                Err(error) => Err(error),
            },
        }
    }
}

/// A profile that one can connect with: it has an address and a nickname.
pub open spec fn is_complete(profile: ProfileView) -> bool {
    !is_blank(profile.address) && !is_blank(profile.nickname)
}

/// The command to connect with a profile.
pub open spec fn connect_command(profile: ProfileView) -> CommandView {
    CommandView::Connect {
        address: trimmed(profile.address),
        nickname: trimmed(profile.nickname),
    }
}

/// What becomes of a request to connect with a profile.
pub open spec fn connect_handled(profile: ProfileView, texts: Texts) -> HandledView {
    if is_complete(profile) {
        HandledView {
            command: Some(connect_command(profile)),
            line: formatted(texts.api_connect_req@, seq![profile.name]),
            reply: Ok("connecting\n"@),
        }
    } else {
        HandledView {
            command: None,
            line: formatted(texts.api_profile_incomplete@, seq![profile.name]),
            reply: Err(ApiError::BadRequest),
        }
    }
}

/// The first of some profiles that goes by a name.
pub open spec fn first_named(profiles: Seq<ProfileView>, name: Seq<char>) -> Option<ProfileView>
    decreases profiles.len(),
{
    if profiles.len() == 0 {
        None
    } else if profiles.first().name == name {
        Some(profiles.first())
    } else {
        first_named(profiles.drop_first(), name)
    }
}

/// What becomes of a request to connect with the profile of a name.
pub open spec fn connect_named_handled(
    config: ConfigView,
    name: Seq<char>,
    texts: Texts,
) -> HandledView {
    match first_named(config.profiles, name) {
        Some(profile) => connect_handled(profile, texts),
        None => HandledView {
            command: None,
            line: formatted(texts.api_unknown_profile@, seq![name]),
            reply: Err(ApiError::NotFound),
        },
    }
}

/// What becomes of a request to disconnect.
pub open spec fn disconnect_handled(texts: Texts) -> HandledView {
    HandledView {
        command: Some(CommandView::Disconnect),
        line: texts.api_disconnect_req@,
        reply: Ok("disconnecting\n"@),
    }
}

/// Whether a profile has what connecting takes.
pub fn ready(profile: &Profile) -> (result: bool)
    ensures
        result == is_complete(profile@),
{
    !blank(profile.address.as_str()) && !blank(profile.nickname.as_str())
}

/// The command to connect with a profile, its address and nickname without surrounding white space.
pub fn connect_with(profile: &Profile) -> (command: Command)
    ensures
        command@ == connect_command(profile@),
{
    Command::Connect {
        address: trim(profile.address.as_str()),
        nickname: trim(profile.nickname.as_str()),
    }
}

/// Decides on a request to connect with a profile.
pub fn request_connect(profile: &Profile, texts: &Texts) -> (handled: Handled)
    ensures
        handled@ == connect_handled(profile@, *texts),
{
    if ready(profile) {
        Handled {
            command: Some(connect_with(profile)),
            line: fill(texts.api_connect_req, profile.name.as_str()),
            reply: Ok("connecting\n"),
        }
    } else {
        Handled {
            command: None,
            line: fill(texts.api_profile_incomplete, profile.name.as_str()),
            reply: Err(ApiError::BadRequest),
        }
    }
}

/// Decides on a request to connect with the selected profile.
pub fn connect(config: &Config, texts: &Texts) -> (handled: Handled)
    requires
        config@.profiles.len() > 0,
    ensures
        handled@ == connect_handled(config@.selected(), *texts),
{
    request_connect(config.selected(), texts)
}

proof fn first_named_is_the_first(profiles: Seq<ProfileView>, name: Seq<char>, n: int)
    requires
        0 <= n <= profiles.len(),
        forall|j: int| 0 <= j < n ==> (#[trigger] profiles[j]).name != name,
    ensures
        n == profiles.len() ==> first_named(profiles, name) is None,
        n < profiles.len() && profiles[n].name == name ==> first_named(profiles, name) == Some(
            profiles[n],
        ),
    decreases n,
{
    if n > 0 {
        let rest = profiles.drop_first();
        assert forall|j: int| 0 <= j < n - 1 implies (#[trigger] rest[j]).name != name by {
            assert(rest[j] == profiles[j + 1]);
        }
        first_named_is_the_first(rest, name, n - 1);
    }
}

/// Decides on a request to connect with the profile of a name.
pub fn connect_named(config: &Config, name: &str, texts: &Texts) -> (handled: Handled)
    ensures
        handled@ == connect_named_handled(config@, name@, *texts),
{
    match config.find_profile(name) {
        Some(i) => {
            proof {
                first_named_is_the_first(config@.profiles, name@, i as int);
            }
            request_connect(&config.profiles[i], texts)
        },
        None => {
            proof {
                first_named_is_the_first(config@.profiles, name@, config@.profiles.len() as int);
            }
            Handled {
                command: None,
                line: fill(texts.api_unknown_profile, name),
                reply: Err(ApiError::NotFound),
            }
        },
    }
}

/// Decides on a request to disconnect.
pub fn disconnect(texts: &Texts) -> (handled: Handled)
    ensures
        handled@ == disconnect_handled(*texts),
{
    Handled {
        command: Some(Command::Disconnect),
        line: texts.api_disconnect_req.to_owned(),
        reply: Ok("disconnecting\n"),
    }
}

/// Whether the microphone is muted after an action; nothing where there is no such action.
pub open spec fn mute_result(muted: bool, action: Seq<char>) -> Option<bool> {
    if action == "on"@ {
        Some(true)
    } else if action == "off"@ {
        Some(false)
    } else if action == "toggle"@ {
        Some(!muted)
    } else {
        None
    }
}

/// The answer that tells whether the microphone is muted.
pub open spec fn mute_reply(muted: bool) -> Seq<char> {
    if muted {
        "muted=true\n"@
    } else {
        "muted=false\n"@
    }
}

/// The log line that tells whether the microphone is muted.
pub open spec fn mute_line(muted: bool, texts: Texts) -> Seq<char> {
    formatted(
        texts.api_mute@,
        seq![
            if muted {
                "ON"@
            } else {
                "OFF"@
            },
        ],
    )
}

/// Whether the microphone is muted after an action; nothing where there is no such action.
pub fn muted_after(muted: bool, action: &str) -> (result: Option<bool>)
    ensures
        result == mute_result(muted, action@),
{
    if same_text(action, "on") {
        Some(true)
    } else if same_text(action, "off") {
        Some(false)
    } else if same_text(action, "toggle") {
        Some(!muted)
    } else {
        None
    }
}

/// A request to mute that was carried out.
#[derive(Debug)]
pub struct MuteHandled {
    /// What goes into the log.
    pub line: String,
    /// What is answered.
    pub reply: String,
}

/// The log line and the answer once the microphone is muted or not.
pub fn mute_handled(muted: bool, texts: &Texts) -> (handled: MuteHandled)
    ensures
        handled.line@ == mute_line(muted, *texts),
        handled.reply@ == mute_reply(muted),
        muted ==> handled.reply@ == "muted=true\n"@ && handled.line@ == formatted(
            texts.api_mute@,
            seq!["ON"@],
        ),
        !muted ==> handled.reply@ == "muted=false\n"@ && handled.line@ == formatted(
            texts.api_mute@,
            seq!["OFF"@],
        ),
{
    MuteHandled {
        line: fill(
            texts.api_mute,
            if muted {
                "ON"
            } else {
                "OFF"
            },
        ),
        reply: if muted {
            "muted=true\n".to_owned()
        } else {
            "muted=false\n".to_owned()
        },
    }
}

/// Carries out a request to mute.
pub fn mute(muted: &mut bool, action: &str, texts: &Texts) -> (handled: Result<
    MuteHandled,
    ApiError,
>)
    ensures
        match mute_result(*old(muted), action@) {
            Some(now) => *final(muted) == now && handled is Ok && handled->Ok_0.line@ == mute_line(
                now,
                *texts,
            ) && handled->Ok_0.reply@ == mute_reply(now),
            None => *final(muted) == *old(muted) && handled == Err::<MuteHandled, _>(
                ApiError::NotFound,
            ),
        },
{
    match muted_after(*muted, action) {
        Some(now) => {
            *muted = now;
            Ok(mute_handled(now, texts))
        },
        None => Err(ApiError::NotFound),
    }
}

/// The answer to a question for the status.
#[derive(Debug)]
pub struct StatusResponse {
    pub status: &'static str,
    pub server_name: Option<String>,
    pub error: Option<String>,
    pub muted: bool,
}

pub struct StatusResponseView {
    pub status: Seq<char>,
    pub server_name: Option<Seq<char>>,
    pub error: Option<Seq<char>>,
    pub muted: bool,
}

impl View for StatusResponse {
    type V = StatusResponseView;

    open spec fn view(&self) -> StatusResponseView {
        StatusResponseView {
            status: self.status@,
            server_name: optional_text(self.server_name),
            error: optional_text(self.error),
            muted: self.muted,
        }
    }
}

/// The answer that a status and a muted microphone or not make for.
pub open spec fn status_response(status: StatusView, muted: bool) -> StatusResponseView {
    let (word, server_name, error) = match status {
        StatusView::Disconnected => ("disconnected"@, None, None),
        StatusView::Connecting => ("connecting"@, None, None),
        StatusView::Connected { server_name } => ("connected"@, Some(server_name), None),
        StatusView::Error(error) => ("error"@, None, Some(error)),
    };
    StatusResponseView { status: word, server_name, error, muted }
}

/// Tells the status.
pub fn status(current: &Status, muted: bool) -> (response: StatusResponse)
    ensures
        response@ == status_response(current@, muted),
{
    match current {
        Status::Disconnected => StatusResponse {
            status: "disconnected",
            server_name: None,
            error: None,
            muted,
        },
        Status::Connecting => StatusResponse {
            status: "connecting",
            server_name: None,
            error: None,
            muted,
        },
        Status::Connected { server_name } => StatusResponse {
            status: "connected",
            server_name: Some(server_name.clone()),
            error: None,
            muted,
        },
        Status::Error(error) => StatusResponse {
            status: "error",
            server_name: None,
            error: Some(error.clone()),
            muted,
        },
    }
}

/// The address that the API is reached under.
pub open spec fn api_address(port: u16) -> Seq<char> {
    "http://127.0.0.1:"@ + decimal(port as nat) + "/api/"@
}

/// The address that the API is reached under.
pub fn api_url(port: u16) -> (url: String)
    ensures
        url@ == api_address(port),
        url@ == "http://127.0.0.1:"@ + decimal(port as nat) + "/api/"@,
{
    let mut url = "http://127.0.0.1:".to_owned();
    url.append(number(port as u64).as_str());
    url.append("/api/");
    url
}

/// What became of serving the API.
#[derive(Debug)]
pub enum ServeEvent {
    Listening,
    /// Serving ended with this error.
    Failed(String),
    /// The port could not be had, for this reason.
    BindFailed(String),
}

/// The log line on serving the API.
pub fn serve_line(event: &ServeEvent, port: u16, texts: &Texts) -> (line: String)
    ensures
        line@ == (match *event {
            ServeEvent::Listening => formatted(texts.api_listening@, seq![api_address(port)]),
            ServeEvent::Failed(error) => formatted(texts.api_error@, seq![error@]),
            ServeEvent::BindFailed(error) => formatted(
                texts.api_bind_failed@,
                seq![decimal(port as nat), error@],
            ),
        }),
{
    match event {
        ServeEvent::Listening => fill(texts.api_listening, api_url(port).as_str()),
        ServeEvent::Failed(error) => fill(texts.api_error, error.as_str()),
        ServeEvent::BindFailed(error) => {
            let port_text = number(port as u64);
            let args: [&str; 2] = [port_text.as_str(), error.as_str()];
            proof {
                assert(arguments(args@) =~= seq![decimal(port as nat), error@]);
            }
            fmt(texts.api_bind_failed, &args)
        },
    }
}

/// A request that is refused tells the worker nothing; one that is granted tells it something.
pub proof fn refused_request_sends_no_command(config: ConfigView, name: Seq<char>, texts: Texts)
    ensures
        connect_handled(config.selected(), texts).command is Some <==> connect_handled(
            config.selected(),
            texts,
        ).reply is Ok,
        connect_named_handled(config, name, texts).command is Some <==> connect_named_handled(
            config,
            name,
            texts,
        ).reply is Ok,
{
}

/// Whatever is connected to has an address and a nickname, without white space around them.
pub proof fn granted_request_connects_somewhere(profile: ProfileView, texts: Texts)
    ensures
        match connect_handled(profile, texts).command {
            Some(CommandView::Connect { address, nickname }) => {
                &&& address.len() > 0
                &&& nickname.len() > 0
                &&& trimmed(address) == address
                &&& trimmed(nickname) == nickname
            },
            Some(CommandView::Disconnect) => false,
            None => true,
        },
{
    blank_is_what_trims_to_nothing(profile.address);
    blank_is_what_trims_to_nothing(profile.nickname);
    trimming_is_idempotent(profile.address);
    trimming_is_idempotent(profile.nickname);
}

/// Connecting by the name of the selected profile is connecting with the selected profile, if no
/// profile before it goes by the same name.
pub proof fn selected_profile_can_be_named(config: ConfigView, texts: Texts)
    requires
        config.is_valid(),
        forall|j: int|
            0 <= j < config.selected_profile ==> (#[trigger] config.profiles[j]).name
                != config.selected().name,
    ensures
        connect_named_handled(config, config.selected().name, texts) == connect_handled(
            config.selected(),
            texts,
        ),
{
    first_named_is_the_first(
        config.profiles,
        config.selected().name,
        config.selected_profile as int,
    );
}

/// A name is unknown exactly when no profile goes by it.
pub proof fn unknown_name_is_not_found(config: ConfigView, name: Seq<char>, texts: Texts)
    ensures
        connect_named_handled(config, name, texts).reply == Err::<Seq<char>, _>(
            ApiError::NotFound,
        ) <==> forall|i: int|
            0 <= i < config.profiles.len() ==> (#[trigger] config.profiles[i]).name != name,
{
    if forall|i: int|
        0 <= i < config.profiles.len() ==> (#[trigger] config.profiles[i]).name != name {
        first_named_is_the_first(config.profiles, name, config.profiles.len() as int);
    } else {
        some_name_is_first(config.profiles, name);
    }
}

proof fn some_name_is_first(profiles: Seq<ProfileView>, name: Seq<char>)
    requires
        exists|i: int| 0 <= i < profiles.len() && (#[trigger] profiles[i]).name == name,
    ensures
        first_named(profiles, name) is Some,
    decreases profiles.len(),
{
    let i = choose|i: int| 0 <= i < profiles.len() && (#[trigger] profiles[i]).name == name;
    if profiles.first().name != name {
        assert(profiles.drop_first()[i - 1] == profiles[i]);
        some_name_is_first(profiles.drop_first(), name);
    }
}

/// Muting and unmuting hold whatever was before. Toggling changes over, so toggling twice changes
/// nothing.
pub proof fn muting_and_toggling(muted: bool)
    ensures
        mute_result(muted, "on"@) == Some(true),
        mute_result(muted, "off"@) == Some(false),
        mute_result(muted, "toggle"@) == Some(!muted),
        mute_result(!muted, "toggle"@) == Some(muted),
{
    reveal_strlit("on");
    reveal_strlit("off");
    reveal_strlit("toggle");
    assert("on"@.len() == 2 && "off"@.len() == 3 && "toggle"@.len() == 6);
}

/// A request to connect is granted exactly when the address and the nickname hold more than white
/// space. Then it tells the worker to connect with the two trimmed; else it tells it nothing. The
/// profile is named in the log either way.
pub proof fn connecting_takes_an_address_and_a_nickname(profile: ProfileView, texts: Texts)
    ensures
        ({
            let handled = connect_handled(profile, texts);
            let address = exists|i: int|
                0 <= i < profile.address.len() && !is_white_space(#[trigger] profile.address[i]);
            let nickname = exists|i: int|
                0 <= i < profile.nickname.len() && !is_white_space(#[trigger] profile.nickname[i]);
            if address && nickname {
                &&& handled.command == Some(
                    CommandView::Connect {
                        address: trimmed(profile.address),
                        nickname: trimmed(profile.nickname),
                    },
                )
                &&& handled.reply == Ok::<_, ApiError>("connecting\n"@)
                &&& handled.line == formatted(texts.api_connect_req@, seq![profile.name])
            } else {
                &&& handled.command is None
                &&& handled.reply == Err::<Seq<char>, _>(ApiError::BadRequest)
                &&& handled.line == formatted(texts.api_profile_incomplete@, seq![profile.name])
            }
        }),
{
}

/// A name stands for the first profile that goes by it; one that no profile goes by is refused and
/// named in the log.
pub proof fn names_stand_for_the_first_profile(
    config: ConfigView,
    name: Seq<char>,
    n: int,
    texts: Texts,
)
    requires
        0 <= n <= config.profiles.len(),
        forall|j: int| 0 <= j < n ==> (#[trigger] config.profiles[j]).name != name,
        n < config.profiles.len() ==> config.profiles[n].name == name,
    ensures
        ({
            let handled = connect_named_handled(config, name, texts);
            if n < config.profiles.len() {
                handled == connect_handled(config.profiles[n], texts)
            } else {
                &&& handled.command is None
                &&& handled.reply == Err::<Seq<char>, _>(ApiError::NotFound)
                &&& handled.line == formatted(texts.api_unknown_profile@, seq![name])
            }
        }),
{
    first_named_is_the_first(config.profiles, name, n);
}

/// A request to disconnect is always granted, logged, and passed on.
pub proof fn disconnecting_is_always_granted(texts: Texts)
    ensures
        disconnect_handled(texts).command == Some(CommandView::Disconnect),
        disconnect_handled(texts).reply == Ok::<_, ApiError>("disconnecting\n"@),
        disconnect_handled(texts).line == texts.api_disconnect_req@,
{
}

/// The only actions on the microphone are on, off and toggle.
pub proof fn other_mute_actions_are_unknown(muted: bool, action: Seq<char>)
    requires
        action != "on"@ && action != "off"@ && action != "toggle"@,
    ensures
        mute_result(muted, action) is None,
{
}

/// The status is told by one word, with the name of the server exactly when there is a connection
/// and the error exactly when there is one.
pub proof fn status_is_told_by_one_word(server_name: Seq<char>, error: Seq<char>, muted: bool)
    ensures
        status_response(StatusView::Disconnected, muted) == (StatusResponseView {
            status: "disconnected"@,
            server_name: None,
            error: None,
            muted,
        }),
        status_response(StatusView::Connecting, muted) == (StatusResponseView {
            status: "connecting"@,
            server_name: None,
            error: None,
            muted,
        }),
        status_response(StatusView::Connected { server_name }, muted) == (StatusResponseView {
            status: "connected"@,
            server_name: Some(server_name),
            error: None,
            muted,
        }),
        status_response(StatusView::Error(error), muted) == (StatusResponseView {
            status: "error"@,
            server_name: None,
            error: Some(error),
            muted,
        }),
{
}

/// What is decided and answered is seen as it is.
pub proof fn answers_are_seen_as_they_are(handled: Handled, response: StatusResponse)
    ensures
        handled@.line == handled.line@,
        handled.command is None <==> handled@.command is None,
        handled.command matches Some(command) ==> handled@.command == Some(command@),
        handled.reply matches Ok(text) ==> handled@.reply == Ok::<_, ApiError>(text@),
        handled.reply matches Err(error) ==> handled@.reply == Err::<Seq<char>, _>(error),
        response@.status == response.status@,
        response@.server_name == optional_text(response.server_name),
        response@.error == optional_text(response.error),
        response@.muted == response.muted,
{
}

} // verus!
