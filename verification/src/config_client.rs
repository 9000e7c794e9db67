//! The command layer over a link session: pulling and pushing the device
//! settings and starting the data streaming, each wrapped in the bounded
//! retry policy. A multi-request operation is retried as an atomic unit:
//! a failed attempt leaves nothing half-done, and the next attempt restarts
//! the whole sequence.

use vstd::prelude::*;

use crate::client::{ascii_to_string, HostClient, HANDSHAKE_ATTEMPTS};
use crate::device_config::{
    lemma_command_text_props, DeviceConfig, GroupNumber, LoadCapacityIdx, MusicVolumeIdx,
    SoundVolumeIdx, MAX_CAPACITY_IDX, MAX_GROUP_NUMBER, MAX_MUSIC_VOLUME_IDX,
    MAX_SOUND_VOLUME_IDX,
};
use crate::error::{CommandError, DeviceConnectError};
use crate::mu_frame::{ascii_payload, push_all, valid_payload, MAX_DATA_SIZE};
use crate::text::{lemma_dec_digits_props, render_u8};
use crate::transport::Transport;

verus! {

broadcast use vstd::string::group_string_axioms;

/// How many times a command-level operation is attempted before it fails
/// for good.
pub const COMMAND_ATTEMPTS: u8 = 3;

/// The regimes under which the device streams its data.
#[derive(Debug, Clone, Copy, PartialEq, Eq, Structural)]
pub enum StreamingMode {
    /// No streaming.
    SilentMode,
    /// Data is sent when its state changes.
    OnChangeMode,
    /// Data is sent periodically, with the period set on the device.
    PeriodicMode,
    /// Data is sent on demand.
    OnDemandMode,
}

impl StreamingMode {
    /// The numeric code of the regime in the `set mode N` command.
    pub open spec fn spec_code(&self) -> u8 {
        match self {
            StreamingMode::SilentMode => 0,
            StreamingMode::OnChangeMode => 1,
            StreamingMode::PeriodicMode => 2,
            StreamingMode::OnDemandMode => 3,
        }
    }

    /// The numeric code of the regime in the `set mode N` command.
    pub fn code(&self) -> (r: u8)
        ensures
            r == self.spec_code(),
    {
        match self {
            StreamingMode::SilentMode => 0,
            StreamingMode::OnChangeMode => 1,
            StreamingMode::PeriodicMode => 2,
            StreamingMode::OnDemandMode => 3,
        }
    }
}

/// A configured client of the indicator unit: a connected session plus the
/// settings commands.
pub struct MUClient<T: Transport> {
    mu_client: HostClient<T>,
}

impl<T: Transport> MUClient<T> {
    /// Connects over an already-open transport, with the bounded handshake
    /// retry of [`HostClient::connect`].
    pub fn new(transport: T) -> (r: Result<Self, DeviceConnectError>)
        ensures
            r matches Err(e) ==> e == (DeviceConnectError::HandshakeFailed {
                attempts: HANDSHAKE_ATTEMPTS,
            }),
    {
        match HostClient::connect(transport) {
            Ok(client) => Ok(Self { mu_client: client }),
            Err(e) => Err(e),
        }
    }

    /// A view of the transport underneath the session, for diagnostics and
    /// for tests that inspect an in-memory transport.
    pub fn transport(&self) -> &T {
        self.mu_client.transport()
    }

    /// Sends one query and hands back the reply payload.
    fn fetch(&mut self, query: &str) -> (r: Result<Vec<u8>, String>)
        requires
            vstd::string::is_ascii(query),
            query@.len() + 1 <= MAX_DATA_SIZE,
        ensures
            r matches Ok(p) ==> valid_payload(p@),
    {
        match self.mu_client.send_request_bytes(query.as_bytes()) {
            Ok(p) => Ok(p),
            Err(_) => Err("Request failed".to_owned()),
        }
    }

    /// Sends one `set` command built from a rendered setting text.
    fn send_set_command(&mut self, command: Vec<u8>) -> (r: Result<Vec<u8>, String>)
        requires
            ascii_payload(command@),
            command@.len() + 5 <= MAX_DATA_SIZE,
        ensures
            r matches Ok(p) ==> valid_payload(p@),
    {
        let head: &str = "set ";
        proof {
            reveal_strlit("set ");
            assert(vstd::string::is_ascii(head));
        }
        let mut req: Vec<u8> = Vec::new();
        push_all(&mut req, head.as_bytes());
        push_all(&mut req, command.as_slice());
        proof {
            assert(head@.len() == 4);
            assert(ascii_payload(req@));
        }
        match self.mu_client.send_request_bytes(req.as_slice()) {
            Ok(p) => Ok(p),
            Err(_) => Err("Request failed".to_owned()),
        }
    }

    /// Pulls the four settings stored on the device as one atomic sequence
    /// of queries. On success the config holds values within their bounds;
    /// on any failure — a failed exchange, an unparsable reply, a value out
    /// of range — the config is left exactly as it was.
    pub fn get_settings_from_device(&mut self, config: &mut DeviceConfig) -> (r: Result<
        (),
        String,
    >)
        ensures
            r is Err ==> *final(config) == *old(config),
            r is Ok ==> final(config).wf(),
            final(config).config_name@ == old(config).config_name@,
    {
        proof {
            reveal_strlit("get groupnumber");
            reveal_strlit("get musicvolume");
            reveal_strlit("get soundvolume");
            reveal_strlit("get loadcapacity");
        }
        let group_line = match self.fetch("get groupnumber") {
            Ok(v) => v,
            Err(e) => {
                return Err(e);
            },
        };
        let music_line = match self.fetch("get musicvolume") {
            Ok(v) => v,
            Err(e) => {
                return Err(e);
            },
        };
        let sound_line = match self.fetch("get soundvolume") {
            Ok(v) => v,
            Err(e) => {
                return Err(e);
            },
        };
        let load_line = match self.fetch("get loadcapacity") {
            Ok(v) => v,
            Err(e) => {
                return Err(e);
            },
        };
        let group_number = match GroupNumber::from_response(group_line.as_slice()) {
            Ok(v) => v,
            Err(_) => {
                return Err("Unable to parse group number".to_owned());
            },
        };
        let music_volume_idx = match MusicVolumeIdx::from_response(music_line.as_slice()) {
            Ok(v) => v,
            Err(_) => {
                return Err("Unable to parse music volume index".to_owned());
            },
        };
        let sound_volume_idx = match SoundVolumeIdx::from_response(sound_line.as_slice()) {
            Ok(v) => v,
            Err(_) => {
                return Err("Unable to parse sound volume index".to_owned());
            },
        };
        let load_capacity_idx = match LoadCapacityIdx::from_response(load_line.as_slice()) {
            Ok(v) => v,
            Err(_) => {
                return Err("Unable to parse load capacity index".to_owned());
            },
        };
        if group_number.0 > MAX_GROUP_NUMBER || music_volume_idx.0 > MAX_MUSIC_VOLUME_IDX
            || sound_volume_idx.0 > MAX_SOUND_VOLUME_IDX || load_capacity_idx.0
            > MAX_CAPACITY_IDX {
            return Err("Setting out of range".to_owned());
        }
        let r1 = config.set_group_number(group_number);
        if r1.is_err() {
            proof {
                assert(false);
            }
        }
        let r2 = config.set_music_volume_idx(music_volume_idx);
        if r2.is_err() {
            proof {
                assert(false);
            }
        }
        let r3 = config.set_sound_volume_idx(sound_volume_idx);
        if r3.is_err() {
            proof {
                assert(false);
            }
        }
        let r4 = config.set_load_capacity_idx(load_capacity_idx);
        if r4.is_err() {
            proof {
                assert(false);
            }
        }
        Ok(())
    }

    /// Pushes the four settings to the device as `set <key> <value>`
    /// requests, in the fixed order group number, music volume, sound
    /// volume, load capacity, stopping at the first failed exchange.
    pub fn push_settings_to_device(&mut self, config: &DeviceConfig) -> (r: Result<(), String>) {
        proof {
            reveal_strlit("groupnumber");
            reveal_strlit("musicvolume");
            reveal_strlit("soundvolume");
            reveal_strlit("loadcapacity");
            lemma_command_text_props("groupnumber"@, config.group_number.0);
            lemma_command_text_props("musicvolume"@, config.music_volume_idx.0);
            lemma_command_text_props("soundvolume"@, config.sound_volume_idx.0);
            lemma_command_text_props("loadcapacity"@, config.load_capacity_idx.0);
        }
        let group_number = config.get_group_number().to_command();
        if let Err(e) = self.send_set_command(group_number) {
            return Err(e);
        }
        let music_volume_idx = config.get_music_volume_idx().to_command();
        if let Err(e) = self.send_set_command(music_volume_idx) {
            return Err(e);
        }
        let sound_volume_idx = config.get_sound_volume_idx().to_command();
        if let Err(e) = self.send_set_command(sound_volume_idx) {
            return Err(e);
        }
        let load_capacity_idx = config.get_load_capacity_idx().to_command();
        if let Err(e) = self.send_set_command(load_capacity_idx) {
            return Err(e);
        }
        Ok(())
    }

    /// Asks the device to start streaming its data under the given regime,
    /// by the command `set mode N`, and returns the device's reply text.
    pub fn start_data_streaming(&mut self, mode: StreamingMode) -> (r: Result<String, String>)
        ensures
            r matches Ok(s) ==> 1 <= s@.len() <= MAX_DATA_SIZE,
    {
        let head: &str = "set mode ";
        proof {
            reveal_strlit("set mode ");
            assert(vstd::string::is_ascii(head));
        }
        let mut req: Vec<u8> = Vec::new();
        push_all(&mut req, head.as_bytes());
        let code = mode.code();
        proof {
            lemma_dec_digits_props(code as int);
        }
        let digits = render_u8(code);
        push_all(&mut req, digits.as_slice());
        proof {
            assert(head@.len() == 9);
            assert(ascii_payload(req@));
        }
        match self.mu_client.send_request_bytes(req.as_slice()) {
            Ok(p) => Ok(ascii_to_string(p)),
            Err(_) => Err("Request failed".to_owned()),
        }
    }
}

/// Runs the settings pull with the bounded retry policy. The whole fetch
/// sequence is one attempt: a failed attempt leaves the config untouched
/// and the next attempt restarts from the first query; after
/// [`COMMAND_ATTEMPTS`] failed attempts the config is still untouched and
/// the error says exactly how many attempts were made.
pub fn pull_command_handler<T: Transport>(
    user_config: &mut DeviceConfig,
    client: &mut MUClient<T>,
) -> (r: Result<(), CommandError>)
    ensures
        r matches Err(e) ==> e == (CommandError::PullRequestFailed {
            attempts: COMMAND_ATTEMPTS,
        }) && *final(user_config) == *old(user_config),
        r is Ok ==> final(user_config).wf(),
        final(user_config).config_name@ == old(user_config).config_name@,
{
    let mut attempts: u8 = 1;
    loop
        invariant
            1 <= attempts <= COMMAND_ATTEMPTS,
            *user_config == *old(user_config),
        decreases COMMAND_ATTEMPTS - attempts,
    {
        match client.get_settings_from_device(user_config) {
            Ok(()) => {
                return Ok(());
            },
            Err(_) => {},
        }
        if attempts >= COMMAND_ATTEMPTS {
            return Err(CommandError::PullRequestFailed { attempts });
        }
        attempts = attempts + 1;
    }
}

/// Runs the settings push and then the streaming start, each with the
/// bounded retry policy; the streaming regime pushed is `OnChangeMode`.
pub fn push_command_handler<T: Transport>(
    user_config: &DeviceConfig,
    client: &mut MUClient<T>,
) -> (r: Result<(), CommandError>)
    ensures
        r matches Err(e) ==> e == (CommandError::PushRequestFailed {
            attempts: COMMAND_ATTEMPTS,
        }) || e == (CommandError::StreamingRequestFailed { attempts: COMMAND_ATTEMPTS }),
{
    match push_with_retries(user_config, client) {
        Ok(()) => {},
        Err(e) => {
            return Err(e);
        },
    }
    streaming_with_retries(client, StreamingMode::OnChangeMode)
}

/// The bounded retry loop around one settings push.
fn push_with_retries<T: Transport>(
    user_config: &DeviceConfig,
    client: &mut MUClient<T>,
) -> (r: Result<(), CommandError>)
    ensures
        r matches Err(e) ==> e == (CommandError::PushRequestFailed {
            attempts: COMMAND_ATTEMPTS,
        }),
{
    let mut attempts: u8 = 1;
    loop
        invariant
            1 <= attempts <= COMMAND_ATTEMPTS,
        decreases COMMAND_ATTEMPTS - attempts,
    {
        match client.push_settings_to_device(user_config) {
            Ok(()) => {
                return Ok(());
            },
            Err(_) => {},
        }
        if attempts >= COMMAND_ATTEMPTS {
            return Err(CommandError::PushRequestFailed { attempts });
        }
        attempts = attempts + 1;
    }
}

/// The bounded retry loop around one streaming start.
fn streaming_with_retries<T: Transport>(client: &mut MUClient<T>, mode: StreamingMode) -> (r:
    Result<(), CommandError>)
    ensures
        r matches Err(e) ==> e == (CommandError::StreamingRequestFailed {
            attempts: COMMAND_ATTEMPTS,
        }),
{
    let mut attempts: u8 = 1;
    loop
        invariant
            1 <= attempts <= COMMAND_ATTEMPTS,
        decreases COMMAND_ATTEMPTS - attempts,
    {
        match client.start_data_streaming(mode) {
            Ok(_) => {
                return Ok(());
            },
            Err(_) => {},
        }
        if attempts >= COMMAND_ATTEMPTS {
            return Err(CommandError::StreamingRequestFailed { attempts });
        }
        attempts = attempts + 1;
    }
}

} // verus!
