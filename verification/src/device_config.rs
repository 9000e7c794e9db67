//! The device settings: four small bounded integers exchanged with the
//! indicator unit, together with the codec for the `key: value` response
//! lines and the `key value` command texts that carry them.

use vstd::prelude::*;
use crate::error::SettingsParseError;
use crate::mu_frame::{ascii_payload, bytes_eq, is_ascii_byte, push_all};
use crate::text::{
    dec_digits, dec_value, is_dec_u8, is_digit, lemma_dec_digits_props, parse_trimmed_u8,
    render_u8, trim_ws,
};

verus! {

broadcast use vstd::string::group_string_axioms;

/// Largest group number an indicator can be assigned.
pub const MAX_GROUP_NUMBER: u8 = 15;

/// Largest sound-volume index.
pub const MAX_SOUND_VOLUME_IDX: u8 = 4;

/// Largest music-volume index.
pub const MAX_MUSIC_VOLUME_IDX: u8 = 4;

/// Largest load-capacity index.
pub const MAX_CAPACITY_IDX: u8 = 15;

/// The bytes of an ASCII key, character by character.
pub open spec fn key_bytes(k: Seq<char>) -> Seq<u8> {
    Seq::new(k.len(), |i: int| k[i] as u8)
}

/// The line has the shape `key ':' value`: its only colon stands at `i` and
/// everything before it spells the key.
pub open spec fn line_splits_at(line: Seq<u8>, key: Seq<char>, i: int) -> bool {
    &&& 0 <= i < line.len()
    &&& line[i] == 0x3Au8
    &&& forall|j: int| 0 <= j < line.len() && j != i ==> line[j] != 0x3Au8
    &&& line.subrange(0, i) == key_bytes(key)
}

/// The line carries a value for `key`.
pub open spec fn line_has_key(line: Seq<u8>, key: Seq<char>) -> bool {
    exists|i: int| line_splits_at(line, key, i)
}

/// Everything after the colon of a line that carries `key`.
pub open spec fn line_value_part(line: Seq<u8>, key: Seq<char>) -> Seq<u8> {
    let i = choose|i: int| line_splits_at(line, key, i);
    line.subrange(i + 1, line.len() as int)
}

/// The value a `key: value` line carries: the decimal numeral after the
/// colon, surrounding whitespace discarded, if it fits in eight bits.
pub open spec fn keyed_value(line: Seq<u8>, key: Seq<char>) -> Option<u8> {
    if line_has_key(line, key) && is_dec_u8(trim_ws(line_value_part(line, key))) {
        Some(dec_value(trim_ws(line_value_part(line, key))) as u8)
    } else {
        None
    }
}

/// The command text `key value` that asks the device to store `v`.
pub open spec fn command_text(key: Seq<char>, v: u8) -> Seq<u8> {
    key_bytes(key) + seq![0x20u8] + dec_digits(v as int)
}

/// A command text built from an ASCII key is itself ASCII and short: room
/// is always left for the `set ` prefix and the trailing newline of a
/// request payload.
pub proof fn lemma_command_text_props(key: Seq<char>, v: u8)
    requires
        vstd::utf8::is_ascii_chars(key),
    ensures
        ascii_payload(command_text(key, v)),
        key.len() + 2 <= command_text(key, v).len() <= key.len() + 4,
{
    lemma_dec_digits_props(v as int);
    let c = command_text(key, v);
    assert forall|i: int| 0 <= i < c.len() implies is_ascii_byte(c[i]) by {
        if i < key.len() {
            assert(c[i] == key[i] as u8);
            assert(key[i] <= '\u{7f}');
        } else if i == key.len() {
            assert(c[i] == 0x20u8);
        } else {
            assert(c[i] == dec_digits(v as int)[i - key.len() - 1]);
            assert(is_digit(c[i]));
        }
    }
}

/// Reads the value of a `key: value` response line. Succeeds exactly when
/// the line has that shape with this key and a decimal value that fits in
/// eight bits; `BadShape` and `BadValue` tell the two failures apart.
pub fn parse_setting(key: &str, line: &[u8]) -> (r: Result<u8, SettingsParseError>)
    requires
        vstd::string::is_ascii(key),
    ensures
        r is Ok <==> keyed_value(line@, key@) is Some,
        r matches Ok(v) ==> keyed_value(line@, key@) == Some(v),
        r == Err::<u8, SettingsParseError>(SettingsParseError::BadShape) <==> !line_has_key(
            line@,
            key@,
        ),
        r == Err::<u8, SettingsParseError>(SettingsParseError::BadValue) <==> line_has_key(
            line@,
            key@,
        ) && !is_dec_u8(trim_ws(line_value_part(line@, key@))),
{
    let n = line.len();
    let mut ci: usize = 0;
    while ci < n && line[ci] != 0x3A
        invariant
            n == line@.len(),
            0 <= ci <= n,
            forall|j: int| 0 <= j < ci ==> line@[j] != 0x3Au8,
        decreases n - ci,
    {
        ci = ci + 1;
    }
    if ci == n {
        proof {
            assert forall|i: int| !line_splits_at(line@, key@, i) by {
                if 0 <= i < line@.len() {
                    assert(line@[i] != 0x3Au8);
                }
            }
        }
        return Err(SettingsParseError::BadShape);
    }
    let mut j: usize = ci + 1;
    while j < n && line[j] != 0x3A
        invariant
            n == line@.len(),
            ci < j <= n,
            forall|k: int| ci < k < j ==> line@[k] != 0x3Au8,
        decreases n - j,
    {
        j = j + 1;
    }
    if j < n {
        // a second colon: no index can be the line's only colon
        proof {
            assert(line@[j as int] == 0x3Au8);
            assert(line@[ci as int] == 0x3Au8);
            assert forall|i: int| !line_splits_at(line@, key@, i) by {
                if line_splits_at(line@, key@, i) {
                    if i != ci {
                        assert(line@[ci as int] != 0x3Au8);
                    } else {
                        assert(line@[j as int] != 0x3Au8);
                    }
                }
            }
        }
        return Err(SettingsParseError::BadShape);
    }
    // the line's only colon stands at ci
    let kb = key.as_bytes();
    proof {
        assert(kb@ =~= key_bytes(key@));
    }
    if !bytes_eq(&line[0..ci], kb) {
        proof {
            assert(line@.subrange(0, ci as int) != key_bytes(key@));
            assert forall|i: int| !line_splits_at(line@, key@, i) by {
                if line_splits_at(line@, key@, i) {
                    if i != ci {
                        assert(line@[ci as int] != 0x3Au8);
                    }
                }
            }
        }
        return Err(SettingsParseError::BadShape);
    }
    proof {
        assert(line@.subrange(0, ci as int) == key_bytes(key@));
        assert(line_splits_at(line@, key@, ci as int));
        let w = choose|i: int| line_splits_at(line@, key@, i);
        if w != ci {
            assert(line@[ci as int] != 0x3Au8);
        }
        assert(line_value_part(line@, key@) =~= line@.subrange((ci + 1) as int, n as int));
    }
    match parse_trimmed_u8(&line[ci + 1..n]) {
        Some(v) => Ok(v),
        None => Err(SettingsParseError::BadValue),
    }
}

/// Builds the command text `key value`.
fn render_setting(key: &str, v: u8) -> (r: Vec<u8>)
    requires
        vstd::string::is_ascii(key),
    ensures
        r@ == command_text(key@, v),
{
    let mut out: Vec<u8> = Vec::new();
    push_all(&mut out, key.as_bytes());
    out.push(0x20);
    let d = render_u8(v);
    push_all(&mut out, d.as_slice());
    proof {
        assert(out@ =~= command_text(key@, v));
    }
    out
}

/// The number of the indicator's lift within its group.
#[derive(Debug, Clone, Copy, PartialEq, Eq, Structural)]
pub struct GroupNumber(pub u8);

/// Volume index of the music accompaniment.
#[derive(Debug, Clone, Copy, PartialEq, Eq, Structural)]
pub struct MusicVolumeIdx(pub u8);

/// Volume index of the voice/sound accompaniment.
#[derive(Debug, Clone, Copy, PartialEq, Eq, Structural)]
pub struct SoundVolumeIdx(pub u8);

/// Index into the table of lift load capacities.
#[derive(Debug, Clone, Copy, PartialEq, Eq, Structural)]
pub struct LoadCapacityIdx(pub u8);

impl GroupNumber {
    /// Reads a `groupnumber: N` response line.
    pub fn from_response(line: &[u8]) -> (r: Result<GroupNumber, SettingsParseError>)
        ensures
            r is Ok <==> keyed_value(line@, "groupnumber"@) is Some,
            r matches Ok(g) ==> keyed_value(line@, "groupnumber"@) == Some(g.0),
            r matches Err(e) ==> (e == SettingsParseError::BadShape <==> !line_has_key(
                line@,
                "groupnumber"@,
            )),
    {
        proof {
            reveal_strlit("groupnumber");
        }
        match parse_setting("groupnumber", line) {
            Ok(v) => Ok(GroupNumber(v)),
            Err(e) => Err(e),
        }
    }

    /// The command text `groupnumber N`.
    pub fn to_command(&self) -> (r: Vec<u8>)
        ensures
            r@ == command_text("groupnumber"@, self.0),
    {
        proof {
            reveal_strlit("groupnumber");
        }
        render_setting("groupnumber", self.0)
    }
}

impl MusicVolumeIdx {
    /// Reads a `musicvolume: N` response line.
    pub fn from_response(line: &[u8]) -> (r: Result<MusicVolumeIdx, SettingsParseError>)
        ensures
            r is Ok <==> keyed_value(line@, "musicvolume"@) is Some,
            r matches Ok(g) ==> keyed_value(line@, "musicvolume"@) == Some(g.0),
            r matches Err(e) ==> (e == SettingsParseError::BadShape <==> !line_has_key(
                line@,
                "musicvolume"@,
            )),
    {
        proof {
            reveal_strlit("musicvolume");
        }
        match parse_setting("musicvolume", line) {
            Ok(v) => Ok(MusicVolumeIdx(v)),
            Err(e) => Err(e),
        }
    }

    /// The command text `musicvolume N`.
    pub fn to_command(&self) -> (r: Vec<u8>)
        ensures
            r@ == command_text("musicvolume"@, self.0),
    {
        proof {
            reveal_strlit("musicvolume");
        }
        render_setting("musicvolume", self.0)
    }
}

impl SoundVolumeIdx {
    /// Reads a `soundvolume: N` response line.
    pub fn from_response(line: &[u8]) -> (r: Result<SoundVolumeIdx, SettingsParseError>)
        ensures
            r is Ok <==> keyed_value(line@, "soundvolume"@) is Some,
            r matches Ok(g) ==> keyed_value(line@, "soundvolume"@) == Some(g.0),
            r matches Err(e) ==> (e == SettingsParseError::BadShape <==> !line_has_key(
                line@,
                "soundvolume"@,
            )),
    {
        proof {
            reveal_strlit("soundvolume");
        }
        match parse_setting("soundvolume", line) {
            Ok(v) => Ok(SoundVolumeIdx(v)),
            Err(e) => Err(e),
        }
    }

    /// The command text `soundvolume N`.
    pub fn to_command(&self) -> (r: Vec<u8>)
        ensures
            r@ == command_text("soundvolume"@, self.0),
    {
        proof {
            reveal_strlit("soundvolume");
        }
        render_setting("soundvolume", self.0)
    }
}

impl LoadCapacityIdx {
    /// Reads a `loadcapacity: N` response line.
    pub fn from_response(line: &[u8]) -> (r: Result<LoadCapacityIdx, SettingsParseError>)
        ensures
            r is Ok <==> keyed_value(line@, "loadcapacity"@) is Some,
            r matches Ok(g) ==> keyed_value(line@, "loadcapacity"@) == Some(g.0),
            r matches Err(e) ==> (e == SettingsParseError::BadShape <==> !line_has_key(
                line@,
                "loadcapacity"@,
            )),
    {
        proof {
            reveal_strlit("loadcapacity");
        }
        match parse_setting("loadcapacity", line) {
            Ok(v) => Ok(LoadCapacityIdx(v)),
            Err(e) => Err(e),
        }
    }

    /// The command text `loadcapacity N`.
    pub fn to_command(&self) -> (r: Vec<u8>)
        ensures
            r@ == command_text("loadcapacity"@, self.0),
    {
        proof {
            reveal_strlit("loadcapacity");
        }
        render_setting("loadcapacity", self.0)
    }
}

/// An ASCII letter or digit.
pub open spec fn is_ascii_alnum(c: char) -> bool {
    ('0' <= c && c <= '9') || ('a' <= c && c <= 'z') || ('A' <= c && c <= 'Z')
}

/// A usable configuration-file name: non-empty, ASCII letters and digits
/// only.
pub open spec fn valid_config_name(s: Seq<char>) -> bool {
    &&& s.len() >= 1
    &&& forall|i: int| 0 <= i < s.len() ==> is_ascii_alnum(s[i])
}

/// Decides [`valid_config_name`] executably.
pub fn is_valid_config_name(name: &str) -> (r: bool)
    ensures
        r == valid_config_name(name@),
{
    if name.is_empty() {
        return false;
    }
    if !name.is_ascii() {
        proof {
            let i = choose|i: int|
                0 <= i < name@.len() && !('\0' <= name@[i] && name@[i] <= '\u{7f}');
            assert(!is_ascii_alnum(name@[i]));
        }
        return false;
    }
    let bytes = name.as_bytes();
    let mut i: usize = 0;
    while i < bytes.len()
        invariant
            vstd::string::is_ascii(name),
            bytes@.len() == name@.len(),
            forall|j: int| 0 <= j < name@.len() ==> bytes@[j] == name@[j] as u8,
            0 <= i <= name@.len(),
            forall|j: int| 0 <= j < i ==> is_ascii_alnum(name@[j]),
        decreases bytes@.len() - i,
    {
        let b = bytes[i];
        let ok = (0x30 <= b && b <= 0x39) || (0x61 <= b && b <= 0x7A) || (0x41 <= b && b
            <= 0x5A);
        if !ok {
            proof {
                assert(name@[i as int] as u8 == b && name@[i as int] <= '\u{7f}');
                assert(!is_ascii_alnum(name@[i as int]));
            }
            return false;
        }
        proof {
            assert(name@[i as int] as u8 == b && '\0' <= name@[i as int] && name@[i as int]
                <= '\u{7f}');
            assert(is_ascii_alnum(name@[i as int]));
        }
        i = i + 1;
    }
    true
}

/// The four device settings, each within its bound, under a configuration
/// name that the persistence layer uses to locate the file.
#[derive(Debug, Clone)]
pub struct DeviceConfig {
    /// Name of the configuration file the settings are kept under.
    pub config_name: String,
    /// Group number, at most [`MAX_GROUP_NUMBER`].
    pub group_number: GroupNumber,
    /// Music-volume index, at most [`MAX_MUSIC_VOLUME_IDX`].
    pub music_volume_idx: MusicVolumeIdx,
    /// Sound-volume index, at most [`MAX_SOUND_VOLUME_IDX`].
    pub sound_volume_idx: SoundVolumeIdx,
    /// Load-capacity index, at most [`MAX_CAPACITY_IDX`].
    pub load_capacity_idx: LoadCapacityIdx,
}

impl DeviceConfig {
    /// Every setting lies within its bound.
    pub open spec fn wf(&self) -> bool {
        &&& self.group_number.0 <= MAX_GROUP_NUMBER
        &&& self.music_volume_idx.0 <= MAX_MUSIC_VOLUME_IDX
        &&& self.sound_volume_idx.0 <= MAX_SOUND_VOLUME_IDX
        &&& self.load_capacity_idx.0 <= MAX_CAPACITY_IDX
    }

    /// A configuration with the default settings under the given name.
    pub fn new(name: &str) -> (r: Self)
        ensures
            r.config_name@ == name@,
            r.group_number.0 == 0,
            r.music_volume_idx.0 == 0,
            r.sound_volume_idx.0 == 2,
            r.load_capacity_idx.0 == 0,
            r.wf(),
    {
        Self {
            config_name: name.to_owned(),
            group_number: GroupNumber(0),
            music_volume_idx: MusicVolumeIdx(0),
            sound_volume_idx: SoundVolumeIdx(2),
            load_capacity_idx: LoadCapacityIdx(0),
        }
    }

    /// The name of the configuration file.
    pub fn get_config_name(&self) -> (r: String)
        ensures
            r@ == self.config_name@,
    {
        self.config_name.clone()
    }

    /// Renames the configuration. Succeeds exactly on usable names
    /// (non-empty, ASCII letters and digits); on failure nothing changes.
    pub fn change_config_name(&mut self, name: &str) -> (r: Result<(), String>)
        ensures
            r is Ok <==> valid_config_name(name@),
            r is Ok ==> final(self).config_name@ == name@,
            r is Err ==> *final(self) == *old(self),
            final(self).group_number == old(self).group_number,
            final(self).music_volume_idx == old(self).music_volume_idx,
            final(self).sound_volume_idx == old(self).sound_volume_idx,
            final(self).load_capacity_idx == old(self).load_capacity_idx,
    {
        if name.is_empty() {
            return Err("Name should not be empty".to_owned());
        }
        if is_valid_config_name(name) {
            self.config_name = name.to_owned();
            return Ok(());
        }
        Err("Name should be alphanumeric".to_owned())
    }

    /// The group number.
    pub fn get_group_number(&self) -> (r: GroupNumber)
        ensures
            r == self.group_number,
    {
        self.group_number
    }

    /// The music-volume index.
    pub fn get_music_volume_idx(&self) -> (r: MusicVolumeIdx)
        ensures
            r == self.music_volume_idx,
    {
        self.music_volume_idx
    }

    /// The sound-volume index.
    pub fn get_sound_volume_idx(&self) -> (r: SoundVolumeIdx)
        ensures
            r == self.sound_volume_idx,
    {
        self.sound_volume_idx
    }

    /// The load-capacity index.
    pub fn get_load_capacity_idx(&self) -> (r: LoadCapacityIdx)
        ensures
            r == self.load_capacity_idx,
    {
        self.load_capacity_idx
    }

    /// Stores the group number if it is within bounds; otherwise rejects it
    /// and changes nothing.
    pub fn set_group_number(&mut self, group_number: GroupNumber) -> (r: Result<(), String>)
        ensures
            r is Ok <==> group_number.0 <= MAX_GROUP_NUMBER,
            r is Ok ==> *final(self) == (DeviceConfig { group_number, ..*old(self) }),
            r is Err ==> *final(self) == *old(self),
    {
        if group_number.0 > MAX_GROUP_NUMBER {
            return Err("Group number out of range".to_owned());
        }
        self.group_number = group_number;
        Ok(())
    }

    /// Stores the music-volume index if it is within bounds; otherwise
    /// rejects it and changes nothing.
    pub fn set_music_volume_idx(&mut self, music_volume_idx: MusicVolumeIdx) -> (r: Result<
        (),
        String,
    >)
        ensures
            r is Ok <==> music_volume_idx.0 <= MAX_MUSIC_VOLUME_IDX,
            r is Ok ==> *final(self) == (DeviceConfig { music_volume_idx, ..*old(self) }),
            r is Err ==> *final(self) == *old(self),
    {
        if music_volume_idx.0 > MAX_MUSIC_VOLUME_IDX {
            return Err("Music volume index out of range".to_owned());
        }
        self.music_volume_idx = music_volume_idx;
        Ok(())
    }

    /// Stores the sound-volume index if it is within bounds; otherwise
    /// rejects it and changes nothing.
    pub fn set_sound_volume_idx(&mut self, sound_volume_idx: SoundVolumeIdx) -> (r: Result<
        (),
        String,
    >)
        ensures
            r is Ok <==> sound_volume_idx.0 <= MAX_SOUND_VOLUME_IDX,
            r is Ok ==> *final(self) == (DeviceConfig { sound_volume_idx, ..*old(self) }),
            r is Err ==> *final(self) == *old(self),
    {
        if sound_volume_idx.0 > MAX_SOUND_VOLUME_IDX {
            return Err("Sound volume index out of range".to_owned());
        }
        self.sound_volume_idx = sound_volume_idx;
        Ok(())
    }

    /// Stores the load-capacity index if it is within bounds; otherwise
    /// rejects it and changes nothing.
    pub fn set_load_capacity_idx(&mut self, load_capacity_idx: LoadCapacityIdx) -> (r: Result<
        (),
        String,
    >)
        ensures
            r is Ok <==> load_capacity_idx.0 <= MAX_CAPACITY_IDX,
            r is Ok ==> *final(self) == (DeviceConfig { load_capacity_idx, ..*old(self) }),
            r is Err ==> *final(self) == *old(self),
    {
        if load_capacity_idx.0 > MAX_CAPACITY_IDX {
            return Err("Load capacity index out of range".to_owned());
        }
        self.load_capacity_idx = load_capacity_idx;
        Ok(())
    }
}

} // verus!
