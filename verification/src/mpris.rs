//! Normalization of what an MPRIS player reports: its metadata map, its
//! playback status and its position.
//!
//! A metadata map arrives as typed values under well-known keys. `Metadata`
//! holds those values in plain form; `parse_metadata` turns them into the
//! schema's `MetadataInfo`.

use vstd::prelude::*;
use vstd::string::*;
use vstd::utf8::encode_utf8;
use crate::identity::{normalize_dbus_name, spec_normalize_dbus_name};
use crate::media_info::{
    sessions_view, MetadataInfo, MetadataInfoView, PlaybackInfo, PlaybackState, SessionInfo,
    SessionInfoView,
};
use crate::sessions::{
    dedup_sessions, ids_unique, is_first_of_its_id, lemma_dedup, lists_id, spec_dedup,
};
use crate::text::str_is;

verus! {

/// The longest art URL, in bytes, that is passed on; a longer one is dropped.
pub const ART_URL_LIMIT: usize = 1000;

/// A player's looping status.
#[derive(Clone, Copy, Debug, PartialEq, Eq, Structural)]
pub enum LoopStatus {
    /// The playback stops when there are no more tracks to play. The platform
    /// calls it `None`.
    Off,
    /// The current track starts again once it has finished.
    Track,
    /// The playback loops through a list of tracks.
    Playlist,
}

/// A status word that is not part of the vocabulary.
#[derive(Clone, Debug, PartialEq, Eq)]
pub struct ParseErr(pub String);

impl ParseErr {
    /// The text of the error.
    pub open spec fn spec_message(word: Seq<char>) -> Seq<char> {
        "Couldn't parse `"@ + word + "`"@
    }

    /// The text of the error: the rejected word between back quotes.
    pub fn message(&self) -> (s: String)
        ensures
            s@ == Self::spec_message(self.0@),
    {
        let mut s = "Couldn't parse `".to_owned();
        s.append(self.0.as_str());
        s.append("`");
        s
    }
}

impl PlaybackState {
    /// The state a status word of the platform stands for, if it is one of
    /// `Playing`, `Paused` and `Stopped`.
    pub open spec fn spec_parse(word: Seq<char>) -> Option<PlaybackState> {
        if word == "Playing"@ {
            Some(PlaybackState::Playing)
        } else if word == "Paused"@ {
            Some(PlaybackState::Paused)
        } else if word == "Stopped"@ {
            Some(PlaybackState::Stopped)
        } else {
            None
        }
    }

    /// Reads a status word of the platform. Any word but `Playing`, `Paused`
    /// and `Stopped` is rejected, and the error holds the word.
    pub fn parse(word: &str) -> (r: Result<PlaybackState, ParseErr>)
        ensures
            match r {
                Ok(state) => Self::spec_parse(word@) == Some(state),
                Err(e) => Self::spec_parse(word@).is_none() && e.0@ == word@,
            },
    {
        if str_is(word, "Playing") {
            Ok(PlaybackState::Playing)
        } else if str_is(word, "Paused") {
            Ok(PlaybackState::Paused)
        } else if str_is(word, "Stopped") {
            Ok(PlaybackState::Stopped)
        } else {
            Err(ParseErr(word.to_owned()))
        }
    }
}

impl std::str::FromStr for PlaybackState {
    type Err = ParseErr;

    /// Reads a status word of the platform, as `PlaybackState::parse` does:
    /// `Playing`, `Paused` and `Stopped` give their state; any other word is
    /// rejected, and the error holds the word.
    fn from_str(string: &str) -> (r: Result<PlaybackState, ParseErr>)
        ensures
            match r {
                Ok(state) => PlaybackState::spec_parse(string@) == Some(state),
                Err(e) => PlaybackState::spec_parse(string@).is_none() && e.0@ == string@,
            },
    {
        PlaybackState::parse(string)
    }
}

impl LoopStatus {
    /// The loop status a word of the platform stands for, if it is one of
    /// `None`, `Track` and `Playlist`.
    pub open spec fn spec_parse(word: Seq<char>) -> Option<LoopStatus> {
        if word == "None"@ {
            Some(LoopStatus::Off)
        } else if word == "Track"@ {
            Some(LoopStatus::Track)
        } else if word == "Playlist"@ {
            Some(LoopStatus::Playlist)
        } else {
            None
        }
    }

    /// Reads a loop status word of the platform. Any word but `None`, `Track`
    /// and `Playlist` is rejected, and the error holds the word.
    pub fn parse(word: &str) -> (r: Result<LoopStatus, ParseErr>)
        ensures
            match r {
                Ok(status) => Self::spec_parse(word@) == Some(status),
                Err(e) => Self::spec_parse(word@).is_none() && e.0@ == word@,
            },
    {
        if str_is(word, "None") {
            Ok(LoopStatus::Off)
        } else if str_is(word, "Track") {
            Ok(LoopStatus::Track)
        } else if str_is(word, "Playlist") {
            Ok(LoopStatus::Playlist)
        } else {
            Err(ParseErr(word.to_owned()))
        }
    }
}

impl std::str::FromStr for LoopStatus {
    type Err = ParseErr;

    /// Reads a loop status word of the platform, as `LoopStatus::parse` does:
    /// `None`, `Track` and `Playlist` give their status; any other word is
    /// rejected, and the error holds the word.
    fn from_str(string: &str) -> (r: Result<LoopStatus, ParseErr>)
        ensures
            match r {
                Ok(status) => LoopStatus::spec_parse(string@) == Some(status),
                Err(e) => LoopStatus::spec_parse(string@).is_none() && e.0@ == string@,
            },
    {
        LoopStatus::parse(string)
    }
}

/// The playback state of the schema for a status word: the word's state, or
/// `Other` for a word outside the vocabulary.
pub open spec fn spec_state_of(word: Seq<char>) -> PlaybackState {
    match PlaybackState::spec_parse(word) {
        Some(state) => state,
        None => PlaybackState::Other,
    }
}

/// Normalizes a playback report: the status word becomes a state of the
/// schema (`Other` where the word is unknown); position and skip capability
/// are passed on.
pub fn parse_playback_state(playback_status: String, can_go_next: bool, position: i64) -> (r:
    PlaybackInfo)
    ensures
        r == (PlaybackInfo {
            state: spec_state_of(playback_status@),
            position,
            can_skip: can_go_next,
        }),
{
    let state = match PlaybackState::parse(playback_status.as_str()) {
        Ok(state) => state,
        Err(_) => PlaybackState::Other,
    };
    PlaybackInfo { state, position, can_skip: can_go_next }
}

/// A position in whole milliseconds from one in microseconds, rounded
/// towards zero; -1 where the platform gave none.
pub open spec fn spec_position_millis(position_micros: Option<i64>) -> int {
    match position_micros {
        Some(x) => if x >= 0 {
            x / 1000
        } else {
            -((-x) / 1000)
        },
        None => -1,
    }
}

/// A position in whole milliseconds from one in microseconds, rounded
/// towards zero; -1 where the platform gave none.
pub fn position_millis(position_micros: Option<i64>) -> (r: i64)
    ensures
        r == spec_position_millis(position_micros),
{
    match position_micros {
        Some(x) => {
            if x >= 0 {
                x / 1000
            } else if x == i64::MIN {
                -9223372036854775
            } else {
                -((-x) / 1000)
            }
        },
        None => -1,
    }
}

/// A value of a metadata map, in plain form.
#[derive(Clone, Debug, PartialEq, Eq)]
pub enum MetadataValue {
    Str(String),
    StrList(Vec<String>),
    I32(i32),
    I64(i64),
    U64(u64),
    /// A value of a type that no field of the schema reads.
    Other,
}

/// The mathematical content of a `MetadataValue`.
pub enum MetadataValueView {
    Str(Seq<char>),
    StrList(Seq<Seq<char>>),
    I32(i32),
    I64(i64),
    U64(u64),
    Other,
}

impl View for MetadataValue {
    type V = MetadataValueView;

    open spec fn view(&self) -> MetadataValueView {
        match self {
            MetadataValue::Str(s) => MetadataValueView::Str(s@),
            MetadataValue::StrList(l) => MetadataValueView::StrList(l.deep_view()),
            MetadataValue::I32(x) => MetadataValueView::I32(*x),
            MetadataValue::I64(x) => MetadataValueView::I64(*x),
            MetadataValue::U64(x) => MetadataValueView::U64(*x),
            MetadataValue::Other => MetadataValueView::Other,
        }
    }
}

/// One key of a metadata map with its value.
#[derive(Clone, Debug, PartialEq, Eq)]
pub struct MetadataEntry {
    pub key: String,
    pub value: MetadataValue,
}

/// The mathematical content of a `MetadataEntry`.
pub struct MetadataEntryView {
    pub key: Seq<char>,
    pub value: MetadataValueView,
}

impl View for MetadataEntry {
    type V = MetadataEntryView;

    open spec fn view(&self) -> MetadataEntryView {
        MetadataEntryView { key: self.key@, value: self.value@ }
    }
}

/// The value of the first entry under `key`.
pub open spec fn spec_lookup(entries: Seq<MetadataEntryView>, key: Seq<char>) -> Option<
    MetadataValueView,
>
    decreases entries.len(),
{
    if entries.len() == 0 {
        None
    } else if entries[0].key == key {
        Some(entries[0].value)
    } else {
        spec_lookup(entries.drop_first(), key)
    }
}

/// The text under `key`, where the value is a text.
pub open spec fn spec_text(entries: Seq<MetadataEntryView>, key: Seq<char>) -> Option<Seq<char>> {
    match spec_lookup(entries, key) {
        Some(MetadataValueView::Str(s)) => Some(s),
        _ => None,
    }
}

/// The list of texts under `key`, where the value is such a list.
pub open spec fn spec_text_list(entries: Seq<MetadataEntryView>, key: Seq<char>) -> Option<
    Seq<Seq<char>>,
> {
    match spec_lookup(entries, key) {
        Some(MetadataValueView::StrList(l)) => Some(l),
        _ => None,
    }
}

/// The 32-bit number under `key`, where the value is one.
pub open spec fn spec_int32(entries: Seq<MetadataEntryView>, key: Seq<char>) -> Option<int> {
    match spec_lookup(entries, key) {
        Some(MetadataValueView::I32(x)) => Some(x as int),
        _ => None,
    }
}

/// The track length in microseconds: an unsigned value as it is, a signed one
/// read as unsigned in two's complement.
pub open spec fn spec_length_micros(entries: Seq<MetadataEntryView>) -> Option<int> {
    match spec_lookup(entries, "mpris:length"@) {
        Some(MetadataValueView::U64(x)) => Some(x as int),
        Some(MetadataValueView::I64(x)) => Some(
            if x >= 0 {
                x as int
            } else {
                x + 0x1_0000_0000_0000_0000
            },
        ),
        _ => None,
    }
}

/// The first text of a list, or the empty text.
pub open spec fn spec_first_or_empty(list: Option<Seq<Seq<char>>>) -> Seq<char> {
    match list {
        Some(l) => if l.len() > 0 {
            l[0]
        } else {
            Seq::empty()
        },
        None => Seq::empty(),
    }
}

/// A text, or the empty text where there is none.
pub open spec fn spec_or_empty(text: Option<Seq<char>>) -> Seq<char> {
    match text {
        Some(s) => s,
        None => Seq::empty(),
    }
}

/// The art URL that is passed on: the one given where its UTF-8 form is
/// shorter than `ART_URL_LIMIT` bytes, else the empty text.
pub open spec fn spec_guarded_art_url(url: Option<Seq<char>>) -> Seq<char> {
    match url {
        Some(s) => if encode_utf8(s).len() < ART_URL_LIMIT {
            s
        } else {
            Seq::empty()
        },
        None => Seq::empty(),
    }
}

/// The normalized metadata of a metadata map.
pub open spec fn spec_parse_metadata(entries: Seq<MetadataEntryView>) -> MetadataInfoView {
    MetadataInfoView {
        track_id: spec_or_empty(spec_text(entries, "mpris:trackid"@)),
        title: spec_or_empty(spec_text(entries, "xesam:title"@)),
        artist: spec_first_or_empty(spec_text_list(entries, "xesam:artist"@)),
        album: spec_or_empty(spec_text(entries, "xesam:album"@)),
        album_artist: spec_first_or_empty(spec_text_list(entries, "xesam:albumArtist"@)),
        track_number: match spec_int32(entries, "xesam:trackNumber"@) {
            Some(n) => n,
            None => 0,
        },
        duration: match spec_length_micros(entries) {
            Some(micros) => micros / 1000,
            None => -1,
        },
        art_url: spec_guarded_art_url(spec_text(entries, "mpris:artUrl"@)),
        track_url: spec_or_empty(spec_text(entries, "xesam:url"@)),
    }
}

/// The metadata map of a player: typed values under their keys. Where a key
/// stands twice, the first entry counts.
#[derive(Clone, Debug, Default, PartialEq, Eq)]
pub struct Metadata {
    values: Vec<MetadataEntry>,
}

impl View for Metadata {
    type V = Seq<MetadataEntryView>;

    closed spec fn view(&self) -> Seq<MetadataEntryView> {
        self.values@.map_values(|e: MetadataEntry| e@)
    }
}

impl Metadata {
    /// The map that holds the given entries, in their order.
    pub fn from_entries(values: Vec<MetadataEntry>) -> (m: Metadata)
        ensures
            m@ == values@.map_values(|e: MetadataEntry| e@),
    {
        Metadata { values }
    }

    /// The entries of the map, in their order.
    pub fn entries(&self) -> (r: &Vec<MetadataEntry>)
        ensures
            r@.map_values(|e: MetadataEntry| e@) == self@,
    {
        &self.values
    }

    /// The value under `key`, if the map holds the key.
    pub fn get(&self, key: &str) -> (r: Option<&MetadataValue>)
        ensures
            match r {
                Some(v) => spec_lookup(self@, key@) == Some(v@),
                None => spec_lookup(self@, key@).is_none(),
            },
    {
        let n = self.values.len();
        let mut i: usize = 0;
        assert(self@.skip(0) == self@);
        while i < n
            invariant
                n == self.values.len(),
                i <= n,
                spec_lookup(self@, key@) == spec_lookup(self@.skip(i as int), key@),
            decreases n - i,
        {
            proof {
                assert(self@.skip(i as int).drop_first() == self@.skip(i + 1));
                assert(self@.skip(i as int)[0] == self.values@[i as int]@);
            }
            if str_is(self.values[i].key.as_str(), key) {
                return Some(&self.values[i].value);
            }
            i += 1;
        }
        proof {
            assert(self@.skip(n as int).len() == 0);
        }
        None
    }

    /// The text under `key`; `None` where the key is absent or holds no text.
    pub fn text(&self, key: &str) -> (r: Option<&str>)
        ensures
            match r {
                Some(s) => spec_text(self@, key@) == Some(s@),
                None => spec_text(self@, key@).is_none(),
            },
    {
        match self.get(key) {
            Some(MetadataValue::Str(s)) => Some(s.as_str()),
            _ => None,
        }
    }

    /// The list of texts under `key`; `None` where the key is absent or holds
    /// no such list.
    pub fn text_list(&self, key: &str) -> (r: Option<&Vec<String>>)
        ensures
            match r {
                Some(l) => spec_text_list(self@, key@) == Some(l.deep_view()),
                None => spec_text_list(self@, key@).is_none(),
            },
    {
        match self.get(key) {
            Some(MetadataValue::StrList(l)) => Some(l),
            _ => None,
        }
    }

    /// The 32-bit number under `key`; `None` where the key is absent or holds
    /// no such number.
    pub fn int32(&self, key: &str) -> (r: Option<i32>)
        ensures
            match r {
                Some(x) => spec_int32(self@, key@) == Some(x as int),
                None => spec_int32(self@, key@).is_none(),
            },
    {
        match self.get(key) {
            Some(MetadataValue::I32(x)) => Some(*x),
            _ => None,
        }
    }

    /// The track's identity within the player (`mpris:trackid`).
    pub fn track_id(&self) -> (r: Option<&str>)
        ensures
            match r {
                Some(s) => spec_text(self@, "mpris:trackid"@) == Some(s@),
                None => spec_text(self@, "mpris:trackid"@).is_none(),
            },
    {
        self.text("mpris:trackid")
    }

    /// The artists of the album (`xesam:albumArtist`).
    pub fn album_artists(&self) -> (r: Option<&Vec<String>>)
        ensures
            match r {
                Some(l) => spec_text_list(self@, "xesam:albumArtist"@) == Some(l.deep_view()),
                None => spec_text_list(self@, "xesam:albumArtist"@).is_none(),
            },
    {
        self.text_list("xesam:albumArtist")
    }

    /// The name of the album (`xesam:album`).
    pub fn album_name(&self) -> (r: Option<&str>)
        ensures
            match r {
                Some(s) => spec_text(self@, "xesam:album"@) == Some(s@),
                None => spec_text(self@, "xesam:album"@).is_none(),
            },
    {
        self.text("xesam:album")
    }

    /// The location of the cover art (`mpris:artUrl`).
    pub fn art_url(&self) -> (r: Option<&str>)
        ensures
            match r {
                Some(s) => spec_text(self@, "mpris:artUrl"@) == Some(s@),
                None => spec_text(self@, "mpris:artUrl"@).is_none(),
            },
    {
        self.text("mpris:artUrl")
    }

    /// The artists of the track (`xesam:artist`).
    pub fn artists(&self) -> (r: Option<&Vec<String>>)
        ensures
            match r {
                Some(l) => spec_text_list(self@, "xesam:artist"@) == Some(l.deep_view()),
                None => spec_text_list(self@, "xesam:artist"@).is_none(),
            },
    {
        self.text_list("xesam:artist")
    }

    /// The number of the disc within the album (`xesam:discNumber`).
    pub fn disc_number(&self) -> (r: Option<i32>)
        ensures
            match r {
                Some(x) => spec_int32(self@, "xesam:discNumber"@) == Some(x as int),
                None => spec_int32(self@, "xesam:discNumber"@).is_none(),
            },
    {
        self.int32("xesam:discNumber")
    }

    /// The track's length in microseconds (`mpris:length`): an unsigned value
    /// as it is, a signed one read as unsigned in two's complement.
    pub fn length_in_microseconds(&self) -> (r: Option<u64>)
        ensures
            match r {
                Some(x) => spec_length_micros(self@) == Some(x as int),
                None => spec_length_micros(self@).is_none(),
            },
    {
        match self.get("mpris:length") {
            Some(MetadataValue::U64(x)) => Some(*x),
            Some(MetadataValue::I64(x)) => Some(signed_as_unsigned(*x)),
            _ => None,
        }
    }

    /// The track's length in whole milliseconds.
    pub fn length(&self) -> (r: Option<u64>)
        ensures
            match r {
                Some(ms) => spec_length_micros(self@).is_some() && ms == spec_length_micros(
                    self@,
                ).unwrap() / 1000 && ms <= u64::MAX / 1000,
                None => spec_length_micros(self@).is_none(),
            },
    {
        match self.length_in_microseconds() {
            Some(micros) => Some(micros / 1000),
            None => None,
        }
    }

    /// The name of the track (`xesam:title`).
    pub fn title(&self) -> (r: Option<&str>)
        ensures
            match r {
                Some(s) => spec_text(self@, "xesam:title"@) == Some(s@),
                None => spec_text(self@, "xesam:title"@).is_none(),
            },
    {
        self.text("xesam:title")
    }

    /// The number of the track on its disc (`xesam:trackNumber`).
    pub fn track_number(&self) -> (r: Option<i32>)
        ensures
            match r {
                Some(x) => spec_int32(self@, "xesam:trackNumber"@) == Some(x as int),
                None => spec_int32(self@, "xesam:trackNumber"@).is_none(),
            },
    {
        self.int32("xesam:trackNumber")
    }

    /// The location of the media (`xesam:url`).
    pub fn url(&self) -> (r: Option<&str>)
        ensures
            match r {
                Some(s) => spec_text(self@, "xesam:url"@) == Some(s@),
                None => spec_text(self@, "xesam:url"@).is_none(),
            },
    {
        self.text("xesam:url")
    }

    /// The keys of the map, in the order of its entries.
    pub fn keys(&self) -> (r: Vec<String>)
        ensures
            r@.len() == self@.len(),
            forall|i: int| 0 <= i < r@.len() ==> (#[trigger] r@[i])@ == self@[i].key,
    {
        let mut out: Vec<String> = Vec::new();
        let n = self.values.len();
        let mut i: usize = 0;
        while i < n
            invariant
                n == self.values.len(),
                i <= n,
                out@.len() == i,
                forall|j: int| 0 <= j < i ==> (#[trigger] out@[j])@ == self@[j].key,
            decreases n - i,
        {
            out.push(self.values[i].key.clone());
            i += 1;
        }
        out
    }

    /// Whether the map holds no entry.
    pub fn is_empty(&self) -> (b: bool)
        ensures
            b == (self@.len() == 0),
    {
        self.values.len() == 0
    }
}

/// A signed 64-bit value read as unsigned in two's complement.
fn signed_as_unsigned(x: i64) -> (r: u64)
    ensures
        r == if x >= 0 {
            x as int
        } else {
            x + 0x1_0000_0000_0000_0000
        },
{
    if x >= 0 {
        x as u64
    } else {
        // -(x + 1) lies in 0 ..= i64::MAX, and x + 2^64 == u64::MAX - (-(x + 1)).
        u64::MAX - ((-(x + 1)) as u64)
    }
}

/// The first text of a list, or the empty text.
fn first_or_empty(list: Option<&Vec<String>>) -> (r: String)
    ensures
        r@ == spec_first_or_empty(
            match list {
                Some(l) => Some(l.deep_view()),
                None => None,
            },
        ),
{
    match list {
        Some(l) => {
            if l.len() > 0 {
                l[0].clone()
            } else {
                String::new()
            }
        },
        None => String::new(),
    }
}

/// A text, or the empty text where there is none.
fn or_empty(text: Option<&str>) -> (r: String)
    ensures
        r@ == spec_or_empty(
            match text {
                Some(s) => Some(s@),
                None => None,
            },
        ),
{
    match text {
        Some(s) => s.to_owned(),
        None => String::new(),
    }
}

/// The duration of normalized metadata is -1 or a count of milliseconds, and
/// it is -1 exactly where the map gives no length.
pub proof fn lemma_duration_known_or_unknown(entries: Seq<MetadataEntryView>)
    ensures
        -1 <= spec_parse_metadata(entries).duration <= u64::MAX / 1000,
        spec_parse_metadata(entries).duration == -1 <==> spec_length_micros(entries).is_none(),
        i32::MIN <= spec_parse_metadata(entries).track_number <= i32::MAX,
{
}

/// Normalizes a metadata map.
///
/// Texts that are absent become empty. Of a list of artists the first counts.
/// The duration is the length in whole milliseconds, -1 where the map gives
/// none. An art URL of `ART_URL_LIMIT` bytes or more is dropped.
pub fn parse_metadata(metadata: &Metadata) -> (r: MetadataInfo)
    ensures
        r@ == spec_parse_metadata(metadata@),
        r.duration >= -1,
        r.duration == -1 <==> spec_length_micros(metadata@).is_none(),
{
    let art_url = match metadata.art_url() {
        Some(s) => {
            if s.as_bytes().len() < ART_URL_LIMIT {
                s.to_owned()
            } else {
                String::new()
            }
        },
        None => String::new(),
    };
    let duration: i64 = match metadata.length() {
        Some(ms) => ms as i64,
        None => -1,
    };
    let track_number: i32 = match metadata.track_number() {
        Some(n) => n,
        None => 0,
    };
    MetadataInfo {
        track_id: or_empty(metadata.track_id()),
        title: or_empty(metadata.title()),
        artist: first_or_empty(metadata.artists()),
        album: or_empty(metadata.album_name()),
        album_artist: first_or_empty(metadata.album_artists()),
        track_number,
        duration,
        art_url,
        track_url: or_empty(metadata.url()),
    }
}

/// A player under its logical identity, with its display name.
pub open spec fn spec_logical_session(p: SessionInfoView) -> SessionInfoView {
    SessionInfoView { app_id: spec_normalize_dbus_name(p.app_id), app_name: p.app_name }
}

/// The players of a list, each under its logical identity, in their order.
pub open spec fn spec_logical_sessions(players: Seq<SessionInfoView>) -> Seq<SessionInfoView> {
    players.map_values(|p: SessionInfoView| spec_logical_session(p))
}

/// The session list as the host sees it: each player under its logical
/// identity, and each logical identity once. Where several players share a
/// logical identity, the entry of the first of them stays, with its display
/// name; the order of what stays is kept.
pub open spec fn spec_normalize_active_players(players: Seq<SessionInfoView>) -> Seq<
    SessionInfoView,
> {
    spec_dedup(spec_logical_sessions(players))
}

/// The session list names every logical identity of the players, each once,
/// and the first player of a logical identity gives the display name.
pub proof fn lemma_active_players_listed_once(players: Seq<SessionInfoView>)
    ensures
        ids_unique(spec_normalize_active_players(players)),
        spec_normalize_active_players(players).len() <= players.len(),
        forall|i: int|
            0 <= i < players.len() ==> lists_id(
                spec_normalize_active_players(players),
                spec_normalize_dbus_name((#[trigger] players[i]).app_id),
            ),
        forall|k: int|
            0 <= k < spec_normalize_active_players(players).len() ==> lists_id(
                spec_logical_sessions(players),
                (#[trigger] spec_normalize_active_players(players)[k]).app_id,
            ),
        forall|i: int| #[trigger]
            is_first_of_its_id(spec_logical_sessions(players), i)
                ==> spec_normalize_active_players(players).contains(
                spec_logical_session(players[i]),
            ),
{
    let mapped = spec_logical_sessions(players);
    let listed = spec_normalize_active_players(players);
    lemma_dedup(mapped);
    assert forall|i: int| 0 <= i < players.len() implies lists_id(
        listed,
        spec_normalize_dbus_name((#[trigger] players[i]).app_id),
    ) by {
        assert(mapped[i].app_id == spec_normalize_dbus_name(players[i].app_id));
        assert(lists_id(mapped, spec_normalize_dbus_name(players[i].app_id)));
    }
    assert forall|k: int| 0 <= k < listed.len() implies lists_id(
        mapped,
        (#[trigger] listed[k]).app_id,
    ) by {
        assert(lists_id(listed, listed[k].app_id));
    }
}

/// The session list as the host sees it: each player under its logical
/// identity, and each logical identity once, with the display name of the
/// first player that has it.
pub fn normalize_active_players(players: &Vec<SessionInfo>) -> (r: Vec<SessionInfo>)
    ensures
        r.deep_view() == spec_normalize_active_players(players.deep_view()),
{
    let mut mapped: Vec<SessionInfo> = Vec::new();
    let n = players.len();
    let mut i: usize = 0;
    while i < n
        invariant
            n == players.len(),
            i <= n,
            mapped@.len() == i,
            forall|j: int|
                0 <= j < i ==> (#[trigger] mapped@[j])@ == spec_logical_session(players@[j]@),
        decreases n - i,
    {
        let app_id = normalize_dbus_name(players[i].app_id.as_str());
        mapped.push(SessionInfo { app_id, app_name: players[i].app_name.clone() });
        i += 1;
    }
    assert(sessions_view(mapped@) =~= spec_logical_sessions(players.deep_view()));
    let out = dedup_sessions(&mapped);
    assert(out.deep_view() =~= sessions_view(out@));
    out
}

} // verus!
