//! The player cache and the decisions of an update run: where the player
//! identifier comes from, whether the cache is already current, and what is
//! installed in it.
use vstd::prelude::*;
use vstd::string::StringExecFns;
use crate::extract::{extract_player_data, player_data_of, PlayerData};
use crate::matcher::{capture, regex_capture};
use crate::patterns::PatternLibrary;
use crate::text::{hex8, hex8_of, parse_number, parsed_number};

verus! {

/// Why an update run stopped without installing new decoding code.
#[derive(Debug, Clone, Copy, PartialEq, Eq, Structural)]
pub enum FetchUpdateStatus {
    CannotFetchTestVideo,
    CannotMatchPlayerID,
    CannotFetchPlayerJS,
    NsigRegexCompileFailed,
    PlayerAlreadyUpdated,
}

/// Whether the cache has ever been filled.
#[derive(Debug, Clone, Copy, PartialEq, Eq, Structural)]
pub enum PlayerState {
    Unset,
    Populated,
}

/// The cache as values: identifier, whether it was ever filled, the three
/// pieces of code, the signature timestamp and the time of the last update.
pub struct CacheView {
    pub player_id: u32,
    pub populated: bool,
    pub sig_function_code: Seq<char>,
    pub sig_function_name: Seq<char>,
    pub nsig_function_code: Seq<char>,
    pub signature_timestamp: u64,
    pub last_update: u64,
}

/// The player cache: one record per process, filled by update runs.
pub struct PlayerInfo {
    player_id: u32,
    has_player: PlayerState,
    sig_function_code: String,
    sig_function_name: String,
    nsig_function_code: String,
    signature_timestamp: u64,
    last_update: u64,
}

/// The cache after a run that found it current: only the time moves.
pub open spec fn touched(c: CacheView, now: u64) -> CacheView {
    CacheView { last_update: now, ..c }
}

/// The cache after a run that installed the code `d` of player `id`.
pub open spec fn committed(
    c: CacheView,
    id: u32,
    d: (Seq<char>, Seq<char>, Seq<char>, u64),
    now: u64,
) -> CacheView {
    CacheView {
        player_id: id,
        populated: true,
        nsig_function_code: d.0,
        sig_function_code: d.1,
        sig_function_name: d.2,
        signature_timestamp: d.3,
        last_update: now,
    }
}

/// The cache after a run that left decoding to the delegated collaborator.
pub open spec fn delegated(c: CacheView, id: u32, timestamp: u64, now: u64) -> CacheView {
    CacheView {
        player_id: id,
        populated: true,
        signature_timestamp: timestamp,
        last_update: now,
        ..c
    }
}

impl View for PlayerInfo {
    type V = CacheView;

    closed spec fn view(&self) -> CacheView {
        CacheView {
            player_id: self.player_id,
            populated: self.has_player == PlayerState::Populated,
            sig_function_code: self.sig_function_code@,
            sig_function_name: self.sig_function_name@,
            nsig_function_code: self.nsig_function_code@,
            signature_timestamp: self.signature_timestamp,
            last_update: self.last_update,
        }
    }
}

impl PlayerInfo {
    /// An empty cache that no run has filled yet.
    pub fn new() -> (r: PlayerInfo)
        ensures
            r@ == (CacheView {
                player_id: 0,
                populated: false,
                sig_function_code: Seq::empty(),
                sig_function_name: Seq::empty(),
                nsig_function_code: Seq::empty(),
                signature_timestamp: 0,
                last_update: 0,
            }),
    {
        PlayerInfo {
            player_id: 0,
            has_player: PlayerState::Unset,
            sig_function_code: String::new(),
            sig_function_name: String::new(),
            nsig_function_code: String::new(),
            signature_timestamp: 0,
            last_update: 0,
        }
    }

    /// Records that the cache was found current at `now`.
    pub fn mark_current(&mut self, now: u64)
        ensures
            final(self)@ == touched(old(self)@, now),
    {
        self.last_update = now;
    }

    /// Installs, as one group, the identifier `id` and the code taken from its bundle.
    pub fn commit(&mut self, id: u32, data: PlayerData, now: u64)
        ensures
            final(self)@ == committed(old(self)@, id, data.view(), now),
    {
        self.player_id = id;
        self.nsig_function_code = data.nsig_function_code;
        self.sig_function_code = data.sig_function_code;
        self.sig_function_name = data.sig_function_name;
        self.signature_timestamp = data.signature_timestamp;
        self.has_player = PlayerState::Populated;
        self.last_update = now;
    }

    /// Installs the identifier `id` with the timestamp that the delegated
    /// collaborator gave for it; the code fields stay as they were.
    pub fn commit_delegated(&mut self, id: u32, timestamp: u64, now: u64)
        ensures
            final(self)@ == delegated(old(self)@, id, timestamp, now),
    {
        self.player_id = id;
        self.signature_timestamp = timestamp;
        self.has_player = PlayerState::Populated;
        self.last_update = now;
    }

    pub fn player_id(&self) -> (r: u32)
        ensures
            r == self@.player_id,
    {
        self.player_id
    }

    pub fn has_player(&self) -> (r: PlayerState)
        ensures
            (r == PlayerState::Populated) == self@.populated,
    {
        self.has_player
    }

    pub fn sig_function_code(&self) -> (r: &str)
        ensures
            r@ == self@.sig_function_code,
    {
        self.sig_function_code.as_str()
    }

    pub fn sig_function_name(&self) -> (r: &str)
        ensures
            r@ == self@.sig_function_name,
    {
        self.sig_function_name.as_str()
    }

    pub fn nsig_function_code(&self) -> (r: &str)
        ensures
            r@ == self@.nsig_function_code,
    {
        self.nsig_function_code.as_str()
    }

    pub fn signature_timestamp(&self) -> (r: u64)
        ensures
            r == self@.signature_timestamp,
    {
        self.signature_timestamp
    }

    pub fn last_update(&self) -> (r: u64)
        ensures
            r == self@.last_update,
    {
        self.last_update
    }
}

/// The operator's settings for update runs: a forced player identifier (0
/// for none), whether updates stop once the cache has been filled, and
/// whether decoding is delegated to an outside collaborator.
#[derive(Debug, Clone, Copy, PartialEq, Eq, Structural)]
pub struct UpdateConfig {
    pub forced_player_id: u32,
    pub update_disabled: bool,
    pub delegated: bool,
}

/// The hexadecimal number of an override setting; none when it is not one
/// that fits in 32 bits.
pub open spec fn forced_id_of(raw: Seq<char>) -> Option<u32> {
    match parsed_number(raw, 16) {
        Some(v) => if v <= u32::MAX {
            Some(v as u32)
        } else {
            None
        },
        None => None,
    }
}

/// Reads the forced player identifier from its setting, written in
/// hexadecimal; `0` means that no identifier is forced.
pub fn player_id_forced(raw: &str) -> (r: Option<u32>)
    ensures
        r == forced_id_of(raw@),
{
    let v = parse_number(raw, 16)?;
    if v <= 0xffff_ffff {
        Some(v as u32)
    } else {
        None
    }
}

/// Whether the setting that stops updates once the cache is filled is on: it is on when it reads `1`.
pub fn player_id_update_disabled(raw: &str) -> (r: bool)
    ensures
        r == (raw@ == seq!['1']),
{
    let n = raw.unicode_len();
    if n != 1 {
        return false;
    }
    let c = raw.get_char(0);
    assert(c == '1' ==> raw@ =~= seq!['1']);
    c == '1'
}

/// Where the player identifier of a run comes from.
#[derive(Debug, Clone, Copy, PartialEq, Eq, Structural)]
pub enum IdentitySource {
    /// The operator's override, taken as it is.
    Forced(u32),
    /// The reference page must be fetched and searched.
    ReferencePage,
}

/// An override that is set wins, with no look at the reference page.
pub fn identity_source(forced_player_id: u32) -> (r: IdentitySource)
    ensures
        forced_player_id != 0 ==> r == IdentitySource::Forced(forced_player_id),
        forced_player_id == 0 ==> r == IdentitySource::ReferencePage,
{
    if forced_player_id != 0 {
        IdentitySource::Forced(forced_player_id)
    } else {
        IdentitySource::ReferencePage
    }
}

/// The player identifier written in the reference page, in hexadecimal.
pub open spec fn page_player_id(lib: &PatternLibrary, page: Seq<char>) -> Result<u32, FetchUpdateStatus> {
    match regex_capture(lib.player_id@, page, 1) {
        Some(digits) => match forced_id_of(digits) {
            Some(id) => Ok(id),
            None => Err(FetchUpdateStatus::CannotMatchPlayerID),
        },
        None => Err(FetchUpdateStatus::CannotMatchPlayerID),
    }
}

/// Finds the player identifier in the reference page.
pub fn player_id_from_page(lib: &PatternLibrary, page: &str) -> (r: Result<u32, FetchUpdateStatus>)
    ensures
        r == page_player_id(lib, page@),
{
    match capture(lib.player_id.as_str(), page, 1) {
        Some(digits) => match player_id_forced(digits.as_str()) {
            Some(id) => Ok(id),
            None => Err(FetchUpdateStatus::CannotMatchPlayerID),
        },
        None => Err(FetchUpdateStatus::CannotMatchPlayerID),
    }
}

/// What a run does once it knows the player identifier.
#[derive(Debug, Clone, Copy, PartialEq, Eq, Structural)]
pub enum Freshness {
    /// The operator's settings say to leave a filled cache alone.
    Skip,
    /// The cache already holds this player.
    AlreadyUpdated,
    /// Decoding is delegated: install the identifier with the collaborator's timestamp.
    Delegate,
    /// Fetch the player's bundle and extract its code.
    FetchBundle,
}

/// The decision for player `id` against the cache `c`.
pub open spec fn freshness_of(c: CacheView, cfg: UpdateConfig, id: u32) -> Freshness {
    if c.populated && (cfg.forced_player_id != 0 || cfg.update_disabled) {
        Freshness::Skip
    } else if id == c.player_id {
        Freshness::AlreadyUpdated
    } else if cfg.delegated {
        Freshness::Delegate
    } else {
        Freshness::FetchBundle
    }
}

/// Decides, from the cache's state, what a run does for player `id`.
pub fn check_freshness(info: &PlayerInfo, cfg: &UpdateConfig, id: u32) -> (r: Freshness)
    ensures
        r == freshness_of(info@, *cfg, id),
{
    if info.has_player == PlayerState::Populated && (cfg.forced_player_id != 0
        || cfg.update_disabled) {
        Freshness::Skip
    } else if id == info.player_id {
        Freshness::AlreadyUpdated
    } else if cfg.delegated {
        Freshness::Delegate
    } else {
        Freshness::FetchBundle
    }
}

/// The address of the bundle of player `id`.
pub open spec fn player_js_url_of(id: u32) -> Seq<char> {
    "https://www.youtube.com/s/player/"@ + hex8(id) + "/player_ias.vflset/en_US/base.js"@
}

/// Builds the address of the bundle of player `id`, its identifier in eight hexadecimal digits.
pub fn player_js_url(id: u32) -> (r: String)
    ensures
        r@ == player_js_url_of(id),
{
    let mut url = String::from_str("https://www.youtube.com/s/player/");
    let digits = hex8_of(id);
    url.append(digits.as_str());
    url.append("/player_ias.vflset/en_US/base.js");
    url
}

/// The identifier that a run settles on: the override if one is set, else
/// the one in the reference page (none when the page could not be fetched).
pub open spec fn resolved_id(
    lib: &PatternLibrary,
    cfg: UpdateConfig,
    page: Option<Seq<char>>,
) -> Result<u32, FetchUpdateStatus> {
    if cfg.forced_player_id != 0 {
        Ok(cfg.forced_player_id)
    } else {
        match page {
            None => Err(FetchUpdateStatus::CannotFetchTestVideo),
            Some(p) => page_player_id(lib, p),
        }
    }
}

/// One whole update run on the cache `c`, given what the outside world
/// handed back: the reference page and the bundle of the resolved player
/// (none where the fetch failed), and the delegated collaborator's
/// timestamp. The cache after the run, and the run's outcome.
pub open spec fn run_outcome(
    c: CacheView,
    lib: &PatternLibrary,
    cfg: UpdateConfig,
    page: Option<Seq<char>>,
    bundle: Option<Seq<char>>,
    delegated_timestamp: u64,
    now: u64,
) -> (CacheView, Result<(), FetchUpdateStatus>) {
    match resolved_id(lib, cfg, page) {
        Err(e) => (c, Err(e)),
        Ok(id) => match freshness_of(c, cfg, id) {
            Freshness::Skip => (c, Ok(())),
            Freshness::AlreadyUpdated => (
                touched(c, now),
                Err(FetchUpdateStatus::PlayerAlreadyUpdated),
            ),
            Freshness::Delegate => (delegated(c, id, delegated_timestamp, now), Ok(())),
            Freshness::FetchBundle => match bundle {
                None => (c, Err(FetchUpdateStatus::CannotFetchPlayerJS)),
                Some(js) => match player_data_of(lib, js) {
                    None => (c, Err(FetchUpdateStatus::NsigRegexCompileFailed)),
                    Some(d) => (committed(c, id, d, now), Ok(())),
                },
            },
        },
    }
}

/// Runs one update on the cache with the fetched texts already at hand.
/// Nothing of the cache changes on a failure, but the time of the last
/// update when the cache was found current.
pub fn apply_update(
    info: &mut PlayerInfo,
    lib: &PatternLibrary,
    cfg: &UpdateConfig,
    page: Option<&str>,
    bundle: Option<&str>,
    delegated_timestamp: u64,
    now: u64,
) -> (r: Result<(), FetchUpdateStatus>)
    ensures
        (final(info)@, r) == run_outcome(
            old(info)@,
            lib,
            *cfg,
            match page {
                Some(p) => Some(p@),
                None => None,
            },
            match bundle {
                Some(b) => Some(b@),
                None => None,
            },
            delegated_timestamp,
            now,
        ),
{
    let id = match identity_source(cfg.forced_player_id) {
        IdentitySource::Forced(id) => id,
        IdentitySource::ReferencePage => match page {
            None => return Err(FetchUpdateStatus::CannotFetchTestVideo),
            Some(p) => player_id_from_page(lib, p)?,
        },
    };
    match check_freshness(info, cfg, id) {
        Freshness::Skip => Ok(()),
        Freshness::AlreadyUpdated => {
            info.mark_current(now);
            Err(FetchUpdateStatus::PlayerAlreadyUpdated)
        },
        Freshness::Delegate => {
            info.commit_delegated(id, delegated_timestamp, now);
            Ok(())
        },
        Freshness::FetchBundle => match bundle {
            None => Err(FetchUpdateStatus::CannotFetchPlayerJS),
            Some(js) => {
                let data = extract_player_data(lib, js)?;
                info.commit(id, data, now);
                Ok(())
            },
        },
    }
}

} // verus!
