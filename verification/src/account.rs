//! What the remote service knows of a player's account, and its decoding
//! from the raw record, in which the game mode is a number and each flag is
//! 0 or 1.

use crate::error::ErrorKind;
use crate::timestamp::{parse_spec, Timestamp};
use vstd::prelude::*;

verus! {

/// The mode in which an account is played.
#[derive(Debug, Clone, Copy, PartialEq, Eq, Structural, Hash)]
pub enum GameMode {
    Normal,
    Ironman,
    UltimateIronman,
    HardcoreIronman,
}

impl GameMode {
    /// The number that stands for the mode in a raw record.
    pub open spec fn code_spec(self) -> u8 {
        match self {
            GameMode::Normal => 0,
            GameMode::Ironman => 1,
            GameMode::UltimateIronman => 2,
            GameMode::HardcoreIronman => 3,
        }
    }

    /// The mode that a number stands for; numbers above 3 stand for none.
    pub open spec fn from_code_spec(code: u64) -> Option<GameMode> {
        if code == 0 {
            Some(GameMode::Normal)
        } else if code == 1 {
            Some(GameMode::Ironman)
        } else if code == 2 {
            Some(GameMode::UltimateIronman)
        } else if code == 3 {
            Some(GameMode::HardcoreIronman)
        } else {
            None
        }
    }

    /// The number that stands for the mode in a raw record.
    pub fn code(self) -> (code: u8)
        ensures
            code == self.code_spec(),
    {
        match self {
            GameMode::Normal => 0,
            GameMode::Ironman => 1,
            GameMode::UltimateIronman => 2,
            GameMode::HardcoreIronman => 3,
        }
    }

    /// The mode that `code` stands for.
    pub fn from_code(code: u64) -> (mode: Option<GameMode>)
        ensures
            mode == GameMode::from_code_spec(code),
    {
        if code == 0 {
            Some(GameMode::Normal)
        } else if code == 1 {
            Some(GameMode::Ironman)
        } else if code == 2 {
            Some(GameMode::UltimateIronman)
        } else if code == 3 {
            Some(GameMode::HardcoreIronman)
        } else {
            None
        }
    }

    /// A mode is the one that its number stands for, and a number that stands
    /// for a mode is that mode's number.
    pub proof fn lemma_code_round_trip(mode: GameMode, code: u64)
        ensures
            GameMode::from_code_spec(mode.code_spec() as u64) == Some(mode),
            GameMode::from_code_spec(code) matches Some(m) ==> m.code_spec() == code,
    {
    }
}

/// The truth value that a number stands for: 0 for false, 1 for true, and no
/// other number for either.
pub open spec fn flag_spec(value: u64) -> Option<bool> {
    if value == 0 {
        Some(false)
    } else if value == 1 {
        Some(true)
    } else {
        None
    }
}

/// The truth value that `value` stands for.
pub fn flag(value: u64) -> (truth: Option<bool>)
    ensures
        truth == flag_spec(value),
{
    if value == 0 {
        Some(false)
    } else if value == 1 {
        Some(true)
    } else {
        None
    }
}

/// An account record as the remote service sends it: numbers for the mode
/// and the flags, text for the timestamps.
#[derive(Debug, Clone, PartialEq, Eq)]
pub struct RawPlayerInformation {
    pub username: String,
    pub country: String,
    pub game_mode: u64,
    pub fresh_start_account: u64,
    pub combat_level_3: u64,
    pub f2p: u64,
    pub banned: u64,
    pub disqualified: u64,
    pub clan_preference: Option<u32>,
    pub last_checked: Option<String>,
    pub last_changed: Option<String>,
    pub last_changed_kc: Option<String>,
    pub datapoint_cooldown: String,
}

/// A player's account.
#[derive(Debug, PartialEq, Eq)]
pub struct PlayerInformation {
    pub username: String,
    pub country: String,
    pub game_mode: GameMode,
    pub fresh_start_account: bool,
    pub combat_level_3: bool,
    pub f2p: bool,
    pub banned: bool,
    pub disqualified: bool,
    pub clan_preference: Option<u32>,
    pub last_checked: Option<Timestamp>,
    pub last_changed: Option<Timestamp>,
    pub last_changed_kc: Option<Timestamp>,
    pub datapoint_cooldown: String,
}

/// Whether the mode and every flag of a raw record stand for something.
pub open spec fn has_valid_codes(raw: RawPlayerInformation) -> bool {
    &&& GameMode::from_code_spec(raw.game_mode) is Some
    &&& flag_spec(raw.fresh_start_account) is Some
    &&& flag_spec(raw.combat_level_3) is Some
    &&& flag_spec(raw.f2p) is Some
    &&& flag_spec(raw.banned) is Some
    &&& flag_spec(raw.disqualified) is Some
}

/// Whether an optional timestamp text is absent or valid.
pub open spec fn is_absent_or_valid(text: Option<String>) -> bool {
    text matches Some(t) ==> parse_spec(t@) is Some
}

/// The second that an optional timestamp text denotes.
pub open spec fn optional_second(text: Option<String>) -> Option<i64> {
    match text {
        Some(t) => parse_spec(t@),
        None => None,
    }
}

/// The second of an optional timestamp.
pub open spec fn second_of(at: Option<Timestamp>) -> Option<i64> {
    match at {
        Some(t) => Some(t.secs()),
        None => None,
    }
}

/// The first of the three timestamp texts of a raw record that is present
/// and invalid, if there is one.
pub open spec fn first_invalid_timestamp(raw: RawPlayerInformation) -> Option<Seq<char>> {
    if !is_absent_or_valid(raw.last_checked) {
        Some(raw.last_checked.unwrap()@)
    } else if !is_absent_or_valid(raw.last_changed) {
        Some(raw.last_changed.unwrap()@)
    } else if !is_absent_or_valid(raw.last_changed_kc) {
        Some(raw.last_changed_kc.unwrap()@)
    } else {
        None
    }
}

/// Whether `info` is what `raw` decodes to.
pub open spec fn is_decoded_from(info: PlayerInformation, raw: RawPlayerInformation) -> bool {
    &&& info.username@ == raw.username@
    &&& info.country@ == raw.country@
    &&& Some(info.game_mode) == GameMode::from_code_spec(raw.game_mode)
    &&& Some(info.fresh_start_account) == flag_spec(raw.fresh_start_account)
    &&& Some(info.combat_level_3) == flag_spec(raw.combat_level_3)
    &&& Some(info.f2p) == flag_spec(raw.f2p)
    &&& Some(info.banned) == flag_spec(raw.banned)
    &&& Some(info.disqualified) == flag_spec(raw.disqualified)
    &&& info.clan_preference == raw.clan_preference
    &&& second_of(info.last_checked) == optional_second(raw.last_checked)
    &&& second_of(info.last_changed) == optional_second(raw.last_changed)
    &&& second_of(info.last_changed_kc) == optional_second(raw.last_changed_kc)
    &&& info.datapoint_cooldown@ == raw.datapoint_cooldown@
}

/// Reads an optional timestamp.
fn parse_optional(text: &Option<String>) -> (result: Result<Option<Timestamp>, ErrorKind>)
    ensures
        match result {
            Ok(at) => is_absent_or_valid(*text) && second_of(at) == optional_second(*text),
            Err(e) => {
                &&& !is_absent_or_valid(*text)
                &&& e matches ErrorKind::ParseError(offending)
                &&& offending@ == text.unwrap()@
            },
        },
{
    match text {
        Some(t) => match Timestamp::parse(t.as_str()) {
            Ok(at) => Ok(Some(at)),
            Err(e) => Err(e),
        },
        None => Ok(None),
    }
}

impl PlayerInformation {
    /// Decodes an account record.
    ///
    /// A game mode or a flag that stands for nothing makes the record
    /// malformed. Otherwise the first timestamp that is present and invalid
    /// fails the record with its parse error. An absent timestamp stays absent.
    pub fn decode(raw: &RawPlayerInformation) -> (result: Result<PlayerInformation, ErrorKind>)
        ensures
            match result {
                Ok(info) => {
                    &&& has_valid_codes(*raw)
                    &&& first_invalid_timestamp(*raw) is None
                    &&& is_decoded_from(info, *raw)
                },
                Err(e) => if !has_valid_codes(*raw) {
                    e == ErrorKind::MalformedAccount
                } else {
                    &&& first_invalid_timestamp(*raw) matches Some(text)
                    &&& e matches ErrorKind::ParseError(offending)
                    &&& offending@ == text
                },
            },
    {
        let game_mode = match GameMode::from_code(raw.game_mode) {
            Some(mode) => mode,
            None => {
                return Err(ErrorKind::MalformedAccount);
            },
        };
        let fresh_start_account = match flag(raw.fresh_start_account) {
            Some(truth) => truth,
            None => {
                return Err(ErrorKind::MalformedAccount);
            },
        };
        let combat_level_3 = match flag(raw.combat_level_3) {
            Some(truth) => truth,
            None => {
                return Err(ErrorKind::MalformedAccount);
            },
        };
        let f2p = match flag(raw.f2p) {
            Some(truth) => truth,
            None => {
                return Err(ErrorKind::MalformedAccount);
            },
        };
        let banned = match flag(raw.banned) {
            Some(truth) => truth,
            None => {
                return Err(ErrorKind::MalformedAccount);
            },
        };
        let disqualified = match flag(raw.disqualified) {
            Some(truth) => truth,
            None => {
                return Err(ErrorKind::MalformedAccount);
            },
        };
        let last_checked = match parse_optional(&raw.last_checked) {
            Ok(at) => at,
            Err(e) => {
                return Err(e);
            },
        };
        let last_changed = match parse_optional(&raw.last_changed) {
            Ok(at) => at,
            Err(e) => {
                return Err(e);
            },
        };
        let last_changed_kc = match parse_optional(&raw.last_changed_kc) {
            Ok(at) => at,
            Err(e) => {
                return Err(e);
            },
        };
        Ok(
            PlayerInformation {
                username: raw.username.clone(),
                country: raw.country.clone(),
                game_mode,
                fresh_start_account,
                combat_level_3,
                f2p,
                banned,
                disqualified,
                clan_preference: raw.clan_preference,
                last_checked,
                last_changed,
                last_changed_kc,
                datapoint_cooldown: raw.datapoint_cooldown.clone(),
            },
        )
    }
}

} // verus!
