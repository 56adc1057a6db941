use temple_stats::account::{flag, GameMode, PlayerInformation, RawPlayerInformation};
use temple_stats::error::ErrorKind;
use temple_stats::timestamp::Timestamp;

fn raw() -> RawPlayerInformation {
    RawPlayerInformation {
        username: "Posemann".to_string(),
        country: "NO".to_string(),
        game_mode: 1,
        fresh_start_account: 0,
        combat_level_3: 1,
        f2p: 0,
        banned: 0,
        disqualified: 1,
        clan_preference: Some(42),
        last_checked: Some("2023-01-05 10:20:30".to_string()),
        last_changed: None,
        last_changed_kc: Some("2023-01-01 00:00:00".to_string()),
        datapoint_cooldown: "-".to_string(),
    }
}

#[test]
fn game_mode_codes() {
    assert_eq!(GameMode::from_code(0), Some(GameMode::Normal));
    assert_eq!(GameMode::from_code(1), Some(GameMode::Ironman));
    assert_eq!(GameMode::from_code(2), Some(GameMode::UltimateIronman));
    assert_eq!(GameMode::from_code(3), Some(GameMode::HardcoreIronman));
    assert_eq!(GameMode::from_code(4), None);
    assert_eq!(GameMode::from_code(256), None);
    assert_eq!(GameMode::from_code(u64::MAX), None);
    for mode in
        [GameMode::Normal, GameMode::Ironman, GameMode::UltimateIronman, GameMode::HardcoreIronman]
    {
        assert_eq!(GameMode::from_code(mode.code() as u64), Some(mode));
    }
    assert_eq!(GameMode::HardcoreIronman.code(), 3);
}

#[test]
fn flags_are_zero_or_one() {
    assert_eq!(flag(0), Some(false));
    assert_eq!(flag(1), Some(true));
    assert_eq!(flag(2), None);
    assert_eq!(flag(u64::MAX), None);
}

#[test]
fn decode_reads_an_account() {
    let info = PlayerInformation::decode(&raw()).unwrap();
    assert_eq!(
        info,
        PlayerInformation {
            username: "Posemann".to_string(),
            country: "NO".to_string(),
            game_mode: GameMode::Ironman,
            fresh_start_account: false,
            combat_level_3: true,
            f2p: false,
            banned: false,
            disqualified: true,
            clan_preference: Some(42),
            last_checked: Some(Timestamp::parse("2023-01-05 10:20:30").unwrap()),
            last_changed: None,
            last_changed_kc: Some(Timestamp::parse("2023-01-01 00:00:00").unwrap()),
            datapoint_cooldown: "-".to_string(),
        }
    );
}

#[test]
fn decode_rejects_an_unknown_game_mode() {
    let mut r = raw();
    r.game_mode = 4;
    assert_eq!(PlayerInformation::decode(&r), Err(ErrorKind::MalformedAccount));
}

#[test]
fn decode_rejects_a_flag_that_is_neither_zero_nor_one() {
    for i in 0..5 {
        let mut r = raw();
        match i {
            0 => r.fresh_start_account = 2,
            1 => r.combat_level_3 = 2,
            2 => r.f2p = 2,
            3 => r.banned = 2,
            _ => r.disqualified = 2,
        }
        assert_eq!(PlayerInformation::decode(&r), Err(ErrorKind::MalformedAccount));
    }
}

#[test]
fn decode_rejects_an_invalid_timestamp() {
    let mut r = raw();
    r.last_changed = Some("soon".to_string());
    assert_eq!(PlayerInformation::decode(&r), Err(ErrorKind::ParseError("soon".to_string())));
}

#[test]
fn decode_reports_the_first_invalid_timestamp() {
    let mut r = raw();
    r.last_checked = Some("first".to_string());
    r.last_changed_kc = Some("third".to_string());
    assert_eq!(PlayerInformation::decode(&r), Err(ErrorKind::ParseError("first".to_string())));
    r.last_checked = None;
    assert_eq!(PlayerInformation::decode(&r), Err(ErrorKind::ParseError("third".to_string())));
}

#[test]
fn decode_looks_at_codes_before_timestamps() {
    let mut r = raw();
    r.last_checked = Some("bad".to_string());
    r.banned = 7;
    assert_eq!(PlayerInformation::decode(&r), Err(ErrorKind::MalformedAccount));
}

#[test]
fn decode_keeps_absent_fields_absent() {
    let mut r = raw();
    r.clan_preference = None;
    r.last_checked = None;
    r.last_changed = None;
    r.last_changed_kc = None;
    let info = PlayerInformation::decode(&r).unwrap();
    assert_eq!(info.clan_preference, None);
    assert_eq!(info.last_checked, None);
    assert_eq!(info.last_changed, None);
    assert_eq!(info.last_changed_kc, None);
}
