use senshi::codec::{address_eq, read_u64_le, u64_to_be_bytes};
use senshi::error::{ProcessError, SenshiError};
use senshi::state::config::{Config, CONFIG_SPACE};
use senshi::state::entry::{Entry, ENTRY_SPACE};
use senshi::state::season::{Season, SeasonStatus, SEASON_SPACE};

fn sample_season() -> Season {
    Season {
        authority: [1u8; 32],
        vault: [2u8; 32],
        epoch_start: 700,
        epoch_end: 710,
        prize_pool: 123_456_789,
        entry_fee: 1_000_000,
        total_entries: 42,
        status: SeasonStatus::Scoring.as_u8(),
        bump: 254,
    }
}

#[test]
fn season_account_data_has_documented_layout() {
    let s = sample_season();
    let d = s.to_account_data();
    assert_eq!(d.len(), SEASON_SPACE);
    assert_eq!(d.len(), 238);
    assert_eq!(&d[0..8], &[2, 0, 0, 0, 0, 0, 0, 0]);
    assert_eq!(&d[8..40], &[1u8; 32]);
    assert_eq!(&d[40..72], &[2u8; 32]);
    assert_eq!(&d[72..80], &700u64.to_le_bytes());
    assert_eq!(&d[80..88], &710u64.to_le_bytes());
    assert_eq!(&d[88..96], &123_456_789u64.to_le_bytes());
    assert_eq!(&d[96..104], &1_000_000u64.to_le_bytes());
    assert_eq!(&d[104..108], &42u32.to_le_bytes());
    assert_eq!(d[108], 2);
    assert_eq!(d[109], 254);
    assert!(d[110..].iter().all(|b| *b == 0));
}

#[test]
fn season_load_reads_back_what_was_written() {
    let s = sample_season();
    let d = s.to_account_data();
    assert_eq!(Season::load(&d), Ok(s));
}

#[test]
fn season_store_keeps_discriminator_and_reserved_bytes() {
    let s = sample_season();
    let mut d = s.to_account_data();
    for b in d[110..].iter_mut() {
        *b = 9;
    }
    let mut t = s;
    t.status = SeasonStatus::Settled.as_u8();
    t.prize_pool = 5;
    t.store(&mut d);
    assert_eq!(Season::load(&d), Ok(t));
    assert!(d[110..].iter().all(|b| *b == 9));
    assert_eq!(&d[0..8], &[2, 0, 0, 0, 0, 0, 0, 0]);
}

#[test]
fn season_store_of_loaded_season_changes_nothing() {
    let mut d = sample_season().to_account_data();
    d[200] = 77;
    let before = d.clone();
    let s = Season::load(&d).unwrap();
    s.store(&mut d);
    assert_eq!(d, before);
}

#[test]
fn season_load_refuses_wrong_size_or_discriminator() {
    let d = sample_season().to_account_data();
    assert_eq!(Season::load(&d[..237]), Err(ProcessError::InvalidAccountData));
    assert_eq!(Season::load(&[]), Err(ProcessError::InvalidAccountData));
    let mut e = d.clone();
    e[0] = 3;
    assert_eq!(Season::load(&e), Err(ProcessError::InvalidAccountData));
    let mut f = d.clone();
    f[7] = 1;
    assert_eq!(Season::load(&f), Err(ProcessError::InvalidAccountData));
    let mut g = d.clone();
    g.push(0);
    assert_eq!(Season::load(&g), Err(ProcessError::InvalidAccountData));
}

#[test]
fn new_season_is_open_and_empty() {
    let s = Season::new([5u8; 32], [6u8; 32], 10, 100, 200, 250);
    assert_eq!(s.status, 0);
    assert_eq!(s.prize_pool, 0);
    assert_eq!(s.total_entries, 0);
    assert_eq!(s.entry_fee, 10);
    assert_eq!(s.epoch_start, 100);
    assert_eq!(s.epoch_end, 200);
    assert_eq!(s.bump, 250);
}

#[test]
fn status_bytes_follow_lifecycle_order() {
    assert_eq!(SeasonStatus::Open.as_u8(), 0);
    assert_eq!(SeasonStatus::Locked.as_u8(), 1);
    assert_eq!(SeasonStatus::Scoring.as_u8(), 2);
    assert_eq!(SeasonStatus::Settled.as_u8(), 3);
}

#[test]
fn entry_account_data_has_documented_layout() {
    let e = Entry {
        player: [4u8; 32],
        has_score: 1,
        score: 99,
        has_reward: 1,
        reward: 5_000,
        claimed: 0,
        bump: 253,
    };
    let d = e.to_account_data();
    assert_eq!(d.len(), ENTRY_SPACE);
    assert_eq!(d.len(), 124);
    assert_eq!(&d[0..8], &[3, 0, 0, 0, 0, 0, 0, 0]);
    assert_eq!(&d[8..40], &[4u8; 32]);
    assert_eq!(d[40], 1);
    assert_eq!(&d[41..49], &99u64.to_le_bytes());
    assert_eq!(d[49], 1);
    assert_eq!(&d[50..58], &5_000u64.to_le_bytes());
    assert_eq!(d[58], 0);
    assert_eq!(d[59], 253);
    assert!(d[60..].iter().all(|b| *b == 0));
    assert_eq!(Entry::load(&d), Ok(e));
}

#[test]
fn entry_store_then_load() {
    let e = Entry::new([8u8; 32], 7);
    assert_eq!(e.has_score, 0);
    assert_eq!(e.claimed, 0);
    let mut d = e.to_account_data();
    let mut f = e;
    f.claimed = 1;
    f.reward = 3;
    f.store(&mut d);
    assert_eq!(Entry::load(&d), Ok(f));
    assert_eq!(Entry::load(&d[..10]), Err(ProcessError::InvalidAccountData));
}

#[test]
fn config_account_data_has_documented_layout() {
    let c = Config { authority: [9u8; 32] };
    let d = c.to_account_data();
    assert_eq!(d.len(), CONFIG_SPACE);
    assert_eq!(&d[0..8], &[1, 0, 0, 0, 0, 0, 0, 0]);
    assert_eq!(&d[8..40], &[9u8; 32]);
}

#[test]
fn error_codes_match_documented_table() {
    assert_eq!(SenshiError::ArithmeticError.code(), 0);
    assert_eq!(SenshiError::SeasonNotOpen.code(), 1);
    assert_eq!(SenshiError::InvalidTransition.code(), 2);
    assert_eq!(SenshiError::EpochNotReached.code(), 3);
    assert_eq!(SenshiError::EpochNotEnded.code(), 4);
    assert_eq!(SenshiError::NotSettled.code(), 5);
    assert_eq!(SenshiError::AlreadyClaimed.code(), 6);
    assert_eq!(SenshiError::NoReward.code(), 7);
}

#[test]
fn codec_helpers() {
    let a = [3u8; 32];
    let mut b = [3u8; 32];
    assert!(address_eq(&a, &b));
    b[31] = 4;
    assert!(!address_eq(&a, &b));
    assert_eq!(u64_to_be_bytes(0x0102030405060708), vec![1, 2, 3, 4, 5, 6, 7, 8]);
    let data = [0u8, 0x08, 0x07, 0x06, 0x05, 0x04, 0x03, 0x02, 0x01];
    assert_eq!(read_u64_le(&data, 1), 0x0102030405060708);
}
