use senshi::codec::Address;
use senshi::error::{ProcessError, SenshiError};
use senshi::instruction::claim_reward::vault_signer_seeds;
use senshi::instruction::settle_season::token_account_amount;
use senshi::instruction::{process_instruction, SenshiInstruction};
use senshi::processor::{verify_program_address, AccountInfo, Invocation, Outcome};
use senshi::state::config::Config;
use senshi::state::entry::{Entry, ENTRY_SPACE};
use senshi::state::season::{Season, SeasonStatus, SEASON_SPACE};

const PROGRAM_ID: Address = [
    43, 119, 207, 136, 163, 28, 247, 87, 188, 143, 41, 57, 126, 201, 249, 75, 63, 236, 208, 254,
    30, 209, 237, 241, 112, 214, 236, 107, 17, 127, 124, 76,
];
const TOKEN_PROGRAM: Address = [
    6, 221, 246, 225, 215, 101, 161, 147, 217, 203, 225, 70, 206, 235, 121, 172, 28, 180, 133, 237,
    95, 91, 55, 145, 58, 140, 245, 133, 126, 255, 0, 169,
];
const SYSTEM_PROGRAM: Address = [0u8; 32];
const AUTHORITY: Address = [11u8; 32];
const PLAYER: Address = [12u8; 32];
const VOTE: Address = [13u8; 32];
const VAULT: Address = [14u8; 32];
const PLAYER_TOKEN: Address = [15u8; 32];
const VAULT_AUTHORITY: Address = [16u8; 32];
const EPOCH_START: u64 = 600;
const EPOCH_END: u64 = 610;
const FEE: u64 = 2_500;

fn account(address: Address, is_signer: bool, data: Vec<u8>) -> AccountInfo {
    AccountInfo { address, is_signer, data }
}

fn season_address() -> (Address, u8) {
    let (a, b, _) = Season::find_program_address(&PROGRAM_ID, &VOTE, EPOCH_START).unwrap();
    (a, b)
}

fn entry_address(player: &Address) -> (Address, u8) {
    let (season, _) = season_address();
    let (a, b, _) = Entry::find_program_address(&PROGRAM_ID, &season, player).unwrap();
    (a, b)
}

fn apply(accounts: &mut [AccountInfo], outcome: &Outcome) {
    assert_eq!(outcome.failure, None);
    for w in &outcome.writes {
        accounts[w.account].data = w.data.clone();
    }
}

fn ix(tag: u8, args: &[u64]) -> Vec<u8> {
    let mut v = vec![tag];
    for a in args {
        v.extend_from_slice(&a.to_le_bytes());
    }
    v
}

fn open_season_data() -> Vec<u8> {
    let (_, bump) = season_address();
    Season::new(AUTHORITY, VAULT, FEE, EPOCH_START, EPOCH_END, bump).to_account_data()
}

fn season_accounts(season_data: Vec<u8>) -> Vec<AccountInfo> {
    let (season, _) = season_address();
    vec![
        account(season, false, season_data),
        account(AUTHORITY, true, vec![]),
        account(VOTE, false, vec![]),
    ]
}

fn enter_accounts(season_data: Vec<u8>) -> Vec<AccountInfo> {
    let (season, _) = season_address();
    let (entry, _) = entry_address(&PLAYER);
    vec![
        account(season, false, season_data),
        account(entry, false, vec![]),
        account(PLAYER, true, vec![]),
        account(VOTE, false, vec![]),
        account(PLAYER_TOKEN, false, vec![]),
        account(VAULT, false, vec![]),
        account(TOKEN_PROGRAM, false, vec![]),
        account(SYSTEM_PROGRAM, false, vec![]),
    ]
}

fn claim_accounts(season_data: Vec<u8>, entry_data: Vec<u8>) -> Vec<AccountInfo> {
    let (season, _) = season_address();
    let (entry, _) = entry_address(&PLAYER);
    vec![
        account(season, false, season_data),
        account(entry, false, entry_data),
        account(PLAYER, true, vec![]),
        account(VOTE, false, vec![]),
        account(VAULT, false, vec![]),
        account(VAULT_AUTHORITY, false, vec![]),
        account(PLAYER_TOKEN, false, vec![]),
        account(TOKEN_PROGRAM, false, vec![]),
    ]
}

fn vault_data(amount: u64) -> Vec<u8> {
    let mut d = vec![0u8; 165];
    d[64..72].copy_from_slice(&amount.to_le_bytes());
    d
}

fn with_status(status: SeasonStatus) -> Vec<u8> {
    let mut d = open_season_data();
    let mut s = Season::load(&d).unwrap();
    s.status = status.as_u8();
    s.store(&mut d);
    d
}

fn scored_entry(reward: Option<u64>, claimed: bool) -> Vec<u8> {
    let (_, bump) = entry_address(&PLAYER);
    let mut e = Entry::new(PLAYER, bump);
    e.has_score = 1;
    e.score = 10;
    if let Some(r) = reward {
        e.has_reward = 1;
        e.reward = r;
    }
    e.claimed = if claimed { 1 } else { 0 };
    e.to_account_data()
}

#[test]
fn unpack_decodes_each_tag() {
    assert_eq!(SenshiInstruction::unpack(&[0]), Ok(SenshiInstruction::InitializeConfig));
    assert_eq!(SenshiInstruction::unpack(&[1, 9]), Ok(SenshiInstruction::InitializeSeason));
    assert_eq!(SenshiInstruction::unpack(&[2]), Ok(SenshiInstruction::EnterSeason));
    assert_eq!(SenshiInstruction::unpack(&[3]), Ok(SenshiInstruction::LockSeason));
    assert_eq!(SenshiInstruction::unpack(&[4]), Ok(SenshiInstruction::SubmitScores));
    assert_eq!(SenshiInstruction::unpack(&[5]), Ok(SenshiInstruction::SettleSeason));
    assert_eq!(SenshiInstruction::unpack(&[6]), Ok(SenshiInstruction::ClaimReward));
    assert_eq!(SenshiInstruction::unpack(&[7]), Err(ProcessError::InvalidInstructionData));
    assert_eq!(SenshiInstruction::unpack(&[]), Err(ProcessError::InvalidInstructionData));
}

#[test]
fn pda_matches_the_address_crate() {
    let (season, bump) = season_address();
    let expected = pinocchio::Address::find_program_address(
        &[b"season", &VOTE, &EPOCH_START.to_be_bytes()],
        &pinocchio::Address::new_from_array(PROGRAM_ID),
    );
    assert_eq!(season, expected.0.to_bytes());
    assert_eq!(bump, expected.1);
    assert_ne!(season, PROGRAM_ID);
    let (entry, entry_bump) = entry_address(&PLAYER);
    let expected_entry = pinocchio::Address::find_program_address(
        &[b"entry", &season, &PLAYER],
        &pinocchio::Address::new_from_array(PROGRAM_ID),
    );
    assert_eq!(entry, expected_entry.0.to_bytes());
    assert_eq!(entry_bump, expected_entry.1);
    let (config, _, seeds) = Config::find_program_address(&PROGRAM_ID).unwrap();
    assert_eq!(seeds, vec![b"config".to_vec()]);
    let expected_config = pinocchio::Address::find_program_address(
        &[b"config"],
        &pinocchio::Address::new_from_array(PROGRAM_ID),
    );
    assert_eq!(config, expected_config.0.to_bytes());
}

#[test]
fn season_seeds_use_big_endian_epoch() {
    let seeds = Season::seeds(&VOTE, 0x0102);
    assert_eq!(seeds[0], b"season".to_vec());
    assert_eq!(seeds[1], VOTE.to_vec());
    assert_eq!(seeds[2], vec![0, 0, 0, 0, 0, 0, 1, 2]);
    let vault = vault_signer_seeds(0x0102, 9);
    assert_eq!(vault, vec![b"vault".to_vec(), vec![2, 1, 0, 0, 0, 0, 0, 0], vec![9]]);
}

#[test]
fn verify_program_address_answers() {
    let a = [1u8; 32];
    assert_eq!(verify_program_address(None, &a), Err(ProcessError::InvalidSeeds));
    assert_eq!(
        verify_program_address(Some(([2u8; 32], 7, vec![])), &a),
        Err(ProcessError::InvalidAccountData)
    );
    assert_eq!(verify_program_address(Some((a, 7, vec![vec![1]])), &a), Ok((7, vec![vec![1]])));
}

#[test]
fn initialize_config_creates_config_with_payer_authority() {
    let (config, bump, _) = Config::find_program_address(&PROGRAM_ID).unwrap();
    let accounts = vec![
        account(config, false, vec![]),
        account(AUTHORITY, true, vec![]),
        account(SYSTEM_PROGRAM, false, vec![]),
    ];
    let out = process_instruction(&PROGRAM_ID, &accounts, &[0], 0).unwrap();
    assert_eq!(
        out.invocations,
        vec![Invocation::CreateAccount {
            payer: 1,
            account: 0,
            space: 40,
            signer_seeds: vec![b"config".to_vec(), vec![bump]],
        }]
    );
    assert_eq!(out.writes.len(), 1);
    assert_eq!(out.writes[0].account, 0);
    assert_eq!(out.writes[0].data, Config { authority: AUTHORITY }.to_account_data());
}

#[test]
fn initialize_config_refusals() {
    let (config, _, _) = Config::find_program_address(&PROGRAM_ID).unwrap();
    let good = || {
        vec![
            account(config, false, vec![]),
            account(AUTHORITY, true, vec![]),
            account(SYSTEM_PROGRAM, false, vec![]),
        ]
    };
    let mut a = good();
    a.pop();
    assert_eq!(process_instruction(&PROGRAM_ID, &a, &[0], 0).err(), Some(ProcessError::NotEnoughAccountKeys));
    let mut b = good();
    b[1].is_signer = false;
    assert_eq!(process_instruction(&PROGRAM_ID, &b, &[0], 0).err(), Some(ProcessError::MissingRequiredSignature));
    let mut c = good();
    c[2].address = [1u8; 32];
    assert_eq!(process_instruction(&PROGRAM_ID, &c, &[0], 0).err(), Some(ProcessError::IncorrectProgramId));
    let mut d = good();
    d[0].address = [1u8; 32];
    assert_eq!(process_instruction(&PROGRAM_ID, &d, &[0], 0).err(), Some(ProcessError::InvalidAccountData));
}

#[test]
fn initialize_season_creates_open_season() {
    let (season, bump) = season_address();
    let accounts = vec![
        account(season, false, vec![]),
        account(AUTHORITY, true, vec![]),
        account(VOTE, false, vec![]),
        account(VAULT, false, vec![]),
        account(SYSTEM_PROGRAM, false, vec![]),
    ];
    let data = ix(1, &[FEE, EPOCH_START, EPOCH_END]);
    let out = process_instruction(&PROGRAM_ID, &accounts, &data, 0).unwrap();
    assert_eq!(
        out.invocations,
        vec![Invocation::CreateAccount {
            payer: 1,
            account: 0,
            space: SEASON_SPACE as u64,
            signer_seeds: vec![
                b"season".to_vec(),
                VOTE.to_vec(),
                EPOCH_START.to_be_bytes().to_vec(),
                vec![bump]
            ],
        }]
    );
    assert_eq!(out.writes[0].data, open_season_data());
    let s = Season::load(&out.writes[0].data).unwrap();
    assert_eq!(s.authority, AUTHORITY);
    assert_eq!(s.vault, VAULT);
    assert_eq!(s.status, SeasonStatus::Open.as_u8());
    // Data too short for the three arguments.
    let short = ix(1, &[FEE, EPOCH_START]);
    assert_eq!(
        process_instruction(&PROGRAM_ID, &accounts, &short, 0).err(),
        Some(ProcessError::InvalidInstructionData)
    );
    // Season account at the address of another epoch.
    let other = ix(1, &[FEE, EPOCH_START + 1, EPOCH_END]);
    assert_eq!(
        process_instruction(&PROGRAM_ID, &accounts, &other, 0).err(),
        Some(ProcessError::InvalidAccountData)
    );
}

#[test]
fn enter_season_pays_fee_and_creates_entry() {
    let accounts = enter_accounts(open_season_data());
    let (_, entry_bump) = entry_address(&PLAYER);
    let (season, _) = season_address();
    let out = process_instruction(&PROGRAM_ID, &accounts, &ix(2, &[EPOCH_START]), 0).unwrap();
    assert_eq!(
        out.invocations,
        vec![
            Invocation::TokenTransfer {
                source: 4,
                destination: 5,
                authority: 2,
                amount: FEE,
                signer_seeds: vec![],
            },
            Invocation::CreateAccount {
                payer: 2,
                account: 1,
                space: ENTRY_SPACE as u64,
                signer_seeds: vec![b"entry".to_vec(), season.to_vec(), PLAYER.to_vec(), vec![entry_bump]],
            },
        ]
    );
    assert_eq!(out.failure, None);
    let s = Season::load(&out.writes[0].data).unwrap();
    assert_eq!(s.total_entries, 1);
    assert_eq!(s.prize_pool, FEE);
    assert_eq!(out.writes[1].account, 1);
    assert_eq!(Entry::load(&out.writes[1].data), Ok(Entry::new(PLAYER, entry_bump)));
}

#[test]
fn enter_season_refusals() {
    let data = ix(2, &[EPOCH_START]);
    let mut a = enter_accounts(open_season_data());
    a[6].address = [1u8; 32];
    assert_eq!(process_instruction(&PROGRAM_ID, &a, &data, 0).err(), Some(ProcessError::IncorrectProgramId));
    let mut b = enter_accounts(open_season_data());
    b[7].address = [1u8; 32];
    assert_eq!(process_instruction(&PROGRAM_ID, &b, &data, 0).err(), Some(ProcessError::IncorrectProgramId));
    let c = enter_accounts(with_status(SeasonStatus::Locked));
    assert_eq!(
        process_instruction(&PROGRAM_ID, &c, &data, 0).err(),
        Some(ProcessError::Custom(SenshiError::SeasonNotOpen))
    );
    let mut d = enter_accounts(open_season_data());
    d[5].address = [1u8; 32];
    assert_eq!(process_instruction(&PROGRAM_ID, &d, &data, 0).err(), Some(ProcessError::InvalidAccountData));
    let mut e = enter_accounts(open_season_data());
    e[2].is_signer = false;
    assert_eq!(process_instruction(&PROGRAM_ID, &e, &data, 0).err(), Some(ProcessError::MissingRequiredSignature));
    assert_eq!(
        process_instruction(&PROGRAM_ID, &enter_accounts(open_season_data()), &[2, 1, 2], 0).err(),
        Some(ProcessError::InvalidInstructionData)
    );
    // A full prize pool cannot take another fee: the fee transfer and the
    // entry creation come first, then the instruction fails.
    let mut full = open_season_data();
    let mut s = Season::load(&full).unwrap();
    s.prize_pool = u64::MAX - FEE + 1;
    s.store(&mut full);
    let out = process_instruction(&PROGRAM_ID, &enter_accounts(full), &data, 0).unwrap();
    assert_eq!(out.invocations.len(), 2);
    assert!(matches!(out.invocations[0], Invocation::TokenTransfer { amount: FEE, .. }));
    assert!(matches!(out.invocations[1], Invocation::CreateAccount { account: 1, .. }));
    assert!(out.writes.is_empty());
    assert_eq!(out.failure, Some(ProcessError::Custom(SenshiError::ArithmeticError)));
    let mut crowded = open_season_data();
    let mut t = Season::load(&crowded).unwrap();
    t.total_entries = u32::MAX;
    t.store(&mut crowded);
    let out = process_instruction(&PROGRAM_ID, &enter_accounts(crowded), &data, 0).unwrap();
    assert_eq!(out.invocations.len(), 2);
    assert_eq!(out.failure, Some(ProcessError::Custom(SenshiError::ArithmeticError)));
    // An entry account away from its derived address is refused after the
    // fee transfer, before any account is created.
    let mut misplaced = enter_accounts(open_season_data());
    misplaced[1].address = [1u8; 32];
    let out = process_instruction(&PROGRAM_ID, &misplaced, &data, 0).unwrap();
    assert_eq!(
        out.invocations,
        vec![Invocation::TokenTransfer {
            source: 4,
            destination: 5,
            authority: 2,
            amount: FEE,
            signer_seeds: vec![],
        }]
    );
    assert!(out.writes.is_empty());
    assert_eq!(out.failure, Some(ProcessError::InvalidAccountData));
}

#[test]
fn lock_season_waits_for_epoch_start() {
    let accounts = season_accounts(open_season_data());
    let data = ix(3, &[EPOCH_START]);
    assert_eq!(
        process_instruction(&PROGRAM_ID, &accounts, &data, EPOCH_START - 1).err(),
        Some(ProcessError::Custom(SenshiError::EpochNotReached))
    );
    let out = process_instruction(&PROGRAM_ID, &accounts, &data, EPOCH_START).unwrap();
    assert!(out.invocations.is_empty());
    let s = Season::load(&out.writes[0].data).unwrap();
    assert_eq!(s.status, SeasonStatus::Locked.as_u8());
    // Locking again is an invalid transition.
    let mut again = accounts;
    apply(&mut again, &out);
    assert_eq!(
        process_instruction(&PROGRAM_ID, &again, &data, EPOCH_START).err(),
        Some(ProcessError::Custom(SenshiError::InvalidTransition))
    );
}

#[test]
fn lock_season_needs_the_authority() {
    let data = ix(3, &[EPOCH_START]);
    let mut a = season_accounts(open_season_data());
    a[1].address = PLAYER;
    assert_eq!(
        process_instruction(&PROGRAM_ID, &a, &data, EPOCH_START).err(),
        Some(ProcessError::MissingRequiredSignature)
    );
    let mut b = season_accounts(open_season_data());
    b[0].data[0] = 3;
    assert_eq!(process_instruction(&PROGRAM_ID, &b, &data, EPOCH_START).err(), Some(ProcessError::InvalidAccountData));
    let mut c = season_accounts(open_season_data());
    c.push(account(VAULT, false, vec![]));
    assert_eq!(process_instruction(&PROGRAM_ID, &c, &data, EPOCH_START).err(), Some(ProcessError::NotEnoughAccountKeys));
}

#[test]
fn submit_scores_moves_to_scoring_and_records_score() {
    let (entry, entry_bump) = entry_address(&PLAYER);
    let mut accounts = season_accounts(with_status(SeasonStatus::Locked));
    accounts.push(account(entry, false, Entry::new(PLAYER, entry_bump).to_account_data()));
    let data = ix(4, &[EPOCH_START, 77]);
    let out = process_instruction(&PROGRAM_ID, &accounts, &data, 0).unwrap();
    assert_eq!(Season::load(&out.writes[0].data).unwrap().status, SeasonStatus::Scoring.as_u8());
    let e = Entry::load(&out.writes[1].data).unwrap();
    assert_eq!(out.writes[1].account, 3);
    assert_eq!(e.has_score, 1);
    assert_eq!(e.score, 77);
    // A second score while scoring replaces the first.
    apply(&mut accounts, &out);
    let out2 = process_instruction(&PROGRAM_ID, &accounts, &ix(4, &[EPOCH_START, 5]), 0).unwrap();
    assert_eq!(Entry::load(&out2.writes[1].data).unwrap().score, 5);
    // Not while the season is open.
    let mut open = season_accounts(open_season_data());
    open.push(account(entry, false, Entry::new(PLAYER, entry_bump).to_account_data()));
    assert_eq!(
        process_instruction(&PROGRAM_ID, &open, &data, 0).err(),
        Some(ProcessError::Custom(SenshiError::InvalidTransition))
    );
    // Not for an entry of another player at this address.
    let mut stranger = season_accounts(with_status(SeasonStatus::Locked));
    stranger.push(account(entry, false, Entry::new(AUTHORITY, entry_bump).to_account_data()));
    assert_eq!(process_instruction(&PROGRAM_ID, &stranger, &data, 0).err(), Some(ProcessError::InvalidAccountData));
}

#[test]
fn settle_season_takes_vault_balance_after_epoch_end() {
    let mut accounts = season_accounts(with_status(SeasonStatus::Scoring));
    accounts.push(account(VAULT, false, vault_data(9_999)));
    let data = ix(5, &[EPOCH_START]);
    assert_eq!(
        process_instruction(&PROGRAM_ID, &accounts, &data, EPOCH_END).err(),
        Some(ProcessError::Custom(SenshiError::EpochNotEnded))
    );
    let out = process_instruction(&PROGRAM_ID, &accounts, &data, EPOCH_END + 1).unwrap();
    let s = Season::load(&out.writes[0].data).unwrap();
    assert_eq!(s.status, SeasonStatus::Settled.as_u8());
    assert_eq!(s.prize_pool, 9_999);
    apply(&mut accounts, &out);
    assert_eq!(
        process_instruction(&PROGRAM_ID, &accounts, &data, EPOCH_END + 5).err(),
        Some(ProcessError::Custom(SenshiError::InvalidTransition))
    );
    let mut short = season_accounts(with_status(SeasonStatus::Scoring));
    short.push(account(VAULT, false, vec![0u8; 71]));
    assert_eq!(process_instruction(&PROGRAM_ID, &short, &data, EPOCH_END + 1).err(), Some(ProcessError::InvalidAccountData));
    let mut other_vault = season_accounts(with_status(SeasonStatus::Scoring));
    other_vault.push(account(PLAYER_TOKEN, false, vault_data(1)));
    assert_eq!(
        process_instruction(&PROGRAM_ID, &other_vault, &data, EPOCH_END + 1).err(),
        Some(ProcessError::InvalidAccountData)
    );
    assert_eq!(token_account_amount(&vault_data(31)), Some(31));
    assert_eq!(token_account_amount(&[0u8; 10]), None);
}

#[test]
fn claim_reward_pays_once() {
    let (_, season_bump) = season_address();
    let mut accounts = claim_accounts(with_status(SeasonStatus::Settled), scored_entry(Some(700), false));
    let data = ix(6, &[EPOCH_START]);
    let out = process_instruction(&PROGRAM_ID, &accounts, &data, 0).unwrap();
    assert_eq!(
        out.invocations,
        vec![Invocation::TokenTransfer {
            source: 4,
            destination: 6,
            authority: 5,
            amount: 700,
            signer_seeds: vault_signer_seeds(EPOCH_START, season_bump),
        }]
    );
    assert_eq!(Entry::load(&out.writes[0].data).unwrap().claimed, 1);
    apply(&mut accounts, &out);
    assert_eq!(
        process_instruction(&PROGRAM_ID, &accounts, &data, 0).err(),
        Some(ProcessError::Custom(SenshiError::AlreadyClaimed))
    );
}

#[test]
fn claim_reward_refusals() {
    let data = ix(6, &[EPOCH_START]);
    let a = claim_accounts(with_status(SeasonStatus::Scoring), scored_entry(Some(700), false));
    assert_eq!(
        process_instruction(&PROGRAM_ID, &a, &data, 0).err(),
        Some(ProcessError::Custom(SenshiError::NotSettled))
    );
    let b = claim_accounts(with_status(SeasonStatus::Settled), scored_entry(None, false));
    assert_eq!(
        process_instruction(&PROGRAM_ID, &b, &data, 0).err(),
        Some(ProcessError::Custom(SenshiError::NoReward))
    );
    let c = claim_accounts(with_status(SeasonStatus::Settled), scored_entry(Some(1), true));
    assert_eq!(
        process_instruction(&PROGRAM_ID, &c, &data, 0).err(),
        Some(ProcessError::Custom(SenshiError::AlreadyClaimed))
    );
    let mut d = claim_accounts(with_status(SeasonStatus::Settled), scored_entry(Some(1), false));
    d[7].address = SYSTEM_PROGRAM;
    assert_eq!(process_instruction(&PROGRAM_ID, &d, &data, 0).err(), Some(ProcessError::IncorrectProgramId));
    let mut e = claim_accounts(with_status(SeasonStatus::Settled), scored_entry(Some(1), false));
    e[2].address = AUTHORITY;
    assert_eq!(process_instruction(&PROGRAM_ID, &e, &data, 0).err(), Some(ProcessError::InvalidAccountData));
}

#[test]
fn full_season_lifecycle() {
    // Open the season.
    let (season, _) = season_address();
    let mut init = vec![
        account(season, false, vec![]),
        account(AUTHORITY, true, vec![]),
        account(VOTE, false, vec![]),
        account(VAULT, false, vec![]),
        account(SYSTEM_PROGRAM, false, vec![]),
    ];
    let out = process_instruction(&PROGRAM_ID, &init, &ix(1, &[FEE, EPOCH_START, EPOCH_END]), 0).unwrap();
    apply(&mut init, &out);
    // One player enters.
    let mut enter = enter_accounts(init[0].data.clone());
    let out = process_instruction(&PROGRAM_ID, &enter, &ix(2, &[EPOCH_START]), 0).unwrap();
    apply(&mut enter, &out);
    assert_eq!(Season::load(&enter[0].data).unwrap().prize_pool, FEE);
    // Lock, score, settle.
    let mut lock = season_accounts(enter[0].data.clone());
    let out = process_instruction(&PROGRAM_ID, &lock, &ix(3, &[EPOCH_START]), EPOCH_START).unwrap();
    apply(&mut lock, &out);
    let mut submit = season_accounts(lock[0].data.clone());
    submit.push(account(enter[1].address, false, enter[1].data.clone()));
    let out = process_instruction(&PROGRAM_ID, &submit, &ix(4, &[EPOCH_START, 3]), EPOCH_START).unwrap();
    apply(&mut submit, &out);
    let mut settle = season_accounts(submit[0].data.clone());
    settle.push(account(VAULT, false, vault_data(FEE + 40)));
    let out = process_instruction(&PROGRAM_ID, &settle, &ix(5, &[EPOCH_START]), EPOCH_END + 1).unwrap();
    apply(&mut settle, &out);
    let settled = Season::load(&settle[0].data).unwrap();
    assert_eq!(settled.status, SeasonStatus::Settled.as_u8());
    assert_eq!(settled.prize_pool, FEE + 40);
    assert_eq!(settled.total_entries, 1);
    // No reward was assigned to the entry, so a claim is refused.
    let claim = claim_accounts(settle[0].data.clone(), submit[3].data.clone());
    assert_eq!(
        process_instruction(&PROGRAM_ID, &claim, &ix(6, &[EPOCH_START]), EPOCH_END + 1).err(),
        Some(ProcessError::Custom(SenshiError::NoReward))
    );
}

#[test]
fn prize_pool_is_entry_fees_until_settled() {
    let mut season_data = open_season_data();
    for player in [PLAYER, [21u8; 32], [22u8; 32]] {
        let (season, _) = season_address();
        let (entry, _, _) = Entry::find_program_address(&PROGRAM_ID, &season, &player).unwrap();
        let mut accounts = enter_accounts(season_data.clone());
        accounts[1].address = entry;
        accounts[2].address = player;
        let out = process_instruction(&PROGRAM_ID, &accounts, &ix(2, &[EPOCH_START]), 0).unwrap();
        apply(&mut accounts, &out);
        season_data = accounts[0].data.clone();
        let s = Season::load(&season_data).unwrap();
        assert_eq!(s.prize_pool, s.total_entries as u64 * s.entry_fee);
    }
    let mut lock = season_accounts(season_data);
    let out = process_instruction(&PROGRAM_ID, &lock, &ix(3, &[EPOCH_START]), EPOCH_START).unwrap();
    apply(&mut lock, &out);
    let s = Season::load(&lock[0].data).unwrap();
    assert_eq!(s.total_entries, 3);
    assert_eq!(s.prize_pool, 3 * FEE);
}

#[test]
fn settled_is_final() {
    let settled = with_status(SeasonStatus::Settled);
    assert_eq!(
        process_instruction(&PROGRAM_ID, &season_accounts(settled.clone()), &ix(3, &[EPOCH_START]), EPOCH_END + 9).err(),
        Some(ProcessError::Custom(SenshiError::InvalidTransition))
    );
    let (entry, entry_bump) = entry_address(&PLAYER);
    let mut submit = season_accounts(settled.clone());
    submit.push(account(entry, false, Entry::new(PLAYER, entry_bump).to_account_data()));
    assert_eq!(
        process_instruction(&PROGRAM_ID, &submit, &ix(4, &[EPOCH_START, 1]), EPOCH_END + 9).err(),
        Some(ProcessError::Custom(SenshiError::InvalidTransition))
    );
    assert_eq!(
        process_instruction(&PROGRAM_ID, &enter_accounts(settled), &ix(2, &[EPOCH_START]), EPOCH_END + 9).err(),
        Some(ProcessError::Custom(SenshiError::SeasonNotOpen))
    );
}
