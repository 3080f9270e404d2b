use solana_clicker::error::ClickerError;
use solana_clicker::instruction::SolanaClickerInstructions;
use solana_clicker::processor::{AccountSlot, Processor};
use solana_clicker::state::UserState;

use solana_program::pubkey::Pubkey;

fn state(click_balance: u64, value_per_click: u32, v1: u32, v2: u32) -> UserState {
    UserState { click_balance, value_per_click, cost_to_upgrade_v1: v1, cost_to_upgrade_v2: v2 }
}

const PROGRAM_ID: [u8; 32] = [1u8; 32];
const USER: [u8; 32] = [2u8; 32];

fn derived_user_state_address(user: &[u8; 32]) -> (Vec<u8>, u8) {
    let program = Pubkey::new_from_array(PROGRAM_ID);
    let (address, bump) =
        Pubkey::try_find_program_address(&[user.as_ref(), b"user_state"], &program)
            .expect("a bump must exist for these seeds");
    (address.to_bytes().to_vec(), bump)
}

fn init_accounts() -> Vec<AccountSlot> {
    let (state_address, _bump) = derived_user_state_address(&USER);
    vec![
        AccountSlot { address: USER.to_vec(), allocated: true, data: vec![] },
        AccountSlot { address: state_address, allocated: false, data: vec![] },
        AccountSlot { address: [0u8; 32].to_vec(), allocated: true, data: vec![] },
    ]
}

// ---- instruction codec ----

#[test]
fn encode_decode_round_trip() {
    let commands = [
        SolanaClickerInstructions::InitUser,
        SolanaClickerInstructions::Click,
        SolanaClickerInstructions::UpgradeValuePerClick { variation: 0 },
        SolanaClickerInstructions::UpgradeValuePerClick { variation: 7 },
        SolanaClickerInstructions::TransferClicks { value: 0 },
        SolanaClickerInstructions::TransferClicks { value: u64::MAX },
    ];
    for c in commands {
        let bytes = c.to_bytes();
        assert_eq!(SolanaClickerInstructions::try_from_slice(&bytes), Ok(c));
    }
}

#[test]
fn encoding_matches_borsh_wire_format() {
    // The wire format is the tagged-union layout borsh derives for the
    // original enum: a one-byte tag, then fixed-width little-endian fields.
    let transfer = SolanaClickerInstructions::TransferClicks { value: 0x1122334455667788 };
    assert_eq!(transfer.to_bytes(), borsh::to_vec(&(3u8, 0x1122334455667788u64)).unwrap());
    let upgrade = SolanaClickerInstructions::UpgradeValuePerClick { variation: 1 };
    assert_eq!(upgrade.to_bytes(), borsh::to_vec(&(2u8, 1u8)).unwrap());
    assert_eq!(SolanaClickerInstructions::InitUser.to_bytes(), vec![0u8]);
    assert_eq!(SolanaClickerInstructions::Click.to_bytes(), vec![1u8]);
}

#[test]
fn decode_rejects_unknown_tag() {
    assert_eq!(
        SolanaClickerInstructions::try_from_slice(&[4u8]),
        Err(ClickerError::DecodeError)
    );
    assert_eq!(
        SolanaClickerInstructions::try_from_slice(&[255u8]),
        Err(ClickerError::DecodeError)
    );
}

#[test]
fn decode_rejects_truncated_transfer() {
    assert_eq!(
        SolanaClickerInstructions::try_from_slice(&[3u8, 1, 2, 3]),
        Err(ClickerError::DecodeError)
    );
    assert_eq!(SolanaClickerInstructions::try_from_slice(&[3u8]), Err(ClickerError::DecodeError));
}

#[test]
fn decode_rejects_empty_and_trailing_bytes() {
    assert_eq!(SolanaClickerInstructions::try_from_slice(&[]), Err(ClickerError::DecodeError));
    assert_eq!(
        SolanaClickerInstructions::try_from_slice(&[0u8, 0]),
        Err(ClickerError::DecodeError)
    );
    assert_eq!(
        SolanaClickerInstructions::try_from_slice(&[3u8, 0, 0, 0, 0, 0, 0, 0, 0, 0]),
        Err(ClickerError::DecodeError)
    );
}

// ---- record codec ----

#[test]
fn record_layout_matches_borsh_wire_format() {
    let s = state(0x0102030405060708, 9, 10, 11);
    assert_eq!(s.to_bytes(), borsh::to_vec(&(0x0102030405060708u64, 9u32, 10u32, 11u32)).unwrap());
}

#[test]
fn record_round_trip() {
    let s = state(u64::MAX, 123, 456, 789);
    let bytes = s.to_bytes();
    assert_eq!(bytes.len(), 20);
    assert_eq!(UserState::try_from_slice(&bytes), Ok(s));
}

#[test]
fn record_rejects_wrong_size() {
    assert_eq!(UserState::try_from_slice(&[]), Err(ClickerError::CorruptState));
    assert_eq!(UserState::try_from_slice(&[0u8; 19]), Err(ClickerError::CorruptState));
    assert_eq!(UserState::try_from_slice(&[0u8; 21]), Err(ClickerError::CorruptState));
}

#[test]
fn initial_record_bytes() {
    let mut expected = vec![0u8; 8];
    expected.extend_from_slice(&[1, 0, 0, 0]);
    expected.extend_from_slice(&[10, 0, 0, 0]);
    expected.extend_from_slice(&[20, 0, 0, 0]);
    assert_eq!(UserState::initial().to_bytes(), expected);
}

// ---- transition rules ----

#[test]
fn click_adds_value_per_click() {
    let s = state(7, 3, 10, 20);
    assert_eq!(Processor::click(&s), Ok(state(10, 3, 10, 20)));
}

#[test]
fn click_rejects_overflow() {
    let s = state(u64::MAX, 1, 10, 20);
    assert_eq!(Processor::click(&s), Err(ClickerError::Overflow));
}

#[test]
fn upgrade_arithmetic() {
    let s = state(10, 1, 10, 20);
    assert_eq!(Processor::upgrade(&s, 0), Ok(state(0, 2, 20, 20)));
}

#[test]
fn upgrade_second_path_arithmetic() {
    let s = state(25, 1, 10, 20);
    assert_eq!(Processor::upgrade(&s, 1), Ok(state(5, 3, 10, 40)));
}

#[test]
fn upgrade_rejects_unaffordable() {
    let s = state(9, 1, 10, 20);
    assert_eq!(Processor::upgrade(&s, 0), Err(ClickerError::NotEnoughToUpgrade));
    let s = state(19, 1, 10, 20);
    assert_eq!(Processor::upgrade(&s, 1), Err(ClickerError::NotEnoughToUpgrade));
}

#[test]
fn upgrade_rejects_unknown_variation() {
    let s = state(1000, 1, 10, 20);
    assert_eq!(Processor::upgrade(&s, 2), Err(ClickerError::InvalidVariation));
}

#[test]
fn upgrade_rejects_cost_overflow() {
    let s = state(u64::MAX, 1, u32::MAX / 2 + 1, 20);
    assert_eq!(Processor::upgrade(&s, 0), Err(ClickerError::Overflow));
}

#[test]
fn transfer_moves_amount_and_grants_bonus() {
    let sender = state(10, 1, 10, 20);
    let recipient = state(3, 2, 10, 20);
    assert_eq!(
        Processor::transfer(&sender, &recipient, 4),
        Ok((state(6, 2, 10, 20), state(7, 2, 10, 20)))
    );
}

#[test]
fn transfer_conserves_total_balance() {
    let sender = state(1000, 5, 40, 80);
    let recipient = state(7, 1, 10, 20);
    let (s2, r2) = Processor::transfer(&sender, &recipient, 999).unwrap();
    assert_eq!(
        s2.click_balance + r2.click_balance,
        sender.click_balance + recipient.click_balance
    );
    assert_eq!(s2.value_per_click, sender.value_per_click + 1);
}

#[test]
fn transfer_rejects_insufficient_funds() {
    let sender = state(5, 1, 10, 20);
    let recipient = state(0, 1, 10, 20);
    assert_eq!(
        Processor::transfer(&sender, &recipient, 6),
        Err(ClickerError::NotEnoughToTransfer)
    );
}

#[test]
fn transfer_rejects_recipient_overflow() {
    let sender = state(5, 1, 10, 20);
    let recipient = state(u64::MAX, 1, 10, 20);
    assert_eq!(Processor::transfer(&sender, &recipient, 1), Err(ClickerError::Overflow));
}

// ---- the engine over account slots ----

#[test]
fn init_user_writes_initial_record() {
    let mut accounts = init_accounts();
    let r = Processor::process_instruction(
        &PROGRAM_ID.to_vec(),
        &mut accounts,
        &SolanaClickerInstructions::InitUser.to_bytes(),
    );
    assert_eq!(r, Ok(()));
    assert!(accounts[1].allocated);
    assert_eq!(accounts[1].data, UserState::initial().to_bytes());
    assert!(accounts[0].data.is_empty());
    assert!(accounts[2].data.is_empty());
}

#[test]
fn upgrade_through_engine() {
    let mut accounts = init_accounts();
    accounts[1].data = state(10, 1, 10, 20).to_bytes();
    let r = Processor::process_instruction(
        &PROGRAM_ID.to_vec(),
        &mut accounts,
        &SolanaClickerInstructions::UpgradeValuePerClick { variation: 0 }.to_bytes(),
    );
    assert_eq!(r, Ok(()));
    assert_eq!(UserState::try_from_slice(&accounts[1].data), Ok(state(0, 2, 20, 20)));
}

#[test]
fn init_user_twice_fails_already_initialized() {
    let mut accounts = init_accounts();
    let data = SolanaClickerInstructions::InitUser.to_bytes();
    assert_eq!(Processor::process_instruction(&PROGRAM_ID.to_vec(), &mut accounts, &data), Ok(()));
    let snapshot: Vec<(Vec<u8>, bool, Vec<u8>)> = accounts
        .iter()
        .map(|a| (a.address.clone(), a.allocated, a.data.clone()))
        .collect();
    assert_eq!(
        Processor::process_instruction(&PROGRAM_ID.to_vec(), &mut accounts, &data),
        Err(ClickerError::AlreadyInitialized)
    );
    let after: Vec<(Vec<u8>, bool, Vec<u8>)> = accounts
        .iter()
        .map(|a| (a.address.clone(), a.allocated, a.data.clone()))
        .collect();
    assert_eq!(snapshot, after);
}

#[test]
fn init_user_rejects_wrong_address() {
    let mut accounts = init_accounts();
    // Hand the user's own address as the state slot: the derivation never
    // returns its input, so this must be a mismatch.
    accounts[1].address = USER.to_vec();
    assert_eq!(
        Processor::process_instruction(
            &PROGRAM_ID.to_vec(),
            &mut accounts,
            &SolanaClickerInstructions::InitUser.to_bytes(),
        ),
        Err(ClickerError::AddressMismatch)
    );
    assert!(!accounts[1].allocated);
    assert!(accounts[1].data.is_empty());
}

#[test]
fn init_user_requires_three_accounts() {
    let mut accounts = init_accounts();
    accounts.pop();
    assert_eq!(
        Processor::process_instruction(
            &PROGRAM_ID.to_vec(),
            &mut accounts,
            &SolanaClickerInstructions::InitUser.to_bytes(),
        ),
        Err(ClickerError::MissingAccount)
    );
}

#[test]
fn click_through_engine() {
    let mut accounts = init_accounts();
    let program = PROGRAM_ID.to_vec();
    Processor::process_instruction(
        &program,
        &mut accounts,
        &SolanaClickerInstructions::InitUser.to_bytes(),
    )
    .unwrap();
    let r = Processor::process_instruction(
        &program,
        &mut accounts,
        &SolanaClickerInstructions::Click.to_bytes(),
    );
    assert_eq!(r, Ok(()));
    assert_eq!(UserState::try_from_slice(&accounts[1].data), Ok(state(1, 1, 10, 20)));
}

#[test]
fn unaffordable_upgrade_leaves_bytes_unchanged() {
    let mut accounts = init_accounts();
    let before = state(9, 1, 10, 20).to_bytes();
    accounts[1].data = before.clone();
    let r = Processor::process_instruction(
        &PROGRAM_ID.to_vec(),
        &mut accounts,
        &SolanaClickerInstructions::UpgradeValuePerClick { variation: 0 }.to_bytes(),
    );
    assert_eq!(r, Err(ClickerError::NotEnoughToUpgrade));
    assert_eq!(accounts[1].data, before);
}

#[test]
fn click_on_corrupt_state_is_fatal() {
    let mut accounts = init_accounts();
    accounts[1].data = vec![1, 2, 3];
    assert_eq!(
        Processor::process_instruction(
            &PROGRAM_ID.to_vec(),
            &mut accounts,
            &SolanaClickerInstructions::Click.to_bytes(),
        ),
        Err(ClickerError::CorruptState)
    );
    assert_eq!(accounts[1].data, vec![1, 2, 3]);
}

#[test]
fn transfer_through_engine_is_atomic_on_failure() {
    let (sender_state_address, _b) = derived_user_state_address(&USER);
    let recipient_user: [u8; 32] = [3u8; 32];
    let (recipient_state_address, _b2) = derived_user_state_address(&recipient_user);
    let sender_bytes = state(5, 1, 10, 20).to_bytes();
    let recipient_bytes = state(0, 1, 10, 20).to_bytes();
    let mut accounts = vec![
        AccountSlot { address: USER.to_vec(), allocated: true, data: vec![] },
        AccountSlot { address: sender_state_address, allocated: true, data: sender_bytes.clone() },
        AccountSlot { address: recipient_user.to_vec(), allocated: true, data: vec![] },
        AccountSlot {
            address: recipient_state_address,
            allocated: true,
            data: recipient_bytes.clone(),
        },
    ];
    let r = Processor::process_instruction(
        &PROGRAM_ID.to_vec(),
        &mut accounts,
        &SolanaClickerInstructions::TransferClicks { value: 6 }.to_bytes(),
    );
    assert_eq!(r, Err(ClickerError::NotEnoughToTransfer));
    assert_eq!(accounts[1].data, sender_bytes);
    assert_eq!(accounts[3].data, recipient_bytes);
}

#[test]
fn transfer_through_engine_moves_clicks() {
    let (sender_state_address, _b) = derived_user_state_address(&USER);
    let recipient_user: [u8; 32] = [3u8; 32];
    let (recipient_state_address, _b2) = derived_user_state_address(&recipient_user);
    let mut accounts = vec![
        AccountSlot { address: USER.to_vec(), allocated: true, data: vec![] },
        AccountSlot {
            address: sender_state_address,
            allocated: true,
            data: state(10, 1, 10, 20).to_bytes(),
        },
        AccountSlot { address: recipient_user.to_vec(), allocated: true, data: vec![] },
        AccountSlot {
            address: recipient_state_address,
            allocated: true,
            data: state(3, 2, 10, 20).to_bytes(),
        },
    ];
    let r = Processor::process_instruction(
        &PROGRAM_ID.to_vec(),
        &mut accounts,
        &SolanaClickerInstructions::TransferClicks { value: 4 }.to_bytes(),
    );
    assert_eq!(r, Ok(()));
    assert_eq!(UserState::try_from_slice(&accounts[1].data), Ok(state(6, 2, 10, 20)));
    assert_eq!(UserState::try_from_slice(&accounts[3].data), Ok(state(7, 2, 10, 20)));
}

#[test]
fn malformed_instruction_never_reaches_engine() {
    let mut accounts = init_accounts();
    let r = Processor::process_instruction(&PROGRAM_ID.to_vec(), &mut accounts, &[9u8, 9, 9]);
    assert_eq!(r, Err(ClickerError::DecodeError));
    assert!(!accounts[1].allocated);
    assert!(accounts[1].data.is_empty());
}

// ---- seeded client-side addresses ----

#[test]
fn get_pubkey_matches_host_derivation() {
    let user = USER.to_vec();
    let program = PROGRAM_ID.to_vec();
    let ours = UserState::get_pubkey(&user, &program);
    let expected = Pubkey::create_with_seed(
        &Pubkey::new_from_array(USER),
        "user_state",
        &Pubkey::new_from_array(PROGRAM_ID),
    )
    .unwrap();
    assert_eq!(ours, expected.to_bytes().to_vec());
}

#[test]
fn is_ok_pubkey_accepts_only_the_derived_address() {
    let user = USER.to_vec();
    let program = PROGRAM_ID.to_vec();
    let derived = UserState::get_pubkey(&user, &program);
    assert!(UserState::is_ok_pubkey(&user, &derived, &program));
    // The derivation is a digest: it never hands back its base input.
    assert!(!UserState::is_ok_pubkey(&user, &user, &program));
}
