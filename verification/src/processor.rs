use vstd::prelude::*;

use crate::error::ClickerError;
use crate::instruction::SolanaClickerInstructions;
use crate::state::{bytes_eq, UserState, USER_STATE_SIZE};
use solana_program::pubkey::Pubkey;

verus! {

/// One persistent account slot as the engine sees it: its address, whether
/// the host has already allocated it, and its stored bytes.
#[derive(Clone, Debug)]
pub struct AccountSlot {
    pub address: Vec<u8>,
    pub allocated: bool,
    pub data: Vec<u8>,
}

/// The mathematical value of an account slot.
#[verifier::ext_equal]
pub struct SlotView {
    pub address: Seq<u8>,
    pub allocated: bool,
    pub data: Seq<u8>,
}

impl View for AccountSlot {
    type V = SlotView;

    open spec fn view(&self) -> SlotView {
        SlotView { address: self.address@, allocated: self.allocated, data: self.data@ }
    }
}

/// The slot values of a whole account list.
pub open spec fn views_of(accounts: Seq<AccountSlot>) -> Seq<SlotView> {
    accounts.map_values(|a: AccountSlot| a@)
}

/// The seed bytes that scope a user-state record within the program's
/// namespace, `user_state` in ASCII.
pub open spec fn user_state_seed_bytes() -> Seq<u8> {
    seq![117u8, 115, 101, 114, 95, 115, 116, 97, 116, 101]
}

/// Build the seed bytes.
fn user_state_seed() -> (r: Vec<u8>)
    ensures
        r@ == user_state_seed_bytes(),
        r@.len() == 10,
{
    let mut v: Vec<u8> = Vec::new();
    v.push(117u8);
    v.push(115u8);
    v.push(101u8);
    v.push(114u8);
    v.push(95u8);
    v.push(115u8);
    v.push(116u8);
    v.push(97u8);
    v.push(116u8);
    v.push(101u8);
    proof {
        assert(v@ =~= user_state_seed_bytes());
    }
    v
}

/// What `Pubkey::try_find_program_address` returns for a pair of seeds and a
/// program id: the derived 32-byte address and its bump byte, or nothing in
/// the statistically improbable event that no bump yields a valid address.
pub uninterp spec fn pda_of(seed_a: Seq<u8>, seed_b: Seq<u8>, program: Seq<u8>) -> Option<
    (Seq<u8>, u8),
>;

/// Relies on `Pubkey::try_find_program_address`: the result is determined by
/// the seeds and the program id alone, and a returned address is 32 bytes.
/// With two seeds of at most 32 bytes each the call returns rather than
/// panics.
#[verifier::external_body]
fn try_find_program_address_raw(seed_a: &Vec<u8>, seed_b: &Vec<u8>, program_id: &Vec<u8>) -> (r:
    Option<(Vec<u8>, u8)>)
    requires
        seed_a@.len() <= 32,
        seed_b@.len() <= 32,
        program_id@.len() == 32,
    ensures
        match r {
            Some(p) => pda_of(seed_a@, seed_b@, program_id@) == Some((p.0@, p.1)) && p.0@.len()
                == 32,
            None => pda_of(seed_a@, seed_b@, program_id@) is None,
        },
{
    let program = Pubkey::try_from(program_id.as_slice()).unwrap();
    match Pubkey::try_find_program_address(&[seed_a.as_slice(), seed_b.as_slice()], &program) {
        Some((address, bump)) => Some((address.to_bytes().to_vec(), bump)),
        None => None,
    }
}

/// Copy a byte vector.
fn clone_bytes(v: &Vec<u8>) -> (r: Vec<u8>)
    ensures
        r@ == v@,
{
    let mut out: Vec<u8> = Vec::new();
    let n = v.len();
    let mut i: usize = 0;
    while i < n
        invariant
            n == v@.len(),
            0 <= i <= n,
            out@ == v@.subrange(0, i as int),
        decreases n - i,
    {
        out.push(v[i]);
        proof {
            assert(out@ =~= v@.subrange(0, i + 1));
        }
        i += 1;
    }
    proof {
        assert(out@ =~= v@);
    }
    out
}

/// The state-transition engine.
pub struct Processor {}

impl Processor {
    /// The click rule: add the earn rate to the balance, rejecting
    /// wrap-around rather than silently destroying value.
    pub open spec fn spec_click(s: UserState) -> Result<UserState, ClickerError> {
        if s.click_balance + s.value_per_click > u64::MAX {
            Err(ClickerError::Overflow)
        } else {
            Ok(
                UserState {
                    click_balance: (s.click_balance + s.value_per_click) as u64,
                    value_per_click: s.value_per_click,
                    cost_to_upgrade_v1: s.cost_to_upgrade_v1,
                    cost_to_upgrade_v2: s.cost_to_upgrade_v2,
                },
            )
        }
    }

    /// The upgrade rule: pay the chosen path's cost, raise the earn rate and
    /// double that path's cost.  A variation outside the two known paths is
    /// rejected outright.
    pub open spec fn spec_upgrade(s: UserState, variation: u8) -> Result<UserState, ClickerError> {
        if variation == 0 {
            if s.click_balance < s.cost_to_upgrade_v1 {
                Err(ClickerError::NotEnoughToUpgrade)
            } else if s.value_per_click + 1 > u32::MAX || s.cost_to_upgrade_v1 * 2 > u32::MAX {
                Err(ClickerError::Overflow)
            } else {
                Ok(
                    UserState {
                        click_balance: (s.click_balance - s.cost_to_upgrade_v1) as u64,
                        value_per_click: (s.value_per_click + 1) as u32,
                        cost_to_upgrade_v1: (s.cost_to_upgrade_v1 * 2) as u32,
                        cost_to_upgrade_v2: s.cost_to_upgrade_v2,
                    },
                )
            }
        } else if variation == 1 {
            if s.click_balance < s.cost_to_upgrade_v2 {
                Err(ClickerError::NotEnoughToUpgrade)
            } else if s.value_per_click + 2 > u32::MAX || s.cost_to_upgrade_v2 * 2 > u32::MAX {
                Err(ClickerError::Overflow)
            } else {
                Ok(
                    UserState {
                        click_balance: (s.click_balance - s.cost_to_upgrade_v2) as u64,
                        value_per_click: (s.value_per_click + 2) as u32,
                        cost_to_upgrade_v1: s.cost_to_upgrade_v1,
                        cost_to_upgrade_v2: (s.cost_to_upgrade_v2 * 2) as u32,
                    },
                )
            }
        } else {
            Err(ClickerError::InvalidVariation)
        }
    }

    /// The transfer rule: move the amount from sender to recipient and grant
    /// the sender a permanent earn-rate bonus.  Both new records are computed
    /// before either is committed.
    pub open spec fn spec_transfer(sender: UserState, recipient: UserState, value: u64) -> Result<
        (UserState, UserState),
        ClickerError,
    > {
        if value > sender.click_balance {
            Err(ClickerError::NotEnoughToTransfer)
        } else if sender.value_per_click + 1 > u32::MAX || recipient.click_balance + value
            > u64::MAX {
            Err(ClickerError::Overflow)
        } else {
            Ok(
                (
                    UserState {
                        click_balance: (sender.click_balance - value) as u64,
                        value_per_click: (sender.value_per_click + 1) as u32,
                        cost_to_upgrade_v1: sender.cost_to_upgrade_v1,
                        cost_to_upgrade_v2: sender.cost_to_upgrade_v2,
                    },
                    UserState {
                        click_balance: (recipient.click_balance + value) as u64,
                        value_per_click: recipient.value_per_click,
                        cost_to_upgrade_v1: recipient.cost_to_upgrade_v1,
                        cost_to_upgrade_v2: recipient.cost_to_upgrade_v2,
                    },
                ),
            )
        }
    }

    /// The InitUser rule on the user-state slot: the slot must sit at the
    /// program-derived address for the user, must not be allocated yet, and
    /// then receives the freshly allocated initial record.
    pub open spec fn spec_init_slot(
        program: Seq<u8>,
        user_address: Seq<u8>,
        slot: SlotView,
    ) -> Result<SlotView, ClickerError> {
        match pda_of(user_address, user_state_seed_bytes(), program) {
            Option::None => Err(ClickerError::AddressMismatch),
            Option::Some(p) => {
                if slot.address != p.0 {
                    Err(ClickerError::AddressMismatch)
                } else if slot.allocated {
                    Err(ClickerError::AlreadyInitialized)
                } else {
                    Ok(
                        SlotView {
                            address: slot.address,
                            allocated: true,
                            data: UserState::spec_initial().spec_to_bytes(),
                        },
                    )
                }
            },
        }
    }

    /// The click rule lifted to a slot: load the record, apply, store.
    pub open spec fn spec_click_slot(slot: SlotView) -> Result<SlotView, ClickerError> {
        if slot.data.len() != USER_STATE_SIZE {
            Err(ClickerError::CorruptState)
        } else {
            match Self::spec_click(UserState::spec_from_bytes(slot.data)) {
                Ok(s2) => Ok(
                    SlotView {
                        address: slot.address,
                        allocated: slot.allocated,
                        data: s2.spec_to_bytes(),
                    },
                ),
                Err(e) => Err(e),
            }
        }
    }

    /// The upgrade rule lifted to a slot.
    pub open spec fn spec_upgrade_slot(slot: SlotView, variation: u8) -> Result<
        SlotView,
        ClickerError,
    > {
        if slot.data.len() != USER_STATE_SIZE {
            Err(ClickerError::CorruptState)
        } else {
            match Self::spec_upgrade(UserState::spec_from_bytes(slot.data), variation) {
                Ok(s2) => Ok(
                    SlotView {
                        address: slot.address,
                        allocated: slot.allocated,
                        data: s2.spec_to_bytes(),
                    },
                ),
                Err(e) => Err(e),
            }
        }
    }

    /// The transfer rule lifted to the two slots.  Either record failing to
    /// deserialize is fatal before any effect.
    pub open spec fn spec_transfer_slots(
        sender_slot: SlotView,
        recipient_slot: SlotView,
        value: u64,
    ) -> Result<(SlotView, SlotView), ClickerError> {
        if sender_slot.data.len() != USER_STATE_SIZE || recipient_slot.data.len()
            != USER_STATE_SIZE {
            Err(ClickerError::CorruptState)
        } else {
            match Self::spec_transfer(
                UserState::spec_from_bytes(sender_slot.data),
                UserState::spec_from_bytes(recipient_slot.data),
                value,
            ) {
                Ok(p) => Ok(
                    (
                        SlotView {
                            address: sender_slot.address,
                            allocated: sender_slot.allocated,
                            data: p.0.spec_to_bytes(),
                        },
                        SlotView {
                            address: recipient_slot.address,
                            allocated: recipient_slot.allocated,
                            data: p.1.spec_to_bytes(),
                        },
                    ),
                ),
                Err(e) => Err(e),
            }
        }
    }

    /// The whole engine as one transition: dispatch the decoded command over
    /// the ordered account list, touching only the designated slots.
    pub open spec fn spec_step(
        program: Seq<u8>,
        c: SolanaClickerInstructions,
        slots: Seq<SlotView>,
    ) -> Result<Seq<SlotView>, ClickerError> {
        match c {
            SolanaClickerInstructions::InitUser => {
                if slots.len() < 3 {
                    Err(ClickerError::MissingAccount)
                } else {
                    match Self::spec_init_slot(program, slots[0].address, slots[1]) {
                        Ok(sv) => Ok(slots.update(1, sv)),
                        Err(e) => Err(e),
                    }
                }
            },
            SolanaClickerInstructions::Click => {
                if slots.len() < 2 {
                    Err(ClickerError::MissingAccount)
                } else {
                    match Self::spec_click_slot(slots[1]) {
                        Ok(sv) => Ok(slots.update(1, sv)),
                        Err(e) => Err(e),
                    }
                }
            },
            SolanaClickerInstructions::UpgradeValuePerClick { variation } => {
                if slots.len() < 2 {
                    Err(ClickerError::MissingAccount)
                } else {
                    match Self::spec_upgrade_slot(slots[1], variation) {
                        Ok(sv) => Ok(slots.update(1, sv)),
                        Err(e) => Err(e),
                    }
                }
            },
            SolanaClickerInstructions::TransferClicks { value } => {
                if slots.len() < 4 {
                    Err(ClickerError::MissingAccount)
                } else {
                    match Self::spec_transfer_slots(slots[1], slots[3], value) {
                        Ok(p) => Ok(slots.update(1, p.0).update(3, p.1)),
                        Err(e) => Err(e),
                    }
                }
            },
        }
    }

    /// Apply the click rule to a record.
    pub fn click(state: &UserState) -> (r: Result<UserState, ClickerError>)
        ensures
            r == Self::spec_click(*state),
    {
        let vpc = state.value_per_click as u64;
        if state.click_balance > u64::MAX - vpc {
            Err(ClickerError::Overflow)
        } else {
            Ok(
                UserState {
                    click_balance: state.click_balance + vpc,
                    value_per_click: state.value_per_click,
                    cost_to_upgrade_v1: state.cost_to_upgrade_v1,
                    cost_to_upgrade_v2: state.cost_to_upgrade_v2,
                },
            )
        }
    }

    /// Apply the upgrade rule to a record.
    pub fn upgrade(state: &UserState, variation: u8) -> (r: Result<UserState, ClickerError>)
        ensures
            r == Self::spec_upgrade(*state, variation),
    {
        if variation == 0 {
            if (state.cost_to_upgrade_v1 as u64) > state.click_balance {
                return Err(ClickerError::NotEnoughToUpgrade);
            }
            if state.value_per_click == u32::MAX || state.cost_to_upgrade_v1 > u32::MAX / 2 {
                return Err(ClickerError::Overflow);
            }
            Ok(
                UserState {
                    click_balance: state.click_balance - (state.cost_to_upgrade_v1 as u64),
                    value_per_click: state.value_per_click + 1,
                    cost_to_upgrade_v1: state.cost_to_upgrade_v1 * 2,
                    cost_to_upgrade_v2: state.cost_to_upgrade_v2,
                },
            )
        } else if variation == 1 {
            if (state.cost_to_upgrade_v2 as u64) > state.click_balance {
                return Err(ClickerError::NotEnoughToUpgrade);
            }
            if state.value_per_click > u32::MAX - 2 || state.cost_to_upgrade_v2 > u32::MAX / 2 {
                return Err(ClickerError::Overflow);
            }
            Ok(
                UserState {
                    click_balance: state.click_balance - (state.cost_to_upgrade_v2 as u64),
                    value_per_click: state.value_per_click + 2,
                    cost_to_upgrade_v1: state.cost_to_upgrade_v1,
                    cost_to_upgrade_v2: state.cost_to_upgrade_v2 * 2,
                },
            )
        } else {
            Err(ClickerError::InvalidVariation)
        }
    }

    /// Apply the transfer rule to a sender and a recipient record.
    pub fn transfer(sender: &UserState, recipient: &UserState, value: u64) -> (r: Result<
        (UserState, UserState),
        ClickerError,
    >)
        ensures
            r == Self::spec_transfer(*sender, *recipient, value),
    {
        if value > sender.click_balance {
            return Err(ClickerError::NotEnoughToTransfer);
        }
        if sender.value_per_click == u32::MAX || recipient.click_balance > u64::MAX - value {
            return Err(ClickerError::Overflow);
        }
        Ok(
            (
                UserState {
                    click_balance: sender.click_balance - value,
                    value_per_click: sender.value_per_click + 1,
                    cost_to_upgrade_v1: sender.cost_to_upgrade_v1,
                    cost_to_upgrade_v2: sender.cost_to_upgrade_v2,
                },
                UserState {
                    click_balance: recipient.click_balance + value,
                    value_per_click: recipient.value_per_click,
                    cost_to_upgrade_v1: recipient.cost_to_upgrade_v1,
                    cost_to_upgrade_v2: recipient.cost_to_upgrade_v2,
                },
            ),
        )
    }

    /// Decode an instruction buffer and run the engine over the account
    /// list.  On any error the account list is left exactly as it was: a
    /// half-applied invocation is never observable.
    pub fn process_instruction(
        program_id: &Vec<u8>,
        accounts: &mut Vec<AccountSlot>,
        instruction_data: &[u8],
    ) -> (r: Result<(), ClickerError>)
        requires
            program_id@.len() == 32,
            forall|i: int|
                0 <= i < old(accounts)@.len() ==> (#[trigger] old(accounts)@[i]).address@.len()
                    == 32,
        ensures
            final(accounts)@.len() == old(accounts)@.len(),
            ({
                let pre = views_of(old(accounts)@);
                let post = views_of(final(accounts)@);
                match SolanaClickerInstructions::spec_decode(instruction_data@) {
                    Err(e) => r == Err::<(), ClickerError>(e) && final(accounts)@ == old(
                        accounts,
                    )@,
                    Ok(c) => match Self::spec_step(program_id@, c, pre) {
                        Ok(post2) => r == Ok::<(), ClickerError>(()) && post == post2,
                        Err(e) => r == Err::<(), ClickerError>(e) && final(accounts)@ == old(
                            accounts,
                        )@,
                    },
                }
            }),
    {
        let instruction = match SolanaClickerInstructions::try_from_slice(instruction_data) {
            Ok(i) => i,
            Err(e) => {
                return Err(e);
            },
        };
        match instruction {
            SolanaClickerInstructions::InitUser => {
                if accounts.len() < 3 {
                    return Err(ClickerError::MissingAccount);
                }
                let seed = user_state_seed();
                let pda = try_find_program_address_raw(&accounts[0].address, &seed, program_id);
                let (pda_address, _bump) = match pda {
                    Some(p) => p,
                    None => {
                        return Err(ClickerError::AddressMismatch);
                    },
                };
                if !bytes_eq(&accounts[1].address, &pda_address) {
                    return Err(ClickerError::AddressMismatch);
                }
                if accounts[1].allocated {
                    return Err(ClickerError::AlreadyInitialized);
                }
                let address = clone_bytes(&accounts[1].address);
                let record = UserState::initial();
                let new_slot = AccountSlot { address, allocated: true, data: record.to_bytes() };
                let ghost sv = match Self::spec_init_slot(
                    program_id@,
                    old(accounts)@[0]@.address,
                    old(accounts)@[1]@,
                ) {
                    Ok(sv) => sv,
                    Err(_) => arbitrary(),
                };
                proof {
                    assert(new_slot@ =~= sv);
                }
                accounts[1] = new_slot;
                proof {
                    assert(views_of(accounts@) =~= views_of(old(accounts)@).update(1, sv));
                }
                Ok(())
            },
            SolanaClickerInstructions::Click => {
                if accounts.len() < 2 {
                    return Err(ClickerError::MissingAccount);
                }
                let user_state = match UserState::try_from_slice(accounts[1].data.as_slice()) {
                    Ok(s) => s,
                    Err(e) => {
                        return Err(e);
                    },
                };
                let new_state = match Self::click(&user_state) {
                    Ok(s) => s,
                    Err(e) => {
                        return Err(e);
                    },
                };
                let address = clone_bytes(&accounts[1].address);
                let allocated = accounts[1].allocated;
                let new_slot = AccountSlot { address, allocated, data: new_state.to_bytes() };
                let ghost sv = match Self::spec_click_slot(old(accounts)@[1]@) {
                    Ok(sv) => sv,
                    Err(_) => arbitrary(),
                };
                proof {
                    assert(new_slot@ =~= sv);
                }
                accounts[1] = new_slot;
                proof {
                    assert(views_of(accounts@) =~= views_of(old(accounts)@).update(1, sv));
                }
                Ok(())
            },
            SolanaClickerInstructions::UpgradeValuePerClick { variation } => {
                if accounts.len() < 2 {
                    return Err(ClickerError::MissingAccount);
                }
                let user_state = match UserState::try_from_slice(accounts[1].data.as_slice()) {
                    Ok(s) => s,
                    Err(e) => {
                        return Err(e);
                    },
                };
                let new_state = match Self::upgrade(&user_state, variation) {
                    Ok(s) => s,
                    Err(e) => {
                        return Err(e);
                    },
                };
                let address = clone_bytes(&accounts[1].address);
                let allocated = accounts[1].allocated;
                let new_slot = AccountSlot { address, allocated, data: new_state.to_bytes() };
                let ghost sv = match Self::spec_upgrade_slot(old(accounts)@[1]@, variation) {
                    Ok(sv) => sv,
                    Err(_) => arbitrary(),
                };
                proof {
                    assert(new_slot@ =~= sv);
                }
                accounts[1] = new_slot;
                proof {
                    assert(views_of(accounts@) =~= views_of(old(accounts)@).update(1, sv));
                }
                Ok(())
            },
            SolanaClickerInstructions::TransferClicks { value } => {
                if accounts.len() < 4 {
                    return Err(ClickerError::MissingAccount);
                }
                let sender = match UserState::try_from_slice(accounts[1].data.as_slice()) {
                    Ok(s) => s,
                    Err(e) => {
                        return Err(e);
                    },
                };
                let recipient = match UserState::try_from_slice(accounts[3].data.as_slice()) {
                    Ok(s) => s,
                    Err(e) => {
                        return Err(e);
                    },
                };
                let pair = match Self::transfer(&sender, &recipient, value) {
                    Ok(p) => p,
                    Err(e) => {
                        return Err(e);
                    },
                };
                let sender_address = clone_bytes(&accounts[1].address);
                let sender_allocated = accounts[1].allocated;
                let recipient_address = clone_bytes(&accounts[3].address);
                let recipient_allocated = accounts[3].allocated;
                let new_sender_slot = AccountSlot {
                    address: sender_address,
                    allocated: sender_allocated,
                    data: pair.0.to_bytes(),
                };
                let new_recipient_slot = AccountSlot {
                    address: recipient_address,
                    allocated: recipient_allocated,
                    data: pair.1.to_bytes(),
                };
                let ghost svs = match Self::spec_transfer_slots(
                    old(accounts)@[1]@,
                    old(accounts)@[3]@,
                    value,
                ) {
                    Ok(p) => p,
                    Err(_) => arbitrary(),
                };
                proof {
                    assert(new_sender_slot@ =~= svs.0);
                    assert(new_recipient_slot@ =~= svs.1);
                }
                accounts[1] = new_sender_slot;
                accounts[3] = new_recipient_slot;
                proof {
                    assert(views_of(accounts@) =~= views_of(old(accounts)@).update(
                        1,
                        svs.0,
                    ).update(3, svs.1));
                }
                Ok(())
            },
        }
    }

    /// Initialization is a one-time transition: a slot that a successful
    /// InitUser produced refuses a second InitUser for the same user with
    /// AlreadyInitialized, so the state after the failed second call equals
    /// the state after the first.
    pub proof fn lemma_init_idempotency_boundary(
        program: Seq<u8>,
        user_address: Seq<u8>,
        slot: SlotView,
        slot2: SlotView,
    )
        requires
            Self::spec_init_slot(program, user_address, slot) == Ok::<SlotView, ClickerError>(
                slot2,
            ),
        ensures
            Self::spec_init_slot(program, user_address, slot2) == Err::<SlotView, ClickerError>(
                ClickerError::AlreadyInitialized,
            ),
    {
    }

    /// A successful click strictly increases the balance by exactly the earn
    /// rate and leaves every other field unchanged.
    pub proof fn lemma_click_monotonicity(s: UserState, s2: UserState)
        requires
            s.wf(),
            Self::spec_click(s) == Ok::<UserState, ClickerError>(s2),
        ensures
            s2.click_balance == s.click_balance + s.value_per_click,
            s2.click_balance > s.click_balance,
            s2.value_per_click == s.value_per_click,
            s2.cost_to_upgrade_v1 == s.cost_to_upgrade_v1,
            s2.cost_to_upgrade_v2 == s.cost_to_upgrade_v2,
            s2.wf(),
    {
    }

    /// An upgrade on path 0 that the balance cannot afford fails with
    /// NotEnoughToUpgrade, and so changes nothing.
    pub proof fn lemma_upgrade_affordability(s: UserState)
        requires
            s.click_balance < s.cost_to_upgrade_v1,
        ensures
            Self::spec_upgrade(s, 0) == Err::<UserState, ClickerError>(
                ClickerError::NotEnoughToUpgrade,
            ),
    {
    }

    /// A successful transfer conserves the combined balance of sender and
    /// recipient; the sender's earn-rate bonus is tracked separately and
    /// does not affect conservation.
    pub proof fn lemma_transfer_conservation(
        sender: UserState,
        recipient: UserState,
        value: u64,
        s2: UserState,
        r2: UserState,
    )
        requires
            Self::spec_transfer(sender, recipient, value) == Ok::<
                (UserState, UserState),
                ClickerError,
            >((s2, r2)),
        ensures
            s2.click_balance + r2.click_balance == sender.click_balance
                + recipient.click_balance,
            s2.value_per_click == sender.value_per_click + 1,
            r2.value_per_click == recipient.value_per_click,
    {
    }

    /// A successful upgrade preserves well-formedness, strictly raises the
    /// earn rate and never lowers either upgrade cost.
    pub proof fn lemma_upgrade_monotonic(s: UserState, variation: u8, s2: UserState)
        requires
            s.wf(),
            Self::spec_upgrade(s, variation) == Ok::<UserState, ClickerError>(s2),
        ensures
            s2.wf(),
            s2.value_per_click > s.value_per_click,
            s2.cost_to_upgrade_v1 >= s.cost_to_upgrade_v1,
            s2.cost_to_upgrade_v2 >= s.cost_to_upgrade_v2,
    {
    }

    /// A successful transfer preserves well-formedness of both records and
    /// never lowers any monotone field.
    pub proof fn lemma_transfer_monotonic(
        sender: UserState,
        recipient: UserState,
        value: u64,
        s2: UserState,
        r2: UserState,
    )
        requires
            sender.wf(),
            recipient.wf(),
            Self::spec_transfer(sender, recipient, value) == Ok::<
                (UserState, UserState),
                ClickerError,
            >((s2, r2)),
        ensures
            s2.wf(),
            r2.wf(),
            s2.value_per_click > sender.value_per_click,
            r2.value_per_click == recipient.value_per_click,
    {
    }
}

} // verus!
