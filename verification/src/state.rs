use vstd::bytes::*;
use vstd::prelude::*;

use crate::error::ClickerError;
use solana_program::pubkey::Pubkey;

verus! {

/// Size in bytes of a serialized [`UserState`] record: one `u64` field and
/// three `u32` fields, fixed-width, no padding.
pub const USER_STATE_SIZE: usize = 20;

/// Per-user progression state, persisted by the host as a fixed-size record
/// at a deterministically derived address.
#[derive(Clone, Copy, Debug, PartialEq, Eq, Structural)]
pub struct UserState {
    /// Accrued currency; never allowed to underflow or wrap.
    pub click_balance: u64,
    /// Added to the balance per click; starts at 1 and only increases.
    pub value_per_click: u32,
    /// Price of upgrade path 0; starts at 10 and doubles on purchase.
    pub cost_to_upgrade_v1: u32,
    /// Price of upgrade path 1; starts at 20 and doubles on purchase.
    pub cost_to_upgrade_v2: u32,
}

impl UserState {
    /// The fixed little-endian wire layout of a record: each field in
    /// declaration order, no padding, no length prefix.
    pub open spec fn spec_to_bytes(self) -> Seq<u8> {
        spec_u64_to_le_bytes(self.click_balance) + spec_u32_to_le_bytes(self.value_per_click)
            + spec_u32_to_le_bytes(self.cost_to_upgrade_v1) + spec_u32_to_le_bytes(
            self.cost_to_upgrade_v2,
        )
    }

    /// The record a 20-byte buffer denotes.
    pub open spec fn spec_from_bytes(bytes: Seq<u8>) -> UserState
        recommends
            bytes.len() == USER_STATE_SIZE,
    {
        UserState {
            click_balance: spec_u64_from_le_bytes(bytes.subrange(0, 8)),
            value_per_click: spec_u32_from_le_bytes(bytes.subrange(8, 12)),
            cost_to_upgrade_v1: spec_u32_from_le_bytes(bytes.subrange(12, 16)),
            cost_to_upgrade_v2: spec_u32_from_le_bytes(bytes.subrange(16, 20)),
        }
    }

    /// The record a fresh initialization writes.
    pub open spec fn spec_initial() -> UserState {
        UserState { click_balance: 0, value_per_click: 1, cost_to_upgrade_v1: 10, cost_to_upgrade_v2: 20 }
    }

    /// Well-formedness of a live record: the earn rate starts at 1 and the
    /// two upgrade costs start at 10 and 20, and all three only grow.
    pub open spec fn wf(self) -> bool {
        self.value_per_click >= 1 && self.cost_to_upgrade_v1 >= 10 && self.cost_to_upgrade_v2 >= 20
    }

    /// Build the initial record.
    pub fn initial() -> (r: UserState)
        ensures
            r == Self::spec_initial(),
    {
        UserState { click_balance: 0, value_per_click: 1, cost_to_upgrade_v1: 10, cost_to_upgrade_v2: 20 }
    }

    /// Serialize this record into its fixed 20-byte layout.
    pub fn to_bytes(&self) -> (r: Vec<u8>)
        ensures
            r@ == self.spec_to_bytes(),
            r@.len() == USER_STATE_SIZE,
    {
        let mut out = u64_to_le_bytes(self.click_balance);
        let mut f1 = u32_to_le_bytes(self.value_per_click);
        out.append(&mut f1);
        let mut f2 = u32_to_le_bytes(self.cost_to_upgrade_v1);
        out.append(&mut f2);
        let mut f3 = u32_to_le_bytes(self.cost_to_upgrade_v2);
        out.append(&mut f3);
        proof {
            assert(out@ =~= self.spec_to_bytes());
        }
        out
    }

    /// Deserialize a record.  Succeeds exactly on buffers of the fixed record
    /// size; a truncated, oversized or missing buffer is corrupt state.
    pub fn try_from_slice(bytes: &[u8]) -> (r: Result<UserState, ClickerError>)
        ensures
            match r {
                Ok(s) => bytes@.len() == USER_STATE_SIZE && s == Self::spec_from_bytes(bytes@)
                    && bytes@ == s.spec_to_bytes(),
                Err(e) => e == ClickerError::CorruptState && bytes@.len() != USER_STATE_SIZE,
            },
    {
        if bytes.len() != USER_STATE_SIZE {
            return Err(ClickerError::CorruptState);
        }
        let click_balance = u64_from_le_bytes(vstd::slice::slice_subrange(bytes, 0, 8));
        let value_per_click = u32_from_le_bytes(vstd::slice::slice_subrange(bytes, 8, 12));
        let cost_to_upgrade_v1 = u32_from_le_bytes(vstd::slice::slice_subrange(bytes, 12, 16));
        let cost_to_upgrade_v2 = u32_from_le_bytes(vstd::slice::slice_subrange(bytes, 16, 20));
        let s = UserState { click_balance, value_per_click, cost_to_upgrade_v1, cost_to_upgrade_v2 };
        proof {
            lemma_auto_spec_u64_to_from_le_bytes();
            lemma_auto_spec_u32_to_from_le_bytes();
            assert(bytes@ =~= s.spec_to_bytes());
        }
        Ok(s)
    }

    /// Round-trip fidelity of the record layout: serializing any record and
    /// reading the bytes back yields the same record.
    pub proof fn lemma_roundtrip(s: UserState)
        ensures
            s.spec_to_bytes().len() == USER_STATE_SIZE,
            Self::spec_from_bytes(s.spec_to_bytes()) == s,
    {
        lemma_auto_spec_u64_to_from_le_bytes();
        lemma_auto_spec_u32_to_from_le_bytes();
        let b = s.spec_to_bytes();
        assert(b.subrange(0, 8) =~= spec_u64_to_le_bytes(s.click_balance));
        assert(b.subrange(8, 12) =~= spec_u32_to_le_bytes(s.value_per_click));
        assert(b.subrange(12, 16) =~= spec_u32_to_le_bytes(s.cost_to_upgrade_v1));
        assert(b.subrange(16, 20) =~= spec_u32_to_le_bytes(s.cost_to_upgrade_v2));
    }

    /// The seeded record address as client tooling computes it, with the
    /// host's seeded-address scheme.  Note this is a different derivation
    /// from the program-derived address the engine checks during
    /// initialization; the two helpers below mirror the original client
    /// surface as it stands.
    pub fn get_pubkey(user: &Vec<u8>, program_id: &Vec<u8>) -> (r: Vec<u8>)
        requires
            user@.len() == 32,
            program_id@.len() == 32,
            !ends_with_pda_marker(program_id@),
        ensures
            r@ == seeded_user_state_address(user@, program_id@),
            r@.len() == 32,
    {
        create_with_seed_raw(user, "user_state", program_id)
    }

    /// Whether a supplied account address is exactly the user's seeded
    /// record address.
    pub fn is_ok_pubkey(user: &Vec<u8>, user_state_pubkey: &Vec<u8>, program_id: &Vec<u8>) -> (r:
        bool)
        requires
            user@.len() == 32,
            program_id@.len() == 32,
            !ends_with_pda_marker(program_id@),
        ensures
            r == (user_state_pubkey@ == seeded_user_state_address(user@, program_id@)),
    {
        let expected = Self::get_pubkey(user, program_id);
        bytes_eq(user_state_pubkey, &expected)
    }
}

/// The seed string that scopes a user-state record within the program's
/// namespace.
pub open spec fn user_state_seed_str() -> Seq<char> {
    "user_state"@
}

/// The 21-byte marker string `ProgramDerivedAddress` that the host reserves
/// for program-derived addresses.
pub open spec fn pda_marker() -> Seq<u8> {
    seq![
        80u8, 114, 111, 103, 114, 97, 109, 68, 101, 114, 105, 118, 101, 100, 65, 100, 100, 114,
        101, 115, 115,
    ]
}

/// Whether an owner address ends in the program-derived-address marker; the
/// host refuses to derive seeded addresses for such owners.
pub open spec fn ends_with_pda_marker(owner: Seq<u8>) -> bool {
    owner.len() >= 21 && owner.subrange(owner.len() - 21, owner.len() as int) == pda_marker()
}

/// What `Pubkey::create_with_seed` returns for the fixed user-state seed
/// string: a digest of the base address, the seed and the owning program.
pub uninterp spec fn seeded_user_state_address(base: Seq<u8>, owner: Seq<u8>) -> Seq<u8>;

/// Relies on `Pubkey::create_with_seed`: the returned address is a 32-byte
/// digest determined by the base address, the seed string and the owner
/// alone.  The call errs only on a seed longer than 32 bytes or an owner
/// ending in the program-derived-address marker; the preconditions rule both
/// out, so the unwraps cannot panic.
#[verifier::external_body]
fn create_with_seed_raw(base: &Vec<u8>, seed: &str, owner: &Vec<u8>) -> (r: Vec<u8>)
    requires
        base@.len() == 32,
        owner@.len() == 32,
        seed@ == user_state_seed_str(),
        !ends_with_pda_marker(owner@),
    ensures
        r@ == seeded_user_state_address(base@, owner@),
        r@.len() == 32,
{
    let base_pk = Pubkey::try_from(base.as_slice()).unwrap();
    let owner_pk = Pubkey::try_from(owner.as_slice()).unwrap();
    let derived = Pubkey::create_with_seed(&base_pk, seed, &owner_pk).unwrap();
    derived.to_bytes().to_vec()
}

/// Compare two byte vectors for equality of their contents.
pub(crate) fn bytes_eq(a: &Vec<u8>, b: &Vec<u8>) -> (r: bool)
    ensures
        r == (a@ == b@),
{
    if a.len() != b.len() {
        return false;
    }
    let n = a.len();
    let mut i: usize = 0;
    while i < n
        invariant
            n == a@.len(),
            n == b@.len(),
            0 <= i <= n,
            forall|j: int| 0 <= j < i ==> a@[j] == b@[j],
        decreases n - i,
    {
        if a[i] != b[i] {
            return false;
        }
        i += 1;
    }
    proof {
        assert(a@ =~= b@);
    }
    true
}

} // verus!
