//! Pump swap program: the cashback claim instruction and its event.

use vstd::prelude::*;
use vstd::bytes::*;

use crate::account_meta::{AccountCursor, AccountMeta, key_at};
use crate::codec::{
    has_prefix, read_i64_le, read_pubkey, read_u64_le, spec_i64_from_le_bytes,
    spec_i64_to_le_bytes, starts_with, lemma_le_roundtrips,
};
use crate::keys::{Pubkey, lemma_pubkey_view_injective};

verus! {

/// Discriminator of the cashback claim instruction.
pub const CLAIM_CASHBACK_DISCRIMINATOR: [u8; 8] = [0x25, 0x3a, 0x23, 0x7e, 0xbe, 0x35, 0xe4, 0xc5];

/// Discriminator of the cashback claim event.
pub const CLAIM_CASHBACK_EVENT_DISCRIMINATOR: [u8; 16] = [
    0xe4,
    0x45,
    0xa5,
    0x2e,
    0x51,
    0xcb,
    0x9a,
    0x1d,
    0xe2,
    0xd6,
    0xf6,
    0x21,
    0x07,
    0xf2,
    0x93,
    0xe5,
];

/// The cashback claim instruction; it carries no arguments.
#[derive(Debug, PartialEq, Eq, Clone, Hash)]
pub struct ClaimCashback {}

/// The accounts of a cashback claim, by role.
#[derive(Debug, PartialEq, Eq, Clone, Hash)]
pub struct ClaimCashbackInstructionAccounts {
    pub user: Pubkey,
    pub user_volume_accumulator: Pubkey,
    pub quote_mint: Pubkey,
    pub quote_token_program: Pubkey,
    pub user_volume_accumulator_wsol_token_account: Pubkey,
    pub user_wsol_token_account: Pubkey,
    pub system_program: Pubkey,
    pub event_authority: Pubkey,
    pub program: Pubkey,
}

/// The event emitted when a user claims cashback.
#[derive(Debug, PartialEq, Eq, Clone, Hash)]
pub struct ClaimCashbackEvent {
    pub user: Pubkey,
    pub amount: u64,
    pub timestamp: i64,
    pub total_claimed: u64,
    pub total_cashback_earned: u64,
}

impl ClaimCashback {
    /// The discriminator as a byte sequence.
    pub open spec fn spec_discriminator() -> Seq<u8> {
        seq![0x25u8, 0x3au8, 0x23u8, 0x7eu8, 0xbeu8, 0x35u8, 0xe4u8, 0xc5u8]
    }

    /// What the decoder accepts: the discriminator, then nothing required.
    pub open spec fn spec_deserialize(data: Seq<u8>) -> Option<ClaimCashback> {
        if starts_with(data, Self::spec_discriminator()) {
            Some(ClaimCashback {  })
        } else {
            None
        }
    }

    /// Data decodes as this instruction exactly when its first 8 bytes are
    /// the instruction's discriminator; nothing else about the data matters.
    pub proof fn lemma_decodes_exactly_its_discriminator(data: Seq<u8>)
        ensures
            Self::spec_deserialize(data) is Some <==> (data.len() >= 8 && data[0] == 0x25u8 && data[1] == 0x3au8 && data[2] == 0x23u8 && data[3] == 0x7eu8 && data[4] == 0xbeu8 && data[5] == 0x35u8 && data[6] == 0xe4u8 && data[7] == 0xc5u8),
    {
        if data.len() >= 8 && data[0] == 0x25u8 && data[1] == 0x3au8 && data[2] == 0x23u8 && data[3] == 0x7eu8 && data[4] == 0xbeu8 && data[5] == 0x35u8 && data[6] == 0xe4u8 && data[7] == 0xc5u8 {
            assert(data.take(8) =~= Self::spec_discriminator());
        }
        if Self::spec_deserialize(data) is Some {
            assert forall|k: int| 0 <= k < 8 implies data[k] == Self::spec_discriminator()[k] by {
                assert(data.take(8)[k] == data[k]);
            }
        }
    }

    /// Decodes the instruction from its data: `Some` exactly when the data
    /// starts with the discriminator; trailing bytes are ignored.
    pub fn deserialize(data: &[u8]) -> (r: Option<ClaimCashback>)
        ensures
            r == Self::spec_deserialize(data@),
            r is Some <==> starts_with(data@, seq![0x25u8, 0x3au8, 0x23u8, 0x7eu8, 0xbeu8, 0x35u8, 0xe4u8, 0xc5u8]),
    {
        assert(CLAIM_CASHBACK_DISCRIMINATOR@ == Self::spec_discriminator());
        if has_prefix(data, CLAIM_CASHBACK_DISCRIMINATOR.as_slice()) {
            Some(ClaimCashback {  })
        } else {
            None
        }
    }

    /// The accounts by role, read from the first nine accounts.
    pub open spec fn spec_arrange_accounts(accounts: Seq<AccountMeta>) -> Option<
        ClaimCashbackInstructionAccounts,
    > {
        if accounts.len() >= 9 {
            Some(
                ClaimCashbackInstructionAccounts {
                    user: key_at(accounts, 0),
                    user_volume_accumulator: key_at(accounts, 1),
                    quote_mint: key_at(accounts, 2),
                    quote_token_program: key_at(accounts, 3),
                    user_volume_accumulator_wsol_token_account: key_at(accounts, 4),
                    user_wsol_token_account: key_at(accounts, 5),
                    system_program: key_at(accounts, 6),
                    event_authority: key_at(accounts, 7),
                    program: key_at(accounts, 8),
                },
            )
        } else {
            None
        }
    }

    /// Assigns the instruction's accounts to their roles in order; `None`
    /// when fewer than nine accounts are given. Accounts past the ninth are
    /// ignored.
    pub fn arrange_accounts(accounts: &[AccountMeta]) -> (r: Option<
        ClaimCashbackInstructionAccounts,
    >)
        ensures
            r == Self::spec_arrange_accounts(accounts@),
            accounts@.len() < 9 ==> r is None,
            accounts@.len() >= 9 ==> (r matches Some(a) && a.user == accounts@[0].pubkey && a.user_volume_accumulator == accounts@[1].pubkey && a.quote_mint == accounts@[2].pubkey && a.quote_token_program == accounts@[3].pubkey && a.user_volume_accumulator_wsol_token_account == accounts@[4].pubkey && a.user_wsol_token_account == accounts@[5].pubkey && a.system_program == accounts@[6].pubkey && a.event_authority == accounts@[7].pubkey && a.program == accounts@[8].pubkey),
    {
        let mut iter = AccountCursor::new(accounts);
        let user = iter.next_account()?;
        let user_volume_accumulator = iter.next_account()?;
        let quote_mint = iter.next_account()?;
        let quote_token_program = iter.next_account()?;
        let user_volume_accumulator_wsol_token_account = iter.next_account()?;
        let user_wsol_token_account = iter.next_account()?;
        let system_program = iter.next_account()?;
        let event_authority = iter.next_account()?;
        let program = iter.next_account()?;
        Some(
            ClaimCashbackInstructionAccounts {
                user,
                user_volume_accumulator,
                quote_mint,
                quote_token_program,
                user_volume_accumulator_wsol_token_account,
                user_wsol_token_account,
                system_program,
                event_authority,
                program,
            },
        )
    }

    /// Accounts past the ninth play no part in the arrangement.
    pub proof fn lemma_arrange_ignores_trailing(accounts: Seq<AccountMeta>, more: Seq<AccountMeta>)
        requires
            accounts.len() >= 9,
        ensures
            Self::spec_arrange_accounts(accounts + more) == Self::spec_arrange_accounts(accounts),
    {
        let all = accounts + more;
        assert forall|i: int| 0 <= i < 9 implies key_at(all, i) == key_at(accounts, i) by {}
    }

    /// The arrangement is positional and reads only the accounts' addresses:
    /// two account lists with the same addresses in the same positions are
    /// arranged alike, whatever their signer and writable flags; and each
    /// role is the address at its own position.
    pub proof fn lemma_arrange_reads_only_keys(a: Seq<AccountMeta>, b: Seq<AccountMeta>)
        requires
            a.len() == b.len(),
            forall|i: int| 0 <= i < a.len() ==> #[trigger] a[i].pubkey == b[i].pubkey,
        ensures
            Self::spec_arrange_accounts(a) == Self::spec_arrange_accounts(b),
            a.len() >= 9 ==> (Self::spec_arrange_accounts(a) matches Some(x) && x.user == a[0].pubkey && x.user_volume_accumulator == a[1].pubkey && x.quote_mint == a[2].pubkey && x.quote_token_program == a[3].pubkey && x.user_volume_accumulator_wsol_token_account == a[4].pubkey && x.user_wsol_token_account == a[5].pubkey && x.system_program == a[6].pubkey && x.event_authority == a[7].pubkey && x.program == a[8].pubkey),
            a.len() < 9 ==> Self::spec_arrange_accounts(a) is None,
    {
        assert forall|i: int| 0 <= i < a.len() implies key_at(a, i) == key_at(b, i) by {
            assert(a[i].pubkey == b[i].pubkey);
        }
    }
}

impl ClaimCashbackEvent {
    /// The discriminator as a byte sequence.
    pub open spec fn spec_discriminator() -> Seq<u8> {
        seq![
            0xe4u8,
            0x45u8,
            0xa5u8,
            0x2eu8,
            0x51u8,
            0xcbu8,
            0x9au8,
            0x1du8,
            0xe2u8,
            0xd6u8,
            0xf6u8,
            0x21u8,
            0x07u8,
            0xf2u8,
            0x93u8,
            0xe5u8,
        ]
    }

    /// The borsh layout of the event's fields, in declaration order.
    pub open spec fn spec_body(self) -> Seq<u8> {
        self.user@ + spec_u64_to_le_bytes(self.amount) + spec_i64_to_le_bytes(self.timestamp)
            + spec_u64_to_le_bytes(self.total_claimed) + spec_u64_to_le_bytes(
            self.total_cashback_earned,
        )
    }

    /// The field layout is 64 bytes long and tells every event apart.
    pub proof fn lemma_body_injective(a: ClaimCashbackEvent, b: ClaimCashbackEvent)
        ensures
            a.spec_body().len() == 64,
            a.spec_body() == b.spec_body() ==> a == b,
    {
        lemma_le_roundtrips();
        if a.spec_body() == b.spec_body() {
            let sa = a.spec_body();
            let sb = b.spec_body();
            assert(sa.subrange(0, 32) =~= a.user@);
            assert(sb.subrange(0, 32) =~= b.user@);
            lemma_pubkey_view_injective(a.user, b.user);
            assert(sa.subrange(32, 40) =~= spec_u64_to_le_bytes(a.amount));
            assert(sb.subrange(32, 40) =~= spec_u64_to_le_bytes(b.amount));
            assert(sa.subrange(40, 48) =~= spec_i64_to_le_bytes(a.timestamp));
            assert(sb.subrange(40, 48) =~= spec_i64_to_le_bytes(b.timestamp));
            assert(sa.subrange(48, 56) =~= spec_u64_to_le_bytes(a.total_claimed));
            assert(sb.subrange(48, 56) =~= spec_u64_to_le_bytes(b.total_claimed));
            assert(sa.subrange(56, 64) =~= spec_u64_to_le_bytes(a.total_cashback_earned));
            assert(sb.subrange(56, 64) =~= spec_u64_to_le_bytes(b.total_cashback_earned));
        }
    }

    /// Decodes the event: `Some` exactly when the data starts with the
    /// discriminator and holds the 64 bytes of the fields after it; the
    /// decoded event is the one whose layout those bytes are. Trailing bytes
    /// are ignored.
    pub fn deserialize(data: &[u8]) -> (r: Option<ClaimCashbackEvent>)
        ensures
            r is Some <==> starts_with(
                data@,
                seq![0xe4u8, 0x45u8, 0xa5u8, 0x2eu8, 0x51u8, 0xcbu8, 0x9au8, 0x1du8, 0xe2u8, 0xd6u8, 0xf6u8, 0x21u8, 0x07u8, 0xf2u8, 0x93u8, 0xe5u8],
            ) && data@.len() >= 80,
            r matches Some(e) ==> e.spec_body() == data@.subrange(16, 80),
    {
        assert(CLAIM_CASHBACK_EVENT_DISCRIMINATOR@ == Self::spec_discriminator());
        if !has_prefix(data, CLAIM_CASHBACK_EVENT_DISCRIMINATOR.as_slice()) {
            return None;
        }
        let user = read_pubkey(data, 16)?;
        let amount = read_u64_le(data, 48)?;
        let timestamp = read_i64_le(data, 56)?;
        let total_claimed = read_u64_le(data, 64)?;
        let total_cashback_earned = read_u64_le(data, 72)?;
        let e = ClaimCashbackEvent { user, amount, timestamp, total_claimed, total_cashback_earned };
        proof {
            lemma_le_roundtrips();
            assert(e.spec_body() =~= data@.subrange(16, 80));
        }
        Some(e)
    }
}

} // verus!
