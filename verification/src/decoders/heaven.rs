//! Heaven program: the standard liquidity pool creation event and the
//! trade event.

use vstd::prelude::*;
use vstd::bytes::*;

use crate::account_meta::{AccountMeta, key_at};
use crate::codec::{
    has_prefix, read_pubkey, read_u16_le, read_u64_le, starts_with, lemma_le_roundtrips,
};
use crate::keys::{Pubkey, lemma_pubkey_view_injective, zeros};

verus! {

/// Discriminator of the standard liquidity pool creation event.
pub const CREATE_STANDARD_LIQUIDITY_POOL_EVENT_DISCRIMINATOR: [u8; 16] = [0xe4, 0x45, 0xa5, 0x2e, 0x51, 0xcb, 0x9a, 0x1d, 0xbd, 0x38, 0x83, 0x90, 0x4b, 0x3f, 0xf9, 0x94];

/// Discriminator of the trade event.
pub const TRADE_EVENT_DISCRIMINATOR: [u8; 16] = [0xe4, 0x45, 0xa5, 0x2e, 0x51, 0xcb, 0x9a, 0x1d, 0xbd, 0xdb, 0x7f, 0xd3, 0x4e, 0xe6, 0x61, 0xee];

/// The event emitted when a standard liquidity pool is created.
#[derive(Debug, PartialEq, Eq, Clone, Hash)]
pub struct CreateStandardLiquidityPoolEvent {
    pub pool_id: Pubkey,
    pub payer: Pubkey,
    pub creator: Pubkey,
    pub mint: Pubkey,
    pub config_version: u16,
    pub initial_token_reserve: u64,
    pub initial_virtual_wsol_reserve: u64,
}

/// The accounts that accompany a pool creation event, by role.
#[derive(Debug, PartialEq, Eq, Clone, Hash)]
pub struct CreateStandardLiquidityPoolEventInstructionAccounts {
    pub liquidity_pool_state: Pubkey,
    pub payer: Pubkey,
    pub creator: Pubkey,
    pub mint: Pubkey,
    pub protocol_config: Pubkey,
}

impl CreateStandardLiquidityPoolEvent {
    /// The discriminator as a byte sequence.
    pub open spec fn spec_discriminator() -> Seq<u8> {
        seq![0xe4u8, 0x45u8, 0xa5u8, 0x2eu8, 0x51u8, 0xcbu8, 0x9au8, 0x1du8, 0xbdu8, 0x38u8, 0x83u8, 0x90u8, 0x4bu8, 0x3fu8, 0xf9u8, 0x94u8]
    }

    /// The borsh layout of the fields, in declaration order.
    pub open spec fn spec_body(self) -> Seq<u8> {
        self.pool_id@ + self.payer@ + self.creator@ + self.mint@ + spec_u16_to_le_bytes(
            self.config_version,
        ) + spec_u64_to_le_bytes(self.initial_token_reserve) + spec_u64_to_le_bytes(
            self.initial_virtual_wsol_reserve,
        )
    }

    /// The field layout is 146 bytes long and tells every event apart.
    pub proof fn lemma_body_injective(
        a: CreateStandardLiquidityPoolEvent,
        b: CreateStandardLiquidityPoolEvent,
    )
        ensures
            a.spec_body().len() == 146,
            a.spec_body() == b.spec_body() ==> a == b,
    {
        lemma_le_roundtrips();
        if a.spec_body() == b.spec_body() {
            let sa = a.spec_body();
            let sb = b.spec_body();
            assert(sa.subrange(0, 32) =~= a.pool_id@);
            assert(sb.subrange(0, 32) =~= b.pool_id@);
            assert(sa.subrange(32, 64) =~= a.payer@);
            assert(sb.subrange(32, 64) =~= b.payer@);
            assert(sa.subrange(64, 96) =~= a.creator@);
            assert(sb.subrange(64, 96) =~= b.creator@);
            assert(sa.subrange(96, 128) =~= a.mint@);
            assert(sb.subrange(96, 128) =~= b.mint@);
            assert(sa.subrange(128, 130) =~= spec_u16_to_le_bytes(a.config_version));
            assert(sb.subrange(128, 130) =~= spec_u16_to_le_bytes(b.config_version));
            assert(sa.subrange(130, 138) =~= spec_u64_to_le_bytes(a.initial_token_reserve));
            assert(sb.subrange(130, 138) =~= spec_u64_to_le_bytes(b.initial_token_reserve));
            assert(sa.subrange(138, 146) =~= spec_u64_to_le_bytes(a.initial_virtual_wsol_reserve));
            assert(sb.subrange(138, 146) =~= spec_u64_to_le_bytes(b.initial_virtual_wsol_reserve));
            lemma_pubkey_view_injective(a.pool_id, b.pool_id);
            lemma_pubkey_view_injective(a.payer, b.payer);
            lemma_pubkey_view_injective(a.creator, b.creator);
            lemma_pubkey_view_injective(a.mint, b.mint);
        }
    }

    /// Decodes the event: `Some` exactly when the data starts with the
    /// discriminator and holds the 146 bytes of the fields after it; the
    /// decoded event is the one whose layout those bytes are. Trailing bytes
    /// are ignored.
    pub fn deserialize(data: &[u8]) -> (r: Option<CreateStandardLiquidityPoolEvent>)
        ensures
            r is Some <==> starts_with(
                data@,
                seq![0xe4u8, 0x45u8, 0xa5u8, 0x2eu8, 0x51u8, 0xcbu8, 0x9au8, 0x1du8, 0xbdu8, 0x38u8, 0x83u8, 0x90u8, 0x4bu8, 0x3fu8, 0xf9u8, 0x94u8],
            ) && data@.len() >= 162,
            r matches Some(x) ==> x.spec_body() == data@.subrange(16, 162),
    {
        assert(CREATE_STANDARD_LIQUIDITY_POOL_EVENT_DISCRIMINATOR@ == Self::spec_discriminator());
        if !has_prefix(data, CREATE_STANDARD_LIQUIDITY_POOL_EVENT_DISCRIMINATOR.as_slice()) {
            return None;
        }
        let pool_id = read_pubkey(data, 16)?;
        let payer = read_pubkey(data, 48)?;
        let creator = read_pubkey(data, 80)?;
        let mint = read_pubkey(data, 112)?;
        let config_version = read_u16_le(data, 144)?;
        let initial_token_reserve = read_u64_le(data, 146)?;
        let initial_virtual_wsol_reserve = read_u64_le(data, 154)?;
        let x = CreateStandardLiquidityPoolEvent {
            pool_id,
            payer,
            creator,
            mint,
            config_version,
            initial_token_reserve,
            initial_virtual_wsol_reserve,
        };
        proof {
            lemma_le_roundtrips();
            assert(x.spec_body() =~= data@.subrange(16, 162));
        }
        Some(x)
    }

    /// The accounts by role, read from the first 5 accounts.
    pub open spec fn spec_arrange_accounts(accounts: Seq<AccountMeta>) -> Option<CreateStandardLiquidityPoolEventInstructionAccounts> {
        if accounts.len() >= 5 {
            Some(
                CreateStandardLiquidityPoolEventInstructionAccounts {
                    liquidity_pool_state: key_at(accounts, 0),
                    payer: key_at(accounts, 1),
                    creator: key_at(accounts, 2),
                    mint: key_at(accounts, 3),
                    protocol_config: key_at(accounts, 4),
                },
            )
        } else {
            None
        }
    }

    /// Assigns the instruction's accounts to their roles in order; `None`
    /// when fewer than 5 accounts are given. Accounts past the first 5
    /// are ignored.
    pub fn arrange_accounts(accounts: &[AccountMeta]) -> (r: Option<CreateStandardLiquidityPoolEventInstructionAccounts>)
        ensures
            r == Self::spec_arrange_accounts(accounts@),
            accounts@.len() < 5 ==> r is None,
            accounts@.len() >= 5 ==> (r matches Some(a) && a.liquidity_pool_state == accounts@[0].pubkey && a.payer == accounts@[1].pubkey && a.creator == accounts@[2].pubkey && a.mint == accounts@[3].pubkey && a.protocol_config == accounts@[4].pubkey),
    {
        if accounts.len() < 5 {
            return None;
        }
        Some(
            CreateStandardLiquidityPoolEventInstructionAccounts {
                liquidity_pool_state: accounts[0].pubkey,
                payer: accounts[1].pubkey,
                creator: accounts[2].pubkey,
                mint: accounts[3].pubkey,
                protocol_config: accounts[4].pubkey,
            },
        )
    }

    /// Accounts past the first 5 play no part in the arrangement.
    pub proof fn lemma_arrange_ignores_trailing(accounts: Seq<AccountMeta>, more: Seq<AccountMeta>)
        requires
            accounts.len() >= 5,
        ensures
            Self::spec_arrange_accounts(accounts + more) == Self::spec_arrange_accounts(accounts),
    {
        let all = accounts + more;
        assert forall|i: int| 0 <= i < 5 implies key_at(all, i) == key_at(accounts, i) by {}
    }

    /// The arrangement is positional and reads only the accounts' addresses:
    /// two account lists with the same addresses in the same positions are
    /// arranged alike, whatever their signer and writable flags; and each
    /// role is the address at its own position.
    pub proof fn lemma_arrange_reads_only_keys(a: Seq<AccountMeta>, b: Seq<AccountMeta>)
        requires
            a.len() == b.len(),
            forall|i: int| 0 <= i < a.len() ==> #[trigger] a[i].pubkey == b[i].pubkey,
        ensures
            Self::spec_arrange_accounts(a) == Self::spec_arrange_accounts(b),
            a.len() >= 5 ==> (Self::spec_arrange_accounts(a) matches Some(x) && x.liquidity_pool_state == a[0].pubkey && x.payer == a[1].pubkey && x.creator == a[2].pubkey && x.mint == a[3].pubkey && x.protocol_config == a[4].pubkey),
            a.len() < 5 ==> Self::spec_arrange_accounts(a) is None,
    {
        assert forall|i: int| 0 <= i < a.len() implies key_at(a, i) == key_at(b, i) by {
            assert(a[i].pubkey == b[i].pubkey);
        }
    }
}

/// The event emitted after a trade, with the pool's reserves and fee totals.
#[derive(Debug, PartialEq, Eq, Clone, Hash)]
pub struct TradeEvent {
    pub base_reserve: u64,
    pub quote_reserve: u64,
    pub total_creator_trading_fees: u64,
    pub total_fee_paid: u64,
}

/// The accounts that accompany a trade event. Only the pool state travels
/// with the event; the user and the protocol config are left as the
/// all-zero address.
pub struct TradeEventInstructionAccounts {
    pub liquidity_pool_state: Pubkey,
    pub user: Pubkey,
    pub protocol_config: Pubkey,
}

impl TradeEvent {
    /// The discriminator as a byte sequence.
    pub open spec fn spec_discriminator() -> Seq<u8> {
        seq![0xe4u8, 0x45u8, 0xa5u8, 0x2eu8, 0x51u8, 0xcbu8, 0x9au8, 0x1du8, 0xbdu8, 0xdbu8, 0x7fu8, 0xd3u8, 0x4eu8, 0xe6u8, 0x61u8, 0xeeu8]
    }

    /// The borsh layout of the fields, in declaration order.
    pub open spec fn spec_body(self) -> Seq<u8> {
        spec_u64_to_le_bytes(self.base_reserve) + spec_u64_to_le_bytes(self.quote_reserve)
            + spec_u64_to_le_bytes(self.total_creator_trading_fees) + spec_u64_to_le_bytes(
            self.total_fee_paid,
        )
    }

    /// The field layout is 32 bytes long and tells every event apart.
    pub proof fn lemma_body_injective(a: TradeEvent, b: TradeEvent)
        ensures
            a.spec_body().len() == 32,
            a.spec_body() == b.spec_body() ==> a == b,
    {
        lemma_le_roundtrips();
        if a.spec_body() == b.spec_body() {
            let sa = a.spec_body();
            let sb = b.spec_body();
            assert(sa.subrange(0, 8) =~= spec_u64_to_le_bytes(a.base_reserve));
            assert(sb.subrange(0, 8) =~= spec_u64_to_le_bytes(b.base_reserve));
            assert(sa.subrange(8, 16) =~= spec_u64_to_le_bytes(a.quote_reserve));
            assert(sb.subrange(8, 16) =~= spec_u64_to_le_bytes(b.quote_reserve));
            assert(sa.subrange(16, 24) =~= spec_u64_to_le_bytes(a.total_creator_trading_fees));
            assert(sb.subrange(16, 24) =~= spec_u64_to_le_bytes(b.total_creator_trading_fees));
            assert(sa.subrange(24, 32) =~= spec_u64_to_le_bytes(a.total_fee_paid));
            assert(sb.subrange(24, 32) =~= spec_u64_to_le_bytes(b.total_fee_paid));
        }
    }

    /// Decodes the event: `Some` exactly when the data starts with the
    /// discriminator and holds the 32 bytes of the fields after it; the
    /// decoded event is the one whose layout those bytes are. Trailing bytes
    /// are ignored.
    pub fn deserialize(data: &[u8]) -> (r: Option<TradeEvent>)
        ensures
            r is Some <==> starts_with(
                data@,
                seq![0xe4u8, 0x45u8, 0xa5u8, 0x2eu8, 0x51u8, 0xcbu8, 0x9au8, 0x1du8, 0xbdu8, 0xdbu8, 0x7fu8, 0xd3u8, 0x4eu8, 0xe6u8, 0x61u8, 0xeeu8],
            ) && data@.len() >= 48,
            r matches Some(x) ==> x.spec_body() == data@.subrange(16, 48),
    {
        assert(TRADE_EVENT_DISCRIMINATOR@ == Self::spec_discriminator());
        if !has_prefix(data, TRADE_EVENT_DISCRIMINATOR.as_slice()) {
            return None;
        }
        let base_reserve = read_u64_le(data, 16)?;
        let quote_reserve = read_u64_le(data, 24)?;
        let total_creator_trading_fees = read_u64_le(data, 32)?;
        let total_fee_paid = read_u64_le(data, 40)?;
        let x = TradeEvent { base_reserve, quote_reserve, total_creator_trading_fees, total_fee_paid };
        proof {
            lemma_le_roundtrips();
            assert(x.spec_body() =~= data@.subrange(16, 48));
        }
        Some(x)
    }

    /// Assigns the accounts of a trade event: `None` when no account is
    /// given; otherwise the pool state is the first account and the user and
    /// protocol config are the all-zero address.
    pub fn arrange_accounts(accounts: &[AccountMeta]) -> (r: Option<TradeEventInstructionAccounts>)
        ensures
            accounts@.len() == 0 ==> r is None,
            accounts@.len() > 0 ==> (r matches Some(a) && a.liquidity_pool_state == key_at(
                accounts@,
                0,
            ) && a.user@ == zeros(32) && a.protocol_config@ == zeros(32)),
    {
        if accounts.len() == 0 {
            return None;
        }
        Some(
            TradeEventInstructionAccounts {
                liquidity_pool_state: accounts[0].pubkey,
                user: Pubkey::default(),
                protocol_config: Pubkey::default(),
            },
        )
    }
}

} // verus!
