//! Dynamic bonding curve program: pool creator transfer, creator fee
//! claims, config creation, swaps, leftover withdrawal, and the pool
//! creator update event.

use vstd::prelude::*;
use vstd::bytes::*;

use crate::account_meta::{AccountMeta, key_at};
use crate::codec::{
    after_prefix, has_prefix, read_pubkey, read_u64_le, starts_with, lemma_le_roundtrips,
};
use vstd::slice::slice_subrange;
use crate::keys::{Pubkey, lemma_pubkey_view_injective};

verus! {

/// Discriminator of the pool creator transfer instruction.
pub const TRANSFER_POOL_CREATOR_DISCRIMINATOR: [u8; 8] = [0x14, 0x07, 0xa9, 0x21, 0x3a, 0x93, 0xa6, 0x21];

/// Discriminator of the creator trading fee claim instruction.
pub const CLAIM_CREATOR_TRADING_FEE_DISCRIMINATOR: [u8; 8] = [0x52, 0xdc, 0xfa, 0xbd, 0x03, 0x55, 0x6b, 0x2d];

/// Discriminator of the config creation instruction.
pub const CREATE_CONFIG_DISCRIMINATOR: [u8; 8] = [0xc9, 0xcf, 0xf3, 0x72, 0x4b, 0x6f, 0x2f, 0xbd];

/// Discriminator of the second swap instruction.
pub const SWAP2_DISCRIMINATOR: [u8; 8] = [0x41, 0x4b, 0x3f, 0x4c, 0xeb, 0x5b, 0x5b, 0x88];

/// Discriminator of the leftover withdrawal instruction.
pub const WITHDRAW_LEFTOVER_DISCRIMINATOR: [u8; 8] = [0x14, 0xc6, 0xca, 0xed, 0xeb, 0xf3, 0xb7, 0x42];

/// The instruction that hands a pool over to a new creator; it carries no
/// arguments.
#[derive(Debug, PartialEq, Eq, Clone, Hash)]
pub struct TransferPoolCreator {}

/// The accounts of a pool creator transfer, by role.
#[derive(Debug, PartialEq, Eq, Clone, Hash)]
pub struct TransferPoolCreatorInstructionAccounts {
    pub virtual_pool: Pubkey,
    pub config: Pubkey,
    pub creator: Pubkey,
    pub new_creator: Pubkey,
    pub event_authority: Pubkey,
    pub program: Pubkey,
}

impl TransferPoolCreator {
    /// The discriminator as a byte sequence.
    pub open spec fn spec_discriminator() -> Seq<u8> {
        seq![0x14u8, 0x07u8, 0xa9u8, 0x21u8, 0x3au8, 0x93u8, 0xa6u8, 0x21u8]
    }

    /// What the decoder accepts: the discriminator, then nothing required.
    pub open spec fn spec_deserialize(data: Seq<u8>) -> Option<TransferPoolCreator> {
        if starts_with(data, Self::spec_discriminator()) {
            Some(TransferPoolCreator {  })
        } else {
            None
        }
    }

    /// Data decodes as this instruction exactly when its first 8 bytes are
    /// the instruction's discriminator; nothing else about the data matters.
    pub proof fn lemma_decodes_exactly_its_discriminator(data: Seq<u8>)
        ensures
            Self::spec_deserialize(data) is Some <==> (data.len() >= 8 && data[0] == 0x14u8 && data[1] == 0x07u8 && data[2] == 0xa9u8 && data[3] == 0x21u8 && data[4] == 0x3au8 && data[5] == 0x93u8 && data[6] == 0xa6u8 && data[7] == 0x21u8),
    {
        if data.len() >= 8 && data[0] == 0x14u8 && data[1] == 0x07u8 && data[2] == 0xa9u8 && data[3] == 0x21u8 && data[4] == 0x3au8 && data[5] == 0x93u8 && data[6] == 0xa6u8 && data[7] == 0x21u8 {
            assert(data.take(8) =~= Self::spec_discriminator());
        }
        if Self::spec_deserialize(data) is Some {
            assert forall|k: int| 0 <= k < 8 implies data[k] == Self::spec_discriminator()[k] by {
                assert(data.take(8)[k] == data[k]);
            }
        }
    }

    /// Decodes the instruction from its data: `Some` exactly when the data
    /// starts with the discriminator; trailing bytes are ignored.
    pub fn deserialize(data: &[u8]) -> (r: Option<TransferPoolCreator>)
        ensures
            r == Self::spec_deserialize(data@),
            r is Some <==> starts_with(data@, seq![0x14u8, 0x07u8, 0xa9u8, 0x21u8, 0x3au8, 0x93u8, 0xa6u8, 0x21u8]),
    {
        assert(TRANSFER_POOL_CREATOR_DISCRIMINATOR@ == Self::spec_discriminator());
        if has_prefix(data, TRANSFER_POOL_CREATOR_DISCRIMINATOR.as_slice()) {
            Some(TransferPoolCreator {  })
        } else {
            None
        }
    }

    /// The accounts by role, read from the first 6 accounts.
    pub open spec fn spec_arrange_accounts(accounts: Seq<AccountMeta>) -> Option<TransferPoolCreatorInstructionAccounts> {
        if accounts.len() >= 6 {
            Some(
                TransferPoolCreatorInstructionAccounts {
                    virtual_pool: key_at(accounts, 0),
                    config: key_at(accounts, 1),
                    creator: key_at(accounts, 2),
                    new_creator: key_at(accounts, 3),
                    event_authority: key_at(accounts, 4),
                    program: key_at(accounts, 5),
                },
            )
        } else {
            None
        }
    }

    /// Assigns the instruction's accounts to their roles in order; `None`
    /// when fewer than 6 accounts are given. Accounts past the first 6
    /// are ignored.
    pub fn arrange_accounts(accounts: &[AccountMeta]) -> (r: Option<TransferPoolCreatorInstructionAccounts>)
        ensures
            r == Self::spec_arrange_accounts(accounts@),
            accounts@.len() < 6 ==> r is None,
            accounts@.len() >= 6 ==> (r matches Some(a) && a.virtual_pool == accounts@[0].pubkey && a.config == accounts@[1].pubkey && a.creator == accounts@[2].pubkey && a.new_creator == accounts@[3].pubkey && a.event_authority == accounts@[4].pubkey && a.program == accounts@[5].pubkey),
    {
        if accounts.len() < 6 {
            return None;
        }
        Some(
            TransferPoolCreatorInstructionAccounts {
                virtual_pool: accounts[0].pubkey,
                config: accounts[1].pubkey,
                creator: accounts[2].pubkey,
                new_creator: accounts[3].pubkey,
                event_authority: accounts[4].pubkey,
                program: accounts[5].pubkey,
            },
        )
    }

    /// Accounts past the first 6 play no part in the arrangement.
    pub proof fn lemma_arrange_ignores_trailing(accounts: Seq<AccountMeta>, more: Seq<AccountMeta>)
        requires
            accounts.len() >= 6,
        ensures
            Self::spec_arrange_accounts(accounts + more) == Self::spec_arrange_accounts(accounts),
    {
        let all = accounts + more;
        assert forall|i: int| 0 <= i < 6 implies key_at(all, i) == key_at(accounts, i) by {}
    }

    /// The arrangement is positional and reads only the accounts' addresses:
    /// two account lists with the same addresses in the same positions are
    /// arranged alike, whatever their signer and writable flags; and each
    /// role is the address at its own position.
    pub proof fn lemma_arrange_reads_only_keys(a: Seq<AccountMeta>, b: Seq<AccountMeta>)
        requires
            a.len() == b.len(),
            forall|i: int| 0 <= i < a.len() ==> #[trigger] a[i].pubkey == b[i].pubkey,
        ensures
            Self::spec_arrange_accounts(a) == Self::spec_arrange_accounts(b),
            a.len() >= 6 ==> (Self::spec_arrange_accounts(a) matches Some(x) && x.virtual_pool == a[0].pubkey && x.config == a[1].pubkey && x.creator == a[2].pubkey && x.new_creator == a[3].pubkey && x.event_authority == a[4].pubkey && x.program == a[5].pubkey),
            a.len() < 6 ==> Self::spec_arrange_accounts(a) is None,
    {
        assert forall|i: int| 0 <= i < a.len() implies key_at(a, i) == key_at(b, i) by {
            assert(a[i].pubkey == b[i].pubkey);
        }
    }
}

/// The instruction by which a pool creator claims trading fees, up to the
/// given amounts of base and quote tokens.
#[derive(Debug, PartialEq, Eq, Clone, Hash)]
pub struct ClaimCreatorTradingFee {
    pub max_base_amount: u64,
    pub max_quote_amount: u64,
}

/// The accounts of a creator trading fee claim, by role.
#[derive(Debug, PartialEq, Eq, Clone, Hash)]
pub struct ClaimCreatorTradingFeeInstructionAccounts {
    pub pool_authority: Pubkey,
    pub pool: Pubkey,
    pub token_a_account: Pubkey,
    pub token_b_account: Pubkey,
    pub base_vault: Pubkey,
    pub quote_vault: Pubkey,
    pub base_mint: Pubkey,
    pub quote_mint: Pubkey,
    pub creator: Pubkey,
    pub token_base_program: Pubkey,
    pub token_quote_program: Pubkey,
    pub event_authority: Pubkey,
    pub program: Pubkey,
}

impl ClaimCreatorTradingFee {
    /// The discriminator as a byte sequence.
    pub open spec fn spec_discriminator() -> Seq<u8> {
        seq![0x52u8, 0xdcu8, 0xfau8, 0xbdu8, 0x03u8, 0x55u8, 0x6bu8, 0x2du8]
    }

    /// The borsh layout of the arguments, in declaration order.
    pub open spec fn spec_body(self) -> Seq<u8> {
        spec_u64_to_le_bytes(self.max_base_amount) + spec_u64_to_le_bytes(self.max_quote_amount)
    }

    /// The argument layout is 16 bytes long and tells every instruction apart.
    pub proof fn lemma_body_injective(a: ClaimCreatorTradingFee, b: ClaimCreatorTradingFee)
        ensures
            a.spec_body().len() == 16,
            a.spec_body() == b.spec_body() ==> a == b,
    {
        lemma_le_roundtrips();
        if a.spec_body() == b.spec_body() {
            let sa = a.spec_body();
            let sb = b.spec_body();
            assert(sa.subrange(0, 8) =~= spec_u64_to_le_bytes(a.max_base_amount));
            assert(sb.subrange(0, 8) =~= spec_u64_to_le_bytes(b.max_base_amount));
            assert(sa.subrange(8, 16) =~= spec_u64_to_le_bytes(a.max_quote_amount));
            assert(sb.subrange(8, 16) =~= spec_u64_to_le_bytes(b.max_quote_amount));
        }
    }

    /// Decodes the instruction: `Some` exactly when the data starts with the
    /// discriminator and holds the 16 bytes of the arguments after it; the
    /// decoded instruction is the one whose layout those bytes are. Trailing
    /// bytes are ignored.
    pub fn deserialize(data: &[u8]) -> (r: Option<ClaimCreatorTradingFee>)
        ensures
            r is Some <==> starts_with(
                data@,
                seq![0x52u8, 0xdcu8, 0xfau8, 0xbdu8, 0x03u8, 0x55u8, 0x6bu8, 0x2du8],
            ) && data@.len() >= 24,
            r matches Some(x) ==> x.spec_body() == data@.subrange(8, 24),
    {
        assert(CLAIM_CREATOR_TRADING_FEE_DISCRIMINATOR@ == Self::spec_discriminator());
        if !has_prefix(data, CLAIM_CREATOR_TRADING_FEE_DISCRIMINATOR.as_slice()) {
            return None;
        }
        let max_base_amount = read_u64_le(data, 8)?;
        let max_quote_amount = read_u64_le(data, 16)?;
        let x = ClaimCreatorTradingFee { max_base_amount, max_quote_amount };
        proof {
            lemma_le_roundtrips();
            assert(x.spec_body() =~= data@.subrange(8, 24));
        }
        Some(x)
    }

    /// The accounts by role, read from the first 13 accounts.
    pub open spec fn spec_arrange_accounts(accounts: Seq<AccountMeta>) -> Option<ClaimCreatorTradingFeeInstructionAccounts> {
        if accounts.len() >= 13 {
            Some(
                ClaimCreatorTradingFeeInstructionAccounts {
                    pool_authority: key_at(accounts, 0),
                    pool: key_at(accounts, 1),
                    token_a_account: key_at(accounts, 2),
                    token_b_account: key_at(accounts, 3),
                    base_vault: key_at(accounts, 4),
                    quote_vault: key_at(accounts, 5),
                    base_mint: key_at(accounts, 6),
                    quote_mint: key_at(accounts, 7),
                    creator: key_at(accounts, 8),
                    token_base_program: key_at(accounts, 9),
                    token_quote_program: key_at(accounts, 10),
                    event_authority: key_at(accounts, 11),
                    program: key_at(accounts, 12),
                },
            )
        } else {
            None
        }
    }

    /// Assigns the instruction's accounts to their roles in order; `None`
    /// when fewer than 13 accounts are given. Accounts past the first 13
    /// are ignored.
    pub fn arrange_accounts(accounts: &[AccountMeta]) -> (r: Option<ClaimCreatorTradingFeeInstructionAccounts>)
        ensures
            r == Self::spec_arrange_accounts(accounts@),
            accounts@.len() < 13 ==> r is None,
            accounts@.len() >= 13 ==> (r matches Some(a) && a.pool_authority == accounts@[0].pubkey && a.pool == accounts@[1].pubkey && a.token_a_account == accounts@[2].pubkey && a.token_b_account == accounts@[3].pubkey && a.base_vault == accounts@[4].pubkey && a.quote_vault == accounts@[5].pubkey && a.base_mint == accounts@[6].pubkey && a.quote_mint == accounts@[7].pubkey && a.creator == accounts@[8].pubkey && a.token_base_program == accounts@[9].pubkey && a.token_quote_program == accounts@[10].pubkey && a.event_authority == accounts@[11].pubkey && a.program == accounts@[12].pubkey),
    {
        if accounts.len() < 13 {
            return None;
        }
        Some(
            ClaimCreatorTradingFeeInstructionAccounts {
                pool_authority: accounts[0].pubkey,
                pool: accounts[1].pubkey,
                token_a_account: accounts[2].pubkey,
                token_b_account: accounts[3].pubkey,
                base_vault: accounts[4].pubkey,
                quote_vault: accounts[5].pubkey,
                base_mint: accounts[6].pubkey,
                quote_mint: accounts[7].pubkey,
                creator: accounts[8].pubkey,
                token_base_program: accounts[9].pubkey,
                token_quote_program: accounts[10].pubkey,
                event_authority: accounts[11].pubkey,
                program: accounts[12].pubkey,
            },
        )
    }

    /// Accounts past the first 13 play no part in the arrangement.
    pub proof fn lemma_arrange_ignores_trailing(accounts: Seq<AccountMeta>, more: Seq<AccountMeta>)
        requires
            accounts.len() >= 13,
        ensures
            Self::spec_arrange_accounts(accounts + more) == Self::spec_arrange_accounts(accounts),
    {
        let all = accounts + more;
        assert forall|i: int| 0 <= i < 13 implies key_at(all, i) == key_at(accounts, i) by {}
    }

    /// The arrangement is positional and reads only the accounts' addresses:
    /// two account lists with the same addresses in the same positions are
    /// arranged alike, whatever their signer and writable flags; and each
    /// role is the address at its own position.
    pub proof fn lemma_arrange_reads_only_keys(a: Seq<AccountMeta>, b: Seq<AccountMeta>)
        requires
            a.len() == b.len(),
            forall|i: int| 0 <= i < a.len() ==> #[trigger] a[i].pubkey == b[i].pubkey,
        ensures
            Self::spec_arrange_accounts(a) == Self::spec_arrange_accounts(b),
            a.len() >= 13 ==> (Self::spec_arrange_accounts(a) matches Some(x) && x.pool_authority == a[0].pubkey && x.pool == a[1].pubkey && x.token_a_account == a[2].pubkey && x.token_b_account == a[3].pubkey && x.base_vault == a[4].pubkey && x.quote_vault == a[5].pubkey && x.base_mint == a[6].pubkey && x.quote_mint == a[7].pubkey && x.creator == a[8].pubkey && x.token_base_program == a[9].pubkey && x.token_quote_program == a[10].pubkey && x.event_authority == a[11].pubkey && x.program == a[12].pubkey),
            a.len() < 13 ==> Self::spec_arrange_accounts(a) is None,
    {
        assert forall|i: int| 0 <= i < a.len() implies key_at(a, i) == key_at(b, i) by {
            assert(a[i].pubkey == b[i].pubkey);
        }
    }
}

/// The instruction that creates a pool configuration. The layout of its
/// parameters is defined with the program's other types; this type holds
/// them as given.
#[derive(Debug, PartialEq, Eq, Clone, Hash)]
pub struct CreateConfig<ConfigParameters> {
    pub config_parameters: ConfigParameters,
}

/// The accounts of a config creation, by role.
#[derive(Debug, PartialEq, Eq, Clone, Hash)]
pub struct CreateConfigInstructionAccounts {
    pub config: Pubkey,
    pub fee_claimer: Pubkey,
    pub leftover_receiver: Pubkey,
    pub quote_mint: Pubkey,
    pub payer: Pubkey,
    pub system_program: Pubkey,
    pub event_authority: Pubkey,
    pub program: Pubkey,
}

impl<'a> CreateConfig<&'a [u8]> {
    /// The discriminator as a byte sequence.
    pub open spec fn spec_discriminator() -> Seq<u8> {
        seq![0xc9u8, 0xcfu8, 0xf3u8, 0x72u8, 0x4bu8, 0x6fu8, 0x2fu8, 0xbdu8]
    }

    /// Checks the discriminator and hands back the instruction with its
    /// parameters still encoded: `Some` exactly when the data starts with the
    /// discriminator, and the parameters are all the bytes after it.
    pub fn deserialize_raw(data: &'a [u8]) -> (r: Option<CreateConfig<&'a [u8]>>)
        ensures
            r is Some <==> starts_with(
                data@,
                seq![0xc9u8, 0xcfu8, 0xf3u8, 0x72u8, 0x4bu8, 0x6fu8, 0x2fu8, 0xbdu8],
            ),
            r matches Some(c) ==> c.config_parameters@ == data@.skip(8),
    {
        assert(CREATE_CONFIG_DISCRIMINATOR@ == Self::spec_discriminator());
        let rest = after_prefix(data, CREATE_CONFIG_DISCRIMINATOR.as_slice())?;
        Some(CreateConfig { config_parameters: rest })
    }
}

impl<ConfigParameters> CreateConfig<ConfigParameters> {

    /// The accounts by role, read from the first 8 accounts.
    pub open spec fn spec_arrange_accounts(accounts: Seq<AccountMeta>) -> Option<CreateConfigInstructionAccounts> {
        if accounts.len() >= 8 {
            Some(
                CreateConfigInstructionAccounts {
                    config: key_at(accounts, 0),
                    fee_claimer: key_at(accounts, 1),
                    leftover_receiver: key_at(accounts, 2),
                    quote_mint: key_at(accounts, 3),
                    payer: key_at(accounts, 4),
                    system_program: key_at(accounts, 5),
                    event_authority: key_at(accounts, 6),
                    program: key_at(accounts, 7),
                },
            )
        } else {
            None
        }
    }

    /// Assigns the instruction's accounts to their roles in order; `None`
    /// when fewer than 8 accounts are given. Accounts past the first 8
    /// are ignored.
    pub fn arrange_accounts(accounts: &[AccountMeta]) -> (r: Option<CreateConfigInstructionAccounts>)
        ensures
            r == Self::spec_arrange_accounts(accounts@),
            accounts@.len() < 8 ==> r is None,
            accounts@.len() >= 8 ==> (r matches Some(a) && a.config == accounts@[0].pubkey && a.fee_claimer == accounts@[1].pubkey && a.leftover_receiver == accounts@[2].pubkey && a.quote_mint == accounts@[3].pubkey && a.payer == accounts@[4].pubkey && a.system_program == accounts@[5].pubkey && a.event_authority == accounts@[6].pubkey && a.program == accounts@[7].pubkey),
    {
        if accounts.len() < 8 {
            return None;
        }
        Some(
            CreateConfigInstructionAccounts {
                config: accounts[0].pubkey,
                fee_claimer: accounts[1].pubkey,
                leftover_receiver: accounts[2].pubkey,
                quote_mint: accounts[3].pubkey,
                payer: accounts[4].pubkey,
                system_program: accounts[5].pubkey,
                event_authority: accounts[6].pubkey,
                program: accounts[7].pubkey,
            },
        )
    }

    /// Accounts past the first 8 play no part in the arrangement.
    pub proof fn lemma_arrange_ignores_trailing(accounts: Seq<AccountMeta>, more: Seq<AccountMeta>)
        requires
            accounts.len() >= 8,
        ensures
            Self::spec_arrange_accounts(accounts + more) == Self::spec_arrange_accounts(accounts),
    {
        let all = accounts + more;
        assert forall|i: int| 0 <= i < 8 implies key_at(all, i) == key_at(accounts, i) by {}
    }

    /// The arrangement is positional and reads only the accounts' addresses:
    /// two account lists with the same addresses in the same positions are
    /// arranged alike, whatever their signer and writable flags; and each
    /// role is the address at its own position.
    pub proof fn lemma_arrange_reads_only_keys(a: Seq<AccountMeta>, b: Seq<AccountMeta>)
        requires
            a.len() == b.len(),
            forall|i: int| 0 <= i < a.len() ==> #[trigger] a[i].pubkey == b[i].pubkey,
        ensures
            Self::spec_arrange_accounts(a) == Self::spec_arrange_accounts(b),
            a.len() >= 8 ==> (Self::spec_arrange_accounts(a) matches Some(x) && x.config == a[0].pubkey && x.fee_claimer == a[1].pubkey && x.leftover_receiver == a[2].pubkey && x.quote_mint == a[3].pubkey && x.payer == a[4].pubkey && x.system_program == a[5].pubkey && x.event_authority == a[6].pubkey && x.program == a[7].pubkey),
            a.len() < 8 ==> Self::spec_arrange_accounts(a) is None,
    {
        assert forall|i: int| 0 <= i < a.len() implies key_at(a, i) == key_at(b, i) by {
            assert(a[i].pubkey == b[i].pubkey);
        }
    }
}

/// The second swap instruction. The layout of its parameters is defined
/// with the program's other types; this type holds them as given.
#[derive(Debug, PartialEq, Eq, Clone, Hash)]
pub struct Swap2<SwapParameters2> {
    pub params: SwapParameters2,
}

/// The accounts of a swap, by role.
#[derive(Debug, PartialEq, Eq, Clone, Hash)]
pub struct Swap2InstructionAccounts {
    pub pool_authority: Pubkey,
    pub config: Pubkey,
    pub pool: Pubkey,
    pub input_token_account: Pubkey,
    pub output_token_account: Pubkey,
    pub base_vault: Pubkey,
    pub quote_vault: Pubkey,
    pub base_mint: Pubkey,
    pub quote_mint: Pubkey,
    pub payer: Pubkey,
    pub token_base_program: Pubkey,
    pub token_quote_program: Pubkey,
    pub referral_token_account: Pubkey,
    pub event_authority: Pubkey,
    pub program: Pubkey,
}

impl<'a> Swap2<&'a [u8]> {
    /// The discriminator as a byte sequence.
    pub open spec fn spec_discriminator() -> Seq<u8> {
        seq![0x41u8, 0x4bu8, 0x3fu8, 0x4cu8, 0xebu8, 0x5bu8, 0x5bu8, 0x88u8]
    }

    /// Checks the discriminator and hands back the instruction with its
    /// parameters still encoded: `Some` exactly when the data starts with the
    /// discriminator, and the parameters are all the bytes after it.
    pub fn deserialize_raw(data: &'a [u8]) -> (r: Option<Swap2<&'a [u8]>>)
        ensures
            r is Some <==> starts_with(
                data@,
                seq![0x41u8, 0x4bu8, 0x3fu8, 0x4cu8, 0xebu8, 0x5bu8, 0x5bu8, 0x88u8],
            ),
            r matches Some(x) ==> x.params@ == data@.skip(8),
    {
        assert(SWAP2_DISCRIMINATOR@ == Self::spec_discriminator());
        let rest = after_prefix(data, SWAP2_DISCRIMINATOR.as_slice())?;
        Some(Swap2 { params: rest })
    }
}

impl<SwapParameters2> Swap2<SwapParameters2> {

    /// The accounts by role, read from the first 15 accounts.
    pub open spec fn spec_arrange_accounts(accounts: Seq<AccountMeta>) -> Option<Swap2InstructionAccounts> {
        if accounts.len() >= 15 {
            Some(
                Swap2InstructionAccounts {
                    pool_authority: key_at(accounts, 0),
                    config: key_at(accounts, 1),
                    pool: key_at(accounts, 2),
                    input_token_account: key_at(accounts, 3),
                    output_token_account: key_at(accounts, 4),
                    base_vault: key_at(accounts, 5),
                    quote_vault: key_at(accounts, 6),
                    base_mint: key_at(accounts, 7),
                    quote_mint: key_at(accounts, 8),
                    payer: key_at(accounts, 9),
                    token_base_program: key_at(accounts, 10),
                    token_quote_program: key_at(accounts, 11),
                    referral_token_account: key_at(accounts, 12),
                    event_authority: key_at(accounts, 13),
                    program: key_at(accounts, 14),
                },
            )
        } else {
            None
        }
    }

    /// Assigns the instruction's accounts to their roles in order; `None`
    /// when fewer than 15 accounts are given. Accounts past the first 15
    /// are ignored.
    pub fn arrange_accounts(accounts: &[AccountMeta]) -> (r: Option<Swap2InstructionAccounts>)
        ensures
            r == Self::spec_arrange_accounts(accounts@),
            accounts@.len() < 15 ==> r is None,
            accounts@.len() >= 15 ==> (r matches Some(a) && a.pool_authority == accounts@[0].pubkey && a.config == accounts@[1].pubkey && a.pool == accounts@[2].pubkey && a.input_token_account == accounts@[3].pubkey && a.output_token_account == accounts@[4].pubkey && a.base_vault == accounts@[5].pubkey && a.quote_vault == accounts@[6].pubkey && a.base_mint == accounts@[7].pubkey && a.quote_mint == accounts@[8].pubkey && a.payer == accounts@[9].pubkey && a.token_base_program == accounts@[10].pubkey && a.token_quote_program == accounts@[11].pubkey && a.referral_token_account == accounts@[12].pubkey && a.event_authority == accounts@[13].pubkey && a.program == accounts@[14].pubkey),
    {
        if accounts.len() < 15 {
            return None;
        }
        Some(
            Swap2InstructionAccounts {
                pool_authority: accounts[0].pubkey,
                config: accounts[1].pubkey,
                pool: accounts[2].pubkey,
                input_token_account: accounts[3].pubkey,
                output_token_account: accounts[4].pubkey,
                base_vault: accounts[5].pubkey,
                quote_vault: accounts[6].pubkey,
                base_mint: accounts[7].pubkey,
                quote_mint: accounts[8].pubkey,
                payer: accounts[9].pubkey,
                token_base_program: accounts[10].pubkey,
                token_quote_program: accounts[11].pubkey,
                referral_token_account: accounts[12].pubkey,
                event_authority: accounts[13].pubkey,
                program: accounts[14].pubkey,
            },
        )
    }

    /// Accounts past the first 15 play no part in the arrangement.
    pub proof fn lemma_arrange_ignores_trailing(accounts: Seq<AccountMeta>, more: Seq<AccountMeta>)
        requires
            accounts.len() >= 15,
        ensures
            Self::spec_arrange_accounts(accounts + more) == Self::spec_arrange_accounts(accounts),
    {
        let all = accounts + more;
        assert forall|i: int| 0 <= i < 15 implies key_at(all, i) == key_at(accounts, i) by {}
    }

    /// The arrangement is positional and reads only the accounts' addresses:
    /// two account lists with the same addresses in the same positions are
    /// arranged alike, whatever their signer and writable flags; and each
    /// role is the address at its own position.
    pub proof fn lemma_arrange_reads_only_keys(a: Seq<AccountMeta>, b: Seq<AccountMeta>)
        requires
            a.len() == b.len(),
            forall|i: int| 0 <= i < a.len() ==> #[trigger] a[i].pubkey == b[i].pubkey,
        ensures
            Self::spec_arrange_accounts(a) == Self::spec_arrange_accounts(b),
            a.len() >= 15 ==> (Self::spec_arrange_accounts(a) matches Some(x) && x.pool_authority == a[0].pubkey && x.config == a[1].pubkey && x.pool == a[2].pubkey && x.input_token_account == a[3].pubkey && x.output_token_account == a[4].pubkey && x.base_vault == a[5].pubkey && x.quote_vault == a[6].pubkey && x.base_mint == a[7].pubkey && x.quote_mint == a[8].pubkey && x.payer == a[9].pubkey && x.token_base_program == a[10].pubkey && x.token_quote_program == a[11].pubkey && x.referral_token_account == a[12].pubkey && x.event_authority == a[13].pubkey && x.program == a[14].pubkey),
            a.len() < 15 ==> Self::spec_arrange_accounts(a) is None,
    {
        assert forall|i: int| 0 <= i < a.len() implies key_at(a, i) == key_at(b, i) by {
            assert(a[i].pubkey == b[i].pubkey);
        }
    }
}

/// The instruction that withdraws a pool's leftover base tokens; it carries
/// no arguments.
#[derive(Debug, PartialEq, Eq, Clone, Hash)]
pub struct WithdrawLeftover {}

/// The accounts of a leftover withdrawal, by role.
#[derive(Debug, PartialEq, Eq, Clone, Hash)]
pub struct WithdrawLeftoverInstructionAccounts {
    pub pool_authority: Pubkey,
    pub config: Pubkey,
    pub virtual_pool: Pubkey,
    pub token_base_account: Pubkey,
    pub base_vault: Pubkey,
    pub base_mint: Pubkey,
    pub leftover_receiver: Pubkey,
    pub token_base_program: Pubkey,
    pub event_authority: Pubkey,
    pub program: Pubkey,
}

impl WithdrawLeftover {
    /// The discriminator as a byte sequence.
    pub open spec fn spec_discriminator() -> Seq<u8> {
        seq![0x14u8, 0xc6u8, 0xcau8, 0xedu8, 0xebu8, 0xf3u8, 0xb7u8, 0x42u8]
    }

    /// What the decoder accepts: the discriminator, then nothing required.
    pub open spec fn spec_deserialize(data: Seq<u8>) -> Option<WithdrawLeftover> {
        if starts_with(data, Self::spec_discriminator()) {
            Some(WithdrawLeftover {  })
        } else {
            None
        }
    }

    /// Data decodes as this instruction exactly when its first 8 bytes are
    /// the instruction's discriminator; nothing else about the data matters.
    pub proof fn lemma_decodes_exactly_its_discriminator(data: Seq<u8>)
        ensures
            Self::spec_deserialize(data) is Some <==> (data.len() >= 8 && data[0] == 0x14u8 && data[1] == 0xc6u8 && data[2] == 0xcau8 && data[3] == 0xedu8 && data[4] == 0xebu8 && data[5] == 0xf3u8 && data[6] == 0xb7u8 && data[7] == 0x42u8),
    {
        if data.len() >= 8 && data[0] == 0x14u8 && data[1] == 0xc6u8 && data[2] == 0xcau8 && data[3] == 0xedu8 && data[4] == 0xebu8 && data[5] == 0xf3u8 && data[6] == 0xb7u8 && data[7] == 0x42u8 {
            assert(data.take(8) =~= Self::spec_discriminator());
        }
        if Self::spec_deserialize(data) is Some {
            assert forall|k: int| 0 <= k < 8 implies data[k] == Self::spec_discriminator()[k] by {
                assert(data.take(8)[k] == data[k]);
            }
        }
    }

    /// Decodes the instruction from its data: `Some` exactly when the data
    /// starts with the discriminator; trailing bytes are ignored.
    pub fn deserialize(data: &[u8]) -> (r: Option<WithdrawLeftover>)
        ensures
            r == Self::spec_deserialize(data@),
            r is Some <==> starts_with(data@, seq![0x14u8, 0xc6u8, 0xcau8, 0xedu8, 0xebu8, 0xf3u8, 0xb7u8, 0x42u8]),
    {
        assert(WITHDRAW_LEFTOVER_DISCRIMINATOR@ == Self::spec_discriminator());
        if has_prefix(data, WITHDRAW_LEFTOVER_DISCRIMINATOR.as_slice()) {
            Some(WithdrawLeftover {  })
        } else {
            None
        }
    }

    /// The accounts by role, read from the first 10 accounts.
    pub open spec fn spec_arrange_accounts(accounts: Seq<AccountMeta>) -> Option<WithdrawLeftoverInstructionAccounts> {
        if accounts.len() >= 10 {
            Some(
                WithdrawLeftoverInstructionAccounts {
                    pool_authority: key_at(accounts, 0),
                    config: key_at(accounts, 1),
                    virtual_pool: key_at(accounts, 2),
                    token_base_account: key_at(accounts, 3),
                    base_vault: key_at(accounts, 4),
                    base_mint: key_at(accounts, 5),
                    leftover_receiver: key_at(accounts, 6),
                    token_base_program: key_at(accounts, 7),
                    event_authority: key_at(accounts, 8),
                    program: key_at(accounts, 9),
                },
            )
        } else {
            None
        }
    }

    /// Assigns the instruction's accounts to their roles in order; `None`
    /// when fewer than 10 accounts are given. Accounts past the first 10
    /// are ignored.
    pub fn arrange_accounts(accounts: &[AccountMeta]) -> (r: Option<WithdrawLeftoverInstructionAccounts>)
        ensures
            r == Self::spec_arrange_accounts(accounts@),
            accounts@.len() < 10 ==> r is None,
            accounts@.len() >= 10 ==> (r matches Some(a) && a.pool_authority == accounts@[0].pubkey && a.config == accounts@[1].pubkey && a.virtual_pool == accounts@[2].pubkey && a.token_base_account == accounts@[3].pubkey && a.base_vault == accounts@[4].pubkey && a.base_mint == accounts@[5].pubkey && a.leftover_receiver == accounts@[6].pubkey && a.token_base_program == accounts@[7].pubkey && a.event_authority == accounts@[8].pubkey && a.program == accounts@[9].pubkey),
    {
        if accounts.len() < 10 {
            return None;
        }
        Some(
            WithdrawLeftoverInstructionAccounts {
                pool_authority: accounts[0].pubkey,
                config: accounts[1].pubkey,
                virtual_pool: accounts[2].pubkey,
                token_base_account: accounts[3].pubkey,
                base_vault: accounts[4].pubkey,
                base_mint: accounts[5].pubkey,
                leftover_receiver: accounts[6].pubkey,
                token_base_program: accounts[7].pubkey,
                event_authority: accounts[8].pubkey,
                program: accounts[9].pubkey,
            },
        )
    }

    /// Accounts past the first 10 play no part in the arrangement.
    pub proof fn lemma_arrange_ignores_trailing(accounts: Seq<AccountMeta>, more: Seq<AccountMeta>)
        requires
            accounts.len() >= 10,
        ensures
            Self::spec_arrange_accounts(accounts + more) == Self::spec_arrange_accounts(accounts),
    {
        let all = accounts + more;
        assert forall|i: int| 0 <= i < 10 implies key_at(all, i) == key_at(accounts, i) by {}
    }

    /// The arrangement is positional and reads only the accounts' addresses:
    /// two account lists with the same addresses in the same positions are
    /// arranged alike, whatever their signer and writable flags; and each
    /// role is the address at its own position.
    pub proof fn lemma_arrange_reads_only_keys(a: Seq<AccountMeta>, b: Seq<AccountMeta>)
        requires
            a.len() == b.len(),
            forall|i: int| 0 <= i < a.len() ==> #[trigger] a[i].pubkey == b[i].pubkey,
        ensures
            Self::spec_arrange_accounts(a) == Self::spec_arrange_accounts(b),
            a.len() >= 10 ==> (Self::spec_arrange_accounts(a) matches Some(x) && x.pool_authority == a[0].pubkey && x.config == a[1].pubkey && x.virtual_pool == a[2].pubkey && x.token_base_account == a[3].pubkey && x.base_vault == a[4].pubkey && x.base_mint == a[5].pubkey && x.leftover_receiver == a[6].pubkey && x.token_base_program == a[7].pubkey && x.event_authority == a[8].pubkey && x.program == a[9].pubkey),
            a.len() < 10 ==> Self::spec_arrange_accounts(a) is None,
    {
        assert forall|i: int| 0 <= i < a.len() implies key_at(a, i) == key_at(b, i) by {
            assert(a[i].pubkey == b[i].pubkey);
        }
    }
}

/// Discriminator of the event that records a config creation.
pub const EVT_CREATE_CONFIG_V2_EVENT_DISCRIMINATOR: [u8; 16] = [0xe4, 0x45, 0xa5, 0x2e, 0x51, 0xcb, 0x9a, 0x1d, 0xa3, 0x4a, 0x42, 0xbb, 0x77, 0xc3, 0x1a, 0x90];

/// The event that records a config creation, with the config's parameters
/// as given.
#[derive(Debug, PartialEq, Eq, Clone, Hash)]
pub struct EvtCreateConfigV2Event<ConfigParameters> {
    pub config: Pubkey,
    pub quote_mint: Pubkey,
    pub fee_claimer: Pubkey,
    pub leftover_receiver: Pubkey,
    pub config_parameters: ConfigParameters,
}

impl<'a> EvtCreateConfigV2Event<&'a [u8]> {
    /// The discriminator as a byte sequence.
    pub open spec fn spec_discriminator() -> Seq<u8> {
        seq![0xe4u8, 0x45u8, 0xa5u8, 0x2eu8, 0x51u8, 0xcbu8, 0x9au8, 0x1du8, 0xa3u8, 0x4au8, 0x42u8, 0xbbu8, 0x77u8, 0xc3u8, 0x1au8, 0x90u8]
    }

    /// Checks the discriminator, reads the four addresses, and hands back
    /// the config parameters still encoded: `Some` exactly when the data
    /// starts with the discriminator and holds the 128 bytes of the addresses
    /// after it; the addresses are those bytes in declaration order, and the
    /// parameters are all the bytes that follow them.
    pub fn deserialize_raw(data: &'a [u8]) -> (r: Option<EvtCreateConfigV2Event<&'a [u8]>>)
        ensures
            r is Some <==> starts_with(
                data@,
                seq![0xe4u8, 0x45u8, 0xa5u8, 0x2eu8, 0x51u8, 0xcbu8, 0x9au8, 0x1du8, 0xa3u8, 0x4au8, 0x42u8, 0xbbu8, 0x77u8, 0xc3u8, 0x1au8, 0x90u8],
            ) && data@.len() >= 144,
            r matches Some(e) ==> e.config@ == data@.subrange(16, 48) && e.quote_mint@
                == data@.subrange(48, 80) && e.fee_claimer@ == data@.subrange(80, 112)
                && e.leftover_receiver@ == data@.subrange(112, 144) && e.config_parameters@
                == data@.skip(144),
    {
        assert(EVT_CREATE_CONFIG_V2_EVENT_DISCRIMINATOR@ == Self::spec_discriminator());
        if !has_prefix(data, EVT_CREATE_CONFIG_V2_EVENT_DISCRIMINATOR.as_slice()) {
            return None;
        }
        let config = read_pubkey(data, 16)?;
        let quote_mint = read_pubkey(data, 48)?;
        let fee_claimer = read_pubkey(data, 80)?;
        let leftover_receiver = read_pubkey(data, 112)?;
        let config_parameters = slice_subrange(data, 144, data.len());
        Some(
            EvtCreateConfigV2Event {
                config,
                quote_mint,
                fee_claimer,
                leftover_receiver,
                config_parameters,
            },
        )
    }
}

/// The event recording that a pool passed from one creator to another. It
/// has no discriminator of its own: its fields start at the first byte.
#[derive(Debug, PartialEq, Eq, Clone, Hash)]
pub struct EvtUpdatePoolCreator {
    pub pool: Pubkey,
    pub creator: Pubkey,
    pub new_creator: Pubkey,
}

impl EvtUpdatePoolCreator {
    /// The borsh layout of the fields, in declaration order.
    pub open spec fn spec_body(self) -> Seq<u8> {
        self.pool@ + self.creator@ + self.new_creator@
    }

    /// The field layout is 96 bytes long and tells every event apart.
    pub proof fn lemma_body_injective(a: EvtUpdatePoolCreator, b: EvtUpdatePoolCreator)
        ensures
            a.spec_body().len() == 96,
            a.spec_body() == b.spec_body() ==> a == b,
    {
        if a.spec_body() == b.spec_body() {
            let sa = a.spec_body();
            let sb = b.spec_body();
            assert(sa.subrange(0, 32) =~= a.pool@);
            assert(sb.subrange(0, 32) =~= b.pool@);
            assert(sa.subrange(32, 64) =~= a.creator@);
            assert(sb.subrange(32, 64) =~= b.creator@);
            assert(sa.subrange(64, 96) =~= a.new_creator@);
            assert(sb.subrange(64, 96) =~= b.new_creator@);
            lemma_pubkey_view_injective(a.pool, b.pool);
            lemma_pubkey_view_injective(a.creator, b.creator);
            lemma_pubkey_view_injective(a.new_creator, b.new_creator);
        }
    }

    /// Decodes the event: `Some` exactly when the data holds at least the 96
    /// bytes of the fields; the decoded event is the one whose layout the
    /// first 96 bytes are. Trailing bytes are ignored.
    pub fn deserialize(data: &[u8]) -> (r: Option<EvtUpdatePoolCreator>)
        ensures
            r is Some <==> data@.len() >= 96,
            r matches Some(x) ==> x.spec_body() == data@.subrange(0, 96),
    {
        let pool = read_pubkey(data, 0)?;
        let creator = read_pubkey(data, 32)?;
        let new_creator = read_pubkey(data, 64)?;
        let x = EvtUpdatePoolCreator { pool, creator, new_creator };
        assert(x.spec_body() =~= data@.subrange(0, 96));
        Some(x)
    }
}

} // verus!
