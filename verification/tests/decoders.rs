use carbon_indexer::account_meta::AccountMeta;
use carbon_indexer::decoders::dynamic_curve::{
    ClaimCreatorTradingFee, CreateConfig, EvtCreateConfigV2Event, EvtUpdatePoolCreator, Swap2,
    TransferPoolCreator, CREATE_CONFIG_DISCRIMINATOR, EVT_CREATE_CONFIG_V2_EVENT_DISCRIMINATOR,
    SWAP2_DISCRIMINATOR,
    WithdrawLeftover, CLAIM_CREATOR_TRADING_FEE_DISCRIMINATOR, TRANSFER_POOL_CREATOR_DISCRIMINATOR,
    WITHDRAW_LEFTOVER_DISCRIMINATOR,
};
use carbon_indexer::decoders::heaven::{
    CreateStandardLiquidityPoolEvent, TradeEvent, CREATE_STANDARD_LIQUIDITY_POOL_EVENT_DISCRIMINATOR,
    TRADE_EVENT_DISCRIMINATOR,
};
use carbon_indexer::decoders::pump_swap::{
    ClaimCashback, ClaimCashbackEvent, CLAIM_CASHBACK_DISCRIMINATOR,
    CLAIM_CASHBACK_EVENT_DISCRIMINATOR,
};
use carbon_indexer::decoders::raydium_launchpad::{AmmFeeOn, TransferFeeExtensionParams};
use carbon_indexer::keys::Pubkey;

fn key(n: u8) -> Pubkey {
    Pubkey::new_from_array([n; 32])
}

fn metas(count: u8) -> Vec<AccountMeta> {
    (1..=count)
        .map(|n| AccountMeta { pubkey: key(n), is_signer: n == 1, is_writable: n % 2 == 0 })
        .collect()
}

#[test]
fn transfer_pool_creator_decodes_from_its_discriminator() {
    let mut data = TRANSFER_POOL_CREATOR_DISCRIMINATOR.to_vec();
    assert_eq!(TransferPoolCreator::deserialize(&data), Some(TransferPoolCreator {}));
    data.extend_from_slice(&[9, 9, 9]);
    assert_eq!(TransferPoolCreator::deserialize(&data), Some(TransferPoolCreator {}));
}

#[test]
fn transfer_pool_creator_rejects_short_or_foreign_data() {
    assert_eq!(TransferPoolCreator::deserialize(&TRANSFER_POOL_CREATOR_DISCRIMINATOR[..7]), None);
    assert_eq!(TransferPoolCreator::deserialize(&[]), None);
    assert_eq!(TransferPoolCreator::deserialize(&WITHDRAW_LEFTOVER_DISCRIMINATOR), None);
}

#[test]
fn transfer_pool_creator_arranges_six_accounts() {
    assert!(TransferPoolCreator::arrange_accounts(&metas(5)).is_none());
    let a = TransferPoolCreator::arrange_accounts(&metas(6)).unwrap();
    assert_eq!(a.virtual_pool, key(1));
    assert_eq!(a.config, key(2));
    assert_eq!(a.creator, key(3));
    assert_eq!(a.new_creator, key(4));
    assert_eq!(a.event_authority, key(5));
    assert_eq!(a.program, key(6));
    let more = TransferPoolCreator::arrange_accounts(&metas(9)).unwrap();
    assert_eq!(more, a);
}

#[test]
fn claim_creator_trading_fee_decodes_amounts() {
    let mut data = CLAIM_CREATOR_TRADING_FEE_DISCRIMINATOR.to_vec();
    data.extend_from_slice(&1_000u64.to_le_bytes());
    data.extend_from_slice(&u64::MAX.to_le_bytes());
    assert_eq!(
        ClaimCreatorTradingFee::deserialize(&data),
        Some(ClaimCreatorTradingFee { max_base_amount: 1_000, max_quote_amount: u64::MAX })
    );
    data.pop();
    assert_eq!(ClaimCreatorTradingFee::deserialize(&data), None);
}

#[test]
fn claim_creator_trading_fee_arranges_thirteen_accounts() {
    assert!(ClaimCreatorTradingFee::arrange_accounts(&metas(12)).is_none());
    let a = ClaimCreatorTradingFee::arrange_accounts(&metas(13)).unwrap();
    assert_eq!(a.pool_authority, key(1));
    assert_eq!(a.pool, key(2));
    assert_eq!(a.token_a_account, key(3));
    assert_eq!(a.token_b_account, key(4));
    assert_eq!(a.base_vault, key(5));
    assert_eq!(a.quote_vault, key(6));
    assert_eq!(a.base_mint, key(7));
    assert_eq!(a.quote_mint, key(8));
    assert_eq!(a.creator, key(9));
    assert_eq!(a.token_base_program, key(10));
    assert_eq!(a.token_quote_program, key(11));
    assert_eq!(a.event_authority, key(12));
    assert_eq!(a.program, key(13));
}

#[test]
fn create_config_arranges_eight_accounts() {
    assert!(CreateConfig::<()>::arrange_accounts(&metas(7)).is_none());
    let a = CreateConfig::<()>::arrange_accounts(&metas(8)).unwrap();
    assert_eq!(a.config, key(1));
    assert_eq!(a.fee_claimer, key(2));
    assert_eq!(a.leftover_receiver, key(3));
    assert_eq!(a.quote_mint, key(4));
    assert_eq!(a.payer, key(5));
    assert_eq!(a.system_program, key(6));
    assert_eq!(a.event_authority, key(7));
    assert_eq!(a.program, key(8));
}

#[test]
fn swap2_arranges_fifteen_accounts() {
    assert!(Swap2::<()>::arrange_accounts(&metas(14)).is_none());
    let a = Swap2::<()>::arrange_accounts(&metas(16)).unwrap();
    assert_eq!(a.pool_authority, key(1));
    assert_eq!(a.config, key(2));
    assert_eq!(a.pool, key(3));
    assert_eq!(a.input_token_account, key(4));
    assert_eq!(a.output_token_account, key(5));
    assert_eq!(a.base_vault, key(6));
    assert_eq!(a.quote_vault, key(7));
    assert_eq!(a.base_mint, key(8));
    assert_eq!(a.quote_mint, key(9));
    assert_eq!(a.payer, key(10));
    assert_eq!(a.token_base_program, key(11));
    assert_eq!(a.token_quote_program, key(12));
    assert_eq!(a.referral_token_account, key(13));
    assert_eq!(a.event_authority, key(14));
    assert_eq!(a.program, key(15));
}

#[test]
fn withdraw_leftover_decodes_and_arranges() {
    assert_eq!(
        WithdrawLeftover::deserialize(&WITHDRAW_LEFTOVER_DISCRIMINATOR),
        Some(WithdrawLeftover {})
    );
    assert_eq!(WithdrawLeftover::deserialize(&TRANSFER_POOL_CREATOR_DISCRIMINATOR), None);
    assert!(WithdrawLeftover::arrange_accounts(&metas(9)).is_none());
    let a = WithdrawLeftover::arrange_accounts(&metas(10)).unwrap();
    assert_eq!(a.pool_authority, key(1));
    assert_eq!(a.config, key(2));
    assert_eq!(a.virtual_pool, key(3));
    assert_eq!(a.token_base_account, key(4));
    assert_eq!(a.base_vault, key(5));
    assert_eq!(a.base_mint, key(6));
    assert_eq!(a.leftover_receiver, key(7));
    assert_eq!(a.token_base_program, key(8));
    assert_eq!(a.event_authority, key(9));
    assert_eq!(a.program, key(10));
}

#[test]
fn evt_update_pool_creator_reads_three_keys_without_discriminator() {
    let mut data = Vec::new();
    data.extend_from_slice(&[7; 32]);
    data.extend_from_slice(&[8; 32]);
    data.extend_from_slice(&[9; 32]);
    assert_eq!(
        EvtUpdatePoolCreator::deserialize(&data),
        Some(EvtUpdatePoolCreator { pool: key(7), creator: key(8), new_creator: key(9) })
    );
    assert_eq!(EvtUpdatePoolCreator::deserialize(&data[..95]), None);
}

#[test]
fn create_standard_liquidity_pool_event_decodes_fields() {
    let mut data = CREATE_STANDARD_LIQUIDITY_POOL_EVENT_DISCRIMINATOR.to_vec();
    for n in 1..=4u8 {
        data.extend_from_slice(&[n; 32]);
    }
    data.extend_from_slice(&513u16.to_le_bytes());
    data.extend_from_slice(&42u64.to_le_bytes());
    data.extend_from_slice(&7_000_000_000u64.to_le_bytes());
    let e = CreateStandardLiquidityPoolEvent::deserialize(&data).unwrap();
    assert_eq!(
        e,
        CreateStandardLiquidityPoolEvent {
            pool_id: key(1),
            payer: key(2),
            creator: key(3),
            mint: key(4),
            config_version: 513,
            initial_token_reserve: 42,
            initial_virtual_wsol_reserve: 7_000_000_000,
        }
    );
    assert_eq!(CreateStandardLiquidityPoolEvent::deserialize(&data[..161]), None);
}

#[test]
fn create_standard_liquidity_pool_event_arranges_five_accounts() {
    assert!(CreateStandardLiquidityPoolEvent::arrange_accounts(&metas(4)).is_none());
    let a = CreateStandardLiquidityPoolEvent::arrange_accounts(&metas(5)).unwrap();
    assert_eq!(a.liquidity_pool_state, key(1));
    assert_eq!(a.payer, key(2));
    assert_eq!(a.creator, key(3));
    assert_eq!(a.mint, key(4));
    assert_eq!(a.protocol_config, key(5));
}

#[test]
fn trade_event_decodes_reserves_and_fees() {
    let mut data = TRADE_EVENT_DISCRIMINATOR.to_vec();
    for v in [10u64, 20, 30, 40] {
        data.extend_from_slice(&v.to_le_bytes());
    }
    data.push(0xff);
    assert_eq!(
        TradeEvent::deserialize(&data),
        Some(TradeEvent {
            base_reserve: 10,
            quote_reserve: 20,
            total_creator_trading_fees: 30,
            total_fee_paid: 40,
        })
    );
    let mut other = CLAIM_CASHBACK_EVENT_DISCRIMINATOR.to_vec();
    other.extend_from_slice(&data[16..]);
    assert_eq!(TradeEvent::deserialize(&other), None);
}

#[test]
fn trade_event_arranges_pool_state_only() {
    assert!(TradeEvent::arrange_accounts(&[]).is_none());
    let a = TradeEvent::arrange_accounts(&metas(3)).unwrap();
    assert_eq!(a.liquidity_pool_state, key(1));
    assert_eq!(a.user, Pubkey::default());
    assert_eq!(a.protocol_config, Pubkey::default());
    assert_eq!(a.user.to_bytes(), [0u8; 32]);
}

#[test]
fn claim_cashback_decodes_and_arranges() {
    assert_eq!(ClaimCashback::deserialize(&CLAIM_CASHBACK_DISCRIMINATOR), Some(ClaimCashback {}));
    assert_eq!(ClaimCashback::deserialize(&CLAIM_CASHBACK_DISCRIMINATOR[1..]), None);
    assert!(ClaimCashback::arrange_accounts(&metas(8)).is_none());
    let a = ClaimCashback::arrange_accounts(&metas(9)).unwrap();
    assert_eq!(a.user, key(1));
    assert_eq!(a.user_volume_accumulator, key(2));
    assert_eq!(a.quote_mint, key(3));
    assert_eq!(a.quote_token_program, key(4));
    assert_eq!(a.user_volume_accumulator_wsol_token_account, key(5));
    assert_eq!(a.user_wsol_token_account, key(6));
    assert_eq!(a.system_program, key(7));
    assert_eq!(a.event_authority, key(8));
    assert_eq!(a.program, key(9));
    assert_eq!(ClaimCashback::arrange_accounts(&metas(12)).unwrap(), a);
}

#[test]
fn claim_cashback_event_decodes_signed_timestamp() {
    let mut data = CLAIM_CASHBACK_EVENT_DISCRIMINATOR.to_vec();
    data.extend_from_slice(&[5; 32]);
    data.extend_from_slice(&250u64.to_le_bytes());
    data.extend_from_slice(&(-1_700_000_000i64).to_le_bytes());
    data.extend_from_slice(&1_000u64.to_le_bytes());
    data.extend_from_slice(&2_000u64.to_le_bytes());
    assert_eq!(
        ClaimCashbackEvent::deserialize(&data),
        Some(ClaimCashbackEvent {
            user: key(5),
            amount: 250,
            timestamp: -1_700_000_000,
            total_claimed: 1_000,
            total_cashback_earned: 2_000,
        })
    );
    assert_eq!(ClaimCashbackEvent::deserialize(&data[..79]), None);
}

#[test]
fn amm_fee_on_round_trips_through_borsh_tags() {
    assert_eq!(AmmFeeOn::Quote.serialize(), vec![0]);
    assert_eq!(AmmFeeOn::Both.serialize(), vec![1]);
    assert_eq!(AmmFeeOn::deserialize(&[0, 7]), Some((AmmFeeOn::Quote, 1)));
    assert_eq!(AmmFeeOn::deserialize(&[1]), Some((AmmFeeOn::Both, 1)));
    assert_eq!(AmmFeeOn::deserialize(&[2]), None);
    assert_eq!(AmmFeeOn::deserialize(&[]), None);
    assert_eq!(AmmFeeOn::try_from_slice(&[1]), Some(AmmFeeOn::Both));
    assert_eq!(AmmFeeOn::try_from_slice(&[1, 0]), None);
}

#[test]
fn transfer_fee_extension_params_match_borsh() {
    let p = TransferFeeExtensionParams { transfer_fee_basis_points: 250, max_fee: 1_000_000 };
    let bytes = p.serialize();
    let reference = carbon_core::borsh::to_vec(&(250u16, 1_000_000u64)).unwrap();
    assert_eq!(bytes, reference);
    assert_eq!(TransferFeeExtensionParams::deserialize(&bytes), Some((p, 10)));
    assert_eq!(TransferFeeExtensionParams::try_from_slice(&bytes), Some(p));
    assert_eq!(TransferFeeExtensionParams::deserialize(&bytes[..9]), None);
    let mut longer = bytes.clone();
    longer.push(3);
    assert_eq!(TransferFeeExtensionParams::deserialize(&longer), Some((p, 10)));
    assert_eq!(TransferFeeExtensionParams::try_from_slice(&longer), None);
}

#[test]
fn amm_fee_on_matches_borsh_u8_tags() {
    assert_eq!(AmmFeeOn::Quote.serialize(), carbon_core::borsh::to_vec(&0u8).unwrap());
    assert_eq!(AmmFeeOn::Both.serialize(), carbon_core::borsh::to_vec(&1u8).unwrap());
}

#[test]
fn create_config_and_swap2_hand_back_their_parameter_bytes() {
    let mut data = CREATE_CONFIG_DISCRIMINATOR.to_vec();
    data.extend_from_slice(&[1, 2, 3]);
    assert_eq!(CreateConfig::deserialize_raw(&data), Some(CreateConfig { config_parameters: &[1u8, 2, 3][..] }));
    assert_eq!(CreateConfig::deserialize_raw(&SWAP2_DISCRIMINATOR), None);
    let mut swap = SWAP2_DISCRIMINATOR.to_vec();
    assert_eq!(Swap2::deserialize_raw(&swap), Some(Swap2 { params: &[][..] }));
    swap.push(9);
    assert_eq!(Swap2::deserialize_raw(&swap), Some(Swap2 { params: &[9u8][..] }));
    assert_eq!(Swap2::deserialize_raw(&swap[..7]), None);
}

#[test]
fn config_event_reads_four_keys_then_parameter_bytes() {
    let mut data = EVT_CREATE_CONFIG_V2_EVENT_DISCRIMINATOR.to_vec();
    for n in 1..=4u8 {
        data.extend_from_slice(&[n; 32]);
    }
    data.extend_from_slice(&[42, 43]);
    let e = EvtCreateConfigV2Event::deserialize_raw(&data).unwrap();
    assert_eq!(e.config, key(1));
    assert_eq!(e.quote_mint, key(2));
    assert_eq!(e.fee_claimer, key(3));
    assert_eq!(e.leftover_receiver, key(4));
    assert_eq!(e.config_parameters, &[42u8, 43][..]);
    assert!(EvtCreateConfigV2Event::deserialize_raw(&data[..143]).is_none());
}
