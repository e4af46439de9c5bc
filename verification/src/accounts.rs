//! The instruction builders: each bundles a canonically encoded command
//! with the ordered list of participant accounts that the execution engine
//! expects for that command kind.

use vstd::prelude::*;

use crate::codec::spec_encode;
use crate::error::PoolError;
use crate::instruction::{keys_view, Command, PoolInstruction};
use crate::types::{OrderType, Pubkey, SelfTradeBehavior, Side};

verus! {

/// One participant account of an instruction: its key, whether it must
/// sign, and whether it may be written.
#[derive(Clone, Copy, Debug, PartialEq, Eq)]
pub struct AccountMeta {
    pub pubkey: Pubkey,
    pub is_signer: bool,
    pub is_writable: bool,
}

impl AccountMeta {
    /// A writable account.
    pub fn new(pubkey: Pubkey, is_signer: bool) -> (r: AccountMeta)
        ensures
            r == (AccountMeta { pubkey, is_signer, is_writable: true }),
    {
        AccountMeta { pubkey, is_signer, is_writable: true }
    }

    /// A read-only account.
    pub fn new_readonly(pubkey: Pubkey, is_signer: bool) -> (r: AccountMeta)
        ensures
            r == (AccountMeta { pubkey, is_signer, is_writable: false }),
    {
        AccountMeta { pubkey, is_signer, is_writable: false }
    }
}

/// A full submission unit: the program addressed, the ordered participant
/// accounts, and the encoded command payload.
#[derive(Clone, Debug, PartialEq)]
pub struct Instruction {
    pub program_id: Pubkey,
    pub accounts: Vec<AccountMeta>,
    pub data: Vec<u8>,
}

/// One writable, non-signing account entry per key, in order.
pub open spec fn writable_metas(keys: Seq<Pubkey>) -> Seq<AccountMeta> {
    keys.map_values(|k: Pubkey| AccountMeta { pubkey: k, is_signer: false, is_writable: true })
}

/// Appends one writable, non-signing account entry per key, in order.
fn push_writable_keys(accounts: &mut Vec<AccountMeta>, keys: &Vec<Pubkey>)
    ensures
        final(accounts)@ == old(accounts)@ + writable_metas(keys@),
{
    let ghost base = accounts@;
    let mut i: usize = 0;
    while i < keys.len()
        invariant
            i <= keys@.len(),
            accounts@ == base + writable_metas(keys@.take(i as int)),
        decreases keys@.len() - i,
    {
        accounts.push(AccountMeta::new(keys[i], false));
        proof {
            let ks = keys@;
            assert(ks.take(i as int + 1) =~= ks.take(i as int).push(ks[i as int]));
            assert(writable_metas(ks.take(i as int + 1)) =~= writable_metas(
                ks.take(i as int),
            ).push((AccountMeta { pubkey: ks[i as int], is_signer: false, is_writable: true })));
            assert(accounts@ =~= base + writable_metas(ks.take(i as int + 1)));
        }
        i += 1;
    }
    proof {
        assert(keys@.take(keys@.len() as int) =~= keys@);
    }
}

/// Builds an `Init` instruction: the canonical `Init` payload addressed to
/// the pool program, with the system, rent and token programs, the pool and
/// mint accounts, and the signing fee payer.
pub fn init(
    spl_token_program_id: &Pubkey,
    system_program_id: &Pubkey,
    rent_program_id: &Pubkey,
    bonfidabot_program_id: &Pubkey,
    mint_key: &Pubkey,
    payer_key: &Pubkey,
    pool_key: &Pubkey,
    pool_seed: [u8; 32],
    max_number_of_assets: u32,
    number_of_markets: u16,
) -> (r: Result<Instruction, PoolError>)
    ensures
        r matches Ok(ins) && ins.program_id == *bonfidabot_program_id && ins.data@ == spec_encode(
            (Command::Init { pool_seed: pool_seed@, max_number_of_assets, number_of_markets }),
        ) && ins.accounts@ == seq![
            (AccountMeta { pubkey: *system_program_id, is_signer: false, is_writable: false }),
            (AccountMeta { pubkey: *rent_program_id, is_signer: false, is_writable: false }),
            (AccountMeta { pubkey: *spl_token_program_id, is_signer: false, is_writable: false }),
            (AccountMeta { pubkey: *pool_key, is_signer: false, is_writable: true }),
            (AccountMeta { pubkey: *mint_key, is_signer: false, is_writable: true }),
            (AccountMeta { pubkey: *payer_key, is_signer: true, is_writable: true }),
        ],
{
    let data = (PoolInstruction::Init { pool_seed, max_number_of_assets, number_of_markets }).pack();
    let mut accounts: Vec<AccountMeta> = Vec::new();
    accounts.push(AccountMeta::new_readonly(*system_program_id, false));
    accounts.push(AccountMeta::new_readonly(*rent_program_id, false));
    accounts.push(AccountMeta::new_readonly(*spl_token_program_id, false));
    accounts.push(AccountMeta::new(*pool_key, false));
    accounts.push(AccountMeta::new(*mint_key, false));
    accounts.push(AccountMeta::new(*payer_key, true));
    proof {
        assert(accounts@ =~= seq![
            (AccountMeta { pubkey: *system_program_id, is_signer: false, is_writable: false }),
            (AccountMeta { pubkey: *rent_program_id, is_signer: false, is_writable: false }),
            (AccountMeta { pubkey: *spl_token_program_id, is_signer: false, is_writable: false }),
            (AccountMeta { pubkey: *pool_key, is_signer: false, is_writable: true }),
            (AccountMeta { pubkey: *mint_key, is_signer: false, is_writable: true }),
            (AccountMeta { pubkey: *payer_key, is_signer: true, is_writable: true }),
        ]);
    }
    Ok(Instruction { program_id: *bonfidabot_program_id, accounts, data })
}

/// Builds a `Create` instruction: the canonical `Create` payload addressed
/// to the pool program, with the token program, mint, target pool-token
/// account and pool account, the pool asset accounts in order, the signing
/// source owner, and the source token accounts in the same order.
pub fn create(
    spl_token_program_id: &Pubkey,
    bonfidabot_program_id: &Pubkey,
    mint_key: &Pubkey,
    pool_key: &Pubkey,
    pool_seed: [u8; 32],
    pool_asset_keys: &Vec<Pubkey>,
    target_pool_token_key: &Pubkey,
    source_owner_key: &Pubkey,
    source_asset_keys: &Vec<Pubkey>,
    serum_program_id: &Pubkey,
    signal_provider_key: &Pubkey,
    deposit_amounts: Vec<u64>,
    markets: Vec<Pubkey>,
) -> (r: Result<Instruction, PoolError>)
    requires
        markets@.len() <= 0xffff,
    ensures
        r matches Ok(ins) && ins.program_id == *bonfidabot_program_id && ins.data@ == spec_encode(
            (Command::Create {
                pool_seed: pool_seed@,
                serum_program_id: serum_program_id@,
                signal_provider_key: signal_provider_key@,
                deposit_amounts: deposit_amounts@,
                markets: keys_view(markets@),
            }),
        ) && ins.accounts@ == seq![
            (AccountMeta { pubkey: *spl_token_program_id, is_signer: false, is_writable: false }),
            (AccountMeta { pubkey: *mint_key, is_signer: false, is_writable: true }),
            (AccountMeta { pubkey: *target_pool_token_key, is_signer: false, is_writable: true }),
            (AccountMeta { pubkey: *pool_key, is_signer: false, is_writable: true }),
        ] + writable_metas(pool_asset_keys@) + seq![
            (AccountMeta { pubkey: *source_owner_key, is_signer: true, is_writable: false }),
        ] + writable_metas(source_asset_keys@),
{
    let instruction = PoolInstruction::Create {
        pool_seed,
        serum_program_id: *serum_program_id,
        signal_provider_key: *signal_provider_key,
        deposit_amounts,
        markets,
    };
    proof {
        assert(instruction.wf());
    }
    let data = instruction.pack();
    let mut accounts: Vec<AccountMeta> = Vec::new();
    accounts.push(AccountMeta::new_readonly(*spl_token_program_id, false));
    accounts.push(AccountMeta::new(*mint_key, false));
    accounts.push(AccountMeta::new(*target_pool_token_key, false));
    accounts.push(AccountMeta::new(*pool_key, false));
    push_writable_keys(&mut accounts, pool_asset_keys);
    accounts.push(AccountMeta::new_readonly(*source_owner_key, true));
    push_writable_keys(&mut accounts, source_asset_keys);
    proof {
        assert(accounts@ =~= seq![
            (AccountMeta { pubkey: *spl_token_program_id, is_signer: false, is_writable: false }),
            (AccountMeta { pubkey: *mint_key, is_signer: false, is_writable: true }),
            (AccountMeta { pubkey: *target_pool_token_key, is_signer: false, is_writable: true }),
            (AccountMeta { pubkey: *pool_key, is_signer: false, is_writable: true }),
        ] + writable_metas(pool_asset_keys@) + seq![
            (AccountMeta { pubkey: *source_owner_key, is_signer: true, is_writable: false }),
        ] + writable_metas(source_asset_keys@));
    }
    Ok(Instruction { program_id: *bonfidabot_program_id, accounts, data })
}

/// Builds a `Deposit` instruction: the canonical `Deposit` payload
/// addressed to the pool program, with the token program, mint, target
/// pool-token account and pool account, the pool asset accounts in order,
/// the signing source owner, and the source token accounts in the same
/// order.
pub fn deposit(
    spl_token_program_id: &Pubkey,
    bonfidabot_program_id: &Pubkey,
    mint_key: &Pubkey,
    pool_key: &Pubkey,
    pool_asset_keys: &Vec<Pubkey>,
    target_pool_token_key: &Pubkey,
    source_owner: &Pubkey,
    source_asset_keys: &Vec<Pubkey>,
    pool_seed: [u8; 32],
    pool_token_amount: u64,
) -> (r: Result<Instruction, PoolError>)
    ensures
        r matches Ok(ins) && ins.program_id == *bonfidabot_program_id && ins.data@ == spec_encode(
            (Command::Deposit { pool_seed: pool_seed@, pool_token_amount }),
        ) && ins.accounts@ == seq![
            (AccountMeta { pubkey: *spl_token_program_id, is_signer: false, is_writable: false }),
            (AccountMeta { pubkey: *mint_key, is_signer: false, is_writable: true }),
            (AccountMeta { pubkey: *target_pool_token_key, is_signer: false, is_writable: true }),
            (AccountMeta { pubkey: *pool_key, is_signer: false, is_writable: false }),
        ] + writable_metas(pool_asset_keys@) + seq![
            (AccountMeta { pubkey: *source_owner, is_signer: true, is_writable: false }),
        ] + writable_metas(source_asset_keys@),
{
    let data = (PoolInstruction::Deposit { pool_seed, pool_token_amount }).pack();
    let mut accounts: Vec<AccountMeta> = Vec::new();
    accounts.push(AccountMeta::new_readonly(*spl_token_program_id, false));
    accounts.push(AccountMeta::new(*mint_key, false));
    accounts.push(AccountMeta::new(*target_pool_token_key, false));
    accounts.push(AccountMeta::new_readonly(*pool_key, false));
    push_writable_keys(&mut accounts, pool_asset_keys);
    accounts.push(AccountMeta::new_readonly(*source_owner, true));
    push_writable_keys(&mut accounts, source_asset_keys);
    proof {
        assert(accounts@ =~= seq![
            (AccountMeta { pubkey: *spl_token_program_id, is_signer: false, is_writable: false }),
            (AccountMeta { pubkey: *mint_key, is_signer: false, is_writable: true }),
            (AccountMeta { pubkey: *target_pool_token_key, is_signer: false, is_writable: true }),
            (AccountMeta { pubkey: *pool_key, is_signer: false, is_writable: false }),
        ] + writable_metas(pool_asset_keys@) + seq![
            (AccountMeta { pubkey: *source_owner, is_signer: true, is_writable: false }),
        ] + writable_metas(source_asset_keys@));
    }
    Ok(Instruction { program_id: *bonfidabot_program_id, accounts, data })
}

/// Builds a `Redeem` instruction: the canonical `Redeem` payload addressed
/// to the pool program, with the token program, mint, signing pool-token
/// owner, pool-token source account and pool account, the pool asset
/// accounts in order, and the target token accounts in the same order.
pub fn redeem(
    spl_token_program_id: &Pubkey,
    bonfidabot_program_id: &Pubkey,
    mint_key: &Pubkey,
    pool_key: &Pubkey,
    pool_asset_keys: &Vec<Pubkey>,
    source_pool_token_owner_key: &Pubkey,
    source_pool_token_key: &Pubkey,
    target_asset_keys: &Vec<Pubkey>,
    pool_seed: [u8; 32],
    pool_token_amount: u64,
) -> (r: Result<Instruction, PoolError>)
    ensures
        r matches Ok(ins) && ins.program_id == *bonfidabot_program_id && ins.data@ == spec_encode(
            (Command::Redeem { pool_seed: pool_seed@, pool_token_amount }),
        ) && ins.accounts@ == seq![
            (AccountMeta { pubkey: *spl_token_program_id, is_signer: false, is_writable: false }),
            (AccountMeta { pubkey: *mint_key, is_signer: false, is_writable: true }),
            (AccountMeta {
                pubkey: *source_pool_token_owner_key,
                is_signer: true,
                is_writable: false,
            }),
            (AccountMeta { pubkey: *source_pool_token_key, is_signer: false, is_writable: true }),
            (AccountMeta { pubkey: *pool_key, is_signer: false, is_writable: true }),
        ] + writable_metas(pool_asset_keys@) + writable_metas(target_asset_keys@),
{
    let data = (PoolInstruction::Redeem { pool_seed, pool_token_amount }).pack();
    let mut accounts: Vec<AccountMeta> = Vec::new();
    accounts.push(AccountMeta::new_readonly(*spl_token_program_id, false));
    accounts.push(AccountMeta::new(*mint_key, false));
    accounts.push(AccountMeta::new_readonly(*source_pool_token_owner_key, true));
    accounts.push(AccountMeta::new(*source_pool_token_key, false));
    accounts.push(AccountMeta::new(*pool_key, false));
    push_writable_keys(&mut accounts, pool_asset_keys);
    push_writable_keys(&mut accounts, target_asset_keys);
    proof {
        assert(accounts@ =~= seq![
            (AccountMeta { pubkey: *spl_token_program_id, is_signer: false, is_writable: false }),
            (AccountMeta { pubkey: *mint_key, is_signer: false, is_writable: true }),
            (AccountMeta {
                pubkey: *source_pool_token_owner_key,
                is_signer: true,
                is_writable: false,
            }),
            (AccountMeta { pubkey: *source_pool_token_key, is_signer: false, is_writable: true }),
            (AccountMeta { pubkey: *pool_key, is_signer: false, is_writable: true }),
        ] + writable_metas(pool_asset_keys@) + writable_metas(target_asset_keys@));
    }
    Ok(Instruction { program_id: *bonfidabot_program_id, accounts, data })
}

/// Builds a `CreateOrder` instruction: the canonical `CreateOrder` payload
/// addressed to the pool program, with the signing signal provider, the
/// market, the paying pool asset account, the open-orders account, the
/// request queue, the pool, the two vaults, the token program, the rent
/// sysvar and the order-book program, and optionally a writable fee-rebate
/// referrer account.
pub fn create_order(
    bonfidabot_program_id: &Pubkey,
    signal_provider: &Pubkey,
    market: &Pubkey,
    payer_pool_asset_account: &Pubkey,
    payer_pool_asset_index: u64,
    target_pool_asset_index: u64,
    openorders_account: &Pubkey,
    serum_request_queue: &Pubkey,
    pool_account: &Pubkey,
    coin_vault: &Pubkey,
    pc_vault: &Pubkey,
    spl_token_program: &Pubkey,
    dex_program: &Pubkey,
    rent_sysvar: &Pubkey,
    srm_referrer_account: Option<&Pubkey>,
    pool_seed: [u8; 32],
    side: Side,
    limit_price: u64,
    market_index: u16,
    coin_lot_size: u64,
    pc_lot_size: u64,
    target_mint: &Pubkey,
    ratio_of_pool_assets_to_trade: u16,
    order_type: OrderType,
    client_id: u64,
    self_trade_behavior: SelfTradeBehavior,
) -> (r: Result<Instruction, PoolError>)
    requires
        limit_price != 0,
        ratio_of_pool_assets_to_trade != 0,
    ensures
        r matches Ok(ins) && ins.program_id == *bonfidabot_program_id && ins.data@ == spec_encode(
            (Command::CreateOrder {
                pool_seed: pool_seed@,
                side,
                limit_price,
                ratio_of_pool_assets_to_trade,
                order_type,
                client_id,
                self_trade_behavior,
                source_index: payer_pool_asset_index,
                target_index: target_pool_asset_index,
                market_index,
                coin_lot_size,
                pc_lot_size,
                target_mint: target_mint@,
            }),
        ) && ins.accounts@ == seq![
            (AccountMeta { pubkey: *signal_provider, is_signer: true, is_writable: false }),
            (AccountMeta { pubkey: *market, is_signer: false, is_writable: true }),
            (AccountMeta {
                pubkey: *payer_pool_asset_account,
                is_signer: false,
                is_writable: true,
            }),
            (AccountMeta { pubkey: *openorders_account, is_signer: false, is_writable: true }),
            (AccountMeta { pubkey: *serum_request_queue, is_signer: false, is_writable: true }),
            (AccountMeta { pubkey: *pool_account, is_signer: false, is_writable: true }),
            (AccountMeta { pubkey: *coin_vault, is_signer: false, is_writable: true }),
            (AccountMeta { pubkey: *pc_vault, is_signer: false, is_writable: true }),
            (AccountMeta { pubkey: *spl_token_program, is_signer: false, is_writable: false }),
            (AccountMeta { pubkey: *rent_sysvar, is_signer: false, is_writable: false }),
            (AccountMeta { pubkey: *dex_program, is_signer: false, is_writable: false }),
        ] + (match srm_referrer_account {
            Some(key) => seq![
                (AccountMeta { pubkey: *key, is_signer: false, is_writable: true }),
            ],
            None => Seq::<AccountMeta>::empty(),
        }),
{
    let instruction = PoolInstruction::CreateOrder {
        pool_seed,
        side,
        limit_price,
        ratio_of_pool_assets_to_trade,
        order_type,
        client_id,
        self_trade_behavior,
        source_index: payer_pool_asset_index,
        target_index: target_pool_asset_index,
        market_index,
        coin_lot_size,
        pc_lot_size,
        target_mint: *target_mint,
    };
    let data = instruction.pack();
    let mut accounts: Vec<AccountMeta> = Vec::new();
    accounts.push(AccountMeta::new_readonly(*signal_provider, true));
    accounts.push(AccountMeta::new(*market, false));
    accounts.push(AccountMeta::new(*payer_pool_asset_account, false));
    accounts.push(AccountMeta::new(*openorders_account, false));
    accounts.push(AccountMeta::new(*serum_request_queue, false));
    accounts.push(AccountMeta::new(*pool_account, false));
    accounts.push(AccountMeta::new(*coin_vault, false));
    accounts.push(AccountMeta::new(*pc_vault, false));
    accounts.push(AccountMeta::new_readonly(*spl_token_program, false));
    accounts.push(AccountMeta::new_readonly(*rent_sysvar, false));
    accounts.push(AccountMeta::new_readonly(*dex_program, false));
    let ghost base = accounts@;
    if let Some(key) = srm_referrer_account {
        accounts.push(AccountMeta::new(*key, false));
    }
    proof {
        assert(accounts@ =~= base + (match srm_referrer_account {
            Some(key) => seq![
                (AccountMeta { pubkey: *key, is_signer: false, is_writable: true }),
            ],
            None => Seq::<AccountMeta>::empty(),
        }));
        assert(base =~= seq![
            (AccountMeta { pubkey: *signal_provider, is_signer: true, is_writable: false }),
            (AccountMeta { pubkey: *market, is_signer: false, is_writable: true }),
            (AccountMeta {
                pubkey: *payer_pool_asset_account,
                is_signer: false,
                is_writable: true,
            }),
            (AccountMeta { pubkey: *openorders_account, is_signer: false, is_writable: true }),
            (AccountMeta { pubkey: *serum_request_queue, is_signer: false, is_writable: true }),
            (AccountMeta { pubkey: *pool_account, is_signer: false, is_writable: true }),
            (AccountMeta { pubkey: *coin_vault, is_signer: false, is_writable: true }),
            (AccountMeta { pubkey: *pc_vault, is_signer: false, is_writable: true }),
            (AccountMeta { pubkey: *spl_token_program, is_signer: false, is_writable: false }),
            (AccountMeta { pubkey: *rent_sysvar, is_signer: false, is_writable: false }),
            (AccountMeta { pubkey: *dex_program, is_signer: false, is_writable: false }),
        ]);
    }
    Ok(Instruction { program_id: *bonfidabot_program_id, accounts, data })
}

/// Builds a `CancelOrder` instruction: the canonical `CancelOrder` payload
/// addressed to the pool program, with the signing signal provider, the
/// market, the open-orders account, the request queue, the pool and the
/// order-book program.
pub fn cancel_order(
    bonfidabot_program_id: &Pubkey,
    signal_provider: &Pubkey,
    market: &Pubkey,
    openorders_account: &Pubkey,
    serum_request_queue: &Pubkey,
    pool_account: &Pubkey,
    dex_program: &Pubkey,
    pool_seed: [u8; 32],
    side: Side,
    order_id: u128,
) -> (r: Result<Instruction, PoolError>)
    ensures
        r matches Ok(ins) && ins.program_id == *bonfidabot_program_id && ins.data@ == spec_encode(
            (Command::CancelOrder { pool_seed: pool_seed@, side, order_id }),
        ) && ins.accounts@ == seq![
            (AccountMeta { pubkey: *signal_provider, is_signer: true, is_writable: false }),
            (AccountMeta { pubkey: *market, is_signer: false, is_writable: false }),
            (AccountMeta { pubkey: *openorders_account, is_signer: false, is_writable: true }),
            (AccountMeta { pubkey: *serum_request_queue, is_signer: false, is_writable: true }),
            (AccountMeta { pubkey: *pool_account, is_signer: false, is_writable: false }),
            (AccountMeta { pubkey: *dex_program, is_signer: false, is_writable: false }),
        ],
{
    let data = (PoolInstruction::CancelOrder { pool_seed, side, order_id }).pack();
    let mut accounts: Vec<AccountMeta> = Vec::new();
    accounts.push(AccountMeta::new_readonly(*signal_provider, true));
    accounts.push(AccountMeta::new_readonly(*market, false));
    accounts.push(AccountMeta::new(*openorders_account, false));
    accounts.push(AccountMeta::new(*serum_request_queue, false));
    accounts.push(AccountMeta::new_readonly(*pool_account, false));
    accounts.push(AccountMeta::new_readonly(*dex_program, false));
    proof {
        assert(accounts@ =~= seq![
            (AccountMeta { pubkey: *signal_provider, is_signer: true, is_writable: false }),
            (AccountMeta { pubkey: *market, is_signer: false, is_writable: false }),
            (AccountMeta { pubkey: *openorders_account, is_signer: false, is_writable: true }),
            (AccountMeta { pubkey: *serum_request_queue, is_signer: false, is_writable: true }),
            (AccountMeta { pubkey: *pool_account, is_signer: false, is_writable: false }),
            (AccountMeta { pubkey: *dex_program, is_signer: false, is_writable: false }),
        ]);
    }
    Ok(Instruction { program_id: *bonfidabot_program_id, accounts, data })
}

/// Builds a `SettleFunds` instruction: the canonical `SettleFunds` payload
/// addressed to the pool program, with the market, the pool's open-orders
/// account, the pool, the mint, the two vaults, the two pool wallets, the
/// vault signer, the token program and the order-book program, and
/// optionally a writable referrer wallet.
pub fn settle_funds(
    bonfidabot_program_id: &Pubkey,
    market: &Pubkey,
    openorders_account: &Pubkey,
    pool_account: &Pubkey,
    pool_token_mint: &Pubkey,
    coin_vault: &Pubkey,
    pc_vault: &Pubkey,
    pool_coin_wallet: &Pubkey,
    pool_pc_wallet: &Pubkey,
    vault_signer: &Pubkey,
    spl_token_program: &Pubkey,
    dex_program: &Pubkey,
    referrer_pc_account: Option<&Pubkey>,
    pool_seed: [u8; 32],
    pc_index: u64,
    coin_index: u64,
) -> (r: Result<Instruction, PoolError>)
    ensures
        r matches Ok(ins) && ins.program_id == *bonfidabot_program_id && ins.data@ == spec_encode(
            (Command::SettleFunds { pool_seed: pool_seed@, pc_index, coin_index }),
        ) && ins.accounts@ == seq![
            (AccountMeta { pubkey: *market, is_signer: false, is_writable: true }),
            (AccountMeta { pubkey: *openorders_account, is_signer: false, is_writable: true }),
            (AccountMeta { pubkey: *pool_account, is_signer: false, is_writable: true }),
            (AccountMeta { pubkey: *pool_token_mint, is_signer: false, is_writable: false }),
            (AccountMeta { pubkey: *coin_vault, is_signer: false, is_writable: true }),
            (AccountMeta { pubkey: *pc_vault, is_signer: false, is_writable: true }),
            (AccountMeta { pubkey: *pool_coin_wallet, is_signer: false, is_writable: true }),
            (AccountMeta { pubkey: *pool_pc_wallet, is_signer: false, is_writable: true }),
            (AccountMeta { pubkey: *vault_signer, is_signer: false, is_writable: false }),
            (AccountMeta { pubkey: *spl_token_program, is_signer: false, is_writable: false }),
            (AccountMeta { pubkey: *dex_program, is_signer: false, is_writable: false }),
        ] + (match referrer_pc_account {
            Some(key) => seq![
                (AccountMeta { pubkey: *key, is_signer: false, is_writable: true }),
            ],
            None => Seq::<AccountMeta>::empty(),
        }),
{
    let data = (PoolInstruction::SettleFunds { pool_seed, pc_index, coin_index }).pack();
    let mut accounts: Vec<AccountMeta> = Vec::new();
    accounts.push(AccountMeta::new(*market, false));
    accounts.push(AccountMeta::new(*openorders_account, false));
    accounts.push(AccountMeta::new(*pool_account, false));
    accounts.push(AccountMeta::new_readonly(*pool_token_mint, false));
    accounts.push(AccountMeta::new(*coin_vault, false));
    accounts.push(AccountMeta::new(*pc_vault, false));
    accounts.push(AccountMeta::new(*pool_coin_wallet, false));
    accounts.push(AccountMeta::new(*pool_pc_wallet, false));
    accounts.push(AccountMeta::new_readonly(*vault_signer, false));
    accounts.push(AccountMeta::new_readonly(*spl_token_program, false));
    accounts.push(AccountMeta::new_readonly(*dex_program, false));
    let ghost base = accounts@;
    if let Some(key) = referrer_pc_account {
        accounts.push(AccountMeta::new(*key, false));
    }
    proof {
        assert(accounts@ =~= base + (match referrer_pc_account {
            Some(key) => seq![
                (AccountMeta { pubkey: *key, is_signer: false, is_writable: true }),
            ],
            None => Seq::<AccountMeta>::empty(),
        }));
        assert(base =~= seq![
            (AccountMeta { pubkey: *market, is_signer: false, is_writable: true }),
            (AccountMeta { pubkey: *openorders_account, is_signer: false, is_writable: true }),
            (AccountMeta { pubkey: *pool_account, is_signer: false, is_writable: true }),
            (AccountMeta { pubkey: *pool_token_mint, is_signer: false, is_writable: false }),
            (AccountMeta { pubkey: *coin_vault, is_signer: false, is_writable: true }),
            (AccountMeta { pubkey: *pc_vault, is_signer: false, is_writable: true }),
            (AccountMeta { pubkey: *pool_coin_wallet, is_signer: false, is_writable: true }),
            (AccountMeta { pubkey: *pool_pc_wallet, is_signer: false, is_writable: true }),
            (AccountMeta { pubkey: *vault_signer, is_signer: false, is_writable: false }),
            (AccountMeta { pubkey: *spl_token_program, is_signer: false, is_writable: false }),
            (AccountMeta { pubkey: *dex_program, is_signer: false, is_writable: false }),
        ]);
    }
    Ok(Instruction { program_id: *bonfidabot_program_id, accounts, data })
}

} // verus!
