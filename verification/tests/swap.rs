use anchor_lang::solana_program::program_option::COption;
use anchor_spl::token_2022::spl_token_2022::extension::transfer_fee::TransferFeeConfig as MintTransferFeeConfig;
use anchor_spl::token_2022::spl_token_2022::extension::transfer_hook::TransferHook;
use anchor_spl::token_2022::spl_token_2022::extension::BaseStateWithExtensionsMut;
use anchor_spl::token_2022::spl_token_2022::extension::ExtensionType;
use anchor_spl::token_2022::spl_token_2022::extension::StateWithExtensionsMut;
use anchor_spl::token_2022::spl_token_2022::state::Mint as MintState;
use loko_swap::accounts::AccountData;
use loko_swap::accounts::Mint;
use loko_swap::accounts::TokenAccount;
use loko_swap::address::Address;
use loko_swap::curve::SwapResult;
use loko_swap::error::AmmError;
use loko_swap::error::Error;
use loko_swap::instructions::swap::gross_output;
use loko_swap::instructions::swap::parse_dynamic_fee_stats;
use loko_swap::instructions::swap::quote_swap;
use loko_swap::instructions::swap::select_dynamic_fee;
use loko_swap::instructions::swap::Swap;
use loko_swap::instructions::swap::SwapPlan;
use loko_swap::instructions::transfer::deposit_transfer_kind;
use loko_swap::instructions::transfer::transfer_kind;
use loko_swap::instructions::transfer::TransferAuthority;
use loko_swap::instructions::transfer::TransferInstruction;
use loko_swap::instructions::transfer::TransferKind;
use loko_swap::state::config::Config;
use loko_swap::token_utils::TokenExtensions;

fn key(tag: u8) -> Address {
    Address::new([tag; 32])
}

fn token_2022() -> Address {
    Address::new(anchor_spl::token_2022::spl_token_2022::id().to_bytes())
}

fn legacy_token() -> Address {
    Address::new(anchor_spl::token::ID.to_bytes())
}

fn mint_bytes(fee: Option<(u16, u64)>, hook: Option<[u8; 32]>) -> Vec<u8> {
    let mut types = Vec::new();
    if fee.is_some() {
        types.push(ExtensionType::TransferFeeConfig);
    }
    if hook.is_some() {
        types.push(ExtensionType::TransferHook);
    }
    let len = ExtensionType::try_calculate_account_len::<MintState>(&types).unwrap();
    let mut data = vec![0u8; len];
    let mut state = StateWithExtensionsMut::<MintState>::unpack_uninitialized(&mut data).unwrap();
    if let Some((basis_points, maximum)) = fee {
        let config = state.init_extension::<MintTransferFeeConfig>(true).unwrap();
        config.newer_transfer_fee.transfer_fee_basis_points = basis_points.into();
        config.newer_transfer_fee.maximum_fee = maximum.into();
    }
    if let Some(program) = hook {
        let extension = state.init_extension::<TransferHook>(true).unwrap();
        extension.program_id.0 = anchor_lang::prelude::Pubkey::new_from_array(program);
    }
    state.base = MintState {
        mint_authority: COption::None,
        supply: 0,
        decimals: 6,
        is_initialized: true,
        freeze_authority: COption::None,
    };
    state.pack_base();
    state.init_account_type().unwrap();
    data
}

fn plain_mint(tag: u8, decimals: u8) -> Mint {
    Mint {
        account: AccountData { key: key(tag), owner: legacy_token(), data: vec![0u8; 82] },
        supply: 0,
        decimals,
    }
}

fn mint_2022(tag: u8, decimals: u8, fee: Option<(u16, u64)>, hook: Option<[u8; 32]>) -> Mint {
    Mint {
        account: AccountData { key: key(tag), owner: token_2022(), data: mint_bytes(fee, hook) },
        supply: 0,
        decimals,
    }
}

fn broken_mint(tag: u8) -> Mint {
    Mint {
        account: AccountData { key: key(tag), owner: token_2022(), data: vec![7u8; 10] },
        supply: 0,
        decimals: 6,
    }
}

fn config(fee: u16) -> Config {
    Config {
        seed: 1,
        authority: Some(key(50)),
        mint_x: key(10),
        mint_y: key(11),
        fee,
        locked: false,
        lp_bump: 254,
        config_bump: 255,
        fee_destination: key(50),
        default_transfer_fee_basis_points: 50,
        default_transfer_fee_max: 1_000,
        fee_withdraw_authority: key(60),
        default_hook_program: None,
        supports_transfer_fees: false,
        supports_transfer_hooks: false,
        supports_metadata: false,
        supports_interest_bearing: false,
        approved_hook_programs: Vec::new(),
    }
}

fn pool(mint_x: Mint, mint_y: Mint, vault_x: u64, vault_y: u64, supply: u64, fee: u16) -> Swap {
    Swap {
        user: key(40),
        mint_x,
        mint_y,
        user_x: TokenAccount { key: key(41), amount: 0 },
        user_y: TokenAccount { key: key(42), amount: 0 },
        vault_x: TokenAccount { key: key(20), amount: vault_x },
        vault_y: TokenAccount { key: key(21), amount: vault_y },
        config: config(fee),
        mint_lp: Mint {
            account: AccountData { key: key(30), owner: token_2022(), data: Vec::new() },
            supply,
            decimals: 6,
        },
        user_lp: TokenAccount { key: key(43), amount: 0 },
    }
}

fn plain_pool() -> Swap {
    pool(plain_mint(10, 6), plain_mint(11, 9), 1_000_000, 1_000_000, 1_000_000, 30)
}

fn fee_record(fee: u16, len: usize) -> Vec<u8> {
    let mut data = vec![0u8; len];
    if len >= 34 {
        data[32] = fee.to_le_bytes()[0];
        data[33] = fee.to_le_bytes()[1];
    }
    data
}

fn accounts_with_record(count: usize, record: Vec<u8>) -> Vec<AccountData> {
    let mut accounts = Vec::new();
    for i in 0..count {
        let data = if i == 7 { record.clone() } else { vec![0xffu8; 64] };
        accounts.push(AccountData { key: key(100 + i as u8), owner: key(99), data });
    }
    accounts
}

fn plain() -> TokenExtensions {
    TokenExtensions {
        has_transfer_fee: false,
        has_transfer_hook: false,
        transfer_hook_program_id: None,
        transfer_fee_basis_points: 0,
        transfer_fee_maximum: 0,
    }
}

fn taxed(basis_points: u16, maximum: u64) -> TokenExtensions {
    TokenExtensions {
        has_transfer_fee: true,
        has_transfer_hook: false,
        transfer_hook_program_id: None,
        transfer_fee_basis_points: basis_points,
        transfer_fee_maximum: maximum,
    }
}

fn hooked(program: u8, fee: Option<(u16, u64)>) -> TokenExtensions {
    TokenExtensions {
        has_transfer_fee: fee.is_some(),
        has_transfer_hook: true,
        transfer_hook_program_id: Some(key(program)),
        transfer_fee_basis_points: fee.map(|f| f.0).unwrap_or(0),
        transfer_fee_maximum: fee.map(|f| f.1).unwrap_or(0),
    }
}

#[test]
fn swap_of_plain_tokens() {
    let plan = plain_pool().swap(true, 10_000, 0, &[]).unwrap();
    assert_eq!(
        plan,
        SwapPlan {
            fee_basis_points: 30,
            moved: SwapResult { deposit: 10_000, withdraw: 9_871, fee: 30 },
            deposit: TransferInstruction {
                is_x: true,
                authority: TransferAuthority::User,
                kind: TransferKind::Checked,
                amount: 10_000,
                decimals: 6,
            },
            withdraw: TransferInstruction {
                is_x: false,
                authority: TransferAuthority::Pool,
                kind: TransferKind::Checked,
                amount: 9_871,
                decimals: 9,
            },
        }
    );
    assert!(plan.moved.withdraw < 9_970);
}

#[test]
fn swap_below_the_minimum_is_refused() {
    assert_eq!(plain_pool().swap(true, 10_000, 9_872, &[]), Err(Error::Amm(AmmError::SlippageExceeded)));
    assert_eq!(plain_pool().swap(true, 10_000, 9_970, &[]), Err(Error::Amm(AmmError::SlippageExceeded)));
    assert!(plain_pool().swap(true, 10_000, 9_871, &[]).is_ok());
}

#[test]
fn swap_of_the_other_token() {
    let swap = pool(plain_mint(10, 6), plain_mint(11, 9), 500, 2_000, 7, 0);
    let plan = swap.swap(false, 1_000, 166, &[]).unwrap();
    assert_eq!(plan.moved, SwapResult { deposit: 1_000, withdraw: 166, fee: 0 });
    assert_eq!(plan.deposit.is_x, false);
    assert_eq!(plan.deposit.decimals, 9);
    assert_eq!(plan.withdraw.is_x, true);
    assert_eq!(plan.withdraw.amount, 166);
    assert_eq!(plan.withdraw.decimals, 6);
}

#[test]
fn swap_takes_the_input_token_s_fee_first() {
    let swap = pool(mint_2022(10, 6, Some((50, 1_000)), None), plain_mint(11, 9), 1_000_000, 1_000_000, 1_000_000, 30);
    let plan = swap.swap(true, 10_000, 0, &[]).unwrap();
    assert_eq!(plan.moved, SwapResult { deposit: 9_950, withdraw: 9_823, fee: 29 });
    assert_eq!(plan.deposit.amount, 10_000);
    assert_eq!(plan.deposit.kind, TransferKind::CheckedWithFee { expected_fee: 50 });
    assert_eq!(plan.withdraw.amount, 9_823);
    assert_eq!(plan.withdraw.kind, TransferKind::Checked);
}

#[test]
fn swap_sends_the_gross_amount_of_the_output_token() {
    let swap = pool(mint_2022(10, 6, Some((50, 1_000)), None), plain_mint(11, 9), 1_000_000, 1_000_000, 1_000_000, 30);
    let plan = swap.swap(false, 10_000, 0, &[]).unwrap();
    assert_eq!(plan.moved, SwapResult { deposit: 10_000, withdraw: 9_871, fee: 30 });
    assert_eq!(plan.withdraw.is_x, true);
    assert_eq!(plan.withdraw.amount, 9_921);
    assert_eq!(plan.withdraw.kind, TransferKind::CheckedWithFee { expected_fee: 49 });
    assert_eq!(plan.deposit.kind, TransferKind::Checked);
}

#[test]
fn swap_of_a_token_with_a_hook_is_sent_with_the_hook_s_accounts() {
    let swap = pool(
        mint_2022(10, 6, Some((50, 1_000)), Some([77u8; 32])),
        mint_2022(11, 9, None, Some([77u8; 32])),
        1_000_000,
        1_000_000,
        1_000_000,
        30,
    );
    let plan = swap.swap(true, 10_000, 0, &[]).unwrap();
    assert_eq!(plan.deposit.kind, TransferKind::CheckedWithHooks);
    assert_eq!(plan.withdraw.kind, TransferKind::CheckedWithHooks);
    assert_eq!(plan.moved.deposit, 9_950);
    assert_eq!(plan.withdraw.amount, 9_823);
}

#[test]
fn swap_uses_the_fee_controller_s_fee_for_an_approved_hook_program() {
    let mut swap = pool(
        mint_2022(10, 6, None, Some([77u8; 32])),
        plain_mint(11, 9),
        1_000_000,
        1_000_000,
        1_000_000,
        30,
    );
    let accounts = accounts_with_record(8, fee_record(120, 200));
    swap.config.approved_hook_programs = vec![key(76), key(77)];
    assert_eq!(swap.get_dynamic_fee(&accounts), Some(120));
    let plan = swap.swap(true, 10_000, 0, &accounts).unwrap();
    assert_eq!(plan.fee_basis_points, 120);
    assert_eq!(plan.moved, SwapResult { deposit: 10_000, withdraw: 9_783, fee: 120 });

    swap.config.default_hook_program = Some(key(76));
    assert_eq!(swap.get_dynamic_fee(&accounts), Some(120));
    assert_eq!(swap.swap(true, 10_000, 0, &accounts).unwrap().fee_basis_points, 120);
}

#[test]
fn swap_uses_the_pool_s_fee_for_a_hook_program_that_is_not_approved() {
    let mut swap = pool(
        mint_2022(10, 6, None, Some([77u8; 32])),
        plain_mint(11, 9),
        1_000_000,
        1_000_000,
        1_000_000,
        30,
    );
    let accounts = accounts_with_record(8, fee_record(120, 200));
    assert!(swap.config.approved_hook_programs.is_empty());
    assert_eq!(swap.config.default_hook_program, None);
    assert_eq!(swap.get_dynamic_fee(&accounts), None);
    let plan = swap.swap(true, 10_000, 0, &accounts).unwrap();
    assert_eq!(plan.fee_basis_points, 30);
    assert_eq!(plan.moved, SwapResult { deposit: 10_000, withdraw: 9_871, fee: 30 });

    swap.config.approved_hook_programs = vec![key(76), key(78)];
    swap.config.default_hook_program = Some(key(77));
    assert_eq!(swap.get_dynamic_fee(&accounts), None);
    assert_eq!(swap.swap(true, 10_000, 0, &accounts).unwrap().fee_basis_points, 30);
}

#[test]
fn swap_falls_back_on_the_pool_s_fee() {
    let mut swap = pool(
        plain_mint(10, 6),
        mint_2022(11, 9, None, Some([77u8; 32])),
        1_000_000,
        1_000_000,
        1_000_000,
        30,
    );
    swap.config.approved_hook_programs = vec![key(77)];
    assert_eq!(swap.get_dynamic_fee(&accounts_with_record(8, fee_record(120, 36))), Some(120));
    assert_eq!(swap.get_dynamic_fee(&accounts_with_record(9, fee_record(121, 36))), Some(121));
    assert_eq!(swap.get_dynamic_fee(&accounts_with_record(8, fee_record(120, 35))), None);
    assert_eq!(swap.get_dynamic_fee(&accounts_with_record(7, fee_record(120, 200))), None);
    assert_eq!(swap.get_dynamic_fee(&[]), None);
    let mut plain = plain_pool();
    plain.config.approved_hook_programs = vec![key(77)];
    assert_eq!(plain.get_dynamic_fee(&accounts_with_record(8, fee_record(120, 200))), None);
    let mut unreadable = pool(
        broken_mint(10),
        mint_2022(11, 9, None, Some([77u8; 32])),
        1_000_000,
        1_000_000,
        1_000_000,
        30,
    );
    unreadable.config.approved_hook_programs = vec![key(77)];
    assert_eq!(unreadable.get_dynamic_fee(&accounts_with_record(8, fee_record(120, 200))), None);
}

#[test]
fn dynamic_fee_goes_by_the_hook_of_x_before_that_of_y() {
    let accounts = accounts_with_record(8, fee_record(250, 64));
    assert_eq!(select_dynamic_fee(&hooked(1, None), &hooked(2, None), &[key(1)], &accounts), Some(250));
    assert_eq!(select_dynamic_fee(&hooked(1, None), &hooked(2, None), &[key(2)], &accounts), None);
    assert_eq!(select_dynamic_fee(&hooked(1, None), &hooked(2, None), &[key(2), key(1)], &accounts), Some(250));
    assert_eq!(select_dynamic_fee(&plain(), &hooked(2, None), &[key(2)], &accounts), Some(250));
    assert_eq!(select_dynamic_fee(&plain(), &hooked(2, None), &[], &accounts), None);
    assert_eq!(select_dynamic_fee(&plain(), &taxed(50, 10), &[key(2)], &accounts), None);
    let mut nameless = hooked(1, None);
    nameless.transfer_hook_program_id = None;
    assert_eq!(select_dynamic_fee(&nameless, &hooked(2, None), &[key(1), key(2)], &accounts), None);
}

#[test]
fn fee_record_is_read_from_its_bytes() {
    let mut data = vec![0u8; 92];
    data[32] = 0x2c;
    data[33] = 0x01;
    data[34] = 10;
    data[35] = 0;
    data[44..52].copy_from_slice(&0x0102_0304_0506_0708u64.to_le_bytes());
    data[52..60].copy_from_slice(&u64::MAX.to_le_bytes());
    data[84..92].copy_from_slice(&77u64.to_le_bytes());
    let stats = parse_dynamic_fee_stats(&data).unwrap();
    assert_eq!(stats.current_fee_basis_points, 300);
    assert_eq!(stats.base_fee_basis_points, 10);
    assert_eq!(stats.recent_transfers, [0x0102_0304_0506_0708, u64::MAX, 0, 0, 0, 77]);
    let short = parse_dynamic_fee_stats(&data[..91]).unwrap();
    assert_eq!(short.recent_transfers, [0x0102_0304_0506_0708, u64::MAX, 0, 0, 0, 0]);
    let shortest = parse_dynamic_fee_stats(&data[..36]).unwrap();
    assert_eq!(shortest.current_fee_basis_points, 300);
    assert_eq!(shortest.recent_transfers, [0, 0, 0, 0, 0, 0]);
    assert!(parse_dynamic_fee_stats(&data[..35]).is_none());
    assert!(parse_dynamic_fee_stats(&[]).is_none());
    let mut high = vec![0u8; 36];
    high[32] = 0xff;
    high[33] = 0xff;
    high[35] = 0x80;
    let stats = parse_dynamic_fee_stats(&high).unwrap();
    assert_eq!(stats.current_fee_basis_points, u16::MAX);
    assert_eq!(stats.base_fee_basis_points, 0x8000);
}

#[test]
fn swap_is_refused_by_a_locked_pool() {
    let mut swap = plain_pool();
    swap.config.locked = true;
    assert_eq!(swap.swap(true, 10_000, 0, &[]), Err(Error::Amm(AmmError::PoolLocked)));
    swap.config.mint_x = key(1);
    assert_eq!(swap.swap(true, 0, 0, &[]), Err(Error::Amm(AmmError::PoolLocked)));
}

#[test]
fn swap_is_refused_for_other_tokens_than_the_pool_s() {
    let mut swap = plain_pool();
    swap.config.mint_x = key(12);
    assert_eq!(swap.swap(true, 10_000, 0, &[]), Err(Error::Amm(AmmError::InvalidToken)));
    let mut swap = plain_pool();
    swap.config.mint_y = key(12);
    assert_eq!(swap.swap(true, 10_000, 0, &[]), Err(Error::Amm(AmmError::InvalidToken)));
}

#[test]
fn swap_of_nothing_is_refused() {
    assert_eq!(plain_pool().swap(true, 0, 0, &[]), Err(Error::Amm(AmmError::InvalidAmount)));
    let swap = pool(
        mint_2022(10, 6, Some((10_000, u64::MAX)), None),
        plain_mint(11, 9),
        1_000_000,
        1_000_000,
        1_000_000,
        30,
    );
    assert_eq!(swap.swap(true, 10_000, 0, &[]), Err(Error::Amm(AmmError::InvalidAmount)));
}

#[test]
fn swap_in_a_pool_without_reserves_is_refused() {
    for (x, y) in [(0u64, 1_000u64), (1_000, 0), (0, 0)] {
        let swap = pool(plain_mint(10, 6), plain_mint(11, 9), x, y, 1, 30);
        assert_eq!(swap.swap(true, 10, 0, &[]), Err(Error::Amm(AmmError::MathOverflow)));
    }
}

#[test]
fn swap_that_would_overflow_the_vault_is_refused() {
    let swap = pool(plain_mint(10, 6), plain_mint(11, 9), u64::MAX - 5, 10, 1, 30);
    assert_eq!(swap.swap(true, 6, 0, &[]), Err(Error::Amm(AmmError::SlippageExceeded)));
}

#[test]
fn swap_that_the_vault_cannot_pay_is_refused() {
    let swap = pool(
        plain_mint(10, 6),
        mint_2022(11, 9, Some((5_000, u64::MAX)), None),
        1,
        100,
        1,
        30,
    );
    assert_eq!(swap.swap(true, 1_000, 0, &[]), Err(Error::Amm(AmmError::InsufficientFunds)));
    assert_eq!(gross_output(&taxed(5_000, u64::MAX), 99, 197), Err(AmmError::InsufficientFunds));
    assert_eq!(gross_output(&taxed(5_000, u64::MAX), 99, 198), Ok(198));
    assert_eq!(gross_output(&plain(), 99, 99), Ok(99));
    assert_eq!(gross_output(&plain(), 99, 98), Err(AmmError::InsufficientFunds));
}

#[test]
fn swap_whose_gross_output_does_not_exist_overflows() {
    let swap = pool(
        plain_mint(10, 6),
        mint_2022(11, 9, Some((10_000, u64::MAX)), None),
        1_000_000,
        1_000_000,
        1,
        30,
    );
    assert_eq!(swap.swap(true, 1_000, 0, &[]), Err(Error::Amm(AmmError::MathOverflow)));
    assert_eq!(gross_output(&taxed(10_000, 5), 1, u64::MAX), Err(AmmError::MathOverflow));
    assert_eq!(gross_output(&taxed(5_000, 5), u64::MAX, u64::MAX), Err(AmmError::MathOverflow));
}

#[test]
fn swap_reports_a_mint_it_cannot_read() {
    let input = pool(broken_mint(10), plain_mint(11, 9), 1_000_000, 1_000_000, 1, 30);
    assert!(matches!(input.swap(true, 1_000, 0, &[]), Err(Error::Program(_))));
    assert!(matches!(input.swap(false, 1_000, 0, &[]), Err(Error::Program(_))));
    assert_eq!(input.swap(false, 1_000, 1_000, &[]), Err(Error::Amm(AmmError::SlippageExceeded)));
    assert!(matches!(input.deposit_tokens(true, 5), Err(Error::Program(_))));
    assert!(matches!(input.withdraw_tokens(true, 5), Err(Error::Program(_))));
    assert!(input.deposit_tokens(false, 5).is_ok());
}

#[test]
fn quote_goes_by_what_reaches_the_vault() {
    assert_eq!(
        quote_swap(true, 10_000, 0, &plain(), 1_000_000, 1_000_000, 1_000_000, 30),
        Ok(SwapResult { deposit: 10_000, withdraw: 9_871, fee: 30 })
    );
    assert_eq!(
        quote_swap(true, 10_000, 0, &taxed(50, 1_000), 1_000_000, 1_000_000, 1_000_000, 30),
        Ok(SwapResult { deposit: 9_950, withdraw: 9_823, fee: 29 })
    );
    assert_eq!(quote_swap(true, 199, 0, &taxed(10_000, 1_000), 5, 5, 5, 30), Err(AmmError::InvalidAmount));
    assert_eq!(quote_swap(true, 10, 0, &plain(), 5, 5, 5, 10_001), Err(AmmError::MathOverflow));
    assert_eq!(quote_swap(true, 10, 0, &plain(), 5, 5, 5, 10_000).map(|m| m.withdraw), Ok(0));
}

#[test]
fn swap_never_lowers_the_product_of_the_vaults_without_output_fee() {
    for (x, y) in [(3u64, 3u64), (10, 1_000), (1_000_000, 1_000_000), (123_456_789, 987_654_321)] {
        for fee in [0u16, 30, 300, 1_000] {
            for amount in [1u64, 2, 7, 1_000, 10_000, 99_999_999] {
                for is_x in [true, false] {
                    for input in [plain(), taxed(50, 1_000), taxed(2_500, u64::MAX)] {
                        let moved = match quote_swap(is_x, amount, 0, &input, x, y, 1, fee) {
                            Ok(moved) => moved,
                            Err(_) => continue,
                        };
                        let (vault_in, vault_out) = if is_x { (x, y) } else { (y, x) };
                        let gross = gross_output(&plain(), moved.withdraw, vault_out).unwrap();
                        assert_eq!(gross, moved.withdraw);
                        assert_eq!(moved.deposit, input.calculate_net(amount));
                        let after = (vault_in as u128 + moved.deposit as u128) * (vault_out as u128 - gross as u128);
                        assert!(after >= (x as u128) * (y as u128));
                    }
                }
            }
        }
    }
}

#[test]
fn output_fee_can_lower_the_product_of_the_vaults() {
    let moved = quote_swap(true, 100, 0, &plain(), 1_000, 1_000, 1, 0).unwrap();
    assert_eq!(moved.withdraw, 90);
    let gross = gross_output(&taxed(50, u64::MAX), moved.withdraw, 1_000).unwrap();
    assert_eq!(gross, 91);
    assert!((1_000u64 + 100) * (1_000 - gross) < 1_000 * 1_000);
}

#[test]
fn transfer_takes_the_form_that_the_token_calls_for() {
    assert_eq!(transfer_kind(&plain(), 10_000), TransferKind::Checked);
    assert_eq!(transfer_kind(&taxed(50, 1_000), 10_000), TransferKind::CheckedWithFee { expected_fee: 50 });
    assert_eq!(transfer_kind(&taxed(50, 10), 10_000), TransferKind::CheckedWithFee { expected_fee: 10 });
    assert_eq!(transfer_kind(&hooked(1, None), 10_000), TransferKind::CheckedWithHooks);
    assert_eq!(transfer_kind(&hooked(1, Some((50, 1_000))), 10_000), TransferKind::CheckedWithHooks);
    assert_eq!(deposit_transfer_kind(&plain(), 10_000, true), TransferKind::Checked);
    assert_eq!(
        deposit_transfer_kind(&taxed(50, 1_000), 10_000, true),
        TransferKind::CheckedWithFee { expected_fee: 50 }
    );
    assert_eq!(deposit_transfer_kind(&hooked(1, None), 10_000, true), TransferKind::CheckedWithAccounts);
    assert_eq!(deposit_transfer_kind(&hooked(1, None), 10_000, false), TransferKind::Checked);
    assert_eq!(
        deposit_transfer_kind(&hooked(1, Some((50, 1_000))), 10_000, true),
        TransferKind::CheckedWithAccounts
    );
    assert_eq!(deposit_transfer_kind(&hooked(1, Some((50, 1_000))), 10_000, false), TransferKind::Checked);
}

#[test]
fn transfers_of_a_swap_name_side_signer_and_decimals() {
    let swap = pool(mint_2022(10, 6, Some((50, 1_000)), None), plain_mint(11, 9), 5, 5, 5, 30);
    assert_eq!(
        swap.deposit_tokens(true, 1_000_000),
        Ok(TransferInstruction {
            is_x: true,
            authority: TransferAuthority::User,
            kind: TransferKind::CheckedWithFee { expected_fee: 1_000 },
            amount: 1_000_000,
            decimals: 6,
        })
    );
    assert_eq!(
        swap.withdraw_tokens(false, 12),
        Ok(TransferInstruction {
            is_x: false,
            authority: TransferAuthority::Pool,
            kind: TransferKind::Checked,
            amount: 12,
            decimals: 9,
        })
    );
}
