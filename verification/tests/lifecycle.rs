use anchor_lang::solana_program::program_option::COption;
use anchor_spl::token_2022::spl_token_2022::extension::default_account_state::DefaultAccountState;
use anchor_spl::token_2022::spl_token_2022::extension::mint_close_authority::MintCloseAuthority;
use anchor_spl::token_2022::spl_token_2022::extension::non_transferable::NonTransferable;
use anchor_spl::token_2022::spl_token_2022::extension::transfer_fee::TransferFeeConfig as MintTransferFeeConfig;
use anchor_spl::token_2022::spl_token_2022::extension::transfer_hook::TransferHook;
use anchor_spl::token_2022::spl_token_2022::extension::BaseStateWithExtensionsMut;
use anchor_spl::token_2022::spl_token_2022::extension::ExtensionType;
use anchor_spl::token_2022::spl_token_2022::extension::StateWithExtensionsMut;
use anchor_spl::token_2022::spl_token_2022::state::Mint as MintState;
use loko_swap::accounts::AccountData;
use loko_swap::accounts::Mint;
use loko_swap::address::Address;
use loko_swap::error::AmmError;
use loko_swap::error::Error;
use loko_swap::instructions::initialize::Initialize;
use loko_swap::instructions::initialize::InitializeBumps;
use loko_swap::instructions::update::CollectFees;
use loko_swap::instructions::update::Update;
use loko_swap::state::config::Config;

fn key(tag: u8) -> Address {
    Address::new([tag; 32])
}

fn token_2022() -> Address {
    Address::new(anchor_spl::token_2022::spl_token_2022::id().to_bytes())
}

fn legacy_token() -> Address {
    Address::new(anchor_spl::token::ID.to_bytes())
}

fn mint_bytes(types: &[ExtensionType], default_state: u8) -> Vec<u8> {
    let len = ExtensionType::try_calculate_account_len::<MintState>(types).unwrap();
    let mut data = vec![0u8; len];
    let mut state = StateWithExtensionsMut::<MintState>::unpack_uninitialized(&mut data).unwrap();
    for extension in types {
        match extension {
            ExtensionType::TransferFeeConfig => {
                let config = state.init_extension::<MintTransferFeeConfig>(true).unwrap();
                config.newer_transfer_fee.transfer_fee_basis_points = 50.into();
                config.newer_transfer_fee.maximum_fee = 1_000.into();
            }
            ExtensionType::TransferHook => {
                let hook = state.init_extension::<TransferHook>(true).unwrap();
                hook.program_id.0 = anchor_lang::prelude::Pubkey::new_from_array([77u8; 32]);
            }
            ExtensionType::NonTransferable => {
                state.init_extension::<NonTransferable>(true).unwrap();
            }
            ExtensionType::DefaultAccountState => {
                let default = state.init_extension::<DefaultAccountState>(true).unwrap();
                default.state = default_state;
            }
            ExtensionType::MintCloseAuthority => {
                state.init_extension::<MintCloseAuthority>(true).unwrap();
            }
            _ => unreachable!(),
        }
    }
    state.base = MintState {
        mint_authority: COption::None,
        supply: 0,
        decimals: 6,
        is_initialized: true,
        freeze_authority: COption::None,
    };
    state.pack_base();
    state.init_account_type().unwrap();
    data
}

fn mint_2022(tag: u8, types: &[ExtensionType], default_state: u8) -> Mint {
    Mint {
        account: AccountData { key: key(tag), owner: token_2022(), data: mint_bytes(types, default_state) },
        supply: 0,
        decimals: 6,
    }
}

fn plain_mint(tag: u8) -> Mint {
    Mint {
        account: AccountData { key: key(tag), owner: legacy_token(), data: vec![0u8; 82] },
        supply: 0,
        decimals: 9,
    }
}

fn setup(mint_x: Mint, mint_y: Mint) -> Initialize {
    let token_program_x = mint_x.account.owner;
    let token_program_y = mint_y.account.owner;
    Initialize { admin: key(1), mint_x, mint_y, config: key(60), token_program_x, token_program_y }
}

fn bumps() -> InitializeBumps {
    InitializeBumps { config: 255, mint_lp: 254 }
}

fn pool_config() -> Config {
    setup(plain_mint(10), plain_mint(11)).initialize(7, 30, Some(key(50)), 50, 1_000, None, &bumps()).unwrap()
}

#[test]
fn initialize_sets_up_an_unlocked_pool() {
    let init = setup(
        mint_2022(10, &[ExtensionType::TransferFeeConfig, ExtensionType::MintCloseAuthority], 0),
        plain_mint(11),
    );
    let config = init.initialize(7, 30, Some(key(50)), 50, 1_000, Some(key(77)), &bumps()).unwrap();
    assert_eq!(config.seed, 7);
    assert_eq!(config.authority, Some(key(50)));
    assert_eq!(config.mint_x, key(10));
    assert_eq!(config.mint_y, key(11));
    assert_eq!(config.fee, 30);
    assert!(!config.locked);
    assert_eq!(config.config_bump, 255);
    assert_eq!(config.lp_bump, 254);
    assert_eq!(config.fee_destination, key(50));
    assert_eq!(config.default_transfer_fee_basis_points, 50);
    assert_eq!(config.default_transfer_fee_max, 1_000);
    assert_eq!(config.fee_withdraw_authority, key(60));
    assert_eq!(config.default_hook_program, Some(key(77)));
    assert!(config.supports_transfer_fees);
    assert!(!config.supports_transfer_hooks);
    assert!(!config.supports_metadata);
    assert!(!config.supports_interest_bearing);
    assert_eq!(config.approved_hook_programs, vec![key(77)]);
    assert!(config.is_approved(&key(77)));
}

#[test]
fn initialize_without_authority_pays_fees_to_the_admin() {
    let init = setup(plain_mint(10), mint_2022(11, &[ExtensionType::TransferHook], 0));
    let config = init.initialize(7, 1_000, None, 10_000, u64::MAX, None, &bumps()).unwrap();
    assert_eq!(config.authority, None);
    assert_eq!(config.fee_destination, key(1));
    assert_eq!(config.fee, 1_000);
    assert_eq!(config.default_transfer_fee_basis_points, 10_000);
    assert!(!config.supports_transfer_fees);
    assert!(config.supports_transfer_hooks);
    assert_eq!(config.default_hook_program, None);
    assert!(config.approved_hook_programs.is_empty());
    assert!(!config.is_approved(&key(77)));
    assert_eq!(init.has_transfer_hook(&init.mint_y), Some(key(77)));
    assert_eq!(init.has_transfer_hook(&init.mint_x), None);
    assert!(!init.has_transfer_fee(&init.mint_y));
}

#[test]
fn initialize_refuses_a_fee_too_high() {
    let init = setup(plain_mint(10), plain_mint(10));
    assert_eq!(
        init.initialize(7, 1_001, None, 0, 0, None, &bumps()).map(|c| c.fee),
        Err(Error::Amm(AmmError::InvalidFee))
    );
    assert_eq!(
        init.initialize(7, 30, None, 10_001, 0, None, &bumps()).map(|c| c.fee),
        Err(Error::Amm(AmmError::InvalidFee))
    );
}

#[test]
fn initialize_refuses_a_token_program_that_does_not_fit() {
    let mut init = setup(plain_mint(10), mint_2022(11, &[], 0));
    assert_eq!(init.validate_token_programs(), Ok(()));
    init.token_program_x = token_2022();
    assert_eq!(init.validate_token_programs(), Err(AmmError::InvalidTokenProgram));
    assert_eq!(
        init.initialize(7, 30, None, 0, 0, None, &bumps()).map(|c| c.fee),
        Err(Error::Amm(AmmError::InvalidTokenProgram))
    );
    let mut init = setup(plain_mint(10), mint_2022(11, &[], 0));
    init.token_program_y = legacy_token();
    assert_eq!(init.validate_token_programs(), Err(AmmError::InvalidTokenProgram));
    let mut stranger = plain_mint(10);
    stranger.account.owner = key(9);
    let init = setup(stranger.clone(), plain_mint(11));
    assert_eq!(init.validate_token_programs(), Err(AmmError::InvalidTokenProgram));
    let init = setup(plain_mint(11), stranger);
    assert_eq!(init.validate_token_programs(), Err(AmmError::InvalidTokenProgram));
}

#[test]
fn initialize_refuses_two_equal_mints() {
    let init = setup(plain_mint(10), plain_mint(10));
    assert_eq!(
        init.initialize(7, 30, None, 0, 0, None, &bumps()).map(|c| c.fee),
        Err(Error::Amm(AmmError::IdenticalMints))
    );
}

#[test]
fn initialize_refuses_tokens_that_cannot_move() {
    let fixed = mint_2022(10, &[ExtensionType::TransferFeeConfig, ExtensionType::NonTransferable], 0);
    let frozen = mint_2022(11, &[ExtensionType::DefaultAccountState], 2);
    let open = mint_2022(12, &[ExtensionType::DefaultAccountState, ExtensionType::TransferHook], 1);
    let init = setup(fixed.clone(), plain_mint(11));
    assert_eq!(init.check_unsupported_extensions(&fixed), Err(Error::Amm(AmmError::UnsupportedExtension)));
    assert_eq!(init.check_unsupported_extensions(&frozen), Err(Error::Amm(AmmError::UnsupportedExtension)));
    assert_eq!(init.check_unsupported_extensions(&open), Ok(()));
    assert_eq!(init.check_unsupported_extensions(&plain_mint(13)), Ok(()));
    assert_eq!(init.validate_token_extensions(), Err(Error::Amm(AmmError::UnsupportedExtension)));
    assert_eq!(
        init.initialize(7, 30, None, 0, 0, None, &bumps()).map(|c| c.fee),
        Err(Error::Amm(AmmError::UnsupportedExtension))
    );
    let init = setup(open.clone(), frozen);
    assert_eq!(
        init.initialize(7, 30, None, 0, 0, None, &bumps()).map(|c| c.fee),
        Err(Error::Amm(AmmError::UnsupportedExtension))
    );
    let init = setup(open, plain_mint(11));
    assert_eq!(init.initialize(7, 30, None, 0, 0, None, &bumps()).map(|c| c.supports_transfer_hooks), Ok(true));
}

#[test]
fn initialize_does_not_look_into_a_mint_that_does_not_unpack() {
    let mut broken = mint_2022(10, &[], 0);
    broken.account.data = vec![7u8; 10];
    let init = setup(broken.clone(), plain_mint(11));
    assert_eq!(init.check_unsupported_extensions(&broken), Ok(()));
    assert!(!init.has_transfer_fee(&broken));
    assert_eq!(init.has_transfer_hook(&broken), None);
    let config = init.initialize(7, 30, None, 0, 0, None, &bumps()).unwrap();
    assert!(!config.supports_transfer_fees);
    assert!(!config.supports_transfer_hooks);
}

#[test]
fn lock_and_unlock_are_for_the_authority() {
    let mut update = Update { user: key(50), config: pool_config() };
    assert_eq!(update.lock(), Ok(()));
    assert!(update.config.locked);
    assert_eq!(update.lock(), Ok(()));
    assert!(update.config.locked);
    assert_eq!(update.unlock(), Ok(()));
    assert!(!update.config.locked);
    assert_eq!(update.config.fee, 30);

    let mut stranger = Update { user: key(51), config: pool_config() };
    assert_eq!(stranger.lock(), Err(AmmError::InvalidAuthority));
    assert!(!stranger.config.locked);
    stranger.config.locked = true;
    assert_eq!(stranger.unlock(), Err(AmmError::InvalidAuthority));
    assert!(stranger.config.locked);

    let mut orphan = Update { user: key(50), config: pool_config() };
    orphan.config.authority = None;
    assert_eq!(orphan.lock(), Err(AmmError::InvalidAuthority));
}

fn collector(authority: u8) -> CollectFees {
    CollectFees {
        authority: key(authority),
        config: pool_config(),
        config_key: key(60),
        mint: key(10),
        fee_destination: key(70),
    }
}

fn sources(count: u8) -> Vec<AccountData> {
    (0..count).map(|i| AccountData { key: key(100 + i), owner: token_2022(), data: Vec::new() }).collect()
}

#[test]
fn fees_are_collected_from_the_accounts_given() {
    assert_eq!(collector(50).collect_fees(&sources(3)), Ok(vec![key(100), key(101), key(102)]));
    assert_eq!(collector(50).collect_fees(&sources(1)), Ok(vec![key(100)]));
}

#[test]
fn fees_are_not_collected_without_authority_or_sources() {
    assert_eq!(collector(51).collect_fees(&sources(3)), Err(AmmError::InvalidAuthority));
    assert_eq!(collector(51).collect_fees(&[]), Err(AmmError::InvalidAuthority));
    assert_eq!(collector(50).collect_fees(&[]), Err(AmmError::InvalidAmount));
    let mut other = collector(50);
    other.config_key = key(61);
    assert_eq!(other.collect_fees(&sources(3)), Err(AmmError::InvalidAuthority));
    assert_eq!(other.collect_fees(&[]), Err(AmmError::InvalidAmount));
}

#[test]
fn transfer_fee_defaults_can_be_changed_by_the_authority() {
    let mut fees = collector(50);
    assert_eq!(fees.update_transfer_fee_config(10_000, 5), Ok(()));
    assert_eq!(fees.config.default_transfer_fee_basis_points, 10_000);
    assert_eq!(fees.config.default_transfer_fee_max, 5);
    assert_eq!(fees.update_transfer_fee_config(10_001, 6), Err(AmmError::InvalidFee));
    assert_eq!(fees.config.default_transfer_fee_basis_points, 10_000);
    assert_eq!(fees.config.default_transfer_fee_max, 5);
    let mut stranger = collector(51);
    assert_eq!(stranger.update_transfer_fee_config(10, 5), Err(AmmError::InvalidAuthority));
    assert_eq!(stranger.update_transfer_fee_config(10_001, 5), Err(AmmError::InvalidAuthority));
    assert_eq!(stranger.config.default_transfer_fee_basis_points, 50);
}

#[test]
fn fee_destination_can_be_changed_by_the_authority() {
    let mut fees = collector(50);
    assert_eq!(fees.update_fee_destination(key(71)), Ok(()));
    assert_eq!(fees.config.fee_destination, key(71));
    let mut stranger = collector(51);
    assert_eq!(stranger.update_fee_destination(key(71)), Err(AmmError::InvalidAuthority));
    assert_eq!(stranger.config.fee_destination, key(50));
}

#[test]
fn default_hook_program_is_approved_with_it() {
    let mut fees = collector(50);
    assert!(fees.config.approved_hook_programs.is_empty());
    assert_eq!(fees.update_hook_program(Some(key(77))), Ok(()));
    assert_eq!(fees.config.default_hook_program, Some(key(77)));
    assert_eq!(fees.config.approved_hook_programs, vec![key(77)]);
    assert_eq!(fees.update_hook_program(Some(key(78))), Ok(()));
    assert_eq!(fees.config.default_hook_program, Some(key(78)));
    assert_eq!(fees.config.approved_hook_programs, vec![key(77), key(78)]);
    assert_eq!(fees.update_hook_program(Some(key(77))), Ok(()));
    assert_eq!(fees.config.default_hook_program, Some(key(77)));
    assert_eq!(fees.config.approved_hook_programs, vec![key(77), key(78)]);
    assert_eq!(fees.update_hook_program(None), Ok(()));
    assert_eq!(fees.config.default_hook_program, None);
    assert_eq!(fees.config.approved_hook_programs, vec![key(77), key(78)]);
    let mut stranger = collector(51);
    assert_eq!(stranger.update_hook_program(Some(key(77))), Err(AmmError::InvalidAuthority));
    assert_eq!(stranger.update_hook_program(None), Err(AmmError::InvalidAuthority));
    assert_eq!(stranger.config.default_hook_program, None);
    assert!(stranger.config.approved_hook_programs.is_empty());
}

#[test]
fn hook_programs_are_approved_up_to_ten() {
    let mut fees = collector(50);
    for tag in 1..=10 {
        assert_eq!(fees.approve_hook_program(key(tag)), Ok(()));
    }
    assert_eq!(fees.config.approved_hook_programs, (1..=10).map(key).collect::<Vec<_>>());
    assert_eq!(fees.config.default_hook_program, None);
    assert_eq!(fees.approve_hook_program(key(11)), Err(AmmError::Overflow));
    assert_eq!(fees.update_hook_program(Some(key(11))), Err(AmmError::Overflow));
    assert_eq!(fees.config.approved_hook_programs.len(), 10);
    assert_eq!(fees.config.default_hook_program, None);
    assert_eq!(fees.approve_hook_program(key(4)), Ok(()));
    assert_eq!(fees.update_hook_program(Some(key(4))), Ok(()));
    assert_eq!(fees.config.approved_hook_programs.len(), 10);
    assert_eq!(fees.config.default_hook_program, Some(key(4)));
    let mut stranger = collector(51);
    assert_eq!(stranger.approve_hook_program(key(1)), Err(AmmError::InvalidAuthority));
    assert!(stranger.config.approved_hook_programs.is_empty());
}

#[test]
fn hook_programs_are_revoked() {
    let mut fees = collector(50);
    for tag in 1..=4 {
        fees.approve_hook_program(key(tag)).unwrap();
    }
    fees.update_hook_program(Some(key(3))).unwrap();
    assert_eq!(fees.revoke_hook_program(key(2)), Ok(()));
    assert_eq!(fees.config.approved_hook_programs, vec![key(1), key(3), key(4)]);
    assert_eq!(fees.config.default_hook_program, Some(key(3)));
    assert_eq!(fees.revoke_hook_program(key(9)), Ok(()));
    assert_eq!(fees.config.approved_hook_programs, vec![key(1), key(3), key(4)]);
    assert_eq!(fees.revoke_hook_program(key(3)), Ok(()));
    assert_eq!(fees.config.approved_hook_programs, vec![key(1), key(4)]);
    assert_eq!(fees.config.default_hook_program, None);
    assert!(!fees.config.is_approved(&key(3)));
    assert!(fees.config.is_approved(&key(4)));
    let mut stranger = collector(51);
    stranger.config.approved_hook_programs = vec![key(1)];
    assert_eq!(stranger.revoke_hook_program(key(1)), Err(AmmError::InvalidAuthority));
    assert_eq!(stranger.config.approved_hook_programs, vec![key(1)]);
}

#[test]
fn pool_knows_its_authority() {
    let config = pool_config();
    assert!(config.is_authority(&key(50)));
    assert!(!config.is_authority(&key(1)));
}

#[test]
fn errors_have_messages() {
    assert_eq!(AmmError::PoolLocked.message(), "This pool is locked.");
    assert_eq!(AmmError::SlippageExceeded.message(), "Slippage exceeded.");
    assert_eq!(AmmError::InvalidFee.message(), "Fee is greater than 100%. This is not a very good deal.");
    assert_eq!(AmmError::MathOverflow.message(), "Math Overflow");
    assert_eq!(AmmError::InsufficientFunds.message(), "Insufficient funds");
    assert_eq!(AmmError::IdenticalMints.message(), "Identical mints not allowed");
    assert_eq!(AmmError::DefaultError.message(), "DefaultError");
}
