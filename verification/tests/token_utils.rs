use anchor_lang::solana_program::program_option::COption;
use anchor_spl::token_2022::spl_token_2022::extension::transfer_fee::TransferFeeConfig as MintTransferFeeConfig;
use anchor_spl::token_2022::spl_token_2022::extension::transfer_hook::TransferHook;
use anchor_spl::token_2022::spl_token_2022::extension::BaseStateWithExtensionsMut;
use anchor_spl::token_2022::spl_token_2022::extension::ExtensionType;
use anchor_spl::token_2022::spl_token_2022::extension::StateWithExtensionsMut;
use anchor_spl::token_2022::spl_token_2022::state::Mint as MintState;
use loko_swap::accounts::AccountData;
use loko_swap::address::Address;
use loko_swap::error::AmmError;
use loko_swap::error::Error;
use loko_swap::token_utils::calculate_fee_direct;
use loko_swap::token_utils::calculate_gross_amount;
use loko_swap::token_utils::calculate_gross_for_net_direct;
use loko_swap::token_utils::calculate_net_amount;
use loko_swap::token_utils::calculate_transfer_fee;
use loko_swap::token_utils::get_transfer_fee_config;
use loko_swap::token_utils::get_transfer_hook_program_id;
use loko_swap::token_utils::has_transfer_fee_extension;
use loko_swap::token_utils::has_transfer_hook_extension;
use loko_swap::token_utils::is_legacy_token_mint;
use loko_swap::token_utils::is_token_2022_mint;
use loko_swap::token_utils::TokenExtensions;
use loko_swap::token_utils::TransferFeeConfig;

fn token_2022() -> Address {
    Address::new(anchor_spl::token_2022::spl_token_2022::id().to_bytes())
}

fn legacy_token() -> Address {
    Address::new(anchor_spl::token::ID.to_bytes())
}

fn key(tag: u8) -> Address {
    Address::new([tag; 32])
}

fn mint_bytes(fee: Option<(u16, u64)>, hook: Option<[u8; 32]>) -> Vec<u8> {
    let mut types = Vec::new();
    if fee.is_some() {
        types.push(ExtensionType::TransferFeeConfig);
    }
    if hook.is_some() {
        types.push(ExtensionType::TransferHook);
    }
    let len = ExtensionType::try_calculate_account_len::<MintState>(&types).unwrap();
    let mut data = vec![0u8; len];
    let mut state = StateWithExtensionsMut::<MintState>::unpack_uninitialized(&mut data).unwrap();
    if let Some((basis_points, maximum)) = fee {
        let config = state.init_extension::<MintTransferFeeConfig>(true).unwrap();
        config.newer_transfer_fee.transfer_fee_basis_points = basis_points.into();
        config.newer_transfer_fee.maximum_fee = maximum.into();
    }
    if let Some(program) = hook {
        let extension = state.init_extension::<TransferHook>(true).unwrap();
        extension.program_id.0 = anchor_lang::prelude::Pubkey::new_from_array(program);
    }
    state.base = MintState {
        mint_authority: COption::None,
        supply: 0,
        decimals: 6,
        is_initialized: true,
        freeze_authority: COption::None,
    };
    state.pack_base();
    state.init_account_type().unwrap();
    data
}

fn mint_2022(fee: Option<(u16, u64)>, hook: Option<[u8; 32]>) -> AccountData {
    AccountData { key: key(1), owner: token_2022(), data: mint_bytes(fee, hook) }
}

fn legacy_mint() -> AccountData {
    AccountData { key: key(2), owner: legacy_token(), data: vec![0u8; 82] }
}

fn broken_mint() -> AccountData {
    AccountData { key: key(3), owner: token_2022(), data: vec![7u8; 10] }
}

fn extensions(basis_points: u16, maximum: u64) -> TokenExtensions {
    TokenExtensions {
        has_transfer_fee: true,
        has_transfer_hook: false,
        transfer_hook_program_id: None,
        transfer_fee_basis_points: basis_points,
        transfer_fee_maximum: maximum,
    }
}

#[test]
fn test_calculate_transfer_fee() {
    let fee_config = TransferFeeConfig { transfer_fee_basis_points: 50, maximum_fee: 1000 };

    // 0.5% of 10000
    assert_eq!(calculate_transfer_fee(10000, &fee_config), 50);

    // Capped at the maximum
    assert_eq!(calculate_transfer_fee(1000000, &fee_config), 1000);
}

#[test]
fn test_calculate_gross_amount() {
    let fee_config = TransferFeeConfig { transfer_fee_basis_points: 50, maximum_fee: u64::MAX };

    let gross = calculate_gross_amount(9950, &fee_config);
    let fee = calculate_transfer_fee(gross, &fee_config);
    let net = gross - fee;

    assert!(net >= 9950);
    assert!(net <= 9951);
    assert_eq!(gross, 10000);
}

#[test]
fn capped_fee_is_the_cap_not_the_rate() {
    let taxed = extensions(50, 1_000);
    assert_eq!(taxed.calculate_fee(1_000_000), 1_000);
    assert_ne!(taxed.calculate_fee(1_000_000), 5_000);
    assert_eq!(taxed.calculate_net(1_000_000), 999_000);
}

#[test]
fn fee_rounds_down_and_is_nothing_without_the_extension() {
    assert_eq!(extensions(50, 1_000).calculate_fee(199), 0);
    assert_eq!(extensions(50, 1_000).calculate_fee(200), 1);
    assert_eq!(extensions(50, 1_000).calculate_fee(0), 0);
    let plain = TokenExtensions {
        has_transfer_fee: false,
        has_transfer_hook: false,
        transfer_hook_program_id: None,
        transfer_fee_basis_points: 50,
        transfer_fee_maximum: 1_000,
    };
    assert_eq!(plain.calculate_fee(1_000_000), 0);
    assert_eq!(plain.calculate_gross_for_net(123), 123);
}

#[test]
fn fee_above_the_amount_leaves_nothing() {
    let taxed = extensions(20_000, u64::MAX);
    assert_eq!(taxed.calculate_fee(100), 200);
    assert_eq!(taxed.calculate_net(100), 0);
    let config = TransferFeeConfig { transfer_fee_basis_points: 20_000, maximum_fee: u64::MAX };
    assert_eq!(calculate_net_amount(100, &config), 0);
}

#[test]
fn fee_on_the_largest_amount_fits() {
    assert_eq!(extensions(10_000, u64::MAX).calculate_fee(u64::MAX), u64::MAX);
    assert_eq!(extensions(u16::MAX, 77).calculate_fee(u64::MAX), 77);
}

#[test]
fn gross_amount_rounds_up() {
    let taxed = extensions(50, u64::MAX);
    assert_eq!(taxed.calculate_gross_for_net(9_950), 10_000);
    assert_eq!(taxed.calculate_gross_for_net(9_951), 10_002);
    assert_eq!(taxed.calculate_gross_for_net(1), 2);
    assert_eq!(taxed.calculate_gross_for_net(0), 0);
    assert_eq!(extensions(0, u64::MAX).calculate_gross_for_net(9_951), 9_951);
}

#[test]
fn gross_amount_covers_the_fee_for_many_amounts() {
    for basis_points in [1u16, 7, 50, 300, 2_500, 5_000, 9_999] {
        let taxed = extensions(basis_points, u64::MAX);
        for net in [0u64, 1, 2, 3, 199, 200, 9_950, 9_951, 1_000_003, 123_456_789_012] {
            let gross = taxed.checked_gross_for_net(net).unwrap();
            let left = gross - taxed.calculate_fee(gross);
            assert!(left >= net);
            assert!(left <= net + 1);
        }
    }
}

#[test]
fn gross_amount_with_a_cap_still_covers_the_fee() {
    let taxed = extensions(50, 10);
    let gross = taxed.calculate_gross_for_net(1_000_000);
    assert_eq!(gross, 1_005_026);
    assert_eq!(taxed.calculate_fee(gross), 10);
    assert!(gross - taxed.calculate_fee(gross) >= 1_000_000);
}

#[test]
fn gross_amount_that_does_not_exist_is_none() {
    assert_eq!(extensions(10_000, u64::MAX).checked_gross_for_net(5), None);
    assert_eq!(extensions(12_000, u64::MAX).checked_gross_for_net(5), None);
    assert_eq!(extensions(5_000, u64::MAX).checked_gross_for_net(u64::MAX), None);
    assert_eq!(extensions(5_000, u64::MAX).checked_gross_for_net(u64::MAX / 2), Some(u64::MAX - 1));
}

#[test]
fn owner_tells_the_token_programs_apart() {
    assert!(is_token_2022_mint(&mint_2022(None, None)));
    assert!(!is_legacy_token_mint(&mint_2022(None, None)));
    assert!(is_legacy_token_mint(&legacy_mint()));
    assert!(!is_token_2022_mint(&legacy_mint()));
    let stranger = AccountData { key: key(4), owner: key(5), data: Vec::new() };
    assert!(!is_token_2022_mint(&stranger));
    assert!(!is_legacy_token_mint(&stranger));
}

#[test]
fn profile_of_a_mint_with_fee_and_hook() {
    let mint = mint_2022(Some((50, 1_000)), Some([9u8; 32]));
    let profile = TokenExtensions::new(&mint).unwrap();
    assert!(profile.has_transfer_fee);
    assert!(profile.has_transfer_hook);
    assert_eq!(profile.transfer_fee_basis_points, 50);
    assert_eq!(profile.transfer_fee_maximum, 1_000);
    assert_eq!(profile.transfer_hook_program_id, Some(Address::new([9u8; 32])));
    assert_eq!(profile.calculate_fee(1_000_000), 1_000);
}

#[test]
fn profile_of_a_mint_with_a_fee_only() {
    let mint = mint_2022(Some((125, 77)), None);
    let profile = TokenExtensions::new(&mint).unwrap();
    assert!(profile.has_transfer_fee);
    assert!(!profile.has_transfer_hook);
    assert_eq!(profile.transfer_fee_basis_points, 125);
    assert_eq!(profile.transfer_fee_maximum, 77);
    assert_eq!(profile.transfer_hook_program_id, None);
}

#[test]
fn profile_of_a_plain_mint() {
    for mint in [mint_2022(None, None), legacy_mint()] {
        let profile = TokenExtensions::new(&mint).unwrap();
        assert!(!profile.has_transfer_fee);
        assert!(!profile.has_transfer_hook);
        assert_eq!(profile.transfer_fee_basis_points, 0);
        assert_eq!(profile.transfer_fee_maximum, 0);
        assert_eq!(profile.transfer_hook_program_id, None);
    }
}

#[test]
fn legacy_mint_is_not_looked_into() {
    let odd = AccountData { key: key(2), owner: legacy_token(), data: vec![7u8; 3] };
    assert_eq!(has_transfer_fee_extension(&odd), Ok(false));
    assert_eq!(has_transfer_hook_extension(&odd), Ok(false));
    assert!(TokenExtensions::new(&odd).is_ok());
    assert_eq!(TokenExtensions::has_fee_only(&odd), Ok(false));
    assert_eq!(TokenExtensions::has_hook_only(&odd), Ok(false));
}

#[test]
fn broken_mint_is_a_program_error() {
    assert!(matches!(has_transfer_fee_extension(&broken_mint()), Err(Error::Program(_))));
    assert!(matches!(has_transfer_hook_extension(&broken_mint()), Err(Error::Program(_))));
    assert!(matches!(get_transfer_fee_config(&broken_mint()), Err(Error::Program(_))));
    assert!(matches!(get_transfer_hook_program_id(&broken_mint()), Err(Error::Program(_))));
    assert!(matches!(TokenExtensions::new(&broken_mint()), Err(Error::Program(_))));
    assert!(matches!(TokenExtensions::has_fee_only(&broken_mint()), Err(Error::Program(_))));
    assert!(matches!(TokenExtensions::has_hook_only(&broken_mint()), Err(Error::Program(_))));
    assert!(matches!(calculate_fee_direct(&broken_mint(), 5), Err(Error::Program(_))));
    assert!(matches!(calculate_gross_for_net_direct(&broken_mint(), 5), Err(Error::Program(_))));
}

#[test]
fn extensions_are_found_where_they_are() {
    let both = mint_2022(Some((50, 1_000)), Some([9u8; 32]));
    let none = mint_2022(None, None);
    assert_eq!(has_transfer_fee_extension(&both), Ok(true));
    assert_eq!(has_transfer_hook_extension(&both), Ok(true));
    assert_eq!(has_transfer_fee_extension(&none), Ok(false));
    assert_eq!(has_transfer_hook_extension(&none), Ok(false));
    assert_eq!(TokenExtensions::has_fee_only(&both), Ok(true));
    assert_eq!(TokenExtensions::has_hook_only(&none), Ok(false));
    let config = get_transfer_fee_config(&both).unwrap();
    assert_eq!(config.transfer_fee_basis_points, 50);
    assert_eq!(config.maximum_fee, 1_000);
    assert_eq!(get_transfer_hook_program_id(&both), Ok(Address::new([9u8; 32])));
}

#[test]
fn missing_extensions_are_reported() {
    let none = mint_2022(None, None);
    assert_eq!(
        get_transfer_fee_config(&none).map(|c| c.maximum_fee),
        Err(Error::Amm(AmmError::TransferFeeNotFound))
    );
    assert_eq!(
        get_transfer_hook_program_id(&none),
        Err(Error::Amm(AmmError::TransferHookNotFound))
    );
}

#[test]
fn direct_calculations_read_the_mint() {
    let taxed = mint_2022(Some((50, 1_000)), None);
    assert_eq!(calculate_fee_direct(&taxed, 10_000), Ok(50));
    assert_eq!(calculate_fee_direct(&taxed, 1_000_000), Ok(1_000));
    assert_eq!(calculate_gross_for_net_direct(&taxed, 9_951), Ok(10_002));
    assert_eq!(calculate_fee_direct(&legacy_mint(), 10_000), Ok(0));
    assert_eq!(calculate_gross_for_net_direct(&legacy_mint(), 9_951), Ok(9_951));
    assert_eq!(calculate_fee_direct(&mint_2022(None, None), 10_000), Ok(0));
    assert_eq!(calculate_gross_for_net_direct(&mint_2022(None, None), 9_951), Ok(9_951));
    assert_eq!(calculate_gross_for_net_direct(&mint_2022(Some((0, 9)), None), 9_951), Ok(9_951));
}

#[test]
fn direct_gross_amount_that_does_not_exist_overflows() {
    let total = mint_2022(Some((10_000, u64::MAX)), None);
    assert_eq!(calculate_gross_for_net_direct(&total, 5), Err(Error::Amm(AmmError::MathOverflow)));
    let half = mint_2022(Some((5_000, u64::MAX)), None);
    assert_eq!(
        calculate_gross_for_net_direct(&half, u64::MAX),
        Err(Error::Amm(AmmError::MathOverflow))
    );
}

#[test]
fn token_programs_have_their_known_addresses() {
    let token_2022: [u8; 32] = [
        6, 221, 246, 225, 238, 117, 143, 222, 24, 66, 93, 188, 228, 108, 205, 218, 182, 26, 252, 77, 131, 185, 13, 39,
        254, 189, 249, 40, 216, 161, 139, 252,
    ];
    let legacy: [u8; 32] = [
        6, 221, 246, 225, 215, 101, 161, 147, 217, 203, 225, 70, 206, 235, 121, 172, 28, 180, 133, 237, 95, 91, 55,
        145, 58, 140, 245, 133, 126, 255, 0, 169,
    ];
    assert_eq!(anchor_spl::token_2022::spl_token_2022::id().to_bytes(), token_2022);
    assert_eq!(anchor_spl::token::spl_token::id().to_bytes(), legacy);
    let owned_by = |owner: [u8; 32]| AccountData { key: key(1), owner: Address::new(owner), data: Vec::new() };
    assert!(is_token_2022_mint(&owned_by(token_2022)));
    assert!(!is_legacy_token_mint(&owned_by(token_2022)));
    assert!(is_legacy_token_mint(&owned_by(legacy)));
    assert!(!is_token_2022_mint(&owned_by(legacy)));
    for i in 0..32 {
        let mut near = token_2022;
        near[i] ^= 1;
        assert!(!is_token_2022_mint(&owned_by(near)));
        let mut near = legacy;
        near[i] ^= 0x80;
        assert!(!is_legacy_token_mint(&owned_by(near)));
    }
}
