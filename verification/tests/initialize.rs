use tic_world::{
    initialize_game, ErrorCode, GameState, InitializeError, InitializeGame, Pubkey, TokenAccount,
};

fn key(b: u8) -> Pubkey {
    Pubkey::new([b; 32])
}

const AUTHORITY: u8 = 1;
const MINT: u8 = 2;
const TREASURY: u8 = 3;
const STRANGER: u8 = 9;

/// An initialization on a vacant slot whose accounts fit together.
fn first_initialization() -> InitializeGame {
    InitializeGame {
        game_state: None,
        authority: key(AUTHORITY),
        treasury_token_account: TokenAccount {
            key: key(TREASURY),
            mint: key(MINT),
            owner: key(AUTHORITY),
            amount: 0,
        },
        tic_mint: key(MINT),
        bump: 253,
    }
}

fn record() -> GameState {
    GameState {
        authority: key(AUTHORITY),
        tic_mint: key(MINT),
        treasury_token_account: key(TREASURY),
        bump: 253,
    }
}

#[test]
fn initialize_writes_the_record() {
    let mut ctx = first_initialization();
    assert_eq!(initialize_game(&mut ctx), Ok(()));
    assert_eq!(ctx.game_state, Some(record()));
}

#[test]
fn initialize_changes_nothing_but_the_slot() {
    let mut ctx = first_initialization();
    ctx.treasury_token_account.amount = 77;
    let before = ctx;
    assert_eq!(initialize_game(&mut ctx), Ok(()));
    assert_eq!(ctx.authority, before.authority);
    assert_eq!(ctx.treasury_token_account, before.treasury_token_account);
    assert_eq!(ctx.tic_mint, before.tic_mint);
    assert_eq!(ctx.bump, before.bump);
}

#[test]
fn initialize_with_a_treasury_of_another_owner_is_refused() {
    let mut ctx = first_initialization();
    ctx.treasury_token_account.owner = key(STRANGER);
    let before = ctx;
    assert_eq!(
        initialize_game(&mut ctx),
        Err(InitializeError::Refused(ErrorCode::InvalidTreasuryOwner))
    );
    assert_eq!(ctx, before);
    assert_eq!(ctx.game_state, None);
}

#[test]
fn initialize_with_a_treasury_of_another_currency_is_refused() {
    let mut ctx = first_initialization();
    ctx.treasury_token_account.mint = key(STRANGER);
    let before = ctx;
    assert_eq!(initialize_game(&mut ctx), Err(InitializeError::Refused(ErrorCode::InvalidMint)));
    assert_eq!(ctx, before);
    assert_eq!(ctx.game_state, None);
}

#[test]
fn initialize_checks_the_owner_before_the_currency() {
    let mut ctx = first_initialization();
    ctx.treasury_token_account.owner = key(STRANGER);
    ctx.treasury_token_account.mint = key(STRANGER);
    assert_eq!(
        initialize_game(&mut ctx),
        Err(InitializeError::Refused(ErrorCode::InvalidTreasuryOwner))
    );
}

#[test]
fn initialize_twice_fails_the_second_time() {
    let mut ctx = first_initialization();
    assert_eq!(initialize_game(&mut ctx), Ok(()));
    assert_eq!(initialize_game(&mut ctx), Err(InitializeError::AlreadyInitialized));
    assert_eq!(ctx.game_state, Some(record()));
}

#[test]
fn initialize_again_with_other_accounts_fails_and_keeps_the_record() {
    let mut first = first_initialization();
    assert_eq!(initialize_game(&mut first), Ok(()));

    let mut second = InitializeGame {
        game_state: first.game_state,
        authority: key(STRANGER),
        treasury_token_account: TokenAccount {
            key: key(8),
            mint: key(7),
            owner: key(STRANGER),
            amount: 5,
        },
        tic_mint: key(7),
        bump: 1,
    };
    assert_eq!(initialize_game(&mut second), Err(InitializeError::AlreadyInitialized));
    assert_eq!(second.game_state, Some(record()));
}

#[test]
fn initialize_on_a_filled_slot_fails_before_the_accounts_are_looked_at() {
    let mut ctx = first_initialization();
    ctx.game_state = Some(record());
    ctx.treasury_token_account.owner = key(STRANGER);
    ctx.treasury_token_account.mint = key(STRANGER);
    assert_eq!(initialize_game(&mut ctx), Err(InitializeError::AlreadyInitialized));
}

#[test]
fn initialize_after_a_refusal_can_still_succeed() {
    let mut ctx = first_initialization();
    ctx.treasury_token_account.owner = key(STRANGER);
    assert!(initialize_game(&mut ctx).is_err());
    ctx.treasury_token_account.owner = key(AUTHORITY);
    assert_eq!(initialize_game(&mut ctx), Ok(()));
    assert_eq!(ctx.game_state, Some(record()));
}

#[test]
fn initialize_records_the_bump_it_is_given() {
    for bump in [0u8, 1, 254, 255] {
        let mut ctx = first_initialization();
        ctx.bump = bump;
        assert_eq!(initialize_game(&mut ctx), Ok(()));
        assert_eq!(ctx.game_state.unwrap().bump, bump);
    }
}
