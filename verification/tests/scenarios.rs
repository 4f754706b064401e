use escrow::authority::{find_offer_address, token_address};
use escrow::{
    make, make_with, refund, refund_with, take, take_with, Address, Escrow, EscrowError, Make,
    Mint, Offer, Programs, Refund, Take, TokenAccount,
};

fn addr(tag: u8) -> Address {
    let mut bytes = [0u8; 32];
    bytes[0] = tag;
    bytes[31] = tag;
    Address::new(bytes)
}

fn programs() -> Programs {
    Programs {
        escrow: addr(200),
        token: Address::new(anchor_spl::token::ID.to_bytes()),
        associated_token: Address::new(anchor_spl::associated_token::ID.to_bytes()),
    }
}

fn mint(tag: u8) -> Mint {
    Mint { address: addr(tag), decimals: 6 }
}

const MAKER: u8 = 1;
const TAKER: u8 = 2;
const ASSET_X: u8 = 10;
const ASSET_Y: u8 = 11;

/// Opens the token account of `owner` for `mint` and fills it.
fn fund(state: &mut Escrow, owner: &Address, mint: &Address, amount: u64) -> Address {
    let address = token_address(&state.programs(), owner, mint).unwrap();
    state.create_account(&address, mint, owner).unwrap();
    state.mint_to(&address, amount).unwrap();
    address
}

fn balance(state: &Escrow, address: &Address) -> Option<u64> {
    state.account(address).map(|account| account.amount)
}

fn make_ctx(id: u64) -> (Make, u8) {
    Make::canonical(&programs(), &addr(MAKER), &mint(ASSET_X), &mint(ASSET_Y), id).unwrap()
}

fn take_ctx(escrow: &Address) -> Take {
    Take::canonical(&programs(), &addr(TAKER), &addr(MAKER), &mint(ASSET_X), &mint(ASSET_Y), escrow)
        .unwrap()
}

fn refund_ctx(escrow: &Address) -> Refund {
    Refund::canonical(&programs(), &addr(MAKER), &mint(ASSET_X), escrow).unwrap()
}

/// A maker with 1000 X who has offered them all for 50 Y under id 1, and a
/// taker with `taker_y` Y.
fn open_offer(taker_y: u64) -> (Escrow, Make, Address) {
    let mut state = Escrow::new(programs());
    fund(&mut state, &addr(MAKER), &addr(ASSET_X), 1000);
    let taker_source = fund(&mut state, &addr(TAKER), &addr(ASSET_Y), taker_y);
    let (ctx, _) = make_ctx(1);
    assert_eq!(make(&mut state, &ctx, 1, 1000, 50), Ok(()));
    (state, ctx, taker_source)
}

#[test]
fn make_moves_the_deposit_into_the_vault() {
    let mut state = Escrow::new(programs());
    let source = fund(&mut state, &addr(MAKER), &addr(ASSET_X), 1000);
    let (ctx, bump) = make_ctx(1);
    assert_eq!(ctx.maker_token_ata, source);
    assert_eq!(make(&mut state, &ctx, 1, 400, 50), Ok(()));
    assert_eq!(
        state.account(&ctx.vault),
        Some(TokenAccount { mint: addr(ASSET_X), owner: ctx.escrow, amount: 400 })
    );
    assert_eq!(balance(&state, &source), Some(600));
    assert_eq!(
        state.offer(&ctx.escrow),
        Some(Offer {
            id: 1,
            maker: addr(MAKER),
            maker_token: addr(ASSET_X),
            taker_token: addr(ASSET_Y),
            amount: 50,
            bump,
        })
    );
}

#[test]
fn make_creates_the_record_at_the_derived_address() {
    let (state, ctx, _) = open_offer(50);
    let (address, bump) = find_offer_address(&programs().escrow, &addr(MAKER), 1).unwrap();
    assert_eq!(ctx.escrow, address);
    assert_eq!(state.offer(&address).unwrap().bump, bump);
    assert_eq!(token_address(&programs(), &address, &addr(ASSET_X)), Some(ctx.vault));
}

#[test]
fn scenario_a_take_swaps_the_assets() {
    let (mut state, made, taker_source) = open_offer(80);
    let ctx = take_ctx(&made.escrow);
    assert_eq!(ctx.vault_mint_a, made.vault);
    assert_eq!(ctx.taker_token_ata_mint_b, taker_source);
    assert_eq!(balance(&state, &ctx.taker_token_ata_mint_a), None);
    assert_eq!(take(&mut state, &ctx), Ok(()));
    // the taker ends with 1000 X and 50 fewer Y
    assert_eq!(balance(&state, &ctx.taker_token_ata_mint_a), Some(1000));
    assert_eq!(balance(&state, &taker_source), Some(30));
    // the maker ends with 1000 fewer X and 50 more Y
    assert_eq!(balance(&state, &made.maker_token_ata), Some(0));
    assert_eq!(balance(&state, &ctx.maker_token_ata_mint_b), Some(50));
    // record and vault are gone
    assert_eq!(state.offer(&made.escrow), None);
    assert_eq!(state.account(&made.vault), None);
}

#[test]
fn take_opens_the_receiving_accounts_under_their_owners() {
    let (mut state, made, _) = open_offer(50);
    let ctx = take_ctx(&made.escrow);
    assert_eq!(take(&mut state, &ctx), Ok(()));
    assert_eq!(
        state.account(&ctx.maker_token_ata_mint_b),
        Some(TokenAccount { mint: addr(ASSET_Y), owner: addr(MAKER), amount: 50 })
    );
    assert_eq!(
        state.account(&ctx.taker_token_ata_mint_a),
        Some(TokenAccount { mint: addr(ASSET_X), owner: addr(TAKER), amount: 1000 })
    );
}

#[test]
fn take_adds_to_receiving_accounts_that_exist() {
    let (mut state, made, taker_source) = open_offer(50);
    let maker_y = fund(&mut state, &addr(MAKER), &addr(ASSET_Y), 7);
    let taker_x = fund(&mut state, &addr(TAKER), &addr(ASSET_X), 5);
    let ctx = take_ctx(&made.escrow);
    assert_eq!(take(&mut state, &ctx), Ok(()));
    assert_eq!(balance(&state, &maker_y), Some(57));
    assert_eq!(balance(&state, &taker_x), Some(1005));
    assert_eq!(balance(&state, &taker_source), Some(0));
}

#[test]
fn take_releases_all_that_the_vault_holds() {
    let (mut state, made, _) = open_offer(50);
    // units that reach the vault from outside leave it with the deposit
    assert_eq!(state.mint_to(&made.vault, 23), Ok(()));
    let ctx = take_ctx(&made.escrow);
    assert_eq!(take(&mut state, &ctx), Ok(()));
    assert_eq!(balance(&state, &ctx.taker_token_ata_mint_a), Some(1023));
    assert_eq!(state.account(&made.vault), None);
}

#[test]
fn scenario_b_refund_returns_the_deposit() {
    let (mut state, made, taker_source) = open_offer(50);
    assert_eq!(balance(&state, &made.maker_token_ata), Some(0));
    let ctx = refund_ctx(&made.escrow);
    assert_eq!(ctx.vault_ata, made.vault);
    assert_eq!(ctx.maker_token_ata, made.maker_token_ata);
    assert_eq!(refund(&mut state, &ctx), Ok(()));
    assert_eq!(balance(&state, &made.maker_token_ata), Some(1000));
    assert_eq!(state.offer(&made.escrow), None);
    assert_eq!(state.account(&made.vault), None);
    // a later Take finds nothing
    assert_eq!(take(&mut state, &take_ctx(&made.escrow)), Err(EscrowError::NotFound));
    assert_eq!(balance(&state, &taker_source), Some(50));
    assert_eq!(balance(&state, &made.maker_token_ata), Some(1000));
}

#[test]
fn refund_after_take_finds_nothing() {
    let (mut state, made, _) = open_offer(50);
    let taken = take_ctx(&made.escrow);
    assert_eq!(take(&mut state, &taken), Ok(()));
    assert_eq!(refund(&mut state, &refund_ctx(&made.escrow)), Err(EscrowError::NotFound));
    assert_eq!(take(&mut state, &taken), Err(EscrowError::NotFound));
    assert_eq!(balance(&state, &taken.taker_token_ata_mint_a), Some(1000));
    assert_eq!(balance(&state, &made.maker_token_ata), Some(0));
}

#[test]
fn refund_twice_finds_nothing() {
    let (mut state, made, _) = open_offer(50);
    let ctx = refund_ctx(&made.escrow);
    assert_eq!(refund(&mut state, &ctx), Ok(()));
    assert_eq!(refund(&mut state, &ctx), Err(EscrowError::NotFound));
    assert_eq!(balance(&state, &made.maker_token_ata), Some(1000));
}

#[test]
fn scenario_c_second_make_with_the_same_id_is_refused() {
    let mut state = Escrow::new(programs());
    let source = fund(&mut state, &addr(MAKER), &addr(ASSET_X), 1000);
    let (ctx, bump) = make_ctx(7);
    assert_eq!(make(&mut state, &ctx, 7, 300, 50), Ok(()));
    assert_eq!(make(&mut state, &ctx, 7, 200, 60), Err(EscrowError::Duplicate));
    // the first offer is untouched
    assert_eq!(balance(&state, &ctx.vault), Some(300));
    assert_eq!(balance(&state, &source), Some(700));
    assert_eq!(
        state.offer(&ctx.escrow),
        Some(Offer {
            id: 7,
            maker: addr(MAKER),
            maker_token: addr(ASSET_X),
            taker_token: addr(ASSET_Y),
            amount: 50,
            bump,
        })
    );
}

#[test]
fn offers_with_different_ids_live_side_by_side() {
    let mut state = Escrow::new(programs());
    let source = fund(&mut state, &addr(MAKER), &addr(ASSET_X), 1000);
    fund(&mut state, &addr(TAKER), &addr(ASSET_Y), 100);
    let (first, _) = make_ctx(1);
    let (second, _) = make_ctx(2);
    assert_ne!(first.escrow, second.escrow);
    assert_ne!(first.vault, second.vault);
    assert_eq!(make(&mut state, &first, 1, 300, 50), Ok(()));
    assert_eq!(make(&mut state, &second, 2, 200, 20), Ok(()));
    assert_eq!(balance(&state, &source), Some(500));
    assert_eq!(take(&mut state, &take_ctx(&second.escrow)), Ok(()));
    assert_eq!(balance(&state, &first.vault), Some(300));
    assert_eq!(state.offer(&first.escrow).map(|offer| offer.amount), Some(50));
    assert_eq!(state.offer(&second.escrow), None);
    assert_eq!(refund(&mut state, &refund_ctx(&first.escrow)), Ok(()));
    assert_eq!(balance(&state, &source), Some(800));
}

#[test]
fn an_id_is_free_again_after_refund() {
    let (mut state, made, _) = open_offer(50);
    assert_eq!(refund(&mut state, &refund_ctx(&made.escrow)), Ok(()));
    assert_eq!(make(&mut state, &made, 1, 10, 5), Ok(()));
    assert_eq!(balance(&state, &made.vault), Some(10));
}

#[test]
fn scenario_d_take_without_the_funds_moves_nothing() {
    let (mut state, made, taker_source) = open_offer(10);
    let ctx = take_ctx(&made.escrow);
    assert_eq!(take(&mut state, &ctx), Err(EscrowError::InsufficientBalance));
    assert_eq!(balance(&state, &taker_source), Some(10));
    assert_eq!(balance(&state, &made.vault), Some(1000));
    assert_eq!(balance(&state, &made.maker_token_ata), Some(0));
    // the receiving accounts were not opened either
    assert_eq!(state.account(&ctx.maker_token_ata_mint_b), None);
    assert_eq!(state.account(&ctx.taker_token_ata_mint_a), None);
    // the offer can still be taken
    assert!(state.offer(&made.escrow).is_some());
    assert_eq!(state.mint_to(&taker_source, 40), Ok(()));
    assert_eq!(take(&mut state, &ctx), Ok(()));
}

#[test]
fn take_without_a_source_account_finds_nothing() {
    let mut state = Escrow::new(programs());
    fund(&mut state, &addr(MAKER), &addr(ASSET_X), 1000);
    let (made, _) = make_ctx(1);
    assert_eq!(make(&mut state, &made, 1, 1000, 50), Ok(()));
    let ctx = take_ctx(&made.escrow);
    assert_eq!(take(&mut state, &ctx), Err(EscrowError::NotFound));
    assert_eq!(balance(&state, &made.vault), Some(1000));
    assert_eq!(state.account(&ctx.maker_token_ata_mint_b), None);
}

#[test]
fn refund_by_another_identity_is_unauthorized() {
    let (mut state, made, _) = open_offer(50);
    fund(&mut state, &addr(TAKER), &addr(ASSET_X), 0);
    let ctx = Refund::canonical(&programs(), &addr(TAKER), &mint(ASSET_X), &made.escrow).unwrap();
    assert_eq!(refund(&mut state, &ctx), Err(EscrowError::Unauthorized));
    assert_eq!(balance(&state, &made.vault), Some(1000));
    assert_eq!(balance(&state, &ctx.maker_token_ata), Some(0));
    assert!(state.offer(&made.escrow).is_some());
    // and the maker still can
    assert_eq!(refund(&mut state, &refund_ctx(&made.escrow)), Ok(()));
}

#[test]
fn take_naming_another_maker_is_unauthorized() {
    let (mut state, made, taker_source) = open_offer(50);
    let ctx = Take::canonical(
        &programs(),
        &addr(TAKER),
        &addr(TAKER),
        &mint(ASSET_X),
        &mint(ASSET_Y),
        &made.escrow,
    )
    .unwrap();
    assert_eq!(take(&mut state, &ctx), Err(EscrowError::Unauthorized));
    assert_eq!(balance(&state, &taker_source), Some(50));
    assert_eq!(balance(&state, &made.vault), Some(1000));
}

#[test]
fn take_presenting_another_asset_is_refused() {
    let (mut state, made, taker_source) = open_offer(50);
    let cheap = addr(12);
    fund(&mut state, &addr(TAKER), &cheap, 500);
    let wrong_payment = Take::canonical(
        &programs(),
        &addr(TAKER),
        &addr(MAKER),
        &mint(ASSET_X),
        &Mint { address: cheap, decimals: 6 },
        &made.escrow,
    )
    .unwrap();
    assert_eq!(take(&mut state, &wrong_payment), Err(EscrowError::AssetMismatch));
    let wrong_deposit = Take::canonical(
        &programs(),
        &addr(TAKER),
        &addr(MAKER),
        &Mint { address: cheap, decimals: 6 },
        &mint(ASSET_Y),
        &made.escrow,
    )
    .unwrap();
    assert_eq!(take(&mut state, &wrong_deposit), Err(EscrowError::AssetMismatch));
    assert_eq!(balance(&state, &taker_source), Some(50));
    assert_eq!(balance(&state, &wrong_payment.taker_token_ata_mint_b), Some(500));
    assert_eq!(balance(&state, &made.vault), Some(1000));
    assert_eq!(state.account(&wrong_payment.maker_token_ata_mint_b), None);
    assert!(state.offer(&made.escrow).is_some());
}

#[test]
fn refund_presenting_another_asset_is_refused() {
    let (mut state, made, _) = open_offer(50);
    fund(&mut state, &addr(MAKER), &addr(ASSET_Y), 0);
    let ctx = Refund::canonical(&programs(), &addr(MAKER), &mint(ASSET_Y), &made.escrow).unwrap();
    assert_eq!(refund(&mut state, &ctx), Err(EscrowError::AssetMismatch));
    assert_eq!(balance(&state, &made.vault), Some(1000));
}

#[test]
fn accounts_that_are_not_the_derived_ones_are_refused() {
    let (mut state, made, taker_source) = open_offer(50);
    // a second account of X under the record's address, at another address
    let decoy = addr(90);
    state.create_account(&decoy, &addr(ASSET_X), &made.escrow).unwrap();
    let mut ctx = take_ctx(&made.escrow);
    ctx.vault_mint_a = decoy;
    assert_eq!(take(&mut state, &ctx), Err(EscrowError::AddressMismatch));
    let mut back = refund_ctx(&made.escrow);
    back.vault_ata = decoy;
    assert_eq!(refund(&mut state, &back), Err(EscrowError::AddressMismatch));
    // the payment cannot be sent to an account of the taker's choosing
    let mut ctx = take_ctx(&made.escrow);
    ctx.maker_token_ata_mint_b = taker_source;
    assert_eq!(take(&mut state, &ctx), Err(EscrowError::AddressMismatch));
    assert_eq!(balance(&state, &made.vault), Some(1000));
    assert_eq!(balance(&state, &taker_source), Some(50));
    assert!(state.offer(&made.escrow).is_some());
}

#[test]
fn make_at_another_address_than_the_derived_one_is_refused() {
    let mut state = Escrow::new(programs());
    let source = fund(&mut state, &addr(MAKER), &addr(ASSET_X), 1000);
    let (ctx, _) = make_ctx(1);
    // the accounts of id 1, presented with id 2
    assert_eq!(make(&mut state, &ctx, 2, 100, 50), Err(EscrowError::AddressMismatch));
    let mut moved = ctx;
    moved.vault = addr(77);
    assert_eq!(make(&mut state, &moved, 1, 100, 50), Err(EscrowError::AddressMismatch));
    assert_eq!(balance(&state, &source), Some(1000));
    assert_eq!(state.offer(&ctx.escrow), None);
    assert_eq!(state.account(&ctx.vault), None);
}

#[test]
fn make_without_the_funds_changes_nothing() {
    let mut state = Escrow::new(programs());
    let source = fund(&mut state, &addr(MAKER), &addr(ASSET_X), 999);
    let (ctx, _) = make_ctx(1);
    assert_eq!(make(&mut state, &ctx, 1, 1000, 50), Err(EscrowError::InsufficientBalance));
    assert_eq!(balance(&state, &source), Some(999));
    assert_eq!(state.offer(&ctx.escrow), None);
    assert_eq!(state.account(&ctx.vault), None);
    assert_eq!(make(&mut state, &ctx, 1, 999, 50), Ok(()));
    assert_eq!(balance(&state, &ctx.vault), Some(999));
}

#[test]
fn make_without_a_source_account_finds_nothing() {
    let mut state = Escrow::new(programs());
    let (ctx, _) = make_ctx(1);
    assert_eq!(make(&mut state, &ctx, 1, 0, 50), Err(EscrowError::NotFound));
    assert_eq!(state.account(&ctx.vault), None);
}

#[test]
fn make_where_the_vault_address_is_occupied_is_refused() {
    let mut state = Escrow::new(programs());
    let source = fund(&mut state, &addr(MAKER), &addr(ASSET_X), 1000);
    let (ctx, _) = make_ctx(1);
    state.create_account(&ctx.vault, &addr(ASSET_X), &ctx.escrow).unwrap();
    assert_eq!(make(&mut state, &ctx, 1, 100, 50), Err(EscrowError::Duplicate));
    assert_eq!(balance(&state, &source), Some(1000));
    assert_eq!(state.offer(&ctx.escrow), None);
}

#[test]
fn a_deposit_of_nothing_is_an_offer_too() {
    let mut state = Escrow::new(programs());
    fund(&mut state, &addr(MAKER), &addr(ASSET_X), 0);
    fund(&mut state, &addr(TAKER), &addr(ASSET_Y), 0);
    let (ctx, _) = make_ctx(1);
    assert_eq!(make(&mut state, &ctx, 1, 0, 0), Ok(()));
    assert_eq!(balance(&state, &ctx.vault), Some(0));
    let taken = take_ctx(&ctx.escrow);
    assert_eq!(take(&mut state, &taken), Ok(()));
    assert_eq!(balance(&state, &taken.taker_token_ata_mint_a), Some(0));
    assert_eq!(state.account(&ctx.vault), None);
}

#[test]
fn take_that_would_overflow_the_maker_moves_nothing() {
    let (mut state, made, taker_source) = open_offer(50);
    let maker_y = fund(&mut state, &addr(MAKER), &addr(ASSET_Y), u64::MAX - 49);
    assert_eq!(take(&mut state, &take_ctx(&made.escrow)), Err(EscrowError::Overflow));
    assert_eq!(balance(&state, &maker_y), Some(u64::MAX - 49));
    assert_eq!(balance(&state, &taker_source), Some(50));
    assert_eq!(balance(&state, &made.vault), Some(1000));
}

#[test]
fn take_that_would_overflow_the_taker_moves_nothing() {
    let (mut state, made, taker_source) = open_offer(50);
    let taker_x = fund(&mut state, &addr(TAKER), &addr(ASSET_X), u64::MAX - 999);
    let ctx = take_ctx(&made.escrow);
    assert_eq!(take(&mut state, &ctx), Err(EscrowError::Overflow));
    // the payment, which came first, did not stay either
    assert_eq!(balance(&state, &taker_source), Some(50));
    assert_eq!(state.account(&ctx.maker_token_ata_mint_b), None);
    assert_eq!(balance(&state, &taker_x), Some(u64::MAX - 999));
    assert_eq!(balance(&state, &made.vault), Some(1000));
    assert!(state.offer(&made.escrow).is_some());
}

#[test]
fn the_maker_can_take_the_offer_too() {
    let mut state = Escrow::new(programs());
    let x = fund(&mut state, &addr(MAKER), &addr(ASSET_X), 1000);
    let y = fund(&mut state, &addr(MAKER), &addr(ASSET_Y), 60);
    let (made, _) = make_ctx(1);
    assert_eq!(make(&mut state, &made, 1, 1000, 50), Ok(()));
    let ctx = Take::canonical(
        &programs(),
        &addr(MAKER),
        &addr(MAKER),
        &mint(ASSET_X),
        &mint(ASSET_Y),
        &made.escrow,
    )
    .unwrap();
    assert_eq!(take(&mut state, &ctx), Ok(()));
    assert_eq!(balance(&state, &x), Some(1000));
    assert_eq!(balance(&state, &y), Some(60));
    assert_eq!(state.account(&made.vault), None);
}

#[test]
fn transitions_take_the_derived_accounts_as_given() {
    // with the derivation's results passed in, any addresses will do
    let programs = programs();
    let mut state = Escrow::new(programs);
    let ctx = Make {
        maker: addr(MAKER),
        mint_a: mint(ASSET_X),
        mint_b: mint(ASSET_Y),
        maker_token_ata: addr(30),
        escrow: addr(31),
        vault: addr(32),
    };
    state.create_account(&addr(30), &addr(ASSET_X), &addr(MAKER)).unwrap();
    state.mint_to(&addr(30), 1000).unwrap();
    assert_eq!(make_with(&mut state, &ctx, 1, 1000, 50, None), Err(EscrowError::AddressMismatch));
    let mut other = ctx;
    other.escrow = addr(33);
    assert_eq!(
        make_with(&mut state, &ctx, 1, 1000, 50, Some((other, 255))),
        Err(EscrowError::AddressMismatch)
    );
    assert_eq!(make_with(&mut state, &ctx, 1, 1000, 50, Some((ctx, 255))), Ok(()));
    assert_eq!(state.offer(&addr(31)).unwrap().bump, 255);
    assert_eq!(balance(&state, &addr(32)), Some(1000));

    let back = Refund {
        maker: addr(MAKER),
        maker_token: mint(ASSET_X),
        maker_token_ata: addr(30),
        escrow: addr(31),
        vault_ata: addr(32),
    };
    assert_eq!(
        refund_with(&mut state, &back, Some(addr(31)), None),
        Err(EscrowError::AddressMismatch)
    );
    assert_eq!(refund_with(&mut state, &back, None, Some(back)), Err(EscrowError::AddressMismatch));
    assert_eq!(
        refund_with(&mut state, &back, Some(addr(30)), Some(back)),
        Err(EscrowError::AddressMismatch)
    );
    assert_eq!(balance(&state, &addr(32)), Some(1000));
    assert_eq!(refund_with(&mut state, &back, Some(addr(31)), Some(back)), Ok(()));
    assert_eq!(balance(&state, &addr(30)), Some(1000));
    assert_eq!(state.account(&addr(32)), None);

    assert_eq!(make_with(&mut state, &ctx, 1, 1000, 50, Some((ctx, 254))), Ok(()));
    state.create_account(&addr(40), &addr(ASSET_Y), &addr(TAKER)).unwrap();
    state.mint_to(&addr(40), 50).unwrap();
    let taken = Take {
        taker: addr(TAKER),
        maker_token: mint(ASSET_X),
        taker_token: mint(ASSET_Y),
        escrow: addr(31),
        vault_mint_a: addr(32),
        maker: addr(MAKER),
        maker_token_ata_mint_b: addr(41),
        taker_token_ata_mint_a: addr(42),
        taker_token_ata_mint_b: addr(40),
    };
    assert_eq!(
        take_with(&mut state, &taken, Some(addr(31)), None),
        Err(EscrowError::AddressMismatch)
    );
    assert_eq!(take_with(&mut state, &taken, None, Some(taken)), Err(EscrowError::AddressMismatch));
    assert_eq!(
        take_with(&mut state, &taken, Some(addr(32)), Some(taken)),
        Err(EscrowError::AddressMismatch)
    );
    assert_eq!(balance(&state, &addr(40)), Some(50));
    assert_eq!(take_with(&mut state, &taken, Some(addr(31)), Some(taken)), Ok(()));
    assert_eq!(balance(&state, &addr(40)), Some(0));
    assert_eq!(balance(&state, &addr(41)), Some(50));
    assert_eq!(balance(&state, &addr(42)), Some(1000));
    assert_eq!(state.account(&addr(32)), None);
    assert_eq!(state.offer(&addr(31)), None);
}

#[test]
fn take_rejects_a_receiving_account_under_another_owner() {
    let programs = programs();
    let mut state = Escrow::new(programs);
    let ctx = Make {
        maker: addr(MAKER),
        mint_a: mint(ASSET_X),
        mint_b: mint(ASSET_Y),
        maker_token_ata: addr(30),
        escrow: addr(31),
        vault: addr(32),
    };
    state.create_account(&addr(30), &addr(ASSET_X), &addr(MAKER)).unwrap();
    state.mint_to(&addr(30), 1000).unwrap();
    assert_eq!(make_with(&mut state, &ctx, 1, 1000, 50, Some((ctx, 255))), Ok(()));
    state.create_account(&addr(40), &addr(ASSET_Y), &addr(TAKER)).unwrap();
    state.mint_to(&addr(40), 50).unwrap();
    // the account that is to receive the payment belongs to a third party
    state.create_account(&addr(41), &addr(ASSET_Y), &addr(99)).unwrap();
    // the account that is to receive the deposit holds another asset
    state.create_account(&addr(42), &addr(ASSET_Y), &addr(TAKER)).unwrap();
    let taken = Take {
        taker: addr(TAKER),
        maker_token: mint(ASSET_X),
        taker_token: mint(ASSET_Y),
        escrow: addr(31),
        vault_mint_a: addr(32),
        maker: addr(MAKER),
        maker_token_ata_mint_b: addr(41),
        taker_token_ata_mint_a: addr(42),
        taker_token_ata_mint_b: addr(40),
    };
    assert_eq!(
        take_with(&mut state, &taken, Some(addr(31)), Some(taken)),
        Err(EscrowError::Unauthorized)
    );
    let mut fixed = taken;
    fixed.maker_token_ata_mint_b = addr(43);
    assert_eq!(
        take_with(&mut state, &fixed, Some(addr(31)), Some(fixed)),
        Err(EscrowError::AssetMismatch)
    );
    assert_eq!(state.account(&addr(43)), None);
    assert_eq!(balance(&state, &addr(40)), Some(50));
    assert_eq!(balance(&state, &addr(32)), Some(1000));
}

#[test]
fn make_rejects_a_source_account_that_is_not_the_makers() {
    let programs = programs();
    let mut state = Escrow::new(programs);
    let ctx = Make {
        maker: addr(MAKER),
        mint_a: mint(ASSET_X),
        mint_b: mint(ASSET_Y),
        maker_token_ata: addr(30),
        escrow: addr(31),
        vault: addr(32),
    };
    state.create_account(&addr(30), &addr(ASSET_X), &addr(TAKER)).unwrap();
    state.mint_to(&addr(30), 1000).unwrap();
    assert_eq!(
        make_with(&mut state, &ctx, 1, 1000, 50, Some((ctx, 255))),
        Err(EscrowError::Unauthorized)
    );
    let mut wrong_asset = ctx;
    wrong_asset.mint_a = mint(ASSET_Y);
    assert_eq!(
        make_with(&mut state, &wrong_asset, 1, 1000, 50, Some((wrong_asset, 255))),
        Err(EscrowError::AssetMismatch)
    );
    assert_eq!(balance(&state, &addr(30)), Some(1000));
    assert_eq!(state.account(&addr(32)), None);
    assert_eq!(state.offer(&addr(31)), None);
}

#[test]
fn the_record_is_validated_again_when_it_is_released() {
    // a record whose bump seed does not reproduce its address
    let mut state = Escrow::new(programs());
    fund(&mut state, &addr(MAKER), &addr(ASSET_X), 1000);
    fund(&mut state, &addr(TAKER), &addr(ASSET_Y), 50);
    let (ctx, bump) = make_ctx(1);
    let wrong = bump.wrapping_sub(1);
    assert_eq!(make_with(&mut state, &ctx, 1, 1000, 50, Some((ctx, wrong))), Ok(()));
    assert_ne!(state.recorded_authority(&ctx.escrow), Some(ctx.escrow));
    assert_eq!(take(&mut state, &take_ctx(&ctx.escrow)), Err(EscrowError::AddressMismatch));
    assert_eq!(refund(&mut state, &refund_ctx(&ctx.escrow)), Err(EscrowError::AddressMismatch));
    assert_eq!(balance(&state, &ctx.vault), Some(1000));
    // a record that Make has stored reproduces it
    let (state, made, _) = open_offer(50);
    assert_eq!(state.recorded_authority(&made.escrow), Some(made.escrow));
    assert_eq!(state.recorded_authority(&made.vault), None);
}

#[test]
fn the_asset_is_compared_as_it_is_presented() {
    // decimals and all: accounts derived for other decimals are other accounts
    let (mut state, made, _) = open_offer(50);
    let mut ctx = refund_ctx(&made.escrow);
    ctx.maker_token.decimals = 9;
    let derived = refund_ctx(&made.escrow);
    assert_eq!(
        refund_with(&mut state, &ctx, Some(made.escrow), Some(derived)),
        Err(EscrowError::AddressMismatch)
    );
    assert_eq!(refund(&mut state, &ctx), Ok(()));
    assert_eq!(balance(&state, &made.maker_token_ata), Some(1000));
}

#[test]
fn a_new_escrow_holds_nothing() {
    let state = Escrow::new(programs());
    assert_eq!(state.programs(), programs());
    assert_eq!(state.offer(&addr(1)), None);
    assert_eq!(state.account(&addr(1)), None);
}

/// The units that the accounts at `addresses` hold together.
fn total(state: &Escrow, addresses: &[Address]) -> u128 {
    addresses.iter().map(|address| balance(state, address).unwrap_or(0) as u128).sum()
}

#[test]
fn no_transition_makes_or_loses_units() {
    let mut state = Escrow::new(programs());
    let maker_x = fund(&mut state, &addr(MAKER), &addr(ASSET_X), 1000);
    let taker_y = fund(&mut state, &addr(TAKER), &addr(ASSET_Y), 80);
    let (first, _) = make_ctx(1);
    let (second, _) = make_ctx(2);
    let taken = take_ctx(&first.escrow);
    let of_x = [maker_x, first.vault, second.vault, taken.taker_token_ata_mint_a];
    let of_y = [taker_y, taken.maker_token_ata_mint_b];
    assert_eq!(make(&mut state, &first, 1, 600, 50), Ok(()));
    assert_eq!(total(&state, &of_x), 1000);
    assert_eq!(make(&mut state, &second, 2, 400, 20), Ok(()));
    assert_eq!(total(&state, &of_x), 1000);
    assert_eq!(take(&mut state, &taken), Ok(()));
    assert_eq!(total(&state, &of_x), 1000);
    assert_eq!(total(&state, &of_y), 80);
    assert_eq!(refund(&mut state, &refund_ctx(&second.escrow)), Ok(()));
    assert_eq!(total(&state, &of_x), 1000);
    assert_eq!(total(&state, &of_y), 80);
    assert_eq!(balance(&state, &maker_x), Some(400));
    assert_eq!(balance(&state, &taken.taker_token_ata_mint_a), Some(600));
    // a refused transition moves nothing either
    assert_eq!(take(&mut state, &taken), Err(EscrowError::NotFound));
    assert_eq!(total(&state, &of_x), 1000);
    assert_eq!(total(&state, &of_y), 80);
}

#[test]
fn the_vault_of_another_offer_is_out_of_reach() {
    let mut state = Escrow::new(programs());
    fund(&mut state, &addr(MAKER), &addr(ASSET_X), 1000);
    let (first, _) = make_ctx(1);
    let (second, _) = make_ctx(2);
    assert_eq!(make(&mut state, &first, 1, 600, 50), Ok(()));
    assert_eq!(make(&mut state, &second, 2, 400, 20), Ok(()));
    // the record of the first offer, presented with the vault of the second
    let mut ctx = refund_ctx(&first.escrow);
    ctx.vault_ata = second.vault;
    assert_eq!(refund(&mut state, &ctx), Err(EscrowError::AddressMismatch));
    // even where the derivation is taken as given, the vault answers only to
    // the address of its own record
    assert_eq!(
        refund_with(&mut state, &ctx, Some(first.escrow), Some(ctx)),
        Err(EscrowError::Unauthorized)
    );
    assert_eq!(balance(&state, &second.vault), Some(400));
    assert_eq!(balance(&state, &first.vault), Some(600));
    assert!(state.offer(&first.escrow).is_some());
    assert!(state.offer(&second.escrow).is_some());
}
