use pallet_kitties::{mix_dna, random_value, Balances, Config, Entropy, Error, Event, Pallet};

const RESERVE: u128 = 1_000;
const A: u64 = 1;
const B: u64 = 2;
const POOR: u64 = 99;

fn store() -> Pallet {
    let mut p = Pallet::new(Config { kitty_reserve: RESERVE }, 1);
    p.set_free_balance(A, 10_000);
    p.set_free_balance(B, 20_000);
    p
}

fn entropy(seed: u8, index: Option<u32>) -> Entropy {
    Entropy { seed: [seed; 32], block_number: 5, extrinsic_index: index }
}

#[test]
fn create_issues_increasing_ids() {
    let mut p = store();
    for i in 0..5u32 {
        assert_eq!(p.create(A, &entropy(i as u8, None)), Ok(Event::KittyCreate(A, i)));
        assert_eq!(p.kitties_count(), i + 1);
    }
    assert_eq!(p.breed(B, 0, 4, &entropy(9, None)), Ok(Event::KittyCreate(B, 5)));
    assert_eq!(p.kitties_count(), 6);
}

#[test]
fn create_without_funds_allocates_nothing() {
    let mut p = store();
    assert_eq!(p.create(POOR, &entropy(1, None)), Err(Error::MoneyNotEnough));
    assert_eq!(p.kitties_count(), 0);
    assert_eq!(p.owner(0), None);
    assert_eq!(p.kitties(0), None);
    assert_eq!(p.create(A, &entropy(1, None)), Ok(Event::KittyCreate(A, 0)));
}

#[test]
fn create_scenario_balances() {
    let mut p = store();
    assert!(p.create(A, &entropy(1, None)).is_ok());
    assert_eq!(p.owner(0), Some(A));
    assert_eq!(p.free_balance(A), 9_000);
    assert_eq!(p.reserved_balance(A), RESERVE);
}

#[test]
fn ownership_survives_every_operation() {
    let mut p = store();
    assert!(p.create(A, &entropy(1, None)).is_ok());
    assert!(p.create(A, &entropy(2, None)).is_ok());
    assert!(p.transfer(A, B, 0).is_ok());
    assert!(p.breed(A, 0, 1, &entropy(3, None)).is_ok());
    assert!(p.sale(B, 0, Some(100)).is_ok());
    assert!(p.buy(A, 0).is_ok());
    assert_eq!(p.transfer(B, A, 1), Err(Error::NotOwner));
    for id in 0..3 {
        assert!(p.owner(id).is_some());
    }
    assert_eq!(p.owner(3), None);
}

#[test]
fn bonds_match_kitties_owned() {
    let mut p = store();
    assert!(p.create(A, &entropy(1, None)).is_ok());
    assert!(p.create(A, &entropy(2, None)).is_ok());
    assert!(p.create(B, &entropy(3, None)).is_ok());
    assert!(p.transfer(A, B, 1).is_ok());
    assert!(p.sale(B, 2, Some(500)).is_ok());
    assert!(p.buy(A, 2).is_ok());
    assert_eq!(p.transfer(A, POOR, 0), Err(Error::MoneyNotEnough));
    for who in [A, B, POOR] {
        let owned = (0..p.kitties_count()).filter(|&i| p.owner(i) == Some(who)).count() as u128;
        assert_eq!(p.reserved_balance(who), owned * RESERVE);
    }
    assert_eq!(p.reserved_balance(A), 2 * RESERVE);
    assert_eq!(p.reserved_balance(B), RESERVE);
}

#[test]
fn transfer_scenario_moves_the_bond() {
    let mut p = store();
    assert!(p.create(A, &entropy(1, None)).is_ok());
    assert_eq!(p.transfer(A, B, 0), Ok(Event::KittyTransfer(A, B, 0)));
    assert_eq!(p.owner(0), Some(B));
    assert_eq!(p.free_balance(A), 10_000);
    assert_eq!(p.reserved_balance(A), 0);
    assert_eq!(p.free_balance(B), 19_000);
    assert_eq!(p.reserved_balance(B), RESERVE);
}

#[test]
fn transfer_to_poor_account_changes_nothing() {
    let mut p = store();
    assert!(p.create(A, &entropy(1, None)).is_ok());
    assert_eq!(p.transfer(A, POOR, 0), Err(Error::MoneyNotEnough));
    assert_eq!(p.owner(0), Some(A));
    assert_eq!(p.reserved_balance(A), RESERVE);
    assert_eq!(p.reserved_balance(POOR), 0);
}

#[test]
fn transfer_to_oneself_keeps_balances() {
    let mut p = store();
    assert!(p.create(A, &entropy(1, None)).is_ok());
    assert_eq!(p.transfer(A, A, 0), Ok(Event::KittyTransfer(A, A, 0)));
    assert_eq!(p.owner(0), Some(A));
    assert_eq!(p.free_balance(A), 9_000);
    assert_eq!(p.reserved_balance(A), RESERVE);
}

#[test]
fn transfer_keeps_an_existing_listing() {
    let mut p = store();
    assert!(p.create(A, &entropy(1, None)).is_ok());
    assert!(p.sale(A, 0, Some(300)).is_ok());
    assert!(p.transfer(A, B, 0).is_ok());
    assert_eq!(p.kitty_sale_price(0), Some(300));
}

#[test]
fn breeding_is_deterministic_and_mixes_bits() {
    let run = || {
        let mut p = store();
        assert!(p.create(A, &entropy(1, Some(0))).is_ok());
        assert!(p.create(A, &entropy(2, Some(1))).is_ok());
        assert!(p.breed(A, 0, 1, &entropy(3, Some(2))).is_ok());
        p
    };
    let p1 = run();
    let p2 = run();
    let child = p1.kitties(2).unwrap().0;
    assert_eq!(Some(p1.kitties(2).unwrap()), p2.kitties(2));
    let dna1 = p1.kitties(0).unwrap().0;
    let dna2 = p1.kitties(1).unwrap().0;
    let selector = random_value(A, &entropy(3, Some(2)));
    for i in 0..16 {
        assert_eq!(child[i], (selector[i] & dna1[i]) | (!selector[i] & dna2[i]));
    }
    assert_eq!(p1.owner(2), Some(A));
    assert_eq!(p1.reserved_balance(A), 3 * RESERVE);
}

#[test]
fn breeding_needs_no_ownership_of_parents() {
    let mut p = store();
    assert!(p.create(A, &entropy(1, None)).is_ok());
    assert!(p.create(A, &entropy(2, None)).is_ok());
    assert_eq!(p.breed(B, 0, 1, &entropy(3, None)), Ok(Event::KittyCreate(B, 2)));
    assert_eq!(p.owner(2), Some(B));
}

#[test]
fn breed_errors() {
    let mut p = store();
    assert_eq!(p.breed(A, 5, 5, &entropy(1, None)), Err(Error::SameParentIndex));
    assert!(p.create(A, &entropy(1, None)).is_ok());
    assert_eq!(p.breed(A, 0, 99, &entropy(1, None)), Err(Error::InvalidKittyIndex));
    assert!(p.create(A, &entropy(2, None)).is_ok());
    assert_eq!(p.breed(POOR, 0, 1, &entropy(1, None)), Err(Error::MoneyNotEnough));
    assert_eq!(p.kitties_count(), 2);
}

#[test]
fn buy_scenario_clears_listing() {
    let mut p = store();
    assert!(p.create(A, &entropy(1, None)).is_ok());
    assert!(p.sale(A, 0, Some(8_000)).is_ok());
    assert!(p.buy(B, 0).is_ok());
    assert_eq!(p.kitty_sale_price(0), None);
    assert_eq!(p.buy(A, 0), Err(Error::PriceError));
}

#[test]
fn self_purchase_leaves_everything() {
    let mut p = store();
    assert!(p.create(A, &entropy(1, None)).is_ok());
    assert!(p.sale(A, 0, Some(1)).is_ok());
    assert_eq!(p.buy(A, 0), Err(Error::CantBuyYourOwnKitty));
    assert_eq!(p.owner(0), Some(A));
    assert_eq!(p.free_balance(A), 9_000);
    assert_eq!(p.reserved_balance(A), RESERVE);
    assert_eq!(p.kitty_sale_price(0), Some(1));
}

#[test]
fn withdrawn_listing_is_not_for_sale() {
    let mut p = store();
    assert!(p.create(A, &entropy(1, None)).is_ok());
    assert!(p.sale(A, 0, Some(10)).is_ok());
    assert_eq!(p.sale(A, 0, None), Ok(Event::SaleKitty(A, 0, None)));
    assert_eq!(p.buy(B, 0), Err(Error::PriceError));
}

#[test]
fn buy_needs_price_and_bond() {
    let mut p = store();
    assert!(p.create(A, &entropy(1, None)).is_ok());
    assert!(p.sale(A, 0, Some(19_500)).is_ok());
    assert_eq!(p.buy(B, 0), Err(Error::MoneyNotEnough));
    assert_eq!(p.free_balance(B), 20_000);
    assert!(p.sale(A, 0, Some(19_000)).is_ok());
    assert!(p.buy(B, 0).is_ok());
    assert_eq!(p.free_balance(B), 0);
    assert_eq!(p.reserved_balance(B), RESERVE);
    assert_eq!(p.free_balance(A), 9_000 + 19_000 + RESERVE);
}

#[test]
fn buy_over_free_balance_fails() {
    let mut p = store();
    assert!(p.create(A, &entropy(1, None)).is_ok());
    assert!(p.sale(A, 0, Some(25_000)).is_ok());
    assert_eq!(p.buy(B, 0), Err(Error::MoneyNotEnough));
    assert_eq!(p.owner(0), Some(A));
}

#[test]
fn ledger_keeps_payer_alive() {
    let mut l = Balances::new(10);
    l.set_free_balance(A, 100);
    assert_eq!(l.transfer(A, B, 95), Err(Error::MoneyNotEnough));
    assert_eq!(l.transfer(A, B, 5), Err(Error::MoneyNotEnough));
    assert_eq!(l.transfer(A, B, 90), Ok(()));
    assert_eq!(l.free_balance(A), 10);
    assert_eq!(l.free_balance(B), 90);
    assert_eq!(l.unreserve(A, 7), 7);
    assert_eq!(l.reserve(A, 4), Ok(()));
    assert_eq!(l.unreserve(A, 7), 3);
    assert_eq!(l.free_balance(A), 10);
    assert_eq!(l.reserved_balance(A), 0);
}

#[test]
fn mix_takes_bits_by_selector() {
    let child = mix_dna(&[0xF0; 16], &[0xAA; 16], &[0x55; 16]);
    assert_eq!(child, [0xA5; 16]);
    let mut sel = [0u8; 16];
    sel[3] = 0xFF;
    let child = mix_dna(&sel, &[1; 16], &[2; 16]);
    assert_eq!(child[3], 1);
    assert_eq!(child[4], 2);
}

#[test]
fn genome_depends_on_each_input() {
    let base = random_value(A, &entropy(1, Some(0)));
    assert_eq!(base, random_value(A, &entropy(1, Some(0))));
    assert_ne!(base, random_value(B, &entropy(1, Some(0))));
    assert_ne!(base, random_value(A, &entropy(2, Some(0))));
    assert_ne!(base, random_value(A, &entropy(1, Some(1))));
    assert_ne!(base, random_value(A, &entropy(1, None)));
    // Neither an empty digest nor the leading bytes of the hashed seed.
    assert_ne!(base, [0u8; 16]);
    assert_ne!(base, [1u8; 16]);
}
