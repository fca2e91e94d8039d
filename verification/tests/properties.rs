use carbon_x::registry::CarbonXContract;
use carbon_x::types::{Address, CarbonXEvent, Error};

fn admin_id() -> Address {
    Address(1)
}

fn verifier_id() -> Address {
    Address(2)
}

fn issuer_id() -> Address {
    Address(3)
}

fn buyer_id() -> Address {
    Address(4)
}

/// A registry with an admin and one whitelisted verifier.
fn ready_registry() -> CarbonXContract {
    let mut reg = CarbonXContract::new();
    reg.initialize(admin_id()).unwrap();
    reg.add_verifier(admin_id(), verifier_id()).unwrap();
    reg
}

fn register(reg: &mut CarbonXContract, project: &str, quantity: u64) -> Result<u64, Error> {
    reg.register_credit(
        verifier_id(),
        String::from(project),
        issuer_id(),
        2024u32,
        String::from("Brazil"),
        quantity,
    )
}

#[test]
fn ids_increase_by_one_from_one() {
    let mut reg = ready_registry();
    assert_eq!(register(&mut reg, "P-A", 10), Ok(1));
    assert_eq!(register(&mut reg, "P-B", 20), Ok(2));
    // a failed registration must not consume an id
    assert_eq!(register(&mut reg, "P-C", 0), Err(Error::InvalidQuantity));
    assert_eq!(register(&mut reg, "P-D", 30), Ok(3));
}

#[test]
fn verification_succeeds_at_most_once() {
    let mut reg = ready_registry();
    let id = register(&mut reg, "P-A", 10).unwrap();
    reg.verify_credit(verifier_id(), id).unwrap();
    let before = reg.get_credit(id).unwrap();

    assert_eq!(reg.verify_credit(verifier_id(), id), Err(Error::AlreadyVerified));

    let after = reg.get_credit(id).unwrap();
    assert!(after.verified);
    assert_eq!(after.id, before.id);
    assert_eq!(after.owner, before.owner);
    assert_eq!(after.quantity, before.quantity);
    assert!(!after.retired);
}

#[test]
fn retirement_is_absorbing() {
    let mut reg = ready_registry();
    let id = register(&mut reg, "P-A", 10).unwrap();
    reg.verify_credit(verifier_id(), id).unwrap();
    reg.list_for_sale(issuer_id(), id, 500).unwrap();
    assert!(reg.get_listing(id).unwrap().active);

    reg.retire_credit(issuer_id(), id).unwrap();

    // the open listing collapsed with the retirement
    assert!(!reg.get_listing(id).unwrap().active);
    // no transition leaves the retired state
    assert_eq!(reg.list_for_sale(issuer_id(), id, 500), Err(Error::AlreadyRetired));
    assert_eq!(reg.buy_credit(buyer_id(), id), Err(Error::ListingNotActive));
    assert_eq!(reg.retire_credit(issuer_id(), id), Err(Error::AlreadyRetired));
    assert!(reg.get_credit(id).unwrap().retired);
}

#[test]
fn purchase_transfers_ownership_once() {
    let mut reg = ready_registry();
    let id = register(&mut reg, "P-A", 10).unwrap();
    reg.verify_credit(verifier_id(), id).unwrap();
    reg.list_for_sale(issuer_id(), id, 750).unwrap();

    reg.buy_credit(buyer_id(), id).unwrap();
    assert_eq!(reg.get_credit(id).unwrap().owner, buyer_id());
    assert!(!reg.get_listing(id).unwrap().active);

    // the deactivated listing admits no second sale
    assert_eq!(reg.buy_credit(Address(9), id), Err(Error::ListingNotActive));
    assert_eq!(reg.get_credit(id).unwrap().owner, buyer_id());
}

#[test]
fn resale_cycle_by_new_owner() {
    let mut reg = ready_registry();
    let id = register(&mut reg, "P-A", 10).unwrap();
    reg.verify_credit(verifier_id(), id).unwrap();
    reg.list_for_sale(issuer_id(), id, 100).unwrap();
    reg.buy_credit(buyer_id(), id).unwrap();

    // the previous owner may no longer list the credit
    assert_eq!(reg.list_for_sale(issuer_id(), id, 200), Err(Error::NotOwner));

    // the new owner relists and sells on
    let second_buyer = Address(5);
    reg.list_for_sale(buyer_id(), id, 200).unwrap();
    let listing = reg.get_listing(id).unwrap();
    assert_eq!(listing.price, 200);
    assert_eq!(listing.seller, buyer_id());
    reg.buy_credit(second_buyer, id).unwrap();
    assert_eq!(reg.get_credit(id).unwrap().owner, second_buyer);
}

#[test]
fn non_verifier_cannot_register_or_verify() {
    let mut reg = ready_registry();
    let id = register(&mut reg, "P-A", 10).unwrap();
    let outsider = Address(8);
    let r = reg.register_credit(
        outsider,
        String::from("P-B"),
        issuer_id(),
        2024u32,
        String::from("Kenya"),
        10u64,
    );
    assert_eq!(r, Err(Error::NotVerifier));
    assert_eq!(reg.verify_credit(outsider, id), Err(Error::NotVerifier));
}

#[test]
fn non_owner_cannot_list_or_retire() {
    let mut reg = ready_registry();
    let id = register(&mut reg, "P-A", 10).unwrap();
    reg.verify_credit(verifier_id(), id).unwrap();
    let outsider = Address(8);
    assert_eq!(reg.list_for_sale(outsider, id, 100), Err(Error::NotOwner));
    assert_eq!(reg.retire_credit(outsider, id), Err(Error::NotOwner));
}

#[test]
fn end_to_end_lifecycle() {
    let mut reg = CarbonXContract::new();
    let admin = Address(10);
    let v = Address(11);
    let issuer = Address(12);
    let buyer = Address(13);

    reg.initialize(admin).unwrap();
    reg.add_verifier(admin, v).unwrap();
    let id = reg
        .register_credit(v, String::from("P-1"), issuer, 2024u32, String::from("Brazil"), 100u64)
        .unwrap();
    assert_eq!(id, 1);
    reg.verify_credit(v, id).unwrap();
    assert!(reg.get_credit(id).unwrap().verified);
    reg.list_for_sale(issuer, id, 1_000_000).unwrap();
    reg.buy_credit(buyer, id).unwrap();
    assert_eq!(reg.get_credit(id).unwrap().owner, buyer);
    assert!(!reg.get_listing(id).unwrap().active);
    reg.retire_credit(buyer, id).unwrap();
    assert_eq!(reg.get_retired_credits(), vec![1u64]);
}

#[test]
fn setup_errors() {
    let mut reg = CarbonXContract::new();

    // nothing but initialize works on a fresh registry
    assert_eq!(reg.add_verifier(admin_id(), verifier_id()), Err(Error::NotInitialized));
    let r = reg.register_credit(
        verifier_id(),
        String::from("P-A"),
        issuer_id(),
        2024u32,
        String::from("Brazil"),
        10u64,
    );
    assert_eq!(r, Err(Error::NotInitialized));
    assert_eq!(reg.verify_credit(verifier_id(), 1), Err(Error::NotInitialized));
    assert!(!reg.is_admin(admin_id()));

    // initialize exactly once
    reg.initialize(admin_id()).unwrap();
    assert_eq!(reg.initialize(Address(7)), Err(Error::AlreadyInitialized));
    assert!(reg.is_admin(admin_id()));
    assert!(!reg.is_admin(Address(7)));
}

#[test]
fn only_admin_grows_whitelist() {
    let mut reg = CarbonXContract::new();
    reg.initialize(admin_id()).unwrap();
    assert_eq!(reg.add_verifier(verifier_id(), verifier_id()), Err(Error::Unauthorized));
    reg.add_verifier(admin_id(), verifier_id()).unwrap();
}

#[test]
fn duplicate_verifier_entries_are_kept() {
    let mut reg = ready_registry();
    // the whitelist is append-only and not deduplicated
    reg.add_verifier(admin_id(), verifier_id()).unwrap();
    reg.add_verifier(admin_id(), verifier_id()).unwrap();
    // the duplicated verifier still acts as one
    assert_eq!(register(&mut reg, "P-A", 10), Ok(1));
}

#[test]
fn missing_credit_is_reported() {
    let mut reg = ready_registry();
    assert_eq!(reg.get_credit(0).map(|c| c.id), Err(Error::CreditNotFound));
    assert_eq!(reg.get_credit(1).map(|c| c.id), Err(Error::CreditNotFound));
    assert_eq!(reg.verify_credit(verifier_id(), 1), Err(Error::CreditNotFound));
    assert_eq!(reg.list_for_sale(issuer_id(), 1, 100), Err(Error::CreditNotFound));
    assert_eq!(reg.retire_credit(issuer_id(), 1), Err(Error::CreditNotFound));
    // an id never listed doubles as "listing not active"
    assert_eq!(reg.get_listing(1).map(|l| l.credit_id), Err(Error::ListingNotActive));
    assert_eq!(reg.buy_credit(buyer_id(), 1), Err(Error::ListingNotActive));
}

#[test]
fn unverified_inventory_stays_off_market() {
    let mut reg = ready_registry();
    let id = register(&mut reg, "P-A", 10).unwrap();
    assert_eq!(reg.list_for_sale(issuer_id(), id, 100), Err(Error::Unauthorized));
    assert_eq!(reg.get_listing(id).map(|l| l.credit_id), Err(Error::ListingNotActive));
}

#[test]
fn relisting_overwrites_the_listing() {
    let mut reg = ready_registry();
    let id = register(&mut reg, "P-A", 10).unwrap();
    reg.verify_credit(verifier_id(), id).unwrap();
    reg.list_for_sale(issuer_id(), id, 100).unwrap();
    reg.list_for_sale(issuer_id(), id, 250).unwrap();
    let listing = reg.get_listing(id).unwrap();
    assert_eq!(listing.price, 250);
    assert!(listing.active);
}

#[test]
fn retired_index_keeps_retirement_order() {
    let mut reg = ready_registry();
    let first = register(&mut reg, "P-A", 10).unwrap();
    let second = register(&mut reg, "P-B", 20).unwrap();
    reg.verify_credit(verifier_id(), first).unwrap();
    reg.verify_credit(verifier_id(), second).unwrap();
    assert_eq!(reg.get_retired_credits(), Vec::<u64>::new());

    reg.retire_credit(issuer_id(), second).unwrap();
    reg.retire_credit(issuer_id(), first).unwrap();
    assert_eq!(reg.get_retired_credits(), vec![second, first]);
}

#[test]
fn events_trace_the_lifecycle() {
    let mut reg = ready_registry();
    let id = register(&mut reg, "P-A", 10).unwrap();
    reg.verify_credit(verifier_id(), id).unwrap();
    reg.list_for_sale(issuer_id(), id, 300).unwrap();
    reg.buy_credit(buyer_id(), id).unwrap();
    reg.retire_credit(buyer_id(), id).unwrap();

    assert_eq!(reg.events.len(), 7);
    assert!(matches!(&reg.events[0], CarbonXEvent::Initialized(a) if *a == admin_id()));
    assert!(matches!(&reg.events[1], CarbonXEvent::VerifierAdded(a) if *a == verifier_id()));
    assert!(matches!(&reg.events[2],
        CarbonXEvent::CreditRegistered(i, p) if *i == id && p.as_str() == "P-A"));
    assert!(matches!(&reg.events[3],
        CarbonXEvent::CreditVerified(i, a) if *i == id && *a == verifier_id()));
    assert!(matches!(&reg.events[4], CarbonXEvent::CreditListed(i, p) if *i == id && *p == 300));
    assert!(matches!(&reg.events[5],
        CarbonXEvent::CreditSold(i, s, b, p)
            if *i == id && *s == issuer_id() && *b == buyer_id() && *p == 300));
    assert!(matches!(&reg.events[6], CarbonXEvent::CreditRetired(i, a) if *i == id && *a == buyer_id()));
}

#[test]
fn failed_calls_leave_no_trace() {
    let mut reg = ready_registry();
    let id = register(&mut reg, "P-A", 10).unwrap();
    let events_before = reg.events.len();
    let retired_before = reg.get_retired_credits();

    assert!(register(&mut reg, "P-B", 0).is_err());
    assert!(reg.verify_credit(Address(9), id).is_err());
    assert!(reg.list_for_sale(issuer_id(), id, 5).is_err());
    assert!(reg.buy_credit(buyer_id(), id).is_err());
    assert!(reg.retire_credit(buyer_id(), id).is_err());

    assert_eq!(reg.events.len(), events_before);
    assert_eq!(reg.get_retired_credits(), retired_before);
    let credit = reg.get_credit(id).unwrap();
    assert!(!credit.verified && !credit.retired);
    assert_eq!(credit.owner, issuer_id());
}
