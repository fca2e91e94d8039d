//! The registry core: one state value holding every entity, and the
//! operations that move credits through their lifecycle
//! (registered, verified, listed, sold, retired).

use vstd::prelude::*;
use crate::types::{Address, CarbonCredit, CarbonXEvent, Error, MarketListing};

verus! {

/// The whole registry state. A fresh, uninitialized instance is made
/// by [`CarbonXContract::new`]; every later change goes through an
/// operation that validates all of its preconditions before writing
/// anything, so a failed call leaves the state untouched.
///
/// Credit ids are dense: the credit with id `i` is `credits[i - 1]`,
/// and `listings[i - 1]` is its current listing, if it ever had one.
pub struct CarbonXContract {
    /// Set once at initialization, immutable thereafter.
    pub admin: Option<Address>,
    /// Monotonic counter, seeded at 1, advanced exactly once per
    /// successful registration.
    pub next_credit_id: u64,
    /// Whitelist of identities allowed to register and verify
    /// credits. Append-only; duplicates are permitted.
    pub verifiers: Vec<Address>,
    /// All credits ever registered, in id order; never deleted.
    pub credits: Vec<CarbonCredit>,
    /// Listing slot per credit, parallel to `credits`.
    pub listings: Vec<Option<MarketListing>>,
    /// Ids of retired credits, in retirement order.
    pub retired_credits: Vec<u64>,
    /// Ordered log of notifications, one per successful operation.
    pub events: Vec<CarbonXEvent>,
}

impl CarbonXContract {
    /// The registry has an admin, i.e. `initialize` has succeeded.
    pub open spec fn initialized(self) -> bool {
        self.admin is Some
    }

    /// A credit with this id has been registered.
    pub open spec fn has_credit(self, credit_id: u64) -> bool {
        1 <= credit_id <= self.credits@.len()
    }

    /// The credit with this id.
    pub open spec fn credit_at(self, credit_id: u64) -> CarbonCredit
        recommends
            self.has_credit(credit_id),
    {
        self.credits@[credit_id - 1]
    }

    /// A listing (active or not) exists for this credit id.
    pub open spec fn has_listing(self, credit_id: u64) -> bool {
        self.has_credit(credit_id) && self.listings@[credit_id - 1] is Some
    }

    /// The listing for this credit id.
    pub open spec fn listing_at(self, credit_id: u64) -> MarketListing
        recommends
            self.has_listing(credit_id),
    {
        self.listings@[credit_id - 1]->Some_0
    }

    /// Well-formedness of the whole state; established by `new` and
    /// preserved by every operation.
    pub open spec fn wf(self) -> bool {
        &&& self.next_credit_id == self.credits@.len() + 1
        &&& self.listings@.len() == self.credits@.len()
        &&& forall|i: int|
            0 <= i < self.credits@.len() ==> (#[trigger] self.credits@[i]).id == i + 1
        &&& forall|i: int|
            0 <= i < self.credits@.len() ==> (#[trigger] self.credits@[i]).quantity > 0
        &&& forall|i: int|
            0 <= i < self.listings@.len() ==> ((#[trigger] self.listings@[i]) matches Some(l)
                ==> l.credit_id == i + 1)
        &&& forall|i: int|
            0 <= i < self.listings@.len() ==> ((#[trigger] self.listings@[i]) matches Some(l)
                ==> (l.active ==> self.credits@[i].verified && !self.credits@[i].retired))
        &&& forall|i: int|
            0 <= i < self.credits@.len()
                ==> ((#[trigger] self.credits@[i]).retired <==> self.retired_credits@.contains(
                (i + 1) as u64,
            ))
        &&& forall|i: int, j: int|
            0 <= i < j < self.retired_credits@.len() ==> self.retired_credits@[i]
                != self.retired_credits@[j]
        &&& forall|i: int|
            0 <= i < self.retired_credits@.len() ==> 1 <= #[trigger] self.retired_credits@[i]
                <= self.credits@.len()
        &&& !self.initialized() ==> self.verifiers@.len() == 0 && self.credits@.len() == 0
            && self.events@.len() == 0
    }

    /// A fresh registry: no admin, no credits, counter at 1.
    pub fn new() -> (r: Self)
        ensures
            r.wf(),
            !r.initialized(),
            r.next_credit_id == 1,
            r.verifiers@.len() == 0,
            r.credits@.len() == 0,
            r.listings@.len() == 0,
            r.retired_credits@.len() == 0,
            r.events@.len() == 0,
    {
        CarbonXContract {
            admin: None,
            next_credit_id: 1,
            verifiers: Vec::new(),
            credits: Vec::new(),
            listings: Vec::new(),
            retired_credits: Vec::new(),
            events: Vec::new(),
        }
    }

    /// Whether `address` is the stored admin; `false` when the
    /// registry is not initialized. Never fails.
    pub fn is_admin(&self, address: Address) -> (r: bool)
        ensures
            r == (self.admin == Some(address)),
    {
        match &self.admin {
            Some(admin) => *admin == address,
            None => false,
        }
    }

    /// First-and-only setup call: stores the admin. The counter,
    /// whitelist and retired set are already in their seeded, empty
    /// state on a fresh registry.
    pub fn initialize(&mut self, admin: Address) -> (r: Result<(), Error>)
        requires
            old(self).wf(),
        ensures
            final(self).wf(),
            r is Ok <==> !old(self).initialized(),
            old(self).initialized() ==> r == Err::<(), Error>(Error::AlreadyInitialized),
            r is Err ==> *final(self) == *old(self),
            r is Ok ==> final(self).admin == Some(admin),
            r is Ok ==> final(self).events@ == old(self).events@.push(
                CarbonXEvent::Initialized(admin),
            ),
            r is Ok ==> (*final(self) == (CarbonXContract {
                admin: Some(admin),
                events: final(self).events,
                ..*old(self)
            })),
    {
        if self.admin.is_some() {
            return Err(Error::AlreadyInitialized);
        }
        self.admin = Some(admin);
        self.events.push(CarbonXEvent::Initialized(admin));
        Ok(())
    }

    /// Whether `address` stands in the whitelist.
    fn is_verifier(address: &Address, verifiers: &Vec<Address>) -> (r: bool)
        ensures
            r == verifiers@.contains(*address),
    {
        let n = verifiers.len();
        let mut i: usize = 0;
        while i < n
            invariant
                n == verifiers@.len(),
                0 <= i <= n,
                forall|j: int| 0 <= j < i ==> verifiers@[j] != *address,
            decreases n - i,
        {
            if verifiers[i] == *address {
                return true;
            }
            i += 1;
        }
        false
    }

    /// Grows the verifier whitelist by one entry. Only the admin may
    /// call this; entries are not deduplicated.
    pub fn add_verifier(&mut self, caller: Address, verifier: Address) -> (r: Result<(), Error>)
        requires
            old(self).wf(),
        ensures
            final(self).wf(),
            r is Ok <==> old(self).initialized() && old(self).admin == Some(caller),
            !old(self).initialized() ==> r == Err::<(), Error>(Error::NotInitialized),
            old(self).initialized() && old(self).admin != Some(caller) ==> r == Err::<(), Error>(
                Error::Unauthorized,
            ),
            r is Err ==> *final(self) == *old(self),
            r is Ok ==> final(self).verifiers@ == old(self).verifiers@.push(verifier),
            r is Ok ==> final(self).events@ == old(self).events@.push(
                CarbonXEvent::VerifierAdded(verifier),
            ),
            r is Ok ==> (*final(self) == (CarbonXContract {
                verifiers: final(self).verifiers,
                events: final(self).events,
                ..*old(self)
            })),
    {
        let admin = match &self.admin {
            Some(admin) => *admin,
            None => {
                return Err(Error::NotInitialized);
            },
        };
        if caller != admin {
            return Err(Error::Unauthorized);
        }
        self.verifiers.push(verifier);
        self.events.push(CarbonXEvent::VerifierAdded(verifier));
        Ok(())
    }

    /// Every precondition of a successful registration: the registry
    /// is initialized, the caller is whitelisted, and the quantity is
    /// positive.
    pub open spec fn can_register(self, verifier: Address, quantity: u64) -> bool {
        self.initialized() && self.verifiers@.contains(verifier) && quantity > 0
    }

    /// The credit that a successful registration appends.
    pub open spec fn fresh_credit(
        self,
        verifier: Address,
        project_id: String,
        issuer: Address,
        vintage_year: u32,
        region: String,
        quantity: u64,
    ) -> CarbonCredit {
        CarbonCredit {
            id: self.next_credit_id,
            project_id,
            issuer,
            verifier,
            vintage_year,
            region,
            quantity,
            verified: false,
            retired: false,
            owner: issuer,
        }
    }

    /// Registers a new credit batch: allocates the next id, stores
    /// the credit unverified and unretired with the issuer as its
    /// first owner, and advances the counter. The id is consumed only
    /// on success; a refused call leaves the counter where it was.
    pub fn register_credit(
        &mut self,
        verifier: Address,
        project_id: String,
        issuer: Address,
        vintage_year: u32,
        region: String,
        quantity: u64,
    ) -> (r: Result<u64, Error>)
        requires
            old(self).wf(),
            old(self).next_credit_id < u64::MAX,
        ensures
            final(self).wf(),
            r is Ok <==> old(self).can_register(verifier, quantity),
            !old(self).initialized() ==> r == Err::<u64, Error>(Error::NotInitialized),
            old(self).initialized() && !old(self).verifiers@.contains(verifier) ==> r
                == Err::<u64, Error>(Error::NotVerifier),
            old(self).initialized() && old(self).verifiers@.contains(verifier) && quantity == 0
                ==> r == Err::<u64, Error>(Error::InvalidQuantity),
            r is Err ==> *final(self) == *old(self),
            r is Ok ==> r == Ok::<u64, Error>(old(self).next_credit_id),
            r is Ok ==> final(self).next_credit_id == old(self).next_credit_id + 1,
            r is Ok ==> final(self).credits@ == old(self).credits@.push(
                old(self).fresh_credit(verifier, project_id, issuer, vintage_year, region,
                quantity),
            ),
            r is Ok ==> final(self).listings@ == old(self).listings@.push(None),
            r is Ok ==> final(self).events@ == old(self).events@.push(
                CarbonXEvent::CreditRegistered(old(self).next_credit_id, project_id),
            ),
            r is Ok ==> final(self).admin == old(self).admin,
            r is Ok ==> final(self).verifiers == old(self).verifiers,
            r is Ok ==> final(self).retired_credits == old(self).retired_credits,
    {
        if self.admin.is_none() {
            return Err(Error::NotInitialized);
        }
        if !Self::is_verifier(&verifier, &self.verifiers) {
            return Err(Error::NotVerifier);
        }
        if quantity == 0 {
            return Err(Error::InvalidQuantity);
        }

        let credit_id = self.next_credit_id;
        let credit = CarbonCredit {
            id: credit_id,
            project_id: project_id.clone(),
            issuer,
            verifier,
            vintage_year,
            region,
            quantity,
            verified: false,
            retired: false,
            owner: issuer,
        };

        self.credits.push(credit);
        self.listings.push(None);
        self.next_credit_id = credit_id + 1;
        self.events.push(CarbonXEvent::CreditRegistered(credit_id, project_id));

        Ok(credit_id)
    }

    /// Every precondition of a successful verification: the registry
    /// is initialized, the caller is whitelisted, the credit exists
    /// and is not yet verified.
    pub open spec fn can_verify(self, verifier: Address, credit_id: u64) -> bool {
        self.initialized() && self.verifiers@.contains(verifier) && self.has_credit(credit_id)
            && !self.credit_at(credit_id).verified
    }

    /// Marks a registered credit as verified. Succeeds at most once
    /// per credit: a second call finds `verified` already set and is
    /// refused without touching the state.
    pub fn verify_credit(&mut self, verifier: Address, credit_id: u64) -> (r: Result<(), Error>)
        requires
            old(self).wf(),
        ensures
            final(self).wf(),
            r is Ok <==> old(self).can_verify(verifier, credit_id),
            !old(self).initialized() ==> r == Err::<(), Error>(Error::NotInitialized),
            old(self).initialized() && !old(self).verifiers@.contains(verifier) ==> r
                == Err::<(), Error>(Error::NotVerifier),
            old(self).initialized() && old(self).verifiers@.contains(verifier) && !old(
                self,
            ).has_credit(credit_id) ==> r == Err::<(), Error>(Error::CreditNotFound),
            old(self).initialized() && old(self).verifiers@.contains(verifier) && old(
                self,
            ).has_credit(credit_id) && old(self).credit_at(credit_id).verified ==> r
                == Err::<(), Error>(Error::AlreadyVerified),
            r is Err ==> *final(self) == *old(self),
            r is Ok ==> final(self).credits@ == old(self).credits@.update(
                credit_id - 1,
                (CarbonCredit { verified: true, ..old(self).credit_at(credit_id) }),
            ),
            r is Ok ==> final(self).events@ == old(self).events@.push(
                CarbonXEvent::CreditVerified(credit_id, verifier),
            ),
            r is Ok ==> (*final(self) == (CarbonXContract {
                credits: final(self).credits,
                events: final(self).events,
                ..*old(self)
            })),
    {
        if self.admin.is_none() {
            return Err(Error::NotInitialized);
        }
        if !Self::is_verifier(&verifier, &self.verifiers) {
            return Err(Error::NotVerifier);
        }
        let n = self.credits.len();
        if credit_id == 0 || credit_id > n as u64 {
            return Err(Error::CreditNotFound);
        }
        let idx = (credit_id - 1) as usize;
        if self.credits[idx].verified {
            return Err(Error::AlreadyVerified);
        }

        let mut credit = self.credits[idx].clone();
        credit.verified = true;
        self.credits[idx] = credit;
        self.events.push(CarbonXEvent::CreditVerified(credit_id, verifier));
        Ok(())
    }

    /// Every precondition of a successful listing: the credit exists,
    /// the caller owns it, it is verified and not retired.
    pub open spec fn can_list(self, owner: Address, credit_id: u64) -> bool {
        self.has_credit(credit_id) && self.credit_at(credit_id).owner == owner && self.credit_at(
            credit_id,
        ).verified && !self.credit_at(credit_id).retired
    }

    /// Puts a credit up for sale at the given price, creating or
    /// overwriting the listing for this credit with an active one.
    /// Unverified inventory must not reach the market, so an
    /// unverified credit is refused as an authorization failure.
    pub fn list_for_sale(&mut self, owner: Address, credit_id: u64, price: i128) -> (r: Result<
        (),
        Error,
    >)
        requires
            old(self).wf(),
        ensures
            final(self).wf(),
            r is Ok <==> old(self).can_list(owner, credit_id),
            !old(self).has_credit(credit_id) ==> r == Err::<(), Error>(Error::CreditNotFound),
            old(self).has_credit(credit_id) && old(self).credit_at(credit_id).owner != owner ==> r
                == Err::<(), Error>(Error::NotOwner),
            old(self).has_credit(credit_id) && old(self).credit_at(credit_id).owner == owner
                && !old(self).credit_at(credit_id).verified ==> r == Err::<(), Error>(
                Error::Unauthorized,
            ),
            old(self).has_credit(credit_id) && old(self).credit_at(credit_id).owner == owner && old(
                self,
            ).credit_at(credit_id).verified && old(self).credit_at(credit_id).retired ==> r
                == Err::<(), Error>(Error::AlreadyRetired),
            r is Err ==> *final(self) == *old(self),
            r is Ok ==> final(self).listings@ == old(self).listings@.update(
                credit_id - 1,
                Some(MarketListing { credit_id, seller: owner, price, active: true }),
            ),
            r is Ok ==> final(self).events@ == old(self).events@.push(
                CarbonXEvent::CreditListed(credit_id, price),
            ),
            r is Ok ==> (*final(self) == (CarbonXContract {
                listings: final(self).listings,
                events: final(self).events,
                ..*old(self)
            })),
    {
        let n = self.credits.len();
        if credit_id == 0 || credit_id > n as u64 {
            return Err(Error::CreditNotFound);
        }
        let idx = (credit_id - 1) as usize;
        if self.credits[idx].owner != owner {
            return Err(Error::NotOwner);
        }
        if !self.credits[idx].verified {
            return Err(Error::Unauthorized);
        }
        if self.credits[idx].retired {
            return Err(Error::AlreadyRetired);
        }

        let listing = MarketListing { credit_id, seller: owner, price, active: true };
        self.listings[idx] = Some(listing);
        self.events.push(CarbonXEvent::CreditListed(credit_id, price));
        Ok(())
    }

    /// Every precondition of a successful purchase: an active listing
    /// for the credit. (On a well-formed state an active listing
    /// never points at a retired credit, so the defensive retired
    /// re-check in the body can never fire.)
    pub open spec fn can_buy(self, credit_id: u64) -> bool {
        self.has_listing(credit_id) && self.listing_at(credit_id).active
    }

    /// Buys a listed credit: transfers ownership to the buyer and
    /// deactivates the listing, so a second purchase of the same
    /// listing is refused. The price is advisory; no payment value
    /// moves through the core.
    pub fn buy_credit(&mut self, buyer: Address, credit_id: u64) -> (r: Result<(), Error>)
        requires
            old(self).wf(),
        ensures
            final(self).wf(),
            r is Ok <==> old(self).can_buy(credit_id),
            !old(self).can_buy(credit_id) ==> r == Err::<(), Error>(Error::ListingNotActive),
            r is Err ==> *final(self) == *old(self),
            r is Ok ==> final(self).credits@ == old(self).credits@.update(
                credit_id - 1,
                (CarbonCredit { owner: buyer, ..old(self).credit_at(credit_id) }),
            ),
            r is Ok ==> final(self).listings@ == old(self).listings@.update(
                credit_id - 1,
                Some((MarketListing { active: false, ..old(self).listing_at(credit_id) })),
            ),
            r is Ok ==> final(self).events@ == old(self).events@.push(
                CarbonXEvent::CreditSold(
                    credit_id,
                    old(self).credit_at(credit_id).owner,
                    buyer,
                    old(self).listing_at(credit_id).price,
                ),
            ),
            r is Ok ==> (*final(self) == (CarbonXContract {
                credits: final(self).credits,
                listings: final(self).listings,
                events: final(self).events,
                ..*old(self)
            })),
    {
        let n = self.listings.len();
        if credit_id == 0 || credit_id > n as u64 {
            return Err(Error::ListingNotActive);
        }
        let idx = (credit_id - 1) as usize;
        let mut listing = match &self.listings[idx] {
            Some(listing) => *listing,
            None => {
                return Err(Error::ListingNotActive);
            },
        };
        if !listing.active {
            return Err(Error::ListingNotActive);
        }

        // Defensive re-check: a retirement that slipped in after the
        // listing was observed must still refuse the sale.
        if self.credits[idx].retired {
            return Err(Error::AlreadyRetired);
        }

        let seller = self.credits[idx].owner;
        let mut credit = self.credits[idx].clone();
        credit.owner = buyer;
        self.credits[idx] = credit;

        listing.active = false;
        let price = listing.price;
        self.listings[idx] = Some(listing);

        self.events.push(CarbonXEvent::CreditSold(credit_id, seller, buyer, price));
        Ok(())
    }

    /// Every precondition of a successful retirement: the credit
    /// exists, the caller owns it, and it is not already retired.
    pub open spec fn can_retire(self, owner: Address, credit_id: u64) -> bool {
        self.has_credit(credit_id) && self.credit_at(credit_id).owner == owner && !self.credit_at(
            credit_id,
        ).retired
    }

    /// The listing slot for a credit after its retirement: absent if
    /// it was absent, otherwise forced inactive.
    pub open spec fn collapsed_listing(self, credit_id: u64) -> Option<MarketListing> {
        match self.listings@[credit_id - 1] {
            Some(l) => Some(MarketListing { active: false, ..l }),
            None => None,
        }
    }

    /// Permanently retires a credit: sets the terminal `retired`
    /// flag, appends the id to the retired index, and unconditionally
    /// collapses any listing for the credit to inactive. No later
    /// operation ever leaves this state.
    pub fn retire_credit(&mut self, owner: Address, credit_id: u64) -> (r: Result<(), Error>)
        requires
            old(self).wf(),
        ensures
            final(self).wf(),
            r is Ok <==> old(self).can_retire(owner, credit_id),
            !old(self).has_credit(credit_id) ==> r == Err::<(), Error>(Error::CreditNotFound),
            old(self).has_credit(credit_id) && old(self).credit_at(credit_id).owner != owner ==> r
                == Err::<(), Error>(Error::NotOwner),
            old(self).has_credit(credit_id) && old(self).credit_at(credit_id).owner == owner && old(
                self,
            ).credit_at(credit_id).retired ==> r == Err::<(), Error>(Error::AlreadyRetired),
            r is Err ==> *final(self) == *old(self),
            r is Ok ==> final(self).credits@ == old(self).credits@.update(
                credit_id - 1,
                (CarbonCredit { retired: true, ..old(self).credit_at(credit_id) }),
            ),
            r is Ok ==> final(self).retired_credits@ == old(self).retired_credits@.push(credit_id),
            r is Ok ==> final(self).listings@ == old(self).listings@.update(
                credit_id - 1,
                old(self).collapsed_listing(credit_id),
            ),
            r is Ok ==> final(self).events@ == old(self).events@.push(
                CarbonXEvent::CreditRetired(credit_id, owner),
            ),
            r is Ok ==> (*final(self) == (CarbonXContract {
                credits: final(self).credits,
                listings: final(self).listings,
                retired_credits: final(self).retired_credits,
                events: final(self).events,
                ..*old(self)
            })),
    {
        let n = self.credits.len();
        if credit_id == 0 || credit_id > n as u64 {
            return Err(Error::CreditNotFound);
        }
        let idx = (credit_id - 1) as usize;
        if self.credits[idx].owner != owner {
            return Err(Error::NotOwner);
        }
        if self.credits[idx].retired {
            return Err(Error::AlreadyRetired);
        }

        let mut credit = self.credits[idx].clone();
        credit.retired = true;
        self.credits[idx] = credit;

        self.retired_credits.push(credit_id);

        match &self.listings[idx] {
            Some(listing) => {
                let mut collapsed = *listing;
                collapsed.active = false;
                self.listings[idx] = Some(collapsed);
            },
            None => {},
        }

        self.events.push(CarbonXEvent::CreditRetired(credit_id, owner));

        proof {
            let pre = *old(self);
            assert forall|i: int| 0 <= i < self.credits@.len() implies (
            #[trigger] self.credits@[i]).retired <==> self.retired_credits@.contains(
                (i + 1) as u64,
            ) by {
                if i + 1 == credit_id {
                    assert(self.retired_credits@.last() == credit_id);
                    assert(self.retired_credits@.contains((i + 1) as u64));
                } else {
                    assert(self.credits@[i] == pre.credits@[i]);
                    if pre.retired_credits@.contains((i + 1) as u64) {
                        let k = choose|k: int|
                            0 <= k < pre.retired_credits@.len() && pre.retired_credits@[k] == (i
                                + 1) as u64;
                        assert(self.retired_credits@[k] == (i + 1) as u64);
                    }
                    if self.retired_credits@.contains((i + 1) as u64) {
                        let k = choose|k: int|
                            0 <= k < self.retired_credits@.len() && self.retired_credits@[k] == (i
                                + 1) as u64;
                        assert(k < pre.retired_credits@.len());
                        assert(pre.retired_credits@[k] == (i + 1) as u64);
                    }
                }
            }
            assert forall|i: int, j: int|
                0 <= i < j < self.retired_credits@.len() implies self.retired_credits@[i]
                != self.retired_credits@[j] by {
                if j == pre.retired_credits@.len() {
                    assert(self.retired_credits@[j] == credit_id);
                    assert(pre.retired_credits@[i] == self.retired_credits@[i]);
                    if self.retired_credits@[i] == credit_id {
                        assert(pre.retired_credits@.contains(credit_id));
                        assert(pre.credit_at(credit_id).retired);
                    }
                }
            }
        }
        Ok(())
    }

    /// Reads a credit by id; fails exactly when no credit with this
    /// id was ever registered. Pure: the state is untouched.
    pub fn get_credit(&self, credit_id: u64) -> (r: Result<CarbonCredit, Error>)
        ensures
            self.has_credit(credit_id) ==> r == Ok::<CarbonCredit, Error>(
                self.credit_at(credit_id),
            ),
            !self.has_credit(credit_id) ==> r == Err::<CarbonCredit, Error>(Error::CreditNotFound),
    {
        let n = self.credits.len();
        if credit_id == 0 || credit_id > n as u64 {
            return Err(Error::CreditNotFound);
        }
        Ok(self.credits[(credit_id - 1) as usize].clone())
    }

    /// Reads the listing for a credit id, active or not; fails
    /// exactly when the credit was never listed. Pure.
    pub fn get_listing(&self, credit_id: u64) -> (r: Result<MarketListing, Error>)
        requires
            self.wf(),
        ensures
            self.has_listing(credit_id) ==> r == Ok::<MarketListing, Error>(
                self.listing_at(credit_id),
            ),
            !self.has_listing(credit_id) ==> r == Err::<MarketListing, Error>(
                Error::ListingNotActive,
            ),
    {
        let n = self.listings.len();
        if credit_id == 0 || credit_id > n as u64 {
            return Err(Error::ListingNotActive);
        }
        match &self.listings[(credit_id - 1) as usize] {
            Some(listing) => Ok(*listing),
            None => Err(Error::ListingNotActive),
        }
    }

    /// Reads the retired-credit index, in retirement order. Never
    /// fails. Pure.
    pub fn get_retired_credits(&self) -> (r: Vec<u64>)
        ensures
            r@ == self.retired_credits@,
    {
        let r = self.retired_credits.clone();
        proof {
            assert(r@ =~= self.retired_credits@);
        }
        r
    }
}

} // verus!
