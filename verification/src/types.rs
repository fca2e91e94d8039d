//! Data model of the registry: credits, listings, errors, events and
//! the storage-key layout of the persistent store.

use vstd::prelude::*;

verus! {

/// An opaque, comparable identity token. The execution environment
/// proves that a caller controls an address before an operation runs;
/// the core only compares addresses for equality.
#[derive(Clone, Copy, PartialEq, Eq, Structural, Debug)]
pub struct Address(pub u64);

/// Keys of the persistent key-value store, one variant per entity
/// kind. A durable adapter lays the registry state out under these
/// keys; the core itself works on the in-memory state directly.
#[derive(Clone, PartialEq, Eq, Structural, Debug)]
pub enum DataKey {
    Admin,
    NextCreditId,
    /// A [`CarbonCredit`], by credit id.
    Credit(u64),
    /// The whitelist of verifier addresses.
    Verifiers,
    /// A [`MarketListing`], by credit id.
    Listing(u64),
    /// The append-only sequence of retired credit ids.
    RetiredCredits,
}

/// A registered batch of carbon-offset tonnage.
pub struct CarbonCredit {
    pub id: u64,
    pub project_id: String,
    pub issuer: Address,
    pub verifier: Address,
    pub vintage_year: u32,
    pub region: String,
    /// Tons of CO2 offset; positive for the lifetime of the record.
    pub quantity: u64,
    pub verified: bool,
    pub retired: bool,
    pub owner: Address,
}

impl Clone for CarbonCredit {
    fn clone(&self) -> (r: Self)
        ensures
            r == *self,
    {
        CarbonCredit {
            id: self.id,
            project_id: self.project_id.clone(),
            issuer: self.issuer,
            verifier: self.verifier,
            vintage_year: self.vintage_year,
            region: self.region.clone(),
            quantity: self.quantity,
            verified: self.verified,
            retired: self.retired,
            owner: self.owner,
        }
    }
}

/// A sale offer for exactly one credit, keyed by credit id.
#[derive(Clone, Copy, PartialEq, Eq, Structural, Debug)]
pub struct MarketListing {
    pub credit_id: u64,
    pub seller: Address,
    /// Price in the smallest currency unit; advisory metadata only,
    /// the core moves no payment value.
    pub price: i128,
    pub active: bool,
}

/// Every way an operation can be refused. All domain errors are
/// recoverable result values; no operation panics.
#[derive(Clone, Copy, PartialEq, Eq, Structural, Debug)]
pub enum Error {
    AlreadyInitialized,
    NotInitialized,
    Unauthorized,
    NotVerifier,
    CreditNotFound,
    AlreadyVerified,
    AlreadyRetired,
    NotOwner,
    ListingNotActive,
    /// Declared for the payment leg, which this core does not
    /// enforce; no transition returns it.
    InsufficientPayment,
    InvalidQuantity,
}

/// Structured notification of a completed state change, appended to
/// the registry's ordered event log exactly when the corresponding
/// operation succeeds.
pub enum CarbonXEvent {
    Initialized(Address),
    VerifierAdded(Address),
    CreditRegistered(u64, String),
    CreditVerified(u64, Address),
    CreditListed(u64, i128),
    CreditSold(u64, Address, Address, i128),
    CreditRetired(u64, Address),
}

impl Clone for CarbonXEvent {
    fn clone(&self) -> (r: Self)
        ensures
            r == *self,
    {
        match self {
            CarbonXEvent::Initialized(a) => CarbonXEvent::Initialized(*a),
            CarbonXEvent::VerifierAdded(a) => CarbonXEvent::VerifierAdded(*a),
            CarbonXEvent::CreditRegistered(id, p) => CarbonXEvent::CreditRegistered(*id, p.clone()),
            CarbonXEvent::CreditVerified(id, a) => CarbonXEvent::CreditVerified(*id, *a),
            CarbonXEvent::CreditListed(id, p) => CarbonXEvent::CreditListed(*id, *p),
            CarbonXEvent::CreditSold(id, s, b, p) => CarbonXEvent::CreditSold(*id, *s, *b, *p),
            CarbonXEvent::CreditRetired(id, a) => CarbonXEvent::CreditRetired(*id, *a),
        }
    }
}

} // verus!
