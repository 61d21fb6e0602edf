//! Core identifiers, the contract-wide error enum and shared numeric limits.

use vstd::prelude::*;

verus! {

/// On-chain token identifier.
pub type TokenId = u64;

/// Marketplace listing identifier.
pub type ListingId = u64;

/// An account or contract identity on the ledger.
///
/// Accounts are compared and indexed by this value only; two addresses are
/// the same account exactly when their identifiers are equal.
pub type Address = u64;

/// Hard upper bound for any royalty or fee expressed in basis points
/// (10 000 bps = 100 %).
pub const MAX_ROYALTY_BPS: u32 = 10_000;

/// Denominator of a basis-point fraction.
pub const BPS_DENOMINATOR: i128 = 10_000;

/// Errors returned by the contract's entry points and helpers.
#[derive(Clone, Copy, Debug, PartialEq, Eq, Structural)]
pub enum Error {
    AlreadyInitialized,
    NotInitialized,
    Unauthorized,
    UnauthorizedMinter,
    ContractPaused,
    RoyaltyPaused,
    TokenNotFound,
    InvalidURI,
    MalformedUrl,
    UnsupportedProtocol,
    InvalidMetadata,
    MetadataSizeTooLarge,
    MetadataNotFound,
    MetadataAlreadyUpdated,
    MetadataUpdateNotAllowed,
    CorruptedStorage,
    InvalidBasisPoints,
    RoyaltyTooHigh,
    RoyaltyOverflow,
    InvalidRecipient,
    InvalidAddress,
    InvalidSalePrice,
    PriceOverflow,
    TotalDeductionsExceedSalePrice,
    UnsupportedAsset,
    InvalidConfig,
    InvalidLimit,
    DuplicateRecord,
    DuplicateListing,
    ClipAlreadyMinted,
    EmptyCreator,
    CollectionNotFound,
    ListingNotFound,
    ListingNotActive,
    ListingExpired,
    ListingAlreadySold,
    CannotPurchaseOwnListing,
    SelfTransferNotAllowed,
    OfferExpired,
}

/// The centralized token-not-found error of the error catalog.
#[derive(Clone, Copy, Debug, PartialEq, Eq, Structural)]
pub enum TokenNotFoundError {
    TokenNotFound,
}

impl TokenNotFoundError {
    /// Catalog code of [`TokenNotFoundError::TokenNotFound`].
    pub const CODE: u32 = 230;

    /// Catalog name of [`TokenNotFoundError::TokenNotFound`].
    pub const NAME: &'static str = "TokenNotFound";

    /// Numeric catalog code of this error.
    pub fn code(&self) -> (r: u32)
        ensures
            r == 230,
    {
        230
    }
}

} // verus!

verus! {

/// One recipient of a token's royalty and its share in basis points.
#[derive(Clone, Copy, Debug, PartialEq, Eq, Structural)]
pub struct RoyaltyRecipient {
    pub recipient: Address,
    pub basis_points: u32,
}

/// Royalty configuration of a token: the recipients paid on secondary sales
/// and the asset royalties are paid in (`None` for the sale's asset).
#[derive(Clone, Debug, PartialEq, Eq)]
pub struct Royalty {
    pub recipients: Vec<RoyaltyRecipient>,
    pub asset_address: Option<Address>,
}

/// A royalty amount paid to one recipient for a token.
#[derive(Clone, Copy, Debug, PartialEq, Eq, Structural)]
pub struct RoyaltyPayment {
    pub token_id: TokenId,
    pub recipient: Address,
    pub amount: i128,
    pub timestamp: u64,
}

/// Per-token ownership record written at mint time.
#[derive(Clone, Copy, Debug, PartialEq, Eq, Structural)]
pub struct TokenData {
    pub owner: Address,
    pub clip_id: u32,
}

/// Outcome status of a processed transaction.
#[derive(Clone, Copy, Debug, PartialEq, Eq, Structural)]
pub enum TransactionStatus {
    Success,
    Failed,
}

/// Sum of the basis points of a recipient list.
pub open spec fn total_bps(recipients: Seq<RoyaltyRecipient>) -> int
    decreases recipients.len(),
{
    if recipients.len() == 0 {
        0
    } else {
        total_bps(recipients.drop_last()) + recipients.last().basis_points
    }
}

/// A royalty configuration acceptable for a token: at least one recipient,
/// no single share above 100 % and the shares together at most 100 %.
pub open spec fn royalty_valid(recipients: Seq<RoyaltyRecipient>) -> bool {
    &&& recipients.len() > 0
    &&& forall|i: int| 0 <= i < recipients.len() ==> #[trigger] recipients[i].basis_points <= MAX_ROYALTY_BPS
    &&& total_bps(recipients) <= MAX_ROYALTY_BPS
}

/// `total_bps` over a prefix extended by one element.
pub proof fn lemma_total_bps_push(s: Seq<RoyaltyRecipient>, i: int)
    requires
        0 <= i < s.len(),
    ensures
        total_bps(s.take(i + 1)) == total_bps(s.take(i)) + s[i].basis_points,
{
    assert(s.take(i + 1).drop_last() =~= s.take(i));
}

/// `total_bps` of a sequence is non-negative and never below any prefix's.
pub proof fn lemma_total_bps_monotone(s: Seq<RoyaltyRecipient>, i: int)
    requires
        0 <= i <= s.len(),
    ensures
        0 <= total_bps(s.take(i)) <= total_bps(s),
    decreases s.len() - i,
{
    if i == s.len() {
        assert(s.take(i) =~= s);
        lemma_total_bps_nonneg(s);
    } else {
        lemma_total_bps_push(s, i);
        lemma_total_bps_monotone(s, i + 1);
        lemma_total_bps_nonneg(s.take(i));
    }
}

/// `total_bps` is never negative.
pub proof fn lemma_total_bps_nonneg(s: Seq<RoyaltyRecipient>)
    ensures
        0 <= total_bps(s),
    decreases s.len(),
{
    if s.len() > 0 {
        lemma_total_bps_nonneg(s.drop_last());
    }
}

/// Validate a royalty configuration.
///
/// # Errors
/// [`Error::InvalidBasisPoints`] when the recipient list is empty, a share is
/// above 10 000 bps, or the shares together exceed 10 000 bps.
pub fn validate_royalty(royalty: &Royalty) -> (r: Result<(), Error>)
    ensures
        r is Ok <==> royalty_valid(royalty.recipients@),
        r is Err ==> r == Err::<(), Error>(Error::InvalidBasisPoints),
{
    let n = royalty.recipients.len();
    if n == 0 {
        return Err(Error::InvalidBasisPoints);
    }
    let mut total: u32 = 0;
    let mut i: usize = 0;
    while i < n
        invariant
            n == royalty.recipients@.len(),
            i <= n,
            total == total_bps(royalty.recipients@.take(i as int)),
            total <= MAX_ROYALTY_BPS,
            forall|k: int| 0 <= k < i ==> #[trigger] royalty.recipients@[k].basis_points <= MAX_ROYALTY_BPS,
        decreases n - i,
    {
        let bps = royalty.recipients[i].basis_points;
        proof {
            lemma_total_bps_push(royalty.recipients@, i as int);
            lemma_total_bps_monotone(royalty.recipients@, i + 1);
        }
        if bps > MAX_ROYALTY_BPS || total + bps > MAX_ROYALTY_BPS {
            return Err(Error::InvalidBasisPoints);
        }
        total = total + bps;
        i = i + 1;
    }
    assert(royalty.recipients@.take(n as int) =~= royalty.recipients@);
    Ok(())
}

} // verus!
