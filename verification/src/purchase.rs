use vstd::prelude::*;
use crate::accounts::{Listing, Marketplace, MintAccount, TokenAccount, Wallet};
use crate::accounts::{lamport_transfer, token_transfer_checked};
use crate::derivation::{bump_seed, bytes_eq, check_derived, clone_bytes, pda_of, seed_triple};
use crate::derivation::SignerCapability;
use crate::error::SettlementError;
use crate::fees::{fee_fits, seller_amount, seller_amount_spec};

verus! {

/// Domain tag for the marketplace configuration address.
pub open spec fn marketplace_tag() -> Seq<u8> {
    seq![109u8, 97u8, 114u8, 107u8, 101u8, 116u8, 112u8, 108u8, 97u8, 99u8, 101u8]
}

/// Domain tag for the rewards mint address.
pub open spec fn rewards_tag() -> Seq<u8> {
    seq![114u8, 101u8, 119u8, 97u8, 114u8, 100u8, 115u8]
}

/// Domain tag for the treasury address.
pub open spec fn treasury_tag() -> Seq<u8> {
    seq![116u8, 114u8, 101u8, 97u8, 115u8, 117u8, 114u8, 121u8]
}

/// The bytes of the marketplace domain tag.
pub fn marketplace_tag_bytes() -> (r: Vec<u8>)
    ensures
        r@ == marketplace_tag(),
{
    let mut r: Vec<u8> = Vec::new();
    r.push(109u8);
    r.push(97u8);
    r.push(114u8);
    r.push(107u8);
    r.push(101u8);
    r.push(116u8);
    r.push(112u8);
    r.push(108u8);
    r.push(97u8);
    r.push(99u8);
    r.push(101u8);
    proof {
        assert(r@ =~= marketplace_tag());
    }
    r
}

/// The bytes of the rewards domain tag.
pub fn rewards_tag_bytes() -> (r: Vec<u8>)
    ensures
        r@ == rewards_tag(),
{
    let mut r: Vec<u8> = Vec::new();
    r.push(114u8);
    r.push(101u8);
    r.push(119u8);
    r.push(97u8);
    r.push(114u8);
    r.push(100u8);
    r.push(115u8);
    proof {
        assert(r@ =~= rewards_tag());
    }
    r
}

/// The bytes of the treasury domain tag.
pub fn treasury_tag_bytes() -> (r: Vec<u8>)
    ensures
        r@ == treasury_tag(),
{
    let mut r: Vec<u8> = Vec::new();
    r.push(116u8);
    r.push(114u8);
    r.push(101u8);
    r.push(97u8);
    r.push(115u8);
    r.push(117u8);
    r.push(114u8);
    r.push(121u8);
    proof {
        assert(r@ =~= treasury_tag());
    }
    r
}

/// One settlement request: the buyer (taker), the seller (maker), the listed
/// asset, the records the listing is indexed against, and the accounts the
/// two transfers touch.
pub struct Purchase {
    /// The settling program's own address; every derivation is scoped to it.
    pub program_id: Vec<u8>,
    /// The buyer's payment wallet.
    pub taker: Wallet,
    /// The seller's payment wallet.
    pub maker: Wallet,
    /// The canonical definition of the listed asset.
    pub maker_mint: MintAccount,
    /// The marketplace configuration the listing belongs to.
    pub marketplace: Marketplace,
    /// The buyer's holding account for the asset.
    pub taker_ata: TokenAccount,
    /// The escrow vault holding the asset until settlement.
    pub vault: TokenAccount,
    /// The listing record being settled.
    pub listing: Listing,
    /// The rewards mint owned by the marketplace.
    pub rewards: MintAccount,
    /// The caller-supplied bump for the rewards mint address.
    pub rewards_bump: u8,
    /// The treasury address of the marketplace.
    pub treasury: Vec<u8>,
}

/// Seeds of the marketplace configuration address.
pub open spec fn marketplace_seeds_spec(p: Purchase) -> Seq<Seq<u8>> {
    seq![marketplace_tag(), p.marketplace.name@, seq![p.marketplace.bump]]
}

/// Seeds of the listing's derived authority address.
pub open spec fn listing_seeds_spec(p: Purchase) -> Seq<Seq<u8>> {
    seq![p.marketplace.address@, p.maker_mint.address@, seq![p.listing.bump]]
}

/// Seeds of the rewards mint address.
pub open spec fn rewards_seeds_spec(p: Purchase) -> Seq<Seq<u8>> {
    seq![rewards_tag(), p.marketplace.address@, seq![p.rewards_bump]]
}

/// Seeds of the treasury address.
pub open spec fn treasury_seeds_spec(p: Purchase) -> Seq<Seq<u8>> {
    seq![treasury_tag(), p.marketplace.address@, seq![p.marketplace.treasury_bump]]
}

/// The declarative account relationships a settlement validates before any
/// balance moves: each supplied address matches the value recomputed from its
/// stored seeds and bump, the vault is the escrow of this very listing, the
/// destination belongs to the buyer, and the payment goes to the listing's
/// recorded seller.
pub open spec fn valid_purchase(p: Purchase) -> bool {
    &&& p.program_id@.len() == 32
    &&& pda_of(marketplace_seeds_spec(p), p.program_id@) == Some(p.marketplace.address@)
    &&& pda_of(listing_seeds_spec(p), p.program_id@) == Some(p.listing.address@)
    &&& p.vault.authority@ == p.listing.address@
    &&& p.vault.mint@ == p.maker_mint.address@
    &&& p.taker_ata.authority@ == p.taker.address@
    &&& p.taker_ata.mint@ == p.maker_mint.address@
    &&& p.maker.address@ == p.listing.maker@
    &&& pda_of(rewards_seeds_spec(p), p.program_id@) == Some(p.rewards.address@)
    &&& p.rewards.decimals == 6
    &&& p.rewards.authority@ == p.marketplace.address@
    &&& pda_of(treasury_seeds_spec(p), p.program_id@) == Some(p.treasury@)
}

/// The request after the payment step: the seller's cut has moved from buyer
/// to seller; nothing else changed.
pub open spec fn payment_applied(p: Purchase) -> Purchase {
    let amt = seller_amount_spec(p.listing.price as int, p.marketplace.fee as int);
    Purchase {
        taker: Wallet { lamports: (p.taker.lamports - amt) as u64, ..p.taker },
        maker: Wallet { lamports: (p.maker.lamports + amt) as u64, ..p.maker },
        ..p
    }
}

/// The request after the asset release: one unit of the asset has moved from
/// the vault to the buyer's holding account; nothing else changed.
pub open spec fn asset_released(p: Purchase) -> Purchase {
    Purchase {
        vault: TokenAccount { amount: (p.vault.amount - 1) as u64, ..p.vault },
        taker_ata: TokenAccount { amount: (p.taker_ata.amount + 1) as u64, ..p.taker_ata },
        ..p
    }
}

/// The request after a successful settlement: payment applied, then the asset
/// released.
pub open spec fn settled(p: Purchase) -> Purchase {
    asset_released(payment_applied(p))
}

/// When a settlement succeeds: the account wiring validates, the fee product
/// fits the 64-bit range, the buyer holds at least the price, and the vault
/// still holds the escrowed asset.
pub open spec fn settle_ok(p: Purchase) -> bool {
    &&& valid_purchase(p)
    &&& fee_fits(p.listing.price as int, p.marketplace.fee as int)
    &&& p.taker.lamports >= p.listing.price
    &&& p.vault.amount >= 1
}

/// Which failure a rejected settlement reports, checked fail-fast in this
/// order: structural integrity, fee arithmetic, then balances.
pub open spec fn settle_err(p: Purchase) -> SettlementError {
    if !valid_purchase(p) {
        SettlementError::StructuralMismatch
    } else if !fee_fits(p.listing.price as int, p.marketplace.fee as int) {
        SettlementError::ArithmeticOverflow
    } else {
        SettlementError::InsufficientFunds
    }
}

/// When the asset-release step alone succeeds: the listing's authority
/// derivation checks out, the vault is wired as this listing's escrow of this
/// asset, the destination holds the same asset, and the vault is not empty.
pub open spec fn nft_release_ok(p: Purchase) -> bool {
    &&& nft_release_wired(p)
    &&& p.vault.amount >= 1
}

/// The structural conditions of the asset-release step.
pub open spec fn nft_release_wired(p: Purchase) -> bool {
    &&& p.program_id@.len() == 32
    &&& pda_of(listing_seeds_spec(p), p.program_id@) == Some(p.listing.address@)
    &&& p.vault.authority@ == p.listing.address@
    &&& p.vault.mint@ == p.maker_mint.address@
    &&& p.taker_ata.mint@ == p.maker_mint.address@
}

impl Purchase {
    /// The invariants the persisted records carry from their creation: the
    /// fee rate within the basis-point range, the price positive.
    pub open spec fn records_wf(self) -> bool {
        self.marketplace.wf() && self.listing.wf()
    }

    /// Validates every declared account relationship, fail-fast, before any
    /// balance moves: recomputes each derived address from its seeds and bump
    /// and compares it with the supplied record, then checks the escrow and
    /// destination wiring.
    pub fn validate(&self) -> (r: Result<(), SettlementError>)
        ensures
            r is Ok <==> valid_purchase(*self),
            r is Err ==> r->Err_0 == SettlementError::StructuralMismatch,
    {
        if self.program_id.len() != 32 {
            return Err(SettlementError::StructuralMismatch);
        }
        let m_seeds = seed_triple(
            marketplace_tag_bytes(),
            clone_bytes(&self.marketplace.name),
            bump_seed(self.marketplace.bump),
        );
        if !check_derived(&m_seeds, &self.program_id, &self.marketplace.address) {
            return Err(SettlementError::StructuralMismatch);
        }
        let l_seeds = seed_triple(
            clone_bytes(&self.marketplace.address),
            clone_bytes(&self.maker_mint.address),
            bump_seed(self.listing.bump),
        );
        if !check_derived(&l_seeds, &self.program_id, &self.listing.address) {
            return Err(SettlementError::StructuralMismatch);
        }
        if !bytes_eq(&self.vault.authority, &self.listing.address) {
            return Err(SettlementError::StructuralMismatch);
        }
        if !bytes_eq(&self.vault.mint, &self.maker_mint.address) {
            return Err(SettlementError::StructuralMismatch);
        }
        if !bytes_eq(&self.taker_ata.authority, &self.taker.address) {
            return Err(SettlementError::StructuralMismatch);
        }
        if !bytes_eq(&self.taker_ata.mint, &self.maker_mint.address) {
            return Err(SettlementError::StructuralMismatch);
        }
        if !bytes_eq(&self.maker.address, &self.listing.maker) {
            return Err(SettlementError::StructuralMismatch);
        }
        let r_seeds = seed_triple(
            rewards_tag_bytes(),
            clone_bytes(&self.marketplace.address),
            bump_seed(self.rewards_bump),
        );
        if !check_derived(&r_seeds, &self.program_id, &self.rewards.address) {
            return Err(SettlementError::StructuralMismatch);
        }
        if self.rewards.decimals != 6 {
            return Err(SettlementError::StructuralMismatch);
        }
        if !bytes_eq(&self.rewards.authority, &self.marketplace.address) {
            return Err(SettlementError::StructuralMismatch);
        }
        let t_seeds = seed_triple(
            treasury_tag_bytes(),
            clone_bytes(&self.marketplace.address),
            bump_seed(self.marketplace.treasury_bump),
        );
        if !check_derived(&t_seeds, &self.program_id, &self.treasury) {
            return Err(SettlementError::StructuralMismatch);
        }
        Ok(())
    }

    /// The payment step: computes the seller's cut `price - floor(price * fee
    /// / 10000)` with explicit overflow checking and moves it from the buyer
    /// to the seller. The buyer must hold at least the full price. On any
    /// failure every balance is unchanged.
    pub fn send_sol(&mut self) -> (r: Result<(), SettlementError>)
        requires
            old(self).marketplace.wf(),
            old(self).maker.lamports + old(self).listing.price <= u64::MAX,
        ensures
            r is Ok <==> fee_fits(
                old(self).listing.price as int,
                old(self).marketplace.fee as int,
            ) && old(self).taker.lamports >= old(self).listing.price,
            r is Ok ==> *final(self) == payment_applied(*old(self)),
            r is Err ==> *final(self) == *old(self),
            r is Err ==> r->Err_0 == (if !fee_fits(
                old(self).listing.price as int,
                old(self).marketplace.fee as int,
            ) {
                SettlementError::ArithmeticOverflow
            } else {
                SettlementError::InsufficientFunds
            }),
    {
        let amt = match seller_amount(self.listing.price, self.marketplace.fee) {
            Ok(amt) => amt,
            Err(e) => {
                return Err(e);
            },
        };
        if self.taker.lamports < self.listing.price {
            return Err(SettlementError::InsufficientFunds);
        }
        proof {
            crate::fees::lemma_fee_amount_bounds(
                self.listing.price as int,
                self.marketplace.fee as int,
            );
        }
        // The balance was checked against the full price above, so the
        // transfer of the (smaller) seller cut cannot fail.
        match lamport_transfer(&mut self.taker, &mut self.maker, amt) {
            Ok(()) => Ok(()),
            Err(e) => {
                proof {
                    assert(false);
                }
                Err(e)
            },
        }
    }

    /// The asset-release step: rebuilds the listing's signing capability from
    /// its seeds and bump, refusing on any derivation mismatch, then moves
    /// exactly one unit of the escrowed asset from the vault to the buyer's
    /// holding account under a precision-checked transfer. On any failure
    /// every balance is unchanged.
    pub fn receive_nft(&mut self) -> (r: Result<(), SettlementError>)
        requires
            old(self).taker_ata.amount + 1 <= u64::MAX,
        ensures
            r is Ok <==> nft_release_ok(*old(self)),
            r is Ok ==> *final(self) == asset_released(*old(self)),
            r is Err ==> *final(self) == *old(self),
            r is Err ==> r->Err_0 == (if !nft_release_wired(*old(self)) {
                SettlementError::StructuralMismatch
            } else {
                SettlementError::InsufficientFunds
            }),
    {
        if self.program_id.len() != 32 {
            return Err(SettlementError::StructuralMismatch);
        }
        let seeds = seed_triple(
            clone_bytes(&self.marketplace.address),
            clone_bytes(&self.maker_mint.address),
            bump_seed(self.listing.bump),
        );
        let cap = match SignerCapability::signing_context(
            seeds,
            &self.program_id,
            &self.listing.address,
        ) {
            Ok(cap) => cap,
            Err(e) => {
                return Err(e);
            },
        };
        let decimals = self.maker_mint.decimals;
        match token_transfer_checked(
            &mut self.vault,
            &mut self.taker_ata,
            &self.maker_mint,
            1,
            decimals,
            cap,
        ) {
            Ok(()) => Ok(()),
            Err(e) => Err(e),
        }
    }

    /// The whole settlement: validates every account relationship, computes
    /// the fee split, and performs the payment and the asset release as one
    /// atomic operation. Either both transfers are applied or the request is
    /// rejected with every balance unchanged.
    pub fn settle(&mut self) -> (r: Result<(), SettlementError>)
        requires
            old(self).records_wf(),
            old(self).maker.lamports + old(self).listing.price <= u64::MAX,
            old(self).taker_ata.amount + 1 <= u64::MAX,
        ensures
            r is Ok <==> settle_ok(*old(self)),
            r is Ok ==> *final(self) == settled(*old(self)),
            r is Err ==> *final(self) == *old(self),
            r is Err ==> r->Err_0 == settle_err(*old(self)),
    {
        match self.validate() {
            Err(e) => {
                return Err(e);
            },
            Ok(()) => {},
        }
        match seller_amount(self.listing.price, self.marketplace.fee) {
            Err(e) => {
                return Err(e);
            },
            Ok(_) => {},
        }
        if self.taker.lamports < self.listing.price {
            return Err(SettlementError::InsufficientFunds);
        }
        if self.vault.amount < 1 {
            return Err(SettlementError::InsufficientFunds);
        }
        // Every failure condition of the two steps was decided above, so
        // neither can fail and the pair applies atomically.
        match self.send_sol() {
            Err(e) => {
                proof {
                    assert(false);
                }
                return Err(e);
            },
            Ok(()) => {},
        }
        match self.receive_nft() {
            Err(e) => {
                proof {
                    assert(false);
                }
                return Err(e);
            },
            Ok(()) => {},
        }
        Ok(())
    }
}

} // verus!
