use vstd::prelude::*;
use crate::derivation::SignerCapability;
use crate::error::SettlementError;
use crate::fees::FEE_DENOMINATOR;

verus! {

/// Marketplace-wide configuration, created once at initialization and read
/// only during settlement: the name used as a derivation seed, the fee rate
/// in basis points, and the bumps for the marketplace and treasury addresses.
pub struct Marketplace {
    pub address: Vec<u8>,
    pub name: Vec<u8>,
    pub fee: u16,
    pub bump: u8,
    pub treasury_bump: u8,
}

impl Marketplace {
    /// The configuration invariant: the fee rate stays in the basis-point
    /// range.
    pub open spec fn wf(self) -> bool {
        self.fee <= FEE_DENOMINATOR
    }
}

/// One record per escrowed asset: the seller, the asking price in the
/// smallest currency unit, and the bump used to re-derive its own authority
/// address.
pub struct Listing {
    pub address: Vec<u8>,
    pub maker: Vec<u8>,
    pub price: u64,
    pub bump: u8,
}

impl Listing {
    /// The listing invariant: a listing always asks a positive price.
    pub open spec fn wf(self) -> bool {
        self.price > 0
    }
}

/// A holding account for units of one asset, mutable only by its declared
/// authority.
pub struct TokenAccount {
    pub address: Vec<u8>,
    pub mint: Vec<u8>,
    pub authority: Vec<u8>,
    pub amount: u64,
}

/// An asset's canonical definition: who may issue it and its declared
/// precision in decimal places.
pub struct MintAccount {
    pub address: Vec<u8>,
    pub authority: Vec<u8>,
    pub decimals: u8,
}

/// A plain payment-currency account.
pub struct Wallet {
    pub address: Vec<u8>,
    pub lamports: u64,
}

/// Moves `amount` of the payment currency between two wallets, or fails with
/// every balance unchanged when the payer is short. This is the settlement's
/// model of the host's currency transfer; the host applies it atomically.
pub fn lamport_transfer(from: &mut Wallet, to: &mut Wallet, amount: u64) -> (r: Result<
    (),
    SettlementError,
>)
    requires
        old(to).lamports + amount <= u64::MAX,
    ensures
        r is Ok <==> old(from).lamports >= amount,
        r is Ok ==> final(from).lamports == old(from).lamports - amount && final(to).lamports
            == old(to).lamports + amount,
        final(from).address == old(from).address && final(to).address == old(to).address,
        r is Err ==> *final(from) == *old(from) && *final(to) == *old(to) && r->Err_0
            == SettlementError::InsufficientFunds,
{
    if from.lamports < amount {
        Err(SettlementError::InsufficientFunds)
    } else {
        from.lamports = from.lamports - amount;
        to.lamports = to.lamports + amount;
        Ok(())
    }
}

/// The structural side of a checked asset transfer: the capability signs for
/// the source account's declared authority, and both accounts hold the named
/// asset.
pub open spec fn transfer_wired(
    from: TokenAccount,
    to: TokenAccount,
    mint: MintAccount,
    authority: SignerCapability,
) -> bool {
    from.authority@ == authority.address_spec() && from.mint@ == mint.address@ && to.mint@
        == mint.address@
}

/// Moves `amount` units of an asset between two holding accounts, under the
/// authority that the signing capability stands for. The transfer is checked:
/// both accounts must hold the named asset, the stated precision must match
/// the asset's canonical definition, and the source must not be short. On any
/// failure every balance is left unchanged. This is the settlement's model of
/// the host's checked asset transfer; the host applies it atomically.
pub fn token_transfer_checked(
    from: &mut TokenAccount,
    to: &mut TokenAccount,
    mint: &MintAccount,
    amount: u64,
    decimals: u8,
    authority: SignerCapability,
) -> (r: Result<(), SettlementError>)
    requires
        old(to).amount + amount <= u64::MAX,
    ensures
        r is Ok <==> transfer_wired(*old(from), *old(to), *mint, authority)
            && decimals == mint.decimals && old(from).amount >= amount,
        r is Ok ==> final(from).amount == old(from).amount - amount,
        r is Ok ==> final(to).amount == old(to).amount + amount,
        final(from).address == old(from).address && final(from).mint == old(from).mint
            && final(from).authority == old(from).authority,
        final(to).address == old(to).address && final(to).mint == old(to).mint
            && final(to).authority == old(to).authority,
        r is Err ==> *final(from) == *old(from) && *final(to) == *old(to),
        r is Err ==> r->Err_0 == (if !transfer_wired(*old(from), *old(to), *mint, authority) {
            SettlementError::StructuralMismatch
        } else if decimals != mint.decimals {
            SettlementError::PrecisionMismatch
        } else {
            SettlementError::InsufficientFunds
        }),
{
    let authority_ok = crate::derivation::bytes_eq(&from.authority, authority.address_bytes());
    let from_mint_ok = crate::derivation::bytes_eq(&from.mint, &mint.address);
    let to_mint_ok = crate::derivation::bytes_eq(&to.mint, &mint.address);
    if !(authority_ok && from_mint_ok && to_mint_ok) {
        Err(SettlementError::StructuralMismatch)
    } else if decimals != mint.decimals {
        Err(SettlementError::PrecisionMismatch)
    } else if from.amount < amount {
        Err(SettlementError::InsufficientFunds)
    } else {
        from.amount = from.amount - amount;
        to.amount = to.amount + amount;
        Ok(())
    }
}

} // verus!
