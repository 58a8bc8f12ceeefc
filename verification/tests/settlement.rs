use anchor_lang::prelude::Pubkey;
use marketplace::accounts::{
    token_transfer_checked, Listing, Marketplace, MintAccount, TokenAccount, Wallet,
};
use marketplace::derivation::SignerCapability;
use marketplace::error::SettlementError;
use marketplace::fees::{fee_amount, seller_amount};
use marketplace::purchase::Purchase;

fn fixture(price: u64, fee: u16) -> Purchase {
    let program = Pubkey::from([7u8; 32]);
    let name: Vec<u8> = b"verus-market".to_vec();
    let (m_addr, m_bump) =
        Pubkey::find_program_address(&[b"marketplace".as_ref(), name.as_slice()], &program);
    let mint_addr = Pubkey::from([9u8; 32]);
    let (l_addr, l_bump) =
        Pubkey::find_program_address(&[m_addr.as_ref(), mint_addr.as_ref()], &program);
    let (r_addr, r_bump) =
        Pubkey::find_program_address(&[b"rewards".as_ref(), m_addr.as_ref()], &program);
    let (t_addr, t_bump) =
        Pubkey::find_program_address(&[b"treasury".as_ref(), m_addr.as_ref()], &program);
    let taker_key = Pubkey::from([1u8; 32]);
    let maker_key = Pubkey::from([2u8; 32]);
    Purchase {
        program_id: program.to_bytes().to_vec(),
        taker: Wallet {
            address: taker_key.to_bytes().to_vec(),
            lamports: 10_000_000,
        },
        maker: Wallet {
            address: maker_key.to_bytes().to_vec(),
            lamports: 500,
        },
        maker_mint: MintAccount {
            address: mint_addr.to_bytes().to_vec(),
            authority: maker_key.to_bytes().to_vec(),
            decimals: 0,
        },
        marketplace: Marketplace {
            address: m_addr.to_bytes().to_vec(),
            name,
            fee,
            bump: m_bump,
            treasury_bump: t_bump,
        },
        taker_ata: TokenAccount {
            address: [3u8; 32].to_vec(),
            mint: mint_addr.to_bytes().to_vec(),
            authority: taker_key.to_bytes().to_vec(),
            amount: 0,
        },
        vault: TokenAccount {
            address: [4u8; 32].to_vec(),
            mint: mint_addr.to_bytes().to_vec(),
            authority: l_addr.to_bytes().to_vec(),
            amount: 1,
        },
        listing: Listing {
            address: l_addr.to_bytes().to_vec(),
            maker: maker_key.to_bytes().to_vec(),
            price,
            bump: l_bump,
        },
        rewards: MintAccount {
            address: r_addr.to_bytes().to_vec(),
            authority: m_addr.to_bytes().to_vec(),
            decimals: 6,
        },
        rewards_bump: r_bump,
        treasury: t_addr.to_bytes().to_vec(),
    }
}

#[test]
fn fee_split_example() {
    assert_eq!(fee_amount(1000, 250), Ok(25));
    assert_eq!(seller_amount(1000, 250), Ok(975));
}

#[test]
fn fee_floor_truncation_example() {
    assert_eq!(fee_amount(1, 9999), Ok(0));
    assert_eq!(seller_amount(1, 9999), Ok(1));
}

#[test]
fn fee_boundary_rates() {
    assert_eq!(fee_amount(12345, 0), Ok(0));
    assert_eq!(seller_amount(12345, 0), Ok(12345));
    assert_eq!(fee_amount(12345, 10000), Ok(12345));
    assert_eq!(seller_amount(12345, 10000), Ok(0));
}

#[test]
fn fee_overflow_is_refused() {
    assert_eq!(
        fee_amount(u64::MAX, 2),
        Err(SettlementError::ArithmeticOverflow)
    );
    assert_eq!(
        seller_amount(u64::MAX, 2),
        Err(SettlementError::ArithmeticOverflow)
    );
    assert_eq!(fee_amount(u64::MAX, 1), Ok(u64::MAX / 10000));
}

#[test]
fn validate_accepts_consistent_accounts() {
    let p = fixture(1000, 250);
    assert_eq!(p.validate(), Ok(()));
}

#[test]
fn settle_happy_path() {
    let mut p = fixture(1000, 250);
    assert_eq!(p.settle(), Ok(()));
    assert_eq!(p.taker.lamports, 10_000_000 - 975);
    assert_eq!(p.maker.lamports, 500 + 975);
    assert_eq!(p.vault.amount, 0);
    assert_eq!(p.taker_ata.amount, 1);
}

#[test]
fn settle_fails_on_overflowing_fee_product() {
    let mut p = fixture(u64::MAX, 2);
    p.taker.lamports = u64::MAX;
    p.maker.lamports = 0;
    assert_eq!(p.settle(), Err(SettlementError::ArithmeticOverflow));
    assert_eq!(p.taker.lamports, u64::MAX);
    assert_eq!(p.vault.amount, 1);
}

#[test]
fn settle_fails_on_poor_buyer() {
    let mut p = fixture(1000, 250);
    p.taker.lamports = 999;
    assert_eq!(p.settle(), Err(SettlementError::InsufficientFunds));
    assert_eq!(p.taker.lamports, 999);
    assert_eq!(p.maker.lamports, 500);
    assert_eq!(p.vault.amount, 1);
    assert_eq!(p.taker_ata.amount, 0);
}

#[test]
fn settled_vault_cannot_be_settled_again() {
    let mut p = fixture(1000, 250);
    assert_eq!(p.settle(), Ok(()));
    let before_taker = p.taker.lamports;
    let before_maker = p.maker.lamports;
    assert_eq!(p.settle(), Err(SettlementError::InsufficientFunds));
    assert_eq!(p.taker.lamports, before_taker);
    assert_eq!(p.maker.lamports, before_maker);
    assert_eq!(p.vault.amount, 0);
}

#[test]
fn racing_requests_settle_exactly_once() {
    let mut first = fixture(1000, 250);
    let mut second = fixture(1000, 250);
    second.taker = Wallet {
        address: Pubkey::from([5u8; 32]).to_bytes().to_vec(),
        lamports: 2_000_000,
    };
    second.taker_ata.authority = second.taker.address.clone();

    assert_eq!(first.settle(), Ok(()));
    // The host commits the winner's writes; the loser then observes them.
    second.vault = TokenAccount {
        address: first.vault.address.clone(),
        mint: first.vault.mint.clone(),
        authority: first.vault.authority.clone(),
        amount: first.vault.amount,
    };
    assert_eq!(second.settle(), Err(SettlementError::InsufficientFunds));
    assert_eq!(second.taker.lamports, 2_000_000);
    assert_eq!(second.taker_ata.amount, 0);
}

#[test]
fn wrong_listing_bump_is_rejected_before_any_transfer() {
    let mut p = fixture(1000, 250);
    p.listing.bump = p.listing.bump.wrapping_add(1);
    assert_eq!(p.settle(), Err(SettlementError::StructuralMismatch));
    assert_eq!(p.taker.lamports, 10_000_000);
    assert_eq!(p.maker.lamports, 500);
    assert_eq!(p.vault.amount, 1);
    assert_eq!(p.taker_ata.amount, 0);
}

#[test]
fn wrong_marketplace_seed_is_rejected() {
    let mut p = fixture(1000, 250);
    p.marketplace.name = b"other-market".to_vec();
    assert_eq!(p.settle(), Err(SettlementError::StructuralMismatch));
}

#[test]
fn foreign_vault_authority_is_rejected() {
    let mut p = fixture(1000, 250);
    p.vault.authority = Pubkey::from([8u8; 32]).to_bytes().to_vec();
    assert_eq!(p.settle(), Err(SettlementError::StructuralMismatch));
}

#[test]
fn send_sol_moves_only_the_payment() {
    let mut p = fixture(1000, 250);
    assert_eq!(p.send_sol(), Ok(()));
    assert_eq!(p.taker.lamports, 10_000_000 - 975);
    assert_eq!(p.maker.lamports, 500 + 975);
    assert_eq!(p.vault.amount, 1);
    assert_eq!(p.taker_ata.amount, 0);
}

#[test]
fn receive_nft_moves_only_the_asset() {
    let mut p = fixture(1000, 250);
    assert_eq!(p.receive_nft(), Ok(()));
    assert_eq!(p.vault.amount, 0);
    assert_eq!(p.taker_ata.amount, 1);
    assert_eq!(p.taker.lamports, 10_000_000);
    assert_eq!(p.maker.lamports, 500);
}

#[test]
fn receive_nft_rejects_forged_bump() {
    let mut p = fixture(1000, 250);
    p.listing.bump = p.listing.bump.wrapping_add(1);
    assert_eq!(p.receive_nft(), Err(SettlementError::StructuralMismatch));
    assert_eq!(p.vault.amount, 1);
    assert_eq!(p.taker_ata.amount, 0);
}

fn listing_capability(p: &Purchase) -> SignerCapability {
    let seeds = vec![
        p.marketplace.address.clone(),
        p.maker_mint.address.clone(),
        vec![p.listing.bump],
    ];
    SignerCapability::signing_context(seeds, &p.program_id, &p.listing.address)
        .expect("the fixture's listing address comes from its own derivation")
}

#[test]
fn signing_context_refuses_wrong_bump() {
    let p = fixture(1000, 250);
    let seeds = vec![
        p.marketplace.address.clone(),
        p.maker_mint.address.clone(),
        vec![p.listing.bump.wrapping_add(1)],
    ];
    let r = SignerCapability::signing_context(seeds, &p.program_id, &p.listing.address);
    assert!(matches!(r, Err(SettlementError::StructuralMismatch)));
}

#[test]
fn checked_transfer_rejects_precision_mismatch() {
    let mut p = fixture(1000, 250);
    let cap = listing_capability(&p);
    let mint = MintAccount {
        address: p.maker_mint.address.clone(),
        authority: p.maker_mint.authority.clone(),
        decimals: 0,
    };
    let r = token_transfer_checked(&mut p.vault, &mut p.taker_ata, &mint, 1, 3, cap);
    assert_eq!(r, Err(SettlementError::PrecisionMismatch));
    assert_eq!(p.vault.amount, 1);
    assert_eq!(p.taker_ata.amount, 0);
}

#[test]
fn checked_transfer_rejects_foreign_authority() {
    let mut p = fixture(1000, 250);
    let cap = listing_capability(&p);
    p.vault.authority = Pubkey::from([8u8; 32]).to_bytes().to_vec();
    let mint = MintAccount {
        address: p.maker_mint.address.clone(),
        authority: p.maker_mint.authority.clone(),
        decimals: 0,
    };
    let r = token_transfer_checked(&mut p.vault, &mut p.taker_ata, &mint, 1, 0, cap);
    assert_eq!(r, Err(SettlementError::StructuralMismatch));
    assert_eq!(p.vault.amount, 1);
}

#[test]
fn checked_transfer_rejects_empty_source() {
    let mut p = fixture(1000, 250);
    let cap = listing_capability(&p);
    p.vault.amount = 0;
    let mint = MintAccount {
        address: p.maker_mint.address.clone(),
        authority: p.maker_mint.authority.clone(),
        decimals: 0,
    };
    let r = token_transfer_checked(&mut p.vault, &mut p.taker_ata, &mint, 1, 0, cap);
    assert_eq!(r, Err(SettlementError::InsufficientFunds));
    assert_eq!(p.taker_ata.amount, 0);
}

#[test]
fn settle_with_zero_fee_pays_full_price() {
    let mut p = fixture(1000, 0);
    assert_eq!(p.settle(), Ok(()));
    assert_eq!(p.taker.lamports, 10_000_000 - 1000);
    assert_eq!(p.maker.lamports, 500 + 1000);
}

#[test]
fn settle_with_full_fee_pays_nothing() {
    let mut p = fixture(1000, 10000);
    assert_eq!(p.settle(), Ok(()));
    assert_eq!(p.taker.lamports, 10_000_000);
    assert_eq!(p.maker.lamports, 500);
    assert_eq!(p.vault.amount, 0);
    assert_eq!(p.taker_ata.amount, 1);
}

#[test]
fn wrong_rewards_bump_is_rejected() {
    let mut p = fixture(1000, 250);
    p.rewards_bump = p.rewards_bump.wrapping_add(1);
    assert_eq!(p.settle(), Err(SettlementError::StructuralMismatch));
    assert_eq!(p.vault.amount, 1);
}

#[test]
fn wrong_treasury_bump_is_rejected() {
    let mut p = fixture(1000, 250);
    p.marketplace.treasury_bump = p.marketplace.treasury_bump.wrapping_add(1);
    assert_eq!(p.settle(), Err(SettlementError::StructuralMismatch));
}

#[test]
fn foreign_destination_authority_is_rejected() {
    let mut p = fixture(1000, 250);
    p.taker_ata.authority = Pubkey::from([8u8; 32]).to_bytes().to_vec();
    assert_eq!(p.settle(), Err(SettlementError::StructuralMismatch));
    assert_eq!(p.taker_ata.amount, 0);
}

#[test]
fn payment_to_stranger_wallet_is_rejected() {
    let mut p = fixture(1000, 250);
    p.maker.address = Pubkey::from([8u8; 32]).to_bytes().to_vec();
    assert_eq!(p.settle(), Err(SettlementError::StructuralMismatch));
    assert_eq!(p.maker.lamports, 500);
}
