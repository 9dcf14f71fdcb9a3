use spl_client::Address;
use spl_client::plans::create_associated_token_account_by_payer_plan;
use spl_client::plans::create_associated_token_account_plan;
use spl_client::plans::create_token_account_plan;
use spl_client::plans::create_token_account_with_lamports_plan;
use spl_client::plans::create_token_mint_plan;
use spl_client::plans::mint_to_plan;
use spl_client::plans::transfer_to_plan;
use spl_client::TxPlan;

fn addr(fill: u8) -> Address {
    Address::new(vec![fill; 32]).unwrap()
}

fn assert_plans_equal(a: &TxPlan, b: &TxPlan) {
    assert_eq!(a.instructions.len(), b.instructions.len());
    for (x, y) in a.instructions.iter().zip(b.instructions.iter()) {
        assert_eq!(x.program_id.as_bytes(), y.program_id.as_bytes());
        assert_eq!(x.data, y.data);
        assert_eq!(x.accounts.len(), y.accounts.len());
        for (m, n) in x.accounts.iter().zip(y.accounts.iter()) {
            assert_eq!(m.pubkey.as_bytes(), n.pubkey.as_bytes());
            assert_eq!(m.is_signer, n.is_signer);
            assert_eq!(m.is_writable, n.is_writable);
        }
    }
    assert_eq!(a.signers.len(), b.signers.len());
    for (x, y) in a.signers.iter().zip(b.signers.iter()) {
        assert!(x.eq_address(y));
    }
}

#[test]
fn address_length_is_checked() {
    assert!(Address::new(vec![0u8; 31]).is_none());
    assert!(Address::new(vec![0u8; 32]).is_some());
    assert!(Address::new(vec![0u8; 33]).is_none());
}

#[test]
fn ata_funded_by_payer_needs_one_signer() {
    let payer = addr(1);
    let (plan, _) = create_associated_token_account_plan(payer.dup(), payer.dup(), addr(2), addr(3));
    assert_eq!(plan.signers.len(), 1);
    assert!(plan.signers[0].eq_address(&payer));
}

#[test]
fn ata_funded_by_other_needs_two_signers() {
    let payer = addr(1);
    let funder = addr(9);
    let (plan, _) = create_associated_token_account_plan(payer.dup(), funder.dup(), addr(2), addr(3));
    assert_eq!(plan.signers.len(), 2);
    assert!(plan.signers[0].eq_address(&payer));
    assert!(plan.signers[1].eq_address(&funder));
}

#[test]
fn ata_by_payer_matches_payer_funded_plan() {
    let (plan_a, ata_a) = create_associated_token_account_by_payer_plan(addr(1), addr(2), addr(3));
    let (plan_b, ata_b) = create_associated_token_account_plan(addr(1), addr(1), addr(2), addr(3));
    assert_plans_equal(&plan_a, &plan_b);
    assert!(ata_a.eq_address(&ata_b));
}

#[test]
fn token_account_plan_equals_lamports_variant_at_rent_minimum() {
    let rent: u64 = 2_039_280;
    let plan_a = create_token_account_plan(addr(1), addr(2), addr(3), addr(4), rent);
    let plan_b = create_token_account_with_lamports_plan(addr(1), addr(2), addr(3), addr(4), rent);
    assert_plans_equal(&plan_a, &plan_b);
}

#[test]
fn token_lifecycle_plans_encode_amounts_and_decimals() {
    let payer = addr(1);
    let mint_authority = addr(2);
    let mint = addr(3);
    let first_account = addr(4);
    let second_account = addr(5);

    let mint_plan = create_token_mint_plan(payer.dup(), mint.dup(), mint_authority.dup(), 6, 1_461_600);
    assert_eq!(mint_plan.instructions.len(), 2);
    // initialize-mint arguments: tag, decimals, authority, no freeze authority
    let init_data = &mint_plan.instructions[1].data;
    assert_eq!(init_data[0], 0);
    assert_eq!(init_data[1], 6);
    assert_eq!(&init_data[2..34], mint_authority.as_bytes().as_slice());
    assert_eq!(init_data[34], 0);

    let to_first = mint_to_plan(payer.dup(), mint_authority.dup(), mint.dup(), first_account.dup(), 1_000_000, 6);
    let data = &to_first.instructions[0].data;
    assert_eq!(data[0], 14);
    assert_eq!(&data[1..9], &1_000_000u64.to_le_bytes());
    assert_eq!(data[9], 6);

    let move_part = transfer_to_plan(
        payer.dup(),
        mint_authority.dup(),
        mint.dup(),
        first_account.dup(),
        second_account.dup(),
        400_000,
        6,
    );
    let data = &move_part.instructions[0].data;
    assert_eq!(data[0], 12);
    assert_eq!(&data[1..9], &400_000u64.to_le_bytes());
    assert_eq!(data[9], 6);

    // a mismatched decimals declaration reaches the node verbatim, where the
    // checked instruction rejects it; locally the encodings differ
    let wrong = transfer_to_plan(payer, mint_authority, mint, first_account, second_account, 400_000, 5);
    assert_eq!(wrong.instructions[0].data[9], 5);
    assert_ne!(wrong.instructions[0].data, move_part.instructions[0].data);
}
