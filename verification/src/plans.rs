//! Transaction plans: the instruction list and required signer set of each
//! operation, built exactly as the node's programs expect them.
//!
//! A plan is everything about a transaction that is decided locally. The
//! embedding application turns a plan into a signed transaction (the fee
//! payer is the first signer) and submits it; values that only the node
//! knows — a recent block hash, a rent-exempt minimum balance — are fetched
//! by the application and handed in as arguments.

use vstd::prelude::*;

use crate::instructions::Ix;
use crate::instructions::ata_of;
use crate::instructions::close_account_ix;
use crate::instructions::create_account_ix;
use crate::instructions::create_associated_token_account_ix;
use crate::instructions::get_associated_token_address;
use crate::instructions::initialize_account_ix;
use crate::instructions::initialize_mint_ix;
use crate::instructions::is_close_account_ix;
use crate::instructions::is_create_account_ix;
use crate::instructions::is_create_associated_token_account_ix;
use crate::instructions::is_initialize_account_ix;
use crate::instructions::is_initialize_mint_ix;
use crate::instructions::is_meta;
use crate::instructions::is_mint_to_checked_ix;
use crate::instructions::is_transfer_checked_ix;
use crate::instructions::mint_to_checked_ix;
use crate::instructions::token_program_address;
use crate::instructions::token_program_id;
use crate::instructions::transfer_checked_ix;
use crate::types::Address;

verus! {

/// Packed byte length of a token-mint account under the token program.
pub const MINT_ACCOUNT_LEN: u64 = 82;

/// Packed byte length of a token account under the token program.
pub const TOKEN_ACCOUNT_LEN: u64 = 165;

/// A transaction to be signed and submitted: its instructions, in order,
/// and the keys that must sign it, fee payer first.
pub struct TxPlan {
    /// The instructions of the transaction, in execution order.
    pub instructions: Vec<Ix>,
    /// The addresses whose keys must sign, the fee payer first.
    pub signers: Vec<Address>,
}

impl TxPlan {
    /// A well-formed plan holds well-formed instructions and at least one
    /// signer, the fee payer.
    pub open spec fn wf(&self) -> bool {
        &&& self.signers@.len() >= 1
        &&& forall|i: int| 0 <= i < self.instructions@.len() ==> (#[trigger] self.instructions@[i]).wf()
        &&& forall|i: int| 0 <= i < self.signers@.len() ==> (#[trigger] self.signers@[i]).wf()
    }
}

/// The shape every token-account-creation plan has: fund and allocate the
/// account, then initialize it, signed by the payer and the new account.
pub open spec fn token_account_plan_shape(
    p: TxPlan,
    payer: Seq<u8>,
    new_account: Seq<u8>,
    owner: Seq<u8>,
    mint: Seq<u8>,
    lamports: u64,
) -> bool {
    &&& p.instructions@.len() == 2
    &&& is_create_account_ix(p.instructions@[0], payer, new_account, lamports, TOKEN_ACCOUNT_LEN, token_program_id())
    &&& is_initialize_account_ix(p.instructions@[1], new_account, mint, owner)
    &&& p.signers@.len() == 2
    &&& p.signers@[0]@ == payer
    &&& p.signers@[1]@ == new_account
}

/// Plans the creation of a fresh account owned by `owner`, funded by the
/// payer with the given lamports and allocated `space` bytes. Signed by
/// the payer and the new account's key.
pub fn create_account_plan(
    payer: Address,
    new_account: Address,
    owner: Address,
    space: u64,
    lamports: u64,
) -> (r: TxPlan)
    requires
        payer.wf(),
        new_account.wf(),
        owner.wf(),
    ensures
        r.wf(),
        r.instructions@.len() == 1,
        is_create_account_ix(r.instructions@[0], payer@, new_account@, lamports, space, owner@),
        r.signers@.len() == 2,
        r.signers@[0]@ == payer@,
        r.signers@[1]@ == new_account@,
{
    let ix = create_account_ix(&payer, &new_account, lamports, space, &owner);
    let mut instructions: Vec<Ix> = Vec::new();
    instructions.push(ix);
    let mut signers: Vec<Address> = Vec::new();
    signers.push(payer);
    signers.push(new_account);
    TxPlan { instructions, signers }
}

/// Plans the creation of a token mint ruled by `owner` with the given
/// decimal precision: create the mint account under the token program
/// (funded with the rent-exempt minimum for a mint account, queried by the
/// caller), then initialize it. Signed by the payer and the mint's key.
pub fn create_token_mint_plan(
    payer: Address,
    mint_account: Address,
    owner: Address,
    decimals: u8,
    mint_rent_lamports: u64,
) -> (r: TxPlan)
    requires
        payer.wf(),
        mint_account.wf(),
        owner.wf(),
    ensures
        r.wf(),
        r.instructions@.len() == 2,
        is_create_account_ix(r.instructions@[0], payer@, mint_account@, mint_rent_lamports, MINT_ACCOUNT_LEN, token_program_id()),
        is_initialize_mint_ix(r.instructions@[1], mint_account@, owner@, decimals),
        r.signers@.len() == 2,
        r.signers@[0]@ == payer@,
        r.signers@[1]@ == mint_account@,
{
    let token_program = token_program_address();
    let create = create_account_ix(&payer, &mint_account, mint_rent_lamports, MINT_ACCOUNT_LEN, &token_program);
    let init = initialize_mint_ix(&mint_account, &owner, decimals);
    let mut instructions: Vec<Ix> = Vec::new();
    instructions.push(create);
    instructions.push(init);
    let mut signers: Vec<Address> = Vec::new();
    signers.push(payer);
    signers.push(mint_account);
    TxPlan { instructions, signers }
}

/// Plans the creation of a token account of `mint` held by `owner`, funded
/// with the given lamports. Signed by the payer and the new account's key.
pub fn create_token_account_with_lamports_plan(
    payer: Address,
    new_account: Address,
    owner: Address,
    mint: Address,
    lamports: u64,
) -> (r: TxPlan)
    requires
        payer.wf(),
        new_account.wf(),
        owner.wf(),
        mint.wf(),
    ensures
        r.wf(),
        token_account_plan_shape(r, payer@, new_account@, owner@, mint@, lamports),
{
    let token_program = token_program_address();
    let create = create_account_ix(&payer, &new_account, lamports, TOKEN_ACCOUNT_LEN, &token_program);
    let init = initialize_account_ix(&new_account, &mint, &owner);
    let mut instructions: Vec<Ix> = Vec::new();
    instructions.push(create);
    instructions.push(init);
    let mut signers: Vec<Address> = Vec::new();
    signers.push(payer);
    signers.push(new_account);
    TxPlan { instructions, signers }
}

/// Plans the creation of a token account funded with the rent-exempt
/// minimum for a token account, which the caller queries from the node.
/// The plan is the one `create_token_account_with_lamports_plan` builds
/// from that minimum.
pub fn create_token_account_plan(
    payer: Address,
    new_account: Address,
    owner: Address,
    mint: Address,
    rent_lamports: u64,
) -> (r: TxPlan)
    requires
        payer.wf(),
        new_account.wf(),
        owner.wf(),
        mint.wf(),
    ensures
        r.wf(),
        token_account_plan_shape(r, payer@, new_account@, owner@, mint@, rent_lamports),
{
    create_token_account_with_lamports_plan(payer, new_account, owner, mint, rent_lamports)
}

/// Plans minting `amount` units into `account` under the mint authority
/// `owner`, asserting the mint's decimal precision. Signed by the payer
/// and the mint authority.
pub fn mint_to_plan(
    payer: Address,
    owner: Address,
    mint: Address,
    account: Address,
    amount: u64,
    decimals: u8,
) -> (r: TxPlan)
    requires
        payer.wf(),
        owner.wf(),
        mint.wf(),
        account.wf(),
    ensures
        r.wf(),
        r.instructions@.len() == 1,
        is_mint_to_checked_ix(r.instructions@[0], mint@, account@, owner@, amount, decimals),
        r.signers@.len() == 2,
        r.signers@[0]@ == payer@,
        r.signers@[1]@ == owner@,
{
    let ix = mint_to_checked_ix(&mint, &account, &owner, amount, decimals);
    let mut instructions: Vec<Ix> = Vec::new();
    instructions.push(ix);
    let mut signers: Vec<Address> = Vec::new();
    signers.push(payer);
    signers.push(owner);
    TxPlan { instructions, signers }
}

/// Plans transferring `amount` units of `mint` from `source` to
/// `destination` under `authority`, asserting the mint's decimal
/// precision. Signed by the payer and the transfer authority.
pub fn transfer_to_plan(
    payer: Address,
    authority: Address,
    mint: Address,
    source: Address,
    destination: Address,
    amount: u64,
    decimals: u8,
) -> (r: TxPlan)
    requires
        payer.wf(),
        authority.wf(),
        mint.wf(),
        source.wf(),
        destination.wf(),
    ensures
        r.wf(),
        r.instructions@.len() == 1,
        is_transfer_checked_ix(r.instructions@[0], source@, mint@, destination@, authority@, amount, decimals),
        r.signers@.len() == 2,
        r.signers@[0]@ == payer@,
        r.signers@[1]@ == authority@,
{
    let ix = transfer_checked_ix(&source, &mint, &destination, &authority, amount, decimals);
    let mut instructions: Vec<Ix> = Vec::new();
    instructions.push(ix);
    let mut signers: Vec<Address> = Vec::new();
    signers.push(payer);
    signers.push(authority);
    TxPlan { instructions, signers }
}

/// Plans closing the token account `account`, sending its remaining
/// lamports to `destination`, under the account owner `owner`. Signed by
/// the payer and the account owner.
pub fn close_token_account_plan(
    payer: Address,
    owner: Address,
    account: Address,
    destination: Address,
) -> (r: TxPlan)
    requires
        payer.wf(),
        owner.wf(),
        account.wf(),
        destination.wf(),
    ensures
        r.wf(),
        r.instructions@.len() == 1,
        is_close_account_ix(r.instructions@[0], account@, destination@, owner@),
        r.signers@.len() == 2,
        r.signers@[0]@ == payer@,
        r.signers@[1]@ == owner@,
{
    let ix = close_account_ix(&account, &destination, &owner);
    let mut instructions: Vec<Ix> = Vec::new();
    instructions.push(ix);
    let mut signers: Vec<Address> = Vec::new();
    signers.push(payer);
    signers.push(owner);
    TxPlan { instructions, signers }
}

/// Plans the creation of the associated token account of `recipient` for
/// `mint`, funded by `funder`, and returns the derived address alongside.
/// The signer set depends on the funder's identity: the payer alone when
/// the funder is the payer, otherwise the payer and the funder.
pub fn create_associated_token_account_plan(
    payer: Address,
    funder: Address,
    recipient: Address,
    mint: Address,
) -> (r: (TxPlan, Address))
    requires
        payer.wf(),
        funder.wf(),
        recipient.wf(),
        mint.wf(),
    ensures
        r.0.wf(),
        r.0.instructions@.len() == 1,
        is_create_associated_token_account_ix(r.0.instructions@[0], funder@, recipient@, mint@),
        r.0.signers@[0]@ == payer@,
        funder@ == payer@ ==> r.0.signers@.len() == 1,
        funder@ != payer@ ==> r.0.signers@.len() == 2 && r.0.signers@[1]@ == funder@,
        r.1.wf(),
        r.1@ == ata_of(recipient@, mint@),
{
    let ix = create_associated_token_account_ix(&funder, &recipient, &mint);
    let ata = get_associated_token_address(&recipient, &mint);
    let same_funder = payer.eq_address(&funder);
    let mut instructions: Vec<Ix> = Vec::new();
    instructions.push(ix);
    let mut signers: Vec<Address> = Vec::new();
    signers.push(payer);
    if !same_funder {
        signers.push(funder);
    }
    (TxPlan { instructions, signers }, ata)
}

/// Plans the creation of an associated token account funded by the payer
/// itself; the payer is then the only signer.
pub fn create_associated_token_account_by_payer_plan(
    payer: Address,
    recipient: Address,
    mint: Address,
) -> (r: (TxPlan, Address))
    requires
        payer.wf(),
        recipient.wf(),
        mint.wf(),
    ensures
        r.0.wf(),
        r.0.instructions@.len() == 1,
        is_create_associated_token_account_ix(r.0.instructions@[0], payer@, recipient@, mint@),
        r.0.signers@.len() == 1,
        r.0.signers@[0]@ == payer@,
        r.1.wf(),
        r.1@ == ata_of(recipient@, mint@),
{
    let funder = payer.dup();
    create_associated_token_account_plan(payer, funder, recipient, mint)
}

/// Tells whether two instructions are the same, byte for byte.
pub open spec fn ix_alike(a: Ix, b: Ix) -> bool {
    &&& a.program_id@ == b.program_id@
    &&& a.data@ == b.data@
    &&& a.accounts@.len() == b.accounts@.len()
    &&& forall|i: int| 0 <= i < a.accounts@.len() ==>
            is_meta(#[trigger] a.accounts@[i], b.accounts@[i].pubkey@, b.accounts@[i].is_signer, b.accounts@[i].is_writable)
}

/// Tells whether two plans are the same, byte for byte.
pub open spec fn plans_alike(a: TxPlan, b: TxPlan) -> bool {
    &&& a.instructions@.len() == b.instructions@.len()
    &&& forall|i: int| 0 <= i < a.instructions@.len() ==> ix_alike(#[trigger] a.instructions@[i], b.instructions@[i])
    &&& a.signers@.len() == b.signers@.len()
    &&& forall|i: int| 0 <= i < a.signers@.len() ==> (#[trigger] a.signers@[i])@ == b.signers@[i]@
}

/// Creating a token account with the queried rent-exempt minimum builds
/// the very plan that the explicit-lamports variant builds from that
/// minimum: the two operations' contracts pin the same plan, byte for
/// byte.
pub proof fn lemma_token_account_plan_matches_lamports_variant(
    a: TxPlan,
    b: TxPlan,
    payer: Seq<u8>,
    new_account: Seq<u8>,
    owner: Seq<u8>,
    mint: Seq<u8>,
    rent_lamports: u64,
)
    requires
        token_account_plan_shape(a, payer, new_account, owner, mint, rent_lamports),
        token_account_plan_shape(b, payer, new_account, owner, mint, rent_lamports),
    ensures
        plans_alike(a, b),
{
    assert forall|i: int| 0 <= i < a.instructions@.len() implies ix_alike(#[trigger] a.instructions@[i], b.instructions@[i]) by {
        if i == 0 {
            assert(ix_alike(a.instructions@[0], b.instructions@[0]));
        } else {
            assert(ix_alike(a.instructions@[1], b.instructions@[1]));
        }
    }
}

} // verus!
