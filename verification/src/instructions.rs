//! Program instructions, modelled as plain bytes.
//!
//! An instruction names the program that executes it, the accounts it
//! touches (each with its signer and writability flags) and an opaque data
//! payload. The instructions themselves are built by the node SDK's own
//! builders, called through trusted wrappers whose contracts state the
//! exact accounts and data bytes that those builders produce.

use vstd::prelude::*;

use crate::types::Address;

verus! {

/// An account reference carried by an instruction.
pub struct AccountMeta {
    /// The referenced account.
    pub pubkey: Address,
    /// Whether the transaction must be signed by this account's key.
    pub is_signer: bool,
    /// Whether the instruction may modify the account.
    pub is_writable: bool,
}

impl AccountMeta {
    /// A well-formed account reference holds a well-formed address.
    pub open spec fn wf(&self) -> bool {
        self.pubkey.wf()
    }
}

/// Tells whether `m` references `pubkey` with exactly the given flags.
pub open spec fn is_meta(m: AccountMeta, pubkey: Seq<u8>, is_signer: bool, is_writable: bool) -> bool {
    m.pubkey@ == pubkey && m.is_signer == is_signer && m.is_writable == is_writable
}

/// A single program instruction.
pub struct Ix {
    /// The program that executes the instruction.
    pub program_id: Address,
    /// The accounts the instruction touches, in order.
    pub accounts: Vec<AccountMeta>,
    /// The instruction's serialized arguments.
    pub data: Vec<u8>,
}

impl Ix {
    /// A well-formed instruction holds well-formed addresses throughout.
    pub open spec fn wf(&self) -> bool {
        &&& self.program_id.wf()
        &&& forall|i: int| 0 <= i < self.accounts@.len() ==> (#[trigger] self.accounts@[i]).wf()
    }
}

/// The system program's id: thirty-two zero bytes.
pub open spec fn system_program_id() -> Seq<u8> {
    Seq::new(32, |i: int| 0u8)
}

/// The token program's id (base58 `TokenkegQfeZyiNwAJbNbGKPFXCWuBvf9Ss623VQ5DA`).
pub open spec fn token_program_id() -> Seq<u8> {
    seq![
        6u8, 221u8, 246u8, 225u8, 215u8, 101u8, 161u8, 147u8,
        217u8, 203u8, 225u8, 70u8, 206u8, 235u8, 121u8, 172u8,
        28u8, 180u8, 133u8, 237u8, 95u8, 91u8, 55u8, 145u8,
        58u8, 140u8, 245u8, 133u8, 126u8, 255u8, 0u8, 169u8,
    ]
}

/// The associated-token-account program's id
/// (base58 `ATokenGPvbdGVxr1b2hvZbsiqW5xWH25efTNsLJA8knL`).
pub open spec fn associated_token_program_id() -> Seq<u8> {
    seq![
        140u8, 151u8, 37u8, 143u8, 78u8, 36u8, 137u8, 241u8,
        187u8, 61u8, 16u8, 41u8, 20u8, 142u8, 13u8, 131u8,
        11u8, 90u8, 19u8, 153u8, 218u8, 255u8, 16u8, 132u8,
        4u8, 142u8, 123u8, 216u8, 219u8, 233u8, 248u8, 89u8,
    ]
}

/// The rent sysvar's id (base58 `SysvarRent111111111111111111111111111111111`).
pub open spec fn rent_sysvar_id() -> Seq<u8> {
    seq![
        6u8, 167u8, 213u8, 23u8, 25u8, 44u8, 92u8, 81u8,
        33u8, 140u8, 201u8, 76u8, 61u8, 74u8, 241u8, 127u8,
        88u8, 218u8, 238u8, 8u8, 155u8, 161u8, 253u8, 68u8,
        227u8, 219u8, 217u8, 138u8, 0u8, 0u8, 0u8, 0u8,
    ]
}

/// The four little-endian bytes of a 32-bit integer.
pub open spec fn u32_le(n: u32) -> Seq<u8> {
    seq![
        (n & 0xff) as u8,
        ((n >> 8) & 0xff) as u8,
        ((n >> 16) & 0xff) as u8,
        ((n >> 24) & 0xff) as u8,
    ]
}

/// The eight little-endian bytes of a 64-bit integer.
pub open spec fn u64_le(n: u64) -> Seq<u8> {
    seq![
        (n & 0xff) as u8,
        ((n >> 8) & 0xff) as u8,
        ((n >> 16) & 0xff) as u8,
        ((n >> 24) & 0xff) as u8,
        ((n >> 32) & 0xff) as u8,
        ((n >> 40) & 0xff) as u8,
        ((n >> 48) & 0xff) as u8,
        ((n >> 56) & 0xff) as u8,
    ]
}

/// Serialized arguments of the system program's create-account request:
/// its discriminant, the funding lamports, the allocated space, and the
/// owning program.
pub open spec fn create_account_data(lamports: u64, space: u64, owner: Seq<u8>) -> Seq<u8> {
    u32_le(0) + u64_le(lamports) + u64_le(space) + owner
}

/// Serialized arguments of the token program's initialize-mint request,
/// with no freeze authority.
pub open spec fn initialize_mint_data(authority: Seq<u8>, decimals: u8) -> Seq<u8> {
    seq![0u8, decimals] + authority + seq![0u8]
}

/// Serialized arguments of the token program's initialize-account request.
pub open spec fn initialize_account_data() -> Seq<u8> {
    seq![1u8]
}

/// Serialized arguments of the token program's checked mint-to request.
pub open spec fn mint_to_checked_data(amount: u64, decimals: u8) -> Seq<u8> {
    seq![14u8] + u64_le(amount) + seq![decimals]
}

/// Serialized arguments of the token program's checked transfer request.
pub open spec fn transfer_checked_data(amount: u64, decimals: u8) -> Seq<u8> {
    seq![12u8] + u64_le(amount) + seq![decimals]
}

/// Serialized arguments of the token program's close-account request.
pub open spec fn close_account_data() -> Seq<u8> {
    seq![9u8]
}

/// Serialized arguments of the associated-token-account program's create
/// request.
pub open spec fn create_associated_token_account_data() -> Seq<u8> {
    seq![0u8]
}

/// The associated token account address derived from a wallet address and
/// a token mint. The derivation hashes the two addresses together with the
/// token program's id, so the result is a pure function of the two inputs.
pub uninterp spec fn ata_of(wallet: Seq<u8>, mint: Seq<u8>) -> Seq<u8>;

/// Tells whether `ix` is the system instruction that creates `new_account`
/// funded by `from` with the given lamports, space and owning program.
pub open spec fn is_create_account_ix(
    ix: Ix,
    from: Seq<u8>,
    new_account: Seq<u8>,
    lamports: u64,
    space: u64,
    owner: Seq<u8>,
) -> bool {
    &&& ix.program_id@ == system_program_id()
    &&& ix.accounts@.len() == 2
    &&& is_meta(ix.accounts@[0], from, true, true)
    &&& is_meta(ix.accounts@[1], new_account, true, true)
    &&& ix.data@ == create_account_data(lamports, space, owner)
}

/// Tells whether `ix` initializes `mint` as a token mint ruled by
/// `authority` with the given decimal precision and no freeze authority.
pub open spec fn is_initialize_mint_ix(
    ix: Ix,
    mint: Seq<u8>,
    authority: Seq<u8>,
    decimals: u8,
) -> bool {
    &&& ix.program_id@ == token_program_id()
    &&& ix.accounts@.len() == 2
    &&& is_meta(ix.accounts@[0], mint, false, true)
    &&& is_meta(ix.accounts@[1], rent_sysvar_id(), false, false)
    &&& ix.data@ == initialize_mint_data(authority, decimals)
}

/// Tells whether `ix` initializes `account` as a token account of `mint`
/// held by `owner`.
pub open spec fn is_initialize_account_ix(
    ix: Ix,
    account: Seq<u8>,
    mint: Seq<u8>,
    owner: Seq<u8>,
) -> bool {
    &&& ix.program_id@ == token_program_id()
    &&& ix.accounts@.len() == 4
    &&& is_meta(ix.accounts@[0], account, false, true)
    &&& is_meta(ix.accounts@[1], mint, false, false)
    &&& is_meta(ix.accounts@[2], owner, false, false)
    &&& is_meta(ix.accounts@[3], rent_sysvar_id(), false, false)
    &&& ix.data@ == initialize_account_data()
}

/// Tells whether `ix` mints `amount` units of `mint` into `account` under
/// the mint authority `owner`, asserting the mint's decimal precision.
pub open spec fn is_mint_to_checked_ix(
    ix: Ix,
    mint: Seq<u8>,
    account: Seq<u8>,
    owner: Seq<u8>,
    amount: u64,
    decimals: u8,
) -> bool {
    &&& ix.program_id@ == token_program_id()
    &&& ix.accounts@.len() == 3
    &&& is_meta(ix.accounts@[0], mint, false, true)
    &&& is_meta(ix.accounts@[1], account, false, true)
    &&& is_meta(ix.accounts@[2], owner, true, false)
    &&& ix.data@ == mint_to_checked_data(amount, decimals)
}

/// Tells whether `ix` transfers `amount` units of `mint` from `source` to
/// `destination` under `authority`, asserting the mint's decimal precision.
pub open spec fn is_transfer_checked_ix(
    ix: Ix,
    source: Seq<u8>,
    mint: Seq<u8>,
    destination: Seq<u8>,
    authority: Seq<u8>,
    amount: u64,
    decimals: u8,
) -> bool {
    &&& ix.program_id@ == token_program_id()
    &&& ix.accounts@.len() == 4
    &&& is_meta(ix.accounts@[0], source, false, true)
    &&& is_meta(ix.accounts@[1], mint, false, false)
    &&& is_meta(ix.accounts@[2], destination, false, true)
    &&& is_meta(ix.accounts@[3], authority, true, false)
    &&& ix.data@ == transfer_checked_data(amount, decimals)
}

/// Tells whether `ix` closes the token account `account`, sending its
/// remaining lamports to `destination`, under the account owner `owner`.
pub open spec fn is_close_account_ix(
    ix: Ix,
    account: Seq<u8>,
    destination: Seq<u8>,
    owner: Seq<u8>,
) -> bool {
    &&& ix.program_id@ == token_program_id()
    &&& ix.accounts@.len() == 3
    &&& is_meta(ix.accounts@[0], account, false, true)
    &&& is_meta(ix.accounts@[1], destination, false, true)
    &&& is_meta(ix.accounts@[2], owner, true, false)
    &&& ix.data@ == close_account_data()
}

/// Tells whether `ix` creates the associated token account of `recipient`
/// for `mint`, funded by `funder`.
pub open spec fn is_create_associated_token_account_ix(
    ix: Ix,
    funder: Seq<u8>,
    recipient: Seq<u8>,
    mint: Seq<u8>,
) -> bool {
    &&& ix.program_id@ == associated_token_program_id()
    &&& ix.accounts@.len() == 6
    &&& is_meta(ix.accounts@[0], funder, true, true)
    &&& is_meta(ix.accounts@[1], ata_of(recipient, mint), false, true)
    &&& is_meta(ix.accounts@[2], recipient, false, false)
    &&& is_meta(ix.accounts@[3], mint, false, false)
    &&& is_meta(ix.accounts@[4], system_program_id(), false, false)
    &&& is_meta(ix.accounts@[5], token_program_id(), false, false)
    &&& ix.data@ == create_associated_token_account_data()
}

/// The system program's id, as bytes.
pub fn system_program_id_bytes() -> (r: Vec<u8>)
    ensures
        r@ == system_program_id(),
{
    let mut v: Vec<u8> = Vec::new();
    let mut i: usize = 0;
    while i < 32
        invariant
            i <= 32,
            v@.len() == i,
            forall|j: int| 0 <= j < i ==> v@[j] == 0u8,
        decreases 32 - i,
    {
        v.push(0u8);
        i = i + 1;
    }
    proof {
        assert(v@ =~= system_program_id());
    }
    v
}

/// The token program's id, as bytes.
pub fn token_program_id_bytes() -> (r: Vec<u8>)
    ensures
        r@ == token_program_id(),
{
    let v: Vec<u8> = vec![
        6u8, 221u8, 246u8, 225u8, 215u8, 101u8, 161u8, 147u8,
        217u8, 203u8, 225u8, 70u8, 206u8, 235u8, 121u8, 172u8,
        28u8, 180u8, 133u8, 237u8, 95u8, 91u8, 55u8, 145u8,
        58u8, 140u8, 245u8, 133u8, 126u8, 255u8, 0u8, 169u8,
    ];
    proof {
        assert(v@ =~= token_program_id());
    }
    v
}

/// The associated-token-account program's id, as bytes.
pub fn associated_token_program_id_bytes() -> (r: Vec<u8>)
    ensures
        r@ == associated_token_program_id(),
{
    let v: Vec<u8> = vec![
        140u8, 151u8, 37u8, 143u8, 78u8, 36u8, 137u8, 241u8,
        187u8, 61u8, 16u8, 41u8, 20u8, 142u8, 13u8, 131u8,
        11u8, 90u8, 19u8, 153u8, 218u8, 255u8, 16u8, 132u8,
        4u8, 142u8, 123u8, 216u8, 219u8, 233u8, 248u8, 89u8,
    ];
    proof {
        assert(v@ =~= associated_token_program_id());
    }
    v
}

/// The rent sysvar's id, as bytes.
pub fn rent_sysvar_id_bytes() -> (r: Vec<u8>)
    ensures
        r@ == rent_sysvar_id(),
{
    let v: Vec<u8> = vec![
        6u8, 167u8, 213u8, 23u8, 25u8, 44u8, 92u8, 81u8,
        33u8, 140u8, 201u8, 76u8, 61u8, 74u8, 241u8, 127u8,
        88u8, 218u8, 238u8, 8u8, 155u8, 161u8, 253u8, 68u8,
        227u8, 219u8, 217u8, 138u8, 0u8, 0u8, 0u8, 0u8,
    ];
    proof {
        assert(v@ =~= rent_sysvar_id());
    }
    v
}

/// The associated token account address is a pure function of the wallet
/// and mint addresses: any two derivations from equal inputs yield the
/// same address.
pub proof fn lemma_associated_token_address_deterministic(
    a: Address,
    b: Address,
    wallet: Seq<u8>,
    mint: Seq<u8>,
)
    requires
        a@ == ata_of(wallet, mint),
        b@ == ata_of(wallet, mint),
    ensures
        a@ == b@,
{
}

#[verifier::external_type_specification]
#[verifier::external_body]
pub struct ExPubkey(solana_sdk::pubkey::Pubkey);

#[verifier::external_type_specification]
#[verifier::external_body]
pub struct ExInstruction(solana_sdk::instruction::Instruction);

/// Converts an address of the library into the SDK's public-key type,
/// byte for byte.
#[verifier::external_body]
fn to_pubkey(a: &Address) -> solana_sdk::pubkey::Pubkey
    requires
        a.wf(),
{
    solana_sdk::pubkey::Pubkey::new_from_array(a.as_bytes().as_slice().try_into().unwrap())
}

/// Converts an instruction of the SDK into the library's model, field for
/// field.
#[verifier::external_body]
fn model_of(ix: solana_sdk::instruction::Instruction) -> Ix
{
    Ix {
        program_id: Address::new(ix.program_id.to_bytes().to_vec()).unwrap(),
        accounts: ix.accounts.into_iter().map(|m| AccountMeta {
            pubkey: Address::new(m.pubkey.to_bytes().to_vec()).unwrap(),
            is_signer: m.is_signer,
            is_writable: m.is_writable,
        }).collect(),
        data: ix.data,
    }
}

/// Relies on spl_token::id: the token program's id is the constant that
/// `token_program_id` states.
#[verifier::external_body]
pub fn token_program_address() -> (r: Address)
    ensures
        r.wf(),
        r@ == token_program_id(),
{
    Address::new(spl_token::id().to_bytes().to_vec()).unwrap()
}

/// Relies on spl_associated_token_account::get_associated_token_address:
/// the derived address is 32 bytes and depends only on the wallet and mint
/// addresses.
#[verifier::external_body]
pub fn get_associated_token_address(wallet: &Address, mint: &Address) -> (r: Address)
    requires
        wallet.wf(),
        mint.wf(),
    ensures
        r.wf(),
        r@ == ata_of(wallet@, mint@),
{
    let pk = spl_associated_token_account::get_associated_token_address(
        &to_pubkey(wallet),
        &to_pubkey(mint),
    );
    Address::new(pk.to_bytes().to_vec()).unwrap()
}

/// Relies on solana_sdk::system_instruction::create_account: the returned
/// instruction carries the funding and new accounts as writable signers
/// and the serialized create-account arguments.
#[verifier::external_body]
pub fn create_account_ix(
    from: &Address,
    new_account: &Address,
    lamports: u64,
    space: u64,
    owner: &Address,
) -> (r: Ix)
    requires
        from.wf(),
        new_account.wf(),
        owner.wf(),
    ensures
        r.wf(),
        is_create_account_ix(r, from@, new_account@, lamports, space, owner@),
{
    let ix = solana_sdk::system_instruction::create_account(
        &to_pubkey(from),
        &to_pubkey(new_account),
        lamports,
        space,
        &to_pubkey(owner),
    );
    model_of(ix)
}

/// Relies on spl_token::instruction::initialize_mint, called with the
/// token program's own id (so it cannot fail) and no freeze authority.
#[verifier::external_body]
pub fn initialize_mint_ix(mint: &Address, authority: &Address, decimals: u8) -> (r: Ix)
    requires
        mint.wf(),
        authority.wf(),
    ensures
        r.wf(),
        is_initialize_mint_ix(r, mint@, authority@, decimals),
{
    let ix = spl_token::instruction::initialize_mint(
        &spl_token::id(),
        &to_pubkey(mint),
        &to_pubkey(authority),
        None,
        decimals,
    ).expect("the token program id is valid");
    model_of(ix)
}

/// Relies on spl_token::instruction::initialize_account, called with the
/// token program's own id (so it cannot fail).
#[verifier::external_body]
pub fn initialize_account_ix(account: &Address, mint: &Address, owner: &Address) -> (r: Ix)
    requires
        account.wf(),
        mint.wf(),
        owner.wf(),
    ensures
        r.wf(),
        is_initialize_account_ix(r, account@, mint@, owner@),
{
    let ix = spl_token::instruction::initialize_account(
        &spl_token::id(),
        &to_pubkey(account),
        &to_pubkey(mint),
        &to_pubkey(owner),
    ).expect("the token program id is valid");
    model_of(ix)
}

/// Relies on spl_token::instruction::mint_to_checked, called with the
/// token program's own id (so it cannot fail) and no multisig signers,
/// which makes the mint authority the sole signer.
#[verifier::external_body]
pub fn mint_to_checked_ix(
    mint: &Address,
    account: &Address,
    owner: &Address,
    amount: u64,
    decimals: u8,
) -> (r: Ix)
    requires
        mint.wf(),
        account.wf(),
        owner.wf(),
    ensures
        r.wf(),
        is_mint_to_checked_ix(r, mint@, account@, owner@, amount, decimals),
{
    let ix = spl_token::instruction::mint_to_checked(
        &spl_token::id(),
        &to_pubkey(mint),
        &to_pubkey(account),
        &to_pubkey(owner),
        &[],
        amount,
        decimals,
    ).expect("the token program id is valid");
    model_of(ix)
}

/// Relies on spl_token::instruction::transfer_checked, called with the
/// token program's own id (so it cannot fail) and no multisig signers,
/// which makes the transfer authority the sole signer.
#[verifier::external_body]
pub fn transfer_checked_ix(
    source: &Address,
    mint: &Address,
    destination: &Address,
    authority: &Address,
    amount: u64,
    decimals: u8,
) -> (r: Ix)
    requires
        source.wf(),
        mint.wf(),
        destination.wf(),
        authority.wf(),
    ensures
        r.wf(),
        is_transfer_checked_ix(r, source@, mint@, destination@, authority@, amount, decimals),
{
    let ix = spl_token::instruction::transfer_checked(
        &spl_token::id(),
        &to_pubkey(source),
        &to_pubkey(mint),
        &to_pubkey(destination),
        &to_pubkey(authority),
        &[],
        amount,
        decimals,
    ).expect("the token program id is valid");
    model_of(ix)
}

/// Relies on spl_token::instruction::close_account, called with the token
/// program's own id (so it cannot fail) and no multisig signers, which
/// makes the account owner the sole signer.
#[verifier::external_body]
pub fn close_account_ix(account: &Address, destination: &Address, owner: &Address) -> (r: Ix)
    requires
        account.wf(),
        destination.wf(),
        owner.wf(),
    ensures
        r.wf(),
        is_close_account_ix(r, account@, destination@, owner@),
{
    let ix = spl_token::instruction::close_account(
        &spl_token::id(),
        &to_pubkey(account),
        &to_pubkey(destination),
        &to_pubkey(owner),
        &[],
    ).expect("the token program id is valid");
    model_of(ix)
}

/// Relies on spl_associated_token_account::instruction::create_associated_token_account,
/// called for accounts of the token program: the returned instruction
/// funds the recipient's derived associated account from `funder`.
#[verifier::external_body]
pub fn create_associated_token_account_ix(
    funder: &Address,
    recipient: &Address,
    mint: &Address,
) -> (r: Ix)
    requires
        funder.wf(),
        recipient.wf(),
        mint.wf(),
    ensures
        r.wf(),
        is_create_associated_token_account_ix(r, funder@, recipient@, mint@),
{
    let ix = spl_associated_token_account::instruction::create_associated_token_account(
        &to_pubkey(funder),
        &to_pubkey(recipient),
        &to_pubkey(mint),
        &spl_token::id(),
    );
    model_of(ix)
}

} // verus!
