//! The instruction model: program id, ordered account list with
//! signer/writable flags, opaque payload. The canonical constructors of the
//! ledger SDK build the instructions; their documented shapes — account
//! order, flags, payload bytes — are stated here and everything around them
//! is verified.

use vstd::prelude::*;

use crate::codec::base58_of;

verus! {

/// One entry of an instruction's account list. Order within the list is
/// protocol-defined per instruction type.
pub struct AccountReference {
    /// The 32 raw bytes of the account's address.
    pub pubkey: Vec<u8>,
    pub is_signer: bool,
    pub is_writable: bool,
}

/// An unsigned protocol instruction, immutable once built. The caller signs
/// and submits it; this library never does.
pub struct Instruction {
    /// The 32 raw bytes of the owning program's address.
    pub program_id: Vec<u8>,
    /// The ordered account list.
    pub accounts: Vec<AccountReference>,
    /// The opaque instruction payload.
    pub data: Vec<u8>,
}

impl Instruction {
    /// Every address is exactly 32 bytes and the account list is never
    /// empty.
    pub open spec fn wf(self) -> bool {
        &&& self.program_id@.len() == 32
        &&& self.accounts@.len() >= 1
        &&& forall|i: int|
            0 <= i < self.accounts@.len() ==> (#[trigger] self.accounts@[i]).pubkey@.len() == 32
    }
}

/// The eight little-endian bytes of a 64-bit amount.
pub open spec fn u64_le_bytes(v: u64) -> Seq<u8> {
    seq![
        (v & 0xff) as u8,
        ((v >> 8) & 0xff) as u8,
        ((v >> 16) & 0xff) as u8,
        ((v >> 24) & 0xff) as u8,
        ((v >> 32) & 0xff) as u8,
        ((v >> 40) & 0xff) as u8,
        ((v >> 48) & 0xff) as u8,
        ((v >> 56) & 0xff) as u8,
    ]
}

/// The native system program's address: 32 zero bytes.
pub open spec fn system_program_id_bytes() -> Seq<u8> {
    Seq::new(32, |i: int| 0u8)
}

/// The native system program's base-58 address text.
pub open spec fn system_program_id_text() -> Seq<char> {
    "11111111111111111111111111111111"@
}

/// The fungible-token program's base-58 address text.
pub open spec fn token_program_id_text() -> Seq<char> {
    "TokenkegQfeZyiNwAJbNbGKPFXCWuBvf9Ss623VQ5DA"@
}

/// The rent sysvar's base-58 address text.
pub open spec fn rent_sysvar_id_text() -> Seq<char> {
    "SysvarRent111111111111111111111111111111111"@
}

/// Payload of a native transfer: the transfer variant tag (2, as a
/// little-endian 32-bit word) followed by the little-endian amount.
pub open spec fn native_transfer_data(lamports: u64) -> Seq<u8> {
    seq![2u8, 0u8, 0u8, 0u8] + u64_le_bytes(lamports)
}

/// Payload of a token transfer: tag 3, then the little-endian amount.
pub open spec fn token_transfer_data(amount: u64) -> Seq<u8> {
    seq![3u8] + u64_le_bytes(amount)
}

/// Payload of a mint initialization: tag 0, the decimal precision, the
/// 32-byte mint authority, and a zero byte marking that no freeze authority
/// is set.
pub open spec fn initialize_mint_data(decimals: u8, authority: Seq<u8>) -> Seq<u8> {
    seq![0u8, decimals] + authority + seq![0u8]
}

/// Payload of a mint-to: tag 7, then the little-endian amount.
pub open spec fn mint_to_data(amount: u64) -> Seq<u8> {
    seq![7u8] + u64_le_bytes(amount)
}

/// The associated token account address derived from an owner and a mint
/// (the token program is fixed): a pure derivation, so the same pair always
/// yields the same address.
pub uninterp spec fn associated_token_address_of(owner: Seq<u8>, mint: Seq<u8>) -> Seq<u8>;

/// Law: the associated-address derivation is deterministic — deriving for
/// the same (owner, mint) pair twice yields an identical address.
pub proof fn lemma_associated_address_deterministic(
    owner1: Seq<u8>,
    mint1: Seq<u8>,
    owner2: Seq<u8>,
    mint2: Seq<u8>,
)
    requires
        owner1 == owner2,
        mint1 == mint2,
    ensures
        associated_token_address_of(owner1, mint1) == associated_token_address_of(owner2, mint2),
{
}

/// Relies on `solana_sdk::system_instruction::transfer`: the account list is
/// the funding address (signer, writable) then the recipient (writable,
/// not a signer), the program id is the system program (32 zero bytes,
/// rendered in base-58 as 32 ones), and the payload is the bincode encoding
/// of the transfer variant — tag 2 as a little-endian 32-bit word, then the
/// little-endian amount.
#[verifier::external_body]
fn system_transfer(from: &Vec<u8>, to: &Vec<u8>, lamports: u64) -> (r: Instruction)
    requires
        from@.len() == 32,
        to@.len() == 32,
    ensures
        r.program_id@ == system_program_id_bytes(),
        base58_of(r.program_id@) == system_program_id_text(),
        r.accounts@.len() == 2,
        r.accounts@[0].pubkey@ == from@ && r.accounts@[0].is_signer && r.accounts@[0].is_writable,
        r.accounts@[1].pubkey@ == to@ && !r.accounts@[1].is_signer && r.accounts@[1].is_writable,
        r.data@ == native_transfer_data(lamports),
{
    let f = solana_sdk::pubkey::Pubkey::try_from(from.as_slice()).unwrap();
    let t = solana_sdk::pubkey::Pubkey::try_from(to.as_slice()).unwrap();
    let ix = solana_sdk::system_instruction::transfer(&f, &t, lamports);
    Instruction {
        program_id: ix.program_id.to_bytes().to_vec(),
        accounts: ix.accounts.iter().map(|a| AccountReference {
            pubkey: a.pubkey.to_bytes().to_vec(),
            is_signer: a.is_signer,
            is_writable: a.is_writable,
        }).collect(),
        data: ix.data,
    }
}

/// Builds the native-currency transfer instruction. The account ordering
/// and flags are the native protocol's: source first (signer, writable),
/// destination second (writable only).
pub fn native_transfer_instruction(from: &Vec<u8>, to: &Vec<u8>, lamports: u64) -> (r:
    Instruction)
    requires
        from@.len() == 32,
        to@.len() == 32,
        lamports >= 1,
    ensures
        r.wf(),
        r.program_id@ == system_program_id_bytes(),
        base58_of(r.program_id@) == system_program_id_text(),
        r.accounts@.len() == 2,
        r.accounts@[0].pubkey@ == from@ && r.accounts@[0].is_signer && r.accounts@[0].is_writable,
        r.accounts@[1].pubkey@ == to@ && !r.accounts@[1].is_signer && r.accounts@[1].is_writable,
        r.data@ == native_transfer_data(lamports),
{
    system_transfer(from, to, lamports)
}

/// Relies on `spl_associated_token_account::get_associated_token_address`:
/// a deterministic derivation of the canonical token-holding account from
/// the wallet and mint addresses (the token program id is fixed inside it),
/// returning a 32-byte address.
#[verifier::external_body]
fn ata_derive(owner: &Vec<u8>, mint: &Vec<u8>) -> (r: Vec<u8>)
    requires
        owner@.len() == 32,
        mint@.len() == 32,
    ensures
        r@ == associated_token_address_of(owner@, mint@),
        r@.len() == 32,
{
    let o = solana_sdk::pubkey::Pubkey::try_from(owner.as_slice()).unwrap();
    let m = solana_sdk::pubkey::Pubkey::try_from(mint.as_slice()).unwrap();
    spl_associated_token_account::get_associated_token_address(&o, &m).to_bytes().to_vec()
}

/// The canonical token-holding account for an owner and a mint.
pub fn associated_token_account(owner: &Vec<u8>, mint: &Vec<u8>) -> (r: Vec<u8>)
    requires
        owner@.len() == 32,
        mint@.len() == 32,
    ensures
        r@ == associated_token_address_of(owner@, mint@),
        r@.len() == 32,
{
    ata_derive(owner, mint)
}

/// Relies on `spl_token::instruction::transfer`, called with the token
/// program's own id and no extra signers: the program-id check then always
/// passes, the accounts are source (writable), destination (writable) and
/// owner (read-only signer, since the signer list is empty), and the
/// payload is tag 3 then the little-endian amount.
#[verifier::external_body]
fn spl_transfer(source: &Vec<u8>, destination: &Vec<u8>, owner: &Vec<u8>, amount: u64) -> (r:
    Result<Instruction, String>)
    requires
        source@.len() == 32,
        destination@.len() == 32,
        owner@.len() == 32,
    ensures
        r is Ok,
        r matches Ok(i) ==> i.program_id@.len() == 32 && base58_of(i.program_id@)
            == token_program_id_text(),
        r matches Ok(i) ==> i.accounts@.len() == 3,
        r matches Ok(i) ==> i.accounts@[0].pubkey@ == source@ && !i.accounts@[0].is_signer
            && i.accounts@[0].is_writable,
        r matches Ok(i) ==> i.accounts@[1].pubkey@ == destination@ && !i.accounts@[1].is_signer
            && i.accounts@[1].is_writable,
        r matches Ok(i) ==> i.accounts@[2].pubkey@ == owner@ && i.accounts@[2].is_signer
            && !i.accounts@[2].is_writable,
        r matches Ok(i) ==> i.data@ == token_transfer_data(amount),
{
    let s = solana_sdk::pubkey::Pubkey::try_from(source.as_slice()).unwrap();
    let d = solana_sdk::pubkey::Pubkey::try_from(destination.as_slice()).unwrap();
    let o = solana_sdk::pubkey::Pubkey::try_from(owner.as_slice()).unwrap();
    match spl_token::instruction::transfer(&spl_token::id(), &s, &d, &o, &[], amount) {
        Ok(ix) => Ok(Instruction {
            program_id: ix.program_id.to_bytes().to_vec(),
            accounts: ix.accounts.iter().map(|a| AccountReference {
                pubkey: a.pubkey.to_bytes().to_vec(),
                is_signer: a.is_signer,
                is_writable: a.is_writable,
            }).collect(),
            data: ix.data,
        }),
        Err(e) => Err(e.to_string()),
    }
}

/// Builds the token-transfer instruction between two token accounts, with
/// the owner as sole signer. The account list and ordering are exactly what
/// the token program's constructor produces, never reordered or filtered.
pub fn token_transfer_instruction(
    source: &Vec<u8>,
    destination: &Vec<u8>,
    owner: &Vec<u8>,
    amount: u64,
) -> (r: Result<Instruction, String>)
    requires
        source@.len() == 32,
        destination@.len() == 32,
        owner@.len() == 32,
        amount >= 1,
    ensures
        r is Ok,
        r matches Ok(i) ==> i.wf(),
        r matches Ok(i) ==> base58_of(i.program_id@) == token_program_id_text(),
        r matches Ok(i) ==> i.accounts@.len() == 3,
        r matches Ok(i) ==> i.accounts@[0].pubkey@ == source@ && !i.accounts@[0].is_signer
            && i.accounts@[0].is_writable,
        r matches Ok(i) ==> i.accounts@[1].pubkey@ == destination@ && !i.accounts@[1].is_signer
            && i.accounts@[1].is_writable,
        r matches Ok(i) ==> i.accounts@[2].pubkey@ == owner@ && i.accounts@[2].is_signer
            && !i.accounts@[2].is_writable,
        r matches Ok(i) ==> i.data@ == token_transfer_data(amount),
{
    spl_transfer(source, destination, owner, amount)
}

/// Relies on `spl_token::instruction::initialize_mint`, called with the
/// token program's own id and no freeze authority: the program-id check
/// then always passes, the accounts are the mint (writable) and the rent
/// sysvar (read-only), and the payload is tag 0, the decimal precision, the
/// mint authority and a zero byte for the absent freeze authority.
#[verifier::external_body]
fn spl_initialize_mint(mint: &Vec<u8>, authority: &Vec<u8>, decimals: u8) -> (r: Result<
    Instruction,
    String,
>)
    requires
        mint@.len() == 32,
        authority@.len() == 32,
    ensures
        r is Ok,
        r matches Ok(i) ==> i.program_id@.len() == 32 && base58_of(i.program_id@)
            == token_program_id_text(),
        r matches Ok(i) ==> i.accounts@.len() == 2,
        r matches Ok(i) ==> i.accounts@[0].pubkey@ == mint@ && !i.accounts@[0].is_signer
            && i.accounts@[0].is_writable,
        r matches Ok(i) ==> i.accounts@[1].pubkey@.len() == 32 && base58_of(
            i.accounts@[1].pubkey@,
        ) == rent_sysvar_id_text() && !i.accounts@[1].is_signer && !i.accounts@[1].is_writable,
        r matches Ok(i) ==> i.data@ == initialize_mint_data(decimals, authority@),
{
    let m = solana_sdk::pubkey::Pubkey::try_from(mint.as_slice()).unwrap();
    let a = solana_sdk::pubkey::Pubkey::try_from(authority.as_slice()).unwrap();
    match spl_token::instruction::initialize_mint(&spl_token::id(), &m, &a, None, decimals) {
        Ok(ix) => Ok(Instruction {
            program_id: ix.program_id.to_bytes().to_vec(),
            accounts: ix.accounts.iter().map(|x| AccountReference {
                pubkey: x.pubkey.to_bytes().to_vec(),
                is_signer: x.is_signer,
                is_writable: x.is_writable,
            }).collect(),
            data: ix.data,
        }),
        Err(e) => Err(e.to_string()),
    }
}

/// Builds the mint-initialization instruction. No freeze authority is ever
/// set: fixed policy, not caller-configurable.
pub fn initialize_mint_instruction(mint: &Vec<u8>, authority: &Vec<u8>, decimals: u8) -> (r:
    Result<Instruction, String>)
    requires
        mint@.len() == 32,
        authority@.len() == 32,
    ensures
        r is Ok,
        r matches Ok(i) ==> i.wf(),
        r matches Ok(i) ==> base58_of(i.program_id@) == token_program_id_text(),
        r matches Ok(i) ==> i.accounts@.len() == 2,
        r matches Ok(i) ==> i.accounts@[0].pubkey@ == mint@ && !i.accounts@[0].is_signer
            && i.accounts@[0].is_writable,
        r matches Ok(i) ==> base58_of(i.accounts@[1].pubkey@) == rent_sysvar_id_text()
            && !i.accounts@[1].is_signer && !i.accounts@[1].is_writable,
        r matches Ok(i) ==> i.data@ == initialize_mint_data(decimals, authority@),
{
    spl_initialize_mint(mint, authority, decimals)
}

/// Relies on `spl_token::instruction::mint_to`, called with the token
/// program's own id and no extra signers: the program-id check then always
/// passes, the accounts are the mint (writable), the destination token
/// account (writable) and the mint authority (read-only signer), and the
/// payload is tag 7 then the little-endian amount.
#[verifier::external_body]
fn spl_mint_to(mint: &Vec<u8>, destination: &Vec<u8>, authority: &Vec<u8>, amount: u64) -> (r:
    Result<Instruction, String>)
    requires
        mint@.len() == 32,
        destination@.len() == 32,
        authority@.len() == 32,
    ensures
        r is Ok,
        r matches Ok(i) ==> i.program_id@.len() == 32 && base58_of(i.program_id@)
            == token_program_id_text(),
        r matches Ok(i) ==> i.accounts@.len() == 3,
        r matches Ok(i) ==> i.accounts@[0].pubkey@ == mint@ && !i.accounts@[0].is_signer
            && i.accounts@[0].is_writable,
        r matches Ok(i) ==> i.accounts@[1].pubkey@ == destination@ && !i.accounts@[1].is_signer
            && i.accounts@[1].is_writable,
        r matches Ok(i) ==> i.accounts@[2].pubkey@ == authority@ && i.accounts@[2].is_signer
            && !i.accounts@[2].is_writable,
        r matches Ok(i) ==> i.data@ == mint_to_data(amount),
{
    let m = solana_sdk::pubkey::Pubkey::try_from(mint.as_slice()).unwrap();
    let d = solana_sdk::pubkey::Pubkey::try_from(destination.as_slice()).unwrap();
    let a = solana_sdk::pubkey::Pubkey::try_from(authority.as_slice()).unwrap();
    match spl_token::instruction::mint_to(&spl_token::id(), &m, &d, &a, &[], amount) {
        Ok(ix) => Ok(Instruction {
            program_id: ix.program_id.to_bytes().to_vec(),
            accounts: ix.accounts.iter().map(|x| AccountReference {
                pubkey: x.pubkey.to_bytes().to_vec(),
                is_signer: x.is_signer,
                is_writable: x.is_writable,
            }).collect(),
            data: ix.data,
        }),
        Err(e) => Err(e.to_string()),
    }
}

/// Builds the mint-to instruction, with the mint authority as sole signer.
pub fn mint_to_instruction(
    mint: &Vec<u8>,
    destination: &Vec<u8>,
    authority: &Vec<u8>,
    amount: u64,
) -> (r: Result<Instruction, String>)
    requires
        mint@.len() == 32,
        destination@.len() == 32,
        authority@.len() == 32,
        amount >= 1,
    ensures
        r is Ok,
        r matches Ok(i) ==> i.wf(),
        r matches Ok(i) ==> base58_of(i.program_id@) == token_program_id_text(),
        r matches Ok(i) ==> i.accounts@.len() == 3,
        r matches Ok(i) ==> i.accounts@[0].pubkey@ == mint@ && !i.accounts@[0].is_signer
            && i.accounts@[0].is_writable,
        r matches Ok(i) ==> i.accounts@[1].pubkey@ == destination@ && !i.accounts@[1].is_signer
            && i.accounts@[1].is_writable,
        r matches Ok(i) ==> i.accounts@[2].pubkey@ == authority@ && i.accounts@[2].is_signer
            && !i.accounts@[2].is_writable,
        r matches Ok(i) ==> i.data@ == mint_to_data(amount),
{
    spl_mint_to(mint, destination, authority, amount)
}

} // verus!
