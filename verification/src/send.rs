//! Native-currency and fungible-token transfer instruction building.

use vstd::prelude::*;

use crate::codec::{
    address_accepts, address_bytes_of, base58_encode, base58_of, base64_decoded, base64_encode,
    base64_of, parse_address,
};
use crate::error::{invalid_input_exactly, invalid_input_starting, ServerError};
use crate::instruction::{
    associated_token_account, associated_token_address_of, native_transfer_data,
    native_transfer_instruction, system_program_id_text, token_program_id_text,
    token_transfer_data, token_transfer_instruction, AccountReference,
};
use crate::token::{account_metas_of, TokenAccountMeta};

verus! {

/// A request to transfer native currency, in the smallest unit.
pub struct SendSolRequest {
    pub from: String,
    pub to: String,
    pub lamports: u64,
}

/// A request to transfer fungible tokens between the associated token
/// accounts of `owner` and `destination` for `mint`.
pub struct SendTokenRequest {
    pub destination: String,
    pub mint: String,
    pub owner: String,
    pub amount: u64,
}

/// The rendered token-transfer instruction, with signer/writable flags on
/// each account entry.
pub struct TransferInstructionResponse {
    pub program_id: String,
    pub accounts: Vec<TokenAccountMeta>,
    pub instruction_data: String,
}

/// The rendered native-transfer instruction; its account list carries the
/// base-58 addresses only.
pub struct SimpleTransferInstructionResponse {
    pub program_id: String,
    pub accounts: Vec<String>,
    pub instruction_data: String,
}

/// Renders an instruction's account list as its base-58 addresses, in
/// order.
fn account_strings_of(accounts: &Vec<AccountReference>) -> (r: Vec<String>)
    ensures
        r@.len() == accounts@.len(),
        forall|i: int|
            0 <= i < r@.len() ==> (#[trigger] r@[i])@ == base58_of(accounts@[i].pubkey@),
{
    let mut r: Vec<String> = Vec::new();
    let mut i: usize = 0;
    while i < accounts.len()
        invariant
            0 <= i <= accounts@.len(),
            r@.len() == i,
            forall|j: int| 0 <= j < i ==> (#[trigger] r@[j])@ == base58_of(accounts@[j].pubkey@),
        decreases accounts@.len() - i,
    {
        let a = &accounts[i];
        let s = base58_encode(&a.pubkey);
        r.push(s);
        i = i + 1;
    }
    r
}

/// Builds the native transfer instruction for parsed requests. The amount
/// being strictly positive is the caller-facing layer's precondition.
/// Fails `InvalidInput` naming the side whose address does not parse.
pub fn create_sol_transfer_instruction(req: &SendSolRequest) -> (r: Result<
    SimpleTransferInstructionResponse,
    ServerError,
>)
    requires
        req.lamports >= 1,
    ensures
        r is Ok <==> address_accepts(req.from@) && address_accepts(req.to@),
        r matches Ok(resp) ==> ({
            &&& resp.program_id@ == system_program_id_text()
            &&& resp.accounts@.len() == 2
            &&& resp.accounts@[0]@ == base58_of(address_bytes_of(req.from@))
            &&& resp.accounts@[1]@ == base58_of(address_bytes_of(req.to@))
            &&& resp.instruction_data@ == base64_of(native_transfer_data(req.lamports))
            &&& base64_decoded(resp.instruction_data@) == Some(native_transfer_data(req.lamports))
        }),
        r matches Err(e) ==> e is InvalidInput,
        !address_accepts(req.from@) ==> (r matches Err(e) && invalid_input_starting(
            e,
            "Invalid from address: "@,
        )),
        (address_accepts(req.from@) && !address_accepts(req.to@)) ==> (r matches Err(e)
            && invalid_input_starting(e, "Invalid to address: "@)),
{
    let from = match parse_address(req.from.as_str()) {
        Ok(v) => v,
        Err(e) => {
            let msg = String::from_str("Invalid from address: ").concat(e.as_str());
            proof {
                assert("Invalid from address: "@.is_prefix_of(msg@));
            }
            return Err(ServerError::InvalidInput(msg));
        },
    };
    let to = match parse_address(req.to.as_str()) {
        Ok(v) => v,
        Err(e) => {
            let msg = String::from_str("Invalid to address: ").concat(e.as_str());
            proof {
                assert("Invalid to address: "@.is_prefix_of(msg@));
            }
            return Err(ServerError::InvalidInput(msg));
        },
    };
    let ix = native_transfer_instruction(&from, &to, req.lamports);
    let program_id = base58_encode(&ix.program_id);
    let accounts = account_strings_of(&ix.accounts);
    let instruction_data = base64_encode(&ix.data);
    Ok(SimpleTransferInstructionResponse { program_id, accounts, instruction_data })
}

/// The caller-facing native transfer: rejects missing fields and a zero
/// amount before any address is parsed or any instruction is built.
pub fn send_sol(req: &SendSolRequest) -> (r: Result<
    SimpleTransferInstructionResponse,
    ServerError,
>)
    ensures
        r is Ok <==> req.from@.len() > 0 && req.to@.len() > 0 && req.lamports >= 1
            && address_accepts(req.from@) && address_accepts(req.to@),
        r matches Ok(resp) ==> ({
            &&& resp.program_id@ == system_program_id_text()
            &&& resp.accounts@.len() == 2
            &&& resp.accounts@[0]@ == base58_of(address_bytes_of(req.from@))
            &&& resp.accounts@[1]@ == base58_of(address_bytes_of(req.to@))
            &&& resp.instruction_data@ == base64_of(native_transfer_data(req.lamports))
            &&& base64_decoded(resp.instruction_data@) == Some(native_transfer_data(req.lamports))
        }),
        r matches Err(e) ==> e is InvalidInput,
        (req.from@.len() == 0 || req.to@.len() == 0 || req.lamports == 0) ==> (r matches Err(e)
            && invalid_input_exactly(e, "Missing or invalid required fields"@)),
        (req.from@.len() > 0 && req.to@.len() > 0 && req.lamports >= 1 && !address_accepts(
            req.from@,
        )) ==> (r matches Err(e) && invalid_input_starting(e, "Invalid from address: "@)),
        (req.from@.len() > 0 && req.to@.len() > 0 && req.lamports >= 1 && address_accepts(
            req.from@,
        ) && !address_accepts(req.to@)) ==> (r matches Err(e) && invalid_input_starting(
            e,
            "Invalid to address: "@,
        )),
{
    if req.from.as_str().is_empty() || req.to.as_str().is_empty() || req.lamports == 0 {
        return Err(
            ServerError::InvalidInput(String::from_str("Missing or invalid required fields")),
        );
    }
    create_sol_transfer_instruction(req)
}

/// Builds the token transfer between the associated token accounts derived
/// for (owner, mint) and (destination, mint) — the actual token-holding
/// accounts, not the owner addresses themselves — with the owner as sole
/// signer. The amount being strictly positive is the caller-facing layer's
/// precondition. Fails `InvalidInput` naming the field whose address does
/// not parse.
pub fn create_token_transfer_instruction(req: &SendTokenRequest) -> (r: Result<
    TransferInstructionResponse,
    ServerError,
>)
    requires
        req.amount >= 1,
    ensures
        r is Ok <==> address_accepts(req.owner@) && address_accepts(req.mint@) && address_accepts(
            req.destination@,
        ),
        r matches Ok(resp) ==> ({
            let owner = address_bytes_of(req.owner@);
            let mint = address_bytes_of(req.mint@);
            let destination = address_bytes_of(req.destination@);
            let source_account = associated_token_address_of(owner, mint);
            let destination_account = associated_token_address_of(destination, mint);
            &&& resp.program_id@ == token_program_id_text()
            &&& resp.accounts@.len() == 3
            &&& resp.accounts@[0].pubkey@ == base58_of(source_account)
            &&& !resp.accounts@[0].is_signer && resp.accounts@[0].is_writable
            &&& resp.accounts@[1].pubkey@ == base58_of(destination_account)
            &&& !resp.accounts@[1].is_signer && resp.accounts@[1].is_writable
            &&& resp.accounts@[2].pubkey@ == base58_of(owner)
            &&& resp.accounts@[2].is_signer && !resp.accounts@[2].is_writable
            &&& resp.instruction_data@ == base64_of(token_transfer_data(req.amount))
            &&& base64_decoded(resp.instruction_data@) == Some(token_transfer_data(req.amount))
        }),
        r matches Err(e) ==> e is InvalidInput,
        !address_accepts(req.owner@) ==> (r matches Err(e) && invalid_input_starting(
            e,
            "Invalid owner address: "@,
        )),
        (address_accepts(req.owner@) && !address_accepts(req.mint@)) ==> (r matches Err(e)
            && invalid_input_starting(e, "Invalid mint address: "@)),
        (address_accepts(req.owner@) && address_accepts(req.mint@) && !address_accepts(
            req.destination@,
        )) ==> (r matches Err(e) && invalid_input_starting(e, "Invalid destination address: "@)),
{
    let owner = match parse_address(req.owner.as_str()) {
        Ok(v) => v,
        Err(e) => {
            let msg = String::from_str("Invalid owner address: ").concat(e.as_str());
            proof {
                assert("Invalid owner address: "@.is_prefix_of(msg@));
            }
            return Err(ServerError::InvalidInput(msg));
        },
    };
    let mint = match parse_address(req.mint.as_str()) {
        Ok(v) => v,
        Err(e) => {
            let msg = String::from_str("Invalid mint address: ").concat(e.as_str());
            proof {
                assert("Invalid mint address: "@.is_prefix_of(msg@));
            }
            return Err(ServerError::InvalidInput(msg));
        },
    };
    let destination = match parse_address(req.destination.as_str()) {
        Ok(v) => v,
        Err(e) => {
            let msg = String::from_str("Invalid destination address: ").concat(e.as_str());
            proof {
                assert("Invalid destination address: "@.is_prefix_of(msg@));
            }
            return Err(ServerError::InvalidInput(msg));
        },
    };
    let source_account = associated_token_account(&owner, &mint);
    let destination_account = associated_token_account(&destination, &mint);
    let ix = match token_transfer_instruction(&source_account, &destination_account, &owner, req.amount) {
        Ok(v) => v,
        Err(e) => {
            return Err(
                ServerError::TokenError(
                    String::from_str("Failed to create token transfer instruction: ").concat(
                        e.as_str(),
                    ),
                ),
            );
        },
    };
    let program_id = base58_encode(&ix.program_id);
    let accounts = account_metas_of(&ix.accounts);
    let instruction_data = base64_encode(&ix.data);
    Ok(TransferInstructionResponse { program_id, accounts, instruction_data })
}

/// The caller-facing token transfer: rejects missing fields and a zero
/// amount before any address is parsed or any instruction is built.
pub fn send_token(req: &SendTokenRequest) -> (r: Result<
    TransferInstructionResponse,
    ServerError,
>)
    ensures
        r is Ok <==> req.destination@.len() > 0 && req.mint@.len() > 0 && req.owner@.len() > 0
            && req.amount >= 1 && address_accepts(req.owner@) && address_accepts(req.mint@)
            && address_accepts(req.destination@),
        r matches Ok(resp) ==> ({
            let owner = address_bytes_of(req.owner@);
            let mint = address_bytes_of(req.mint@);
            let destination = address_bytes_of(req.destination@);
            let source_account = associated_token_address_of(owner, mint);
            let destination_account = associated_token_address_of(destination, mint);
            &&& resp.program_id@ == token_program_id_text()
            &&& resp.accounts@.len() == 3
            &&& resp.accounts@[0].pubkey@ == base58_of(source_account)
            &&& !resp.accounts@[0].is_signer && resp.accounts@[0].is_writable
            &&& resp.accounts@[1].pubkey@ == base58_of(destination_account)
            &&& !resp.accounts@[1].is_signer && resp.accounts@[1].is_writable
            &&& resp.accounts@[2].pubkey@ == base58_of(owner)
            &&& resp.accounts@[2].is_signer && !resp.accounts@[2].is_writable
            &&& resp.instruction_data@ == base64_of(token_transfer_data(req.amount))
            &&& base64_decoded(resp.instruction_data@) == Some(token_transfer_data(req.amount))
        }),
        r matches Err(e) ==> e is InvalidInput,
        (req.destination@.len() == 0 || req.mint@.len() == 0 || req.owner@.len() == 0
            || req.amount == 0) ==> (r matches Err(e) && invalid_input_exactly(
            e,
            "Missing or invalid required fields"@,
        )),
        (req.destination@.len() > 0 && req.mint@.len() > 0 && req.owner@.len() > 0 && req.amount
            >= 1 && !address_accepts(req.owner@)) ==> (r matches Err(e) && invalid_input_starting(
            e,
            "Invalid owner address: "@,
        )),
        (req.destination@.len() > 0 && req.mint@.len() > 0 && req.owner@.len() > 0 && req.amount
            >= 1 && address_accepts(req.owner@) && !address_accepts(req.mint@)) ==> (
        r matches Err(e) && invalid_input_starting(e, "Invalid mint address: "@)),
        (req.destination@.len() > 0 && req.mint@.len() > 0 && req.owner@.len() > 0 && req.amount
            >= 1 && address_accepts(req.owner@) && address_accepts(req.mint@) && !address_accepts(
            req.destination@,
        )) ==> (r matches Err(e) && invalid_input_starting(e, "Invalid destination address: "@)),
{
    if req.destination.as_str().is_empty() || req.mint.as_str().is_empty()
        || req.owner.as_str().is_empty() || req.amount == 0 {
        return Err(
            ServerError::InvalidInput(String::from_str("Missing or invalid required fields")),
        );
    }
    create_token_transfer_instruction(req)
}

} // verus!
