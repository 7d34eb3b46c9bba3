//! Mint-initialization and mint-to instruction building.

use vstd::prelude::*;

use crate::codec::{
    address_accepts, address_bytes_of, base58_encode, base58_of, base64_decoded, base64_encode,
    base64_of, parse_address,
};
use crate::error::{invalid_input_exactly, invalid_input_starting, ServerError};
use crate::instruction::{
    initialize_mint_data, initialize_mint_instruction, mint_to_data, mint_to_instruction,
    rent_sysvar_id_text, token_program_id_text, AccountReference,
};

verus! {

/// A request to initialize a new token mint with the given decimal
/// precision.
pub struct CreateTokenRequest {
    pub mint_authority: String,
    pub mint: String,
    pub decimals: u8,
}

/// A request to mint tokens to a destination token account.
pub struct MintTokenRequest {
    pub mint: String,
    pub destination: String,
    pub authority: String,
    pub amount: u64,
}

/// One rendered entry of an instruction's account list: base-58 address
/// plus the protocol's signer/writable flags.
pub struct TokenAccountMeta {
    pub pubkey: String,
    pub is_signer: bool,
    pub is_writable: bool,
}

/// The rendered instruction: base-58 program id, ordered account list with
/// flags, base-64 payload.
pub struct CreateTokenResponse {
    pub program_id: String,
    pub accounts: Vec<TokenAccountMeta>,
    pub instruction_data: String,
}

/// A rendered account entry faithfully reflects an instruction account:
/// same flags, address in base-58.
pub open spec fn meta_matches(m: TokenAccountMeta, a: AccountReference) -> bool {
    &&& m.pubkey@ == base58_of(a.pubkey@)
    &&& m.is_signer == a.is_signer
    &&& m.is_writable == a.is_writable
}

/// Renders an instruction's account list for a response, keeping order and
/// flags — never reordering or filtering.
pub(crate) fn account_metas_of(accounts: &Vec<AccountReference>) -> (r: Vec<TokenAccountMeta>)
    ensures
        r@.len() == accounts@.len(),
        forall|i: int| 0 <= i < r@.len() ==> meta_matches(#[trigger] r@[i], accounts@[i]),
{
    let mut r: Vec<TokenAccountMeta> = Vec::new();
    let mut i: usize = 0;
    while i < accounts.len()
        invariant
            0 <= i <= accounts@.len(),
            r@.len() == i,
            forall|j: int| 0 <= j < i ==> meta_matches(#[trigger] r@[j], accounts@[j]),
        decreases accounts@.len() - i,
    {
        let a = &accounts[i];
        let pubkey = base58_encode(&a.pubkey);
        r.push(TokenAccountMeta { pubkey, is_signer: a.is_signer, is_writable: a.is_writable });
        i = i + 1;
    }
    r
}

/// Builds the mint-initialization instruction for a caller-supplied mint
/// and mint authority. No freeze authority is ever set. Fails `InvalidInput`
/// naming the field whose address does not parse.
pub fn create_token_mint_instruction(req: &CreateTokenRequest) -> (r: Result<
    CreateTokenResponse,
    ServerError,
>)
    ensures
        r is Ok <==> address_accepts(req.mint@) && address_accepts(req.mint_authority@),
        r matches Ok(resp) ==> ({
            let mint = address_bytes_of(req.mint@);
            let authority = address_bytes_of(req.mint_authority@);
            &&& resp.program_id@ == token_program_id_text()
            &&& resp.accounts@.len() == 2
            &&& resp.accounts@[0].pubkey@ == base58_of(mint)
            &&& !resp.accounts@[0].is_signer && resp.accounts@[0].is_writable
            &&& resp.accounts@[1].pubkey@ == rent_sysvar_id_text()
            &&& !resp.accounts@[1].is_signer && !resp.accounts@[1].is_writable
            &&& resp.instruction_data@ == base64_of(initialize_mint_data(req.decimals, authority))
            &&& base64_decoded(resp.instruction_data@) == Some(
                initialize_mint_data(req.decimals, authority),
            )
        }),
        r matches Err(e) ==> e is InvalidInput,
        !address_accepts(req.mint@) ==> (r matches Err(e) && invalid_input_starting(
            e,
            "Invalid mint pubkey: "@,
        )),
        (address_accepts(req.mint@) && !address_accepts(req.mint_authority@)) ==> (
        r matches Err(e) && invalid_input_starting(e, "Invalid mint authority pubkey: "@)),
{
    let mint = match parse_address(req.mint.as_str()) {
        Ok(v) => v,
        Err(e) => {
            let msg = String::from_str("Invalid mint pubkey: ").concat(e.as_str());
            proof {
                assert("Invalid mint pubkey: "@.is_prefix_of(msg@));
            }
            return Err(ServerError::InvalidInput(msg));
        },
    };
    let authority = match parse_address(req.mint_authority.as_str()) {
        Ok(v) => v,
        Err(e) => {
            let msg = String::from_str("Invalid mint authority pubkey: ").concat(e.as_str());
            proof {
                assert("Invalid mint authority pubkey: "@.is_prefix_of(msg@));
            }
            return Err(ServerError::InvalidInput(msg));
        },
    };
    let ix = match initialize_mint_instruction(&mint, &authority, req.decimals) {
        Ok(v) => v,
        Err(e) => {
            return Err(
                ServerError::TokenError(
                    String::from_str("Failed to create mint instruction: ").concat(e.as_str()),
                ),
            );
        },
    };
    let program_id = base58_encode(&ix.program_id);
    let accounts = account_metas_of(&ix.accounts);
    let instruction_data = base64_encode(&ix.data);
    Ok(CreateTokenResponse { program_id, accounts, instruction_data })
}

/// Builds the mint-to instruction, with the mint authority as sole signer.
/// The amount must be strictly positive; a zero amount is rejected before
/// any instruction is built. Fails `InvalidInput` naming the field whose
/// address does not parse.
pub fn create_mint_to_instruction(req: &MintTokenRequest) -> (r: Result<
    CreateTokenResponse,
    ServerError,
>)
    ensures
        r is Ok <==> req.amount >= 1 && address_accepts(req.mint@) && address_accepts(
            req.destination@,
        ) && address_accepts(req.authority@),
        r matches Ok(resp) ==> ({
            let mint = address_bytes_of(req.mint@);
            let destination = address_bytes_of(req.destination@);
            let authority = address_bytes_of(req.authority@);
            &&& resp.program_id@ == token_program_id_text()
            &&& resp.accounts@.len() == 3
            &&& resp.accounts@[0].pubkey@ == base58_of(mint)
            &&& !resp.accounts@[0].is_signer && resp.accounts@[0].is_writable
            &&& resp.accounts@[1].pubkey@ == base58_of(destination)
            &&& !resp.accounts@[1].is_signer && resp.accounts@[1].is_writable
            &&& resp.accounts@[2].pubkey@ == base58_of(authority)
            &&& resp.accounts@[2].is_signer && !resp.accounts@[2].is_writable
            &&& resp.instruction_data@ == base64_of(mint_to_data(req.amount))
            &&& base64_decoded(resp.instruction_data@) == Some(mint_to_data(req.amount))
        }),
        r matches Err(e) ==> e is InvalidInput,
        req.amount == 0 ==> (r matches Err(e) && invalid_input_exactly(e, "Invalid amount"@)),
        (req.amount >= 1 && !address_accepts(req.mint@)) ==> (r matches Err(e)
            && invalid_input_starting(e, "Invalid mint address: "@)),
        (req.amount >= 1 && address_accepts(req.mint@) && !address_accepts(req.destination@))
            ==> (r matches Err(e) && invalid_input_starting(e, "Invalid destination address: "@)),
        (req.amount >= 1 && address_accepts(req.mint@) && address_accepts(req.destination@)
            && !address_accepts(req.authority@)) ==> (r matches Err(e) && invalid_input_starting(
            e,
            "Invalid authority address: "@,
        )),
{
    if req.amount == 0 {
        return Err(ServerError::InvalidInput(String::from_str("Invalid amount")));
    }
    let mint = match parse_address(req.mint.as_str()) {
        Ok(v) => v,
        Err(e) => {
            let msg = String::from_str("Invalid mint address: ").concat(e.as_str());
            proof {
                assert("Invalid mint address: "@.is_prefix_of(msg@));
            }
            return Err(ServerError::InvalidInput(msg));
        },
    };
    let destination = match parse_address(req.destination.as_str()) {
        Ok(v) => v,
        Err(e) => {
            let msg = String::from_str("Invalid destination address: ").concat(e.as_str());
            proof {
                assert("Invalid destination address: "@.is_prefix_of(msg@));
            }
            return Err(ServerError::InvalidInput(msg));
        },
    };
    let authority = match parse_address(req.authority.as_str()) {
        Ok(v) => v,
        Err(e) => {
            let msg = String::from_str("Invalid authority address: ").concat(e.as_str());
            proof {
                assert("Invalid authority address: "@.is_prefix_of(msg@));
            }
            return Err(ServerError::InvalidInput(msg));
        },
    };
    let ix = match mint_to_instruction(&mint, &destination, &authority, req.amount) {
        Ok(v) => v,
        Err(e) => {
            return Err(
                ServerError::TokenError(
                    String::from_str("Failed to create mint-to instruction: ").concat(e.as_str()),
                ),
            );
        },
    };
    let program_id = base58_encode(&ix.program_id);
    let accounts = account_metas_of(&ix.accounts);
    let instruction_data = base64_encode(&ix.data);
    Ok(CreateTokenResponse { program_id, accounts, instruction_data })
}

} // verus!
