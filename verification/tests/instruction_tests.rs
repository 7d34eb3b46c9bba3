use solana_ops::codec::parse_address;
use solana_ops::error::ServerError;
use solana_ops::instruction::{associated_token_account, native_transfer_instruction};
use solana_ops::keypair::create_new_keypair;
use solana_ops::send::{
    create_sol_transfer_instruction, send_sol, send_token, SendSolRequest, SendTokenRequest,
};
use solana_ops::token::{
    create_mint_to_instruction, create_token_mint_instruction, CreateTokenRequest,
    MintTokenRequest,
};

use base64::Engine;
use std::str::FromStr;

const SYSTEM_PROGRAM_ID: &str = "11111111111111111111111111111111";
const TOKEN_PROGRAM_ID: &str = "TokenkegQfeZyiNwAJbNbGKPFXCWuBvf9Ss623VQ5DA";
const RENT_SYSVAR_ID: &str = "SysvarRent111111111111111111111111111111111";

fn fresh_address() -> String {
    create_new_keypair().unwrap().pubkey
}

fn b64(bytes: &[u8]) -> String {
    base64::engine::general_purpose::STANDARD.encode(bytes)
}

#[test]
fn parse_address_accepts_32_byte_base58() {
    let a = fresh_address();
    let bytes = parse_address(&a).unwrap();
    assert_eq!(bytes.len(), 32);
    assert_eq!(bytes, bs58::decode(&a).into_vec().unwrap());
}

#[test]
fn parse_address_rejects_bad_text() {
    assert!(parse_address("0x12").is_err()); // not base-58
    assert!(parse_address("abc").is_err()); // too short
    assert!(parse_address("").is_err()); // empty
}

#[test]
fn native_transfer_has_protocol_account_order() {
    let from = parse_address(&fresh_address()).unwrap();
    let to = parse_address(&fresh_address()).unwrap();
    let ix = native_transfer_instruction(&from, &to, 1000);
    assert_eq!(ix.program_id, vec![0u8; 32]);
    assert_eq!(ix.accounts.len(), 2);
    assert_eq!(ix.accounts[0].pubkey, from);
    assert!(ix.accounts[0].is_signer);
    assert!(ix.accounts[0].is_writable);
    assert_eq!(ix.accounts[1].pubkey, to);
    assert!(!ix.accounts[1].is_signer);
    assert!(ix.accounts[1].is_writable);
    let mut expected_data = vec![2u8, 0, 0, 0];
    expected_data.extend_from_slice(&1000u64.to_le_bytes());
    assert_eq!(ix.data, expected_data);
}

#[test]
fn send_sol_renders_the_fixed_program_and_both_accounts() {
    let from = fresh_address();
    let to = fresh_address();
    let req = SendSolRequest { from: from.clone(), to: to.clone(), lamports: 1000 };
    let resp = send_sol(&req).unwrap();
    assert_eq!(resp.program_id, SYSTEM_PROGRAM_ID);
    assert_eq!(resp.accounts, vec![from, to]);
    let mut expected_data = vec![2u8, 0, 0, 0];
    expected_data.extend_from_slice(&1000u64.to_le_bytes());
    assert_eq!(resp.instruction_data, b64(&expected_data));
}

#[test]
fn send_sol_matches_the_sdk_constructor() {
    let from = fresh_address();
    let to = fresh_address();
    let req = SendSolRequest { from: from.clone(), to: to.clone(), lamports: 77 };
    let resp = send_sol(&req).unwrap();
    let sdk_ix = solana_sdk::system_instruction::transfer(
        &solana_sdk::pubkey::Pubkey::from_str(&from).unwrap(),
        &solana_sdk::pubkey::Pubkey::from_str(&to).unwrap(),
        77,
    );
    assert_eq!(resp.program_id, sdk_ix.program_id.to_string());
    assert_eq!(resp.instruction_data, b64(&sdk_ix.data));
    let sdk_accounts: Vec<String> =
        sdk_ix.accounts.iter().map(|a| a.pubkey.to_string()).collect();
    assert_eq!(resp.accounts, sdk_accounts);
}

#[test]
fn send_sol_rejects_missing_or_zero_fields() {
    let a = fresh_address();
    let b = fresh_address();
    let zero = SendSolRequest { from: a.clone(), to: b.clone(), lamports: 0 };
    match send_sol(&zero) {
        Err(ServerError::InvalidInput(msg)) => {
            assert_eq!(msg, "Missing or invalid required fields")
        },
        _ => panic!("expected InvalidInput"),
    }
    let empty = SendSolRequest { from: String::new(), to: b.clone(), lamports: 5 };
    match send_sol(&empty) {
        Err(ServerError::InvalidInput(msg)) => {
            assert_eq!(msg, "Missing or invalid required fields")
        },
        _ => panic!("expected InvalidInput"),
    }
}

#[test]
fn send_sol_names_the_failing_side() {
    let good = fresh_address();
    let bad = SendSolRequest { from: "abc".to_string(), to: good.clone(), lamports: 5 };
    match send_sol(&bad) {
        Err(ServerError::InvalidInput(msg)) => assert!(msg.starts_with("Invalid from address")),
        _ => panic!("expected InvalidInput"),
    }
    let bad_to = SendSolRequest { from: good, to: "abc".to_string(), lamports: 5 };
    match send_sol(&bad_to) {
        Err(ServerError::InvalidInput(msg)) => assert!(msg.starts_with("Invalid to address")),
        _ => panic!("expected InvalidInput"),
    }
}

#[test]
fn associated_address_derivation_is_deterministic() {
    let owner = parse_address(&fresh_address()).unwrap();
    let mint = parse_address(&fresh_address()).unwrap();
    let first = associated_token_account(&owner, &mint);
    let second = associated_token_account(&owner, &mint);
    assert_eq!(first, second);
    assert_eq!(first.len(), 32);
}

#[test]
fn associated_address_matches_the_sdk_derivation() {
    let owner_text = fresh_address();
    let mint_text = fresh_address();
    let owner = parse_address(&owner_text).unwrap();
    let mint = parse_address(&mint_text).unwrap();
    let ours = associated_token_account(&owner, &mint);
    let sdk = spl_associated_token_account::get_associated_token_address(
        &solana_sdk::pubkey::Pubkey::from_str(&owner_text).unwrap(),
        &solana_sdk::pubkey::Pubkey::from_str(&mint_text).unwrap(),
    );
    assert_eq!(ours.as_slice(), sdk.to_bytes().as_slice());
}

#[test]
fn send_token_transfers_between_associated_accounts() {
    let owner_text = fresh_address();
    let mint_text = fresh_address();
    let destination_text = fresh_address();
    let req = SendTokenRequest {
        destination: destination_text.clone(),
        mint: mint_text.clone(),
        owner: owner_text.clone(),
        amount: 5,
    };
    let resp = send_token(&req).unwrap();
    assert_eq!(resp.program_id, TOKEN_PROGRAM_ID);
    assert_eq!(resp.accounts.len(), 3);

    let owner = parse_address(&owner_text).unwrap();
    let mint = parse_address(&mint_text).unwrap();
    let destination = parse_address(&destination_text).unwrap();
    let source_account = bs58::encode(associated_token_account(&owner, &mint)).into_string();
    let destination_account =
        bs58::encode(associated_token_account(&destination, &mint)).into_string();

    assert_eq!(resp.accounts[0].pubkey, source_account);
    assert!(!resp.accounts[0].is_signer);
    assert!(resp.accounts[0].is_writable);
    assert_eq!(resp.accounts[1].pubkey, destination_account);
    assert!(!resp.accounts[1].is_signer);
    assert!(resp.accounts[1].is_writable);
    assert_eq!(resp.accounts[2].pubkey, owner_text);
    assert!(resp.accounts[2].is_signer);
    assert!(!resp.accounts[2].is_writable);

    let mut expected_data = vec![3u8];
    expected_data.extend_from_slice(&5u64.to_le_bytes());
    assert_eq!(resp.instruction_data, b64(&expected_data));
}

#[test]
fn send_token_rejects_zero_amount_before_building() {
    let req = SendTokenRequest {
        destination: fresh_address(),
        mint: fresh_address(),
        owner: fresh_address(),
        amount: 0,
    };
    match send_token(&req) {
        Err(ServerError::InvalidInput(msg)) => {
            assert_eq!(msg, "Missing or invalid required fields")
        },
        _ => panic!("expected InvalidInput"),
    }
}

#[test]
fn send_token_names_the_failing_field() {
    let req = SendTokenRequest {
        destination: "IIII".to_string(), // 'I' is outside the base-58 alphabet
        mint: fresh_address(),
        owner: fresh_address(),
        amount: 3,
    };
    match send_token(&req) {
        Err(ServerError::InvalidInput(msg)) => {
            assert!(msg.starts_with("Invalid destination address"))
        },
        _ => panic!("expected InvalidInput"),
    }
}

#[test]
fn errors_name_the_first_failing_field_in_check_order() {
    // token transfer checks owner, then mint, then destination
    let all_bad = SendTokenRequest {
        destination: "bad".to_string(),
        mint: "bad".to_string(),
        owner: "bad".to_string(),
        amount: 3,
    };
    match send_token(&all_bad) {
        Err(ServerError::InvalidInput(msg)) => assert!(msg.starts_with("Invalid owner address")),
        _ => panic!("expected InvalidInput"),
    }
    // mint-to checks mint, then destination, then authority
    let mint_bad = MintTokenRequest {
        mint: "bad".to_string(),
        destination: "bad".to_string(),
        authority: "bad".to_string(),
        amount: 3,
    };
    match create_mint_to_instruction(&mint_bad) {
        Err(ServerError::InvalidInput(msg)) => assert!(msg.starts_with("Invalid mint address")),
        _ => panic!("expected InvalidInput"),
    }
    // native transfer checks from, then to
    let both_bad = SendSolRequest { from: "bad".to_string(), to: "bad".to_string(), lamports: 3 };
    match send_sol(&both_bad) {
        Err(ServerError::InvalidInput(msg)) => assert!(msg.starts_with("Invalid from address")),
        _ => panic!("expected InvalidInput"),
    }
}

#[test]
fn create_token_mint_has_protocol_shape() {
    let mint_text = fresh_address();
    let authority_text = fresh_address();
    let req = CreateTokenRequest {
        mint_authority: authority_text.clone(),
        mint: mint_text.clone(),
        decimals: 9,
    };
    let resp = create_token_mint_instruction(&req).unwrap();
    assert_eq!(resp.program_id, TOKEN_PROGRAM_ID);
    assert_eq!(resp.accounts.len(), 2);
    assert_eq!(resp.accounts[0].pubkey, mint_text);
    assert!(!resp.accounts[0].is_signer);
    assert!(resp.accounts[0].is_writable);
    assert_eq!(resp.accounts[1].pubkey, RENT_SYSVAR_ID);
    assert!(!resp.accounts[1].is_signer);
    assert!(!resp.accounts[1].is_writable);

    let mut expected_data = vec![0u8, 9];
    expected_data.extend_from_slice(&parse_address(&authority_text).unwrap());
    expected_data.push(0); // no freeze authority, ever
    assert_eq!(resp.instruction_data, b64(&expected_data));
}

#[test]
fn create_token_mint_matches_the_sdk_constructor() {
    let mint_text = fresh_address();
    let authority_text = fresh_address();
    let req = CreateTokenRequest {
        mint_authority: authority_text.clone(),
        mint: mint_text.clone(),
        decimals: 2,
    };
    let resp = create_token_mint_instruction(&req).unwrap();
    let sdk_ix = spl_token::instruction::initialize_mint(
        &spl_token::id(),
        &solana_sdk::pubkey::Pubkey::from_str(&mint_text).unwrap(),
        &solana_sdk::pubkey::Pubkey::from_str(&authority_text).unwrap(),
        None,
        2,
    )
    .unwrap();
    assert_eq!(resp.instruction_data, b64(&sdk_ix.data));
    assert_eq!(resp.program_id, sdk_ix.program_id.to_string());
    for (ours, sdk) in resp.accounts.iter().zip(sdk_ix.accounts.iter()) {
        assert_eq!(ours.pubkey, sdk.pubkey.to_string());
        assert_eq!(ours.is_signer, sdk.is_signer);
        assert_eq!(ours.is_writable, sdk.is_writable);
    }
}

#[test]
fn create_token_mint_rejects_bad_addresses() {
    let req = CreateTokenRequest {
        mint_authority: fresh_address(),
        mint: "notanaddress".to_string(),
        decimals: 0,
    };
    match create_token_mint_instruction(&req) {
        Err(ServerError::InvalidInput(msg)) => assert!(msg.starts_with("Invalid mint pubkey")),
        _ => panic!("expected InvalidInput"),
    }
}

#[test]
fn mint_to_has_protocol_shape() {
    let mint_text = fresh_address();
    let destination_text = fresh_address();
    let authority_text = fresh_address();
    let req = MintTokenRequest {
        mint: mint_text.clone(),
        destination: destination_text.clone(),
        authority: authority_text.clone(),
        amount: 1_000_000,
    };
    let resp = create_mint_to_instruction(&req).unwrap();
    assert_eq!(resp.program_id, TOKEN_PROGRAM_ID);
    assert_eq!(resp.accounts.len(), 3);
    assert_eq!(resp.accounts[0].pubkey, mint_text);
    assert!(!resp.accounts[0].is_signer);
    assert!(resp.accounts[0].is_writable);
    assert_eq!(resp.accounts[1].pubkey, destination_text);
    assert!(!resp.accounts[1].is_signer);
    assert!(resp.accounts[1].is_writable);
    assert_eq!(resp.accounts[2].pubkey, authority_text);
    assert!(resp.accounts[2].is_signer);
    assert!(!resp.accounts[2].is_writable);

    let mut expected_data = vec![7u8];
    expected_data.extend_from_slice(&1_000_000u64.to_le_bytes());
    assert_eq!(resp.instruction_data, b64(&expected_data));
}

#[test]
fn mint_to_matches_the_sdk_constructor() {
    let mint_text = fresh_address();
    let destination_text = fresh_address();
    let authority_text = fresh_address();
    let req = MintTokenRequest {
        mint: mint_text.clone(),
        destination: destination_text.clone(),
        authority: authority_text.clone(),
        amount: 11,
    };
    let resp = create_mint_to_instruction(&req).unwrap();
    let sdk_ix = spl_token::instruction::mint_to(
        &spl_token::id(),
        &solana_sdk::pubkey::Pubkey::from_str(&mint_text).unwrap(),
        &solana_sdk::pubkey::Pubkey::from_str(&destination_text).unwrap(),
        &solana_sdk::pubkey::Pubkey::from_str(&authority_text).unwrap(),
        &[],
        11,
    )
    .unwrap();
    assert_eq!(resp.instruction_data, b64(&sdk_ix.data));
    assert_eq!(resp.program_id, sdk_ix.program_id.to_string());
    assert_eq!(resp.accounts.len(), sdk_ix.accounts.len());
    for (ours, sdk) in resp.accounts.iter().zip(sdk_ix.accounts.iter()) {
        assert_eq!(ours.pubkey, sdk.pubkey.to_string());
        assert_eq!(ours.is_signer, sdk.is_signer);
        assert_eq!(ours.is_writable, sdk.is_writable);
    }
}

#[test]
fn mint_to_rejects_zero_amount() {
    let req = MintTokenRequest {
        mint: fresh_address(),
        destination: fresh_address(),
        authority: fresh_address(),
        amount: 0,
    };
    match create_mint_to_instruction(&req) {
        Err(ServerError::InvalidInput(msg)) => assert_eq!(msg, "Invalid amount"),
        _ => panic!("expected InvalidInput"),
    }
}

#[test]
fn mint_to_names_the_failing_field() {
    let req = MintTokenRequest {
        mint: fresh_address(),
        destination: fresh_address(),
        authority: "bad!".to_string(),
        amount: 4,
    };
    match create_mint_to_instruction(&req) {
        Err(ServerError::InvalidInput(msg)) => {
            assert!(msg.starts_with("Invalid authority address"))
        },
        _ => panic!("expected InvalidInput"),
    }
}

#[test]
fn instruction_data_round_trips_for_every_builder() {
    let a = fresh_address();
    let b = fresh_address();
    let c = fresh_address();

    let sol = create_sol_transfer_instruction(&SendSolRequest {
        from: a.clone(),
        to: b.clone(),
        lamports: 42,
    })
    .unwrap();
    let token = send_token(&SendTokenRequest {
        destination: b.clone(),
        mint: c.clone(),
        owner: a.clone(),
        amount: 42,
    })
    .unwrap();
    let mint = create_token_mint_instruction(&CreateTokenRequest {
        mint_authority: a.clone(),
        mint: b.clone(),
        decimals: 6,
    })
    .unwrap();
    let mint_to = create_mint_to_instruction(&MintTokenRequest {
        mint: b,
        destination: c,
        authority: a,
        amount: 9,
    })
    .unwrap();

    for encoded in [
        sol.instruction_data,
        token.instruction_data,
        mint.instruction_data,
        mint_to.instruction_data,
    ] {
        let decoded = base64::engine::general_purpose::STANDARD.decode(&encoded).unwrap();
        let reencoded = base64::engine::general_purpose::STANDARD.encode(&decoded);
        assert_eq!(reencoded, encoded);
    }
}
