use solana_ops::message::{
    sign_message, verify_message, SignMessageRequest, VerifyMessageRequest,
};
use solana_ops::keypair::create_new_keypair;
use solana_ops::response::{ApiResponse, ErrorResponse};

#[test]
fn request_structs_carry_the_operation_inputs() {
    let kp = create_new_keypair().unwrap();
    let req = SignMessageRequest {
        message: b"enveloped".to_vec(),
        secret: kp.secret,
    };
    let signed = sign_message(&req.message, &req.secret).unwrap();

    let verify_req = VerifyMessageRequest {
        message: req.message.clone(),
        pubkey: signed.public_key,
        signature: signed.signature,
    };
    let verdict =
        verify_message(&verify_req.message, &verify_req.pubkey, &verify_req.signature).unwrap();
    assert!(verdict.valid);
    assert_eq!(verdict.pubkey, verify_req.pubkey);
}

#[test]
fn envelopes_carry_success_and_error() {
    let ok = ApiResponse { success: true, data: "running".to_string() };
    assert!(ok.success);
    assert_eq!(ok.data, "running");

    let err = ErrorResponse { success: false, error: "Invalid input".to_string() };
    assert!(!err.success);
    assert_eq!(err.error, "Invalid input");
}
