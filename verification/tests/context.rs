use spl_client::ClientError;
use spl_client::Signature;
use spl_client::TxCtx;

fn sig(fill: u8) -> Signature {
    Signature::new(vec![fill; 64]).unwrap()
}

#[test]
fn context_wraps_inner_value() {
    let ctx = TxCtx::new(17u64, vec![sig(1)]);
    assert_eq!(ctx.into_inner(), 17u64);
}

#[test]
fn context_keeps_signatures_in_order() {
    let ctx = TxCtx::new((), vec![sig(1), sig(2), sig(3)]);
    let sigs = ctx.signatures();
    assert_eq!(sigs.len(), 3);
    assert_eq!(sigs[0].as_bytes(), &vec![1u8; 64]);
    assert_eq!(sigs[1].as_bytes(), &vec![2u8; 64]);
    assert_eq!(sigs[2].as_bytes(), &vec![3u8; 64]);
}

#[test]
fn transaction_id_is_first_signature() {
    let ctx = TxCtx::new((), vec![sig(9), sig(4)]);
    assert!(ctx.transaction_id().eq_signature(&sig(9)));
    assert_eq!(ctx.transaction_id().as_bytes(), ctx.signatures()[0].as_bytes());
}

#[test]
fn context_with_no_signature_is_rejected() {
    let empty: Vec<Signature> = Vec::new();
    assert!(TxCtx::try_new(5u8, empty).is_none());
}

#[test]
fn context_with_signatures_is_accepted() {
    let ctx = TxCtx::try_new(5u8, vec![sig(7)]).unwrap();
    assert_eq!(ctx.signatures().len(), 1);
    assert_eq!(ctx.into_inner(), 5u8);
}

#[test]
fn client_error_carries_its_description() {
    let transport = ClientError::Client(String::from("connection refused"));
    assert_eq!(transport.message(), "connection refused");
    let program = ClientError::Program(String::from("incorrect program id"));
    assert_eq!(program.message(), "incorrect program id");
}

#[test]
fn signature_length_is_checked() {
    assert!(Signature::new(vec![0u8; 63]).is_none());
    assert!(Signature::new(vec![0u8; 64]).is_some());
    assert!(Signature::new(Vec::new()).is_none());
}
