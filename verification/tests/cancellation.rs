use nanites::cancellation::CancellationToken;

#[test]
fn basic_cancellation() {
    let token = CancellationToken::new();
    assert!(!token.is_cancelled());
    token.cancel();
    assert!(token.is_cancelled());
}

#[test]
fn clone_shares_state() {
    let a = CancellationToken::new();
    let b = a.clone();
    a.cancel();
    assert!(b.is_cancelled());
}

#[test]
fn reset_works() {
    let token = CancellationToken::new();
    token.cancel();
    token.reset();
    assert!(!token.is_cancelled());
}
