use single_use_nonce::nonce::ExhaustedError;
use single_use_nonce::nonce::SingleUseNonceSource;

#[test]
fn take_returns_constructed_nonce() {
    let nonce: [u8; 12] = [1, 2, 3, 4, 5, 6, 7, 8, 9, 10, 11, 12];
    let mut source = SingleUseNonceSource::new(nonce);
    assert_eq!(source.take(), Ok(nonce));
}

#[test]
fn second_take_fails() {
    let nonce: [u8; 12] = [0xab; 12];
    let mut source = SingleUseNonceSource::new(nonce);
    assert_eq!(source.take(), Ok(nonce));
    assert_eq!(source.take(), Err(ExhaustedError));
}

#[test]
fn every_take_after_the_first_fails() {
    let nonce: [u8; 12] = [0; 12];
    let mut source = SingleUseNonceSource::new(nonce);
    assert_eq!(source.take(), Ok(nonce));
    for _ in 0..10 {
        assert_eq!(source.take(), Err(ExhaustedError));
    }
}
