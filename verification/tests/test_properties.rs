use redactrs::redactors::{ByteSize, Custom, Dot, Simple, Skull};
use redactrs::zeroize::{TryZeroize, Zeroize};
use redactrs::Redacted;

#[test]
fn rendering_never_contains_the_value() {
    let x: Redacted<i32, Simple> = 42.into();
    assert!(!x.render().contains("42"));

    let y: Redacted<i32, Custom<Skull, 3>> = 42.into();
    assert!(!y.render().contains("42"));

    let z: Redacted<String, ByteSize> = String::from("secret").into();
    assert!(!z.render().contains("secret"));
}

#[test]
fn rendering_is_value_blind() {
    let x: Redacted<i32, Simple> = 42.into();
    let y: Redacted<i32, Simple> = 7.into();
    assert_eq!(x.render(), y.render());

    let x: Redacted<i32, Custom<Dot, 8>> = 42.into();
    let y: Redacted<i32, Custom<Dot, 8>> = 7.into();
    assert_eq!(x.render(), y.render());
}

#[test]
fn byte_size() {
    let x: Redacted<String, ByteSize> = String::from("secret").into();
    assert_eq!(x.render(), "<6 bytes redacted>");
}

#[test]
fn byte_size_of_str() {
    let x: Redacted<&str, ByteSize> = "secret".into();
    assert_eq!(x.render(), "<6 bytes redacted>");
}

#[test]
fn byte_size_of_vec() {
    let x: Redacted<Vec<u8>, ByteSize> = vec![0u8; 1234].into();
    assert_eq!(x.render(), "<1234 bytes redacted>");
}

#[test]
fn byte_size_counts_utf8_bytes() {
    let x: Redacted<String, ByteSize> = String::from("☠").into();
    assert_eq!(x.render(), "<3 bytes redacted>");
}

#[test]
fn byte_size_of_empty() {
    let x: Redacted<String, ByteSize> = String::new().into();
    assert_eq!(x.render(), "<0 bytes redacted>");
}

#[test]
fn custom_zero_repetitions() {
    let x: Redacted<i32, Custom<Dot, 0>> = 42.into();
    assert_eq!(x.render(), "");
}

#[test]
fn equals_across_strategies() {
    let x: Redacted<i32, Simple> = 42.into();
    let y: Redacted<i32, Custom<Dot, 8>> = 42.into();
    let z: Redacted<i32, Custom<Dot, 8>> = 7.into();
    assert!(x == y);
    assert!(!(x == z));
    assert!(x > z);
}

#[test]
fn into_inner_returns_the_value() {
    let x: Redacted<String, Simple> = String::from("something").into();
    assert_eq!(x.into_inner(), "something");
}

#[test]
fn inner_mut_reaches_the_value() {
    let mut x: Redacted<i32, Simple> = 1.into();
    *x.inner_mut() = 2;
    assert_eq!(*x.inner(), 2);
    assert_eq!(x.render(), "<redacted>");
}

#[test]
fn no_redact_exposes_the_value() {
    let x: Redacted<i32, Simple> = 42.into();
    assert_eq!(*redactrs::serde::no_redact(&x), 42);
}

#[test]
fn zeroize_vec() {
    let mut x: Redacted<Vec<u8>, Simple> = vec![1u8, 2, 3].into();
    x.zeroize();
    assert_eq!(*x.inner(), vec![0u8, 0, 0]);
}

#[test]
fn try_zeroize() {
    let mut x: Redacted<i32> = 42.into();
    assert!(x.try_zeroize());
    assert_eq!(*x.inner(), 0);
}
