use redactrs::redactors::{Custom, Dot, Simple, Skull};
use redactrs::zeroize::Zeroize;
use redactrs::Redacted;
use serde::ser::SerializeStruct;

#[test]
fn display() {
    let x: Redacted<i32, Simple> = 42.into();
    assert_eq!(x.render(), "<redacted>");
}

#[test]
fn debug() {
    let x: Redacted<i32, Simple> = 42.into();
    assert_eq!(x.render(), "<redacted>");
}

#[test]
fn simple() {
    let x: Redacted<i32, Simple> = 42.into();
    assert_eq!(x.render(), "<redacted>");
}

#[test]
fn custom() {
    let x: Redacted<i32, Custom<Skull, 3>> = 42.into();
    assert_eq!(x.render(), "☠☠☠")
}

#[test]
fn custom_default() {
    let x: Redacted<i32, Custom<Dot, 8>> = 42.into();
    assert_eq!(x.render(), "●●●●●●●●")
}

#[test]
fn clone() {
    let simple: Redacted<i32, Simple> = 42.into();
    let _: Redacted<i32, Simple> = simple.clone();
}

#[test]
fn copy() {
    let simple: Redacted<i32, Simple> = 42.into();
    let simple_copy: Redacted<i32, Simple> = simple;

    assert_eq!(simple.render(), simple_copy.render());
}

#[test]
fn size() {
    assert_eq!(
        core::mem::size_of::<i32>(),
        core::mem::size_of::<Redacted<i32>>()
    );
}

#[test]
fn default() {
    let simple: Redacted<i32, Simple> = Default::default();
    assert_eq!(simple.render(), "<redacted>");
    assert_eq!(simple.into_inner(), 0);
}

#[test]
fn equals_with_redacted() {
    let x: Redacted<i32, Simple> = 42.into();
    let y: Redacted<i32, Simple> = 42.into();
    assert!(x == y);
}

#[test]
fn equals_with_inner() {
    let x: Redacted<i32, Simple> = 42.into();
    let y: i32 = 42;
    assert!(x == y);
}

#[test]
fn order_with_redacted() {
    let x: Redacted<i32, Simple> = 42.into();
    let y: Redacted<i32, Simple> = 24.into();
    assert!(x > y);
    assert!(x >= y);
    assert!(!(x < y));
    assert!(!(x <= y));
}

#[test]
fn order_with_inner() {
    let x: Redacted<i32, Simple> = 42.into();
    let y: i32 = 24;
    assert!(x > y);
    assert!(x >= y);
    assert!(!(x < y));
    assert!(!(x <= y));
}

struct Data {
    a: Redacted<i32>,
    b: i32,
}

impl serde::Serialize for Data {
    fn serialize<S: serde::Serializer>(&self, serializer: S) -> Result<S::Ok, S::Error> {
        let mut st = serializer.serialize_struct("Data", 2)?;
        st.serialize_field("a", &self.a.render())?;
        st.serialize_field("b", &self.b)?;
        st.end()
    }
}

#[test]
fn serialize() {
    let data = Data {
        a: 42.into(),
        b: 24,
    };

    let json = serde_json::to_string(&data).expect("Test case");

    assert_eq!(json, "{\"a\":\"<redacted>\",\"b\":24}");
}

struct DataNoRedact {
    a: Redacted<i32>,
    b: i32,
}

impl serde::Serialize for DataNoRedact {
    fn serialize<S: serde::Serializer>(&self, serializer: S) -> Result<S::Ok, S::Error> {
        let mut st = serializer.serialize_struct("DataNoRedact", 2)?;
        st.serialize_field("a", redactrs::serde::no_redact(&self.a))?;
        st.serialize_field("b", &self.b)?;
        st.end()
    }
}

#[test]
fn serialize_no_redact() {
    let data = DataNoRedact {
        a: 42.into(),
        b: 24,
    };

    let json = serde_json::to_string(&data).expect("Test case");

    assert_eq!(json, "{\"a\":42,\"b\":24}");
}

#[test]
fn deserialize() {
    let decoded: serde_json::Value =
        serde_json::from_str("{\"a\":42,\"b\":24}").expect("Test case");

    let a: Redacted<i32> = (decoded["a"].as_i64().expect("Test case") as i32).into();
    let b: i32 = decoded["b"].as_i64().expect("Test case") as i32;

    assert!(a == 42);
    assert_eq!(b, 24);
    assert_eq!(a.render(), "<redacted>");
}

#[test]
fn zeroize() {
    let mut x: Redacted<i32> = 42.into();
    x.zeroize();

    assert_eq!(*x.inner(), 0);
}
