use eth_transfer::address::validate_address;
use eth_transfer::identity::{KeyError, SigningIdentity};

const KEY: &str = "ac0974bec39a17e36ba4a6b4d238ff944bacb478cbed5efcae784d7bf4f2ff80";
const ACCOUNT: &str = "0xf39Fd6e51aad88F6F4ce6aB8827279cffFb92266";

#[test]
fn identity_derives_its_account() {
    let identity = SigningIdentity::from_hex(KEY).ok().unwrap();
    assert_eq!(identity.address(), validate_address(ACCOUNT).unwrap());
}

#[test]
fn identity_key_may_carry_the_marker() {
    let marked = format!("0x{}", KEY);
    let identity = SigningIdentity::from_hex(&marked).ok().unwrap();
    assert_eq!(identity.address(), validate_address(ACCOUNT).unwrap());
}

#[test]
fn identity_from_secret_bytes() {
    let mut secret = [0u8; 32];
    secret[31] = 1;
    let identity = SigningIdentity::from_secret(secret).unwrap();
    assert_eq!(
        identity.address(),
        validate_address("0x7E5F4552091A69125d5DfCb7b8C2659029395Bdf").unwrap()
    );
}

#[test]
fn identity_refuses_a_malformed_key() {
    let refused = vec![
        "",
        "0x",
        "xyz",
        "ac0974bec39a17e36ba4a6b4d238ff944bacb478cbed5efcae784d7bf4f2ff8",
        "ac0974bec39a17e36ba4a6b4d238ff944bacb478cbed5efcae784d7bf4f2ff800",
        "gc0974bec39a17e36ba4a6b4d238ff944bacb478cbed5efcae784d7bf4f2ff80",
    ];
    for text in refused {
        assert_eq!(SigningIdentity::from_hex(text).err(), Some(KeyError::Format), "key {}", text);
    }
}

#[test]
fn identity_refuses_what_is_no_scalar() {
    let zero = "0".repeat(64);
    assert_eq!(SigningIdentity::from_hex(&zero).err(), Some(KeyError::Scalar));
    let above_order = "f".repeat(64);
    assert_eq!(SigningIdentity::from_hex(&above_order).err(), Some(KeyError::Scalar));
    assert!(SigningIdentity::from_secret([0u8; 32]).is_none());
}
