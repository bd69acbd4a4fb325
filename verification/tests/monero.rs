use swap::bitcoin::SecretKey;
use swap::monero::{
    private_key_from_secp256k1_scalar, PrivateKey, PrivateViewKey, PublicKey, Scalar,
};

const GROUP_ORDER: [u8; 32] = [
    0xed, 0xd3, 0xf5, 0x5c, 0x1a, 0x63, 0x12, 0x58, 0xd6, 0x9c, 0xf7, 0xa2, 0xde, 0xf9, 0xde, 0x14,
    0x00, 0x00, 0x00, 0x00, 0x00, 0x00, 0x00, 0x00, 0x00, 0x00, 0x00, 0x00, 0x00, 0x00, 0x00, 0x10,
];

const BASE_POINT: [u8; 32] = [
    0x58, 0x66, 0x66, 0x66, 0x66, 0x66, 0x66, 0x66, 0x66, 0x66, 0x66, 0x66, 0x66, 0x66, 0x66, 0x66,
    0x66, 0x66, 0x66, 0x66, 0x66, 0x66, 0x66, 0x66, 0x66, 0x66, 0x66, 0x66, 0x66, 0x66, 0x66, 0x66,
];

const TWICE_BASE_POINT: [u8; 32] = [
    0xc9, 0xa3, 0xf8, 0x6a, 0xae, 0x46, 0x5f, 0x0e, 0x56, 0x51, 0x38, 0x64, 0x51, 0x0f, 0x39, 0x97,
    0x56, 0x1f, 0xa2, 0xc9, 0xe8, 0x5e, 0xa2, 0x1d, 0xc2, 0x29, 0x23, 0x09, 0xf3, 0xcd, 0x60, 0x22,
];

fn small(value: u8) -> [u8; 32] {
    let mut bytes = [0u8; 32];
    bytes[0] = value;
    bytes
}

fn key(value: u8) -> PrivateKey {
    PrivateKey::from_scalar(Scalar::from_bytes_mod_order(small(value)))
}

#[test]
fn scalar_is_reduced_modulo_the_group_order() {
    assert_eq!(Scalar::from_bytes_mod_order(small(7)).to_bytes(), small(7));
    assert_eq!(Scalar::from_bytes_mod_order(GROUP_ORDER).to_bytes(), small(0));
    let mut above = GROUP_ORDER;
    above[0] += 3;
    assert_eq!(Scalar::from_bytes_mod_order(above).to_bytes(), small(3));
}

#[test]
fn scalars_add_modulo_the_group_order() {
    let five = Scalar::from_bytes_mod_order(small(5));
    let seven = Scalar::from_bytes_mod_order(small(7));
    assert_eq!(five.add(&seven).to_bytes(), small(12));
    let mut last = GROUP_ORDER;
    last[0] -= 1;
    let last = Scalar::from_bytes_mod_order(last);
    assert_eq!(last.add(&five).to_bytes(), small(4));
    assert_eq!(key(200).add(&key(100)).scalar.to_bytes(), {
        let mut bytes = [0u8; 32];
        bytes[0] = 44;
        bytes[1] = 1;
        bytes
    });
}

#[test]
fn public_key_of_one_is_the_base_point() {
    assert_eq!(PublicKey::from_private_key(&key(1)).to_bytes(), BASE_POINT);
    assert_eq!(PublicKey::from_private_key(&key(2)).to_bytes(), TWICE_BASE_POINT);
    assert_eq!(PrivateViewKey(key(2)).public().to_bytes(), TWICE_BASE_POINT);
}

#[test]
fn public_keys_add_as_their_private_keys_do() {
    let base = PublicKey::from_bytes(BASE_POINT).unwrap();
    assert_eq!(base.add(&base).to_bytes(), TWICE_BASE_POINT);
    let three = PublicKey::from_private_key(&key(3));
    let four = PublicKey::from_private_key(&key(4));
    assert_eq!(three.add(&four).to_bytes(), PublicKey::from_private_key(&key(7)).to_bytes());
}

#[test]
fn monero_public_key_decodes_points_only() {
    assert!(PublicKey::from_bytes(BASE_POINT).is_some());
    // y = 2 is on no point of the curve
    assert!(PublicKey::from_bytes(small(2)).is_none());
}

#[test]
fn secp256k1_scalar_keeps_its_number() {
    let mut seven = [0u8; 32];
    seven[31] = 7;
    let scalar = SecretKey::from_bytes(seven).unwrap().to_scalar();
    assert_eq!(private_key_from_secp256k1_scalar(scalar).scalar.to_bytes(), small(7));

    let mut bytes = [0u8; 32];
    bytes[30] = 0x12;
    bytes[31] = 0x34;
    let scalar = SecretKey::from_bytes(bytes).unwrap().to_scalar();
    let mut expected = [0u8; 32];
    expected[0] = 0x34;
    expected[1] = 0x12;
    assert_eq!(private_key_from_secp256k1_scalar(scalar).scalar.to_bytes(), expected);
}

#[test]
fn secp256k1_scalar_above_the_group_order_is_reduced() {
    // the group order of Ed25519 plus five, most significant byte first
    let mut bytes = GROUP_ORDER;
    bytes.reverse();
    bytes[31] += 5;
    let scalar = SecretKey::from_bytes(bytes).unwrap().to_scalar();
    assert_eq!(private_key_from_secp256k1_scalar(scalar).scalar.to_bytes(), small(5));
}
