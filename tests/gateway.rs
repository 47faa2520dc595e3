use land_title::crypto::{gen_keypair, public_key_for};
use land_title::encoding::{push_field, push_u64};
use land_title::error::GatewayError;
use land_title::gateway::{
    parse_receipt, prepare_write, receipt_text, register, register_client, resolve, WriteRequest,
};
use land_title::hex::{from_hex, to_hex};
use land_title::registry::Object;
use land_title::route::{parse_decimal, route, split_path, Method, Route};
use land_title::session::{load_hex_value_from_cookie, load_user, save_user, Cookie, CookieJar, PublicKey, SecretKey};
use land_title::tx::{
    check_boundary, GeoPoint, ObjectTx, TxCreateObject, TxCreateOwner, TxRegister, TxRemoveObject, TxRestoreObject,
    TxTransferObject,
};

fn pt(x: f64, y: f64) -> GeoPoint {
    GeoPoint { x: x.to_bits(), y: y.to_bits() }
}

fn keys() -> (PublicKey, SecretKey) {
    let sk = SecretKey::from_slice(&[7u8; 32]).unwrap();
    let pk = public_key_for(&sk);
    (pk, sk)
}

fn cookie(name: &str, value: &str) -> Cookie {
    Cookie { name: name.as_bytes().to_vec(), value: value.as_bytes().to_vec(), path: b"/".to_vec(), permanent: false }
}

fn plot() -> Vec<GeoPoint> {
    vec![pt(0.0, 0.0), pt(1.0, 0.0), pt(1.0, 1.0)]
}

fn session_jar() -> (CookieJar, PublicKey, SecretKey) {
    let (pk, sk) = keys();
    let mut jar = CookieJar { cookies: vec![] };
    save_user(&mut jar, &pk, &sk);
    (jar, pk, sk)
}

fn hash_of(tx: &ObjectTx) -> Vec<u8> {
    tx.hash()
}

#[test]
fn hex_encodes_lowercase() {
    assert_eq!(to_hex(&[0x00, 0xab, 0xff, 0x10]), b"00abff10".to_vec());
    assert_eq!(to_hex(&[]), Vec::<u8>::new());
}

#[test]
fn hex_decodes_either_case() {
    assert_eq!(from_hex(b"00ABff10"), Some(vec![0x00, 0xab, 0xff, 0x10]));
    assert_eq!(from_hex(b""), Some(vec![]));
}

#[test]
fn hex_rejects_odd_length_and_bad_digits() {
    assert_eq!(from_hex(b"abc"), None);
    assert_eq!(from_hex(b"zz"), None);
    assert_eq!(from_hex(b"0g"), None);
}

#[test]
fn hex_round_trip() {
    let b: Vec<u8> = (0u8..=255).collect();
    assert_eq!(from_hex(&to_hex(&b)), Some(b));
}

#[test]
fn session_round_trip_keeps_other_cookies() {
    let (pk, sk) = keys();
    let mut jar = CookieJar { cookies: vec![cookie("theme", "dark"), cookie("public_key", "00")] };
    save_user(&mut jar, &pk, &sk);
    let (p, s) = load_user(&jar).unwrap();
    assert_eq!(p, pk);
    assert_eq!(s, sk);
    assert_eq!(jar.cookies.len(), 3);
    assert_eq!(jar.cookies[0].name, b"theme".to_vec());
    assert_eq!(jar.cookies[1].name, b"public_key".to_vec());
    assert_eq!(jar.cookies[1].value, to_hex(&pk.bytes));
    assert_eq!(jar.cookies[1].path, b"/".to_vec());
    assert!(jar.cookies[1].permanent);
    assert_eq!(jar.cookies[2].name, b"secret_key".to_vec());
    assert_eq!(jar.cookies[2].value, to_hex(&sk.bytes));
}

#[test]
fn load_user_without_cookies_fails() {
    let jar = CookieJar { cookies: vec![] };
    assert_eq!(load_user(&jar).unwrap_err(), GatewayError::Authentication);
}

#[test]
fn load_user_with_bad_hex_fails() {
    let (jar, _, _) = session_jar();
    let mut bad = jar.clone();
    bad.cookies[1].value = b"xyz".to_vec();
    assert_eq!(load_user(&bad).unwrap_err(), GatewayError::Authentication);
    let mut short = jar;
    short.cookies[0].value = b"abcd".to_vec();
    assert_eq!(load_user(&short).unwrap_err(), GatewayError::Authentication);
}

#[test]
fn first_cookie_of_a_name_wins() {
    let jar = CookieJar { cookies: vec![cookie("k", "0a"), cookie("k", "0b")] };
    assert_eq!(load_hex_value_from_cookie(&jar, b"k"), Ok(vec![0x0a]));
    assert_eq!(load_hex_value_from_cookie(&jar, b"other"), Err(GatewayError::Authentication));
}

#[test]
fn key_lengths_are_checked() {
    assert!(PublicKey::from_slice(&[0u8; 31]).is_none());
    assert!(PublicKey::from_slice(&[0u8; 32]).is_some());
    assert!(SecretKey::from_slice(&[0u8; 64]).is_none());
}

#[test]
fn public_key_matches_rfc8032_vector() {
    let sk = SecretKey::from_slice(
        &from_hex(b"9d61b19deffd5a60ba844af492ec2cc44449c5697b326919703bac031cae7f60").unwrap(),
    )
    .unwrap();
    let pk = public_key_for(&sk);
    assert_eq!(to_hex(&pk.bytes), b"d75a980182b10ab7d54bfed3c964073a0ee172f3daa62325af021a68f707511a".to_vec());
}

#[test]
fn registrations_get_distinct_keypairs() {
    let (p1, s1) = gen_keypair();
    let (p2, s2) = gen_keypair();
    assert_ne!(p1, p2);
    assert_ne!(s1, s2);
    assert_eq!(public_key_for(&s1), p1);
}

#[test]
fn encoding_is_little_endian_with_length_prefix() {
    let mut out = vec![9u8];
    push_u64(&mut out, 0x0102030405060708);
    assert_eq!(out, vec![9, 8, 7, 6, 5, 4, 3, 2, 1]);
    let mut f = vec![];
    push_field(&mut f, b"ab");
    assert_eq!(f, vec![2, 0, 0, 0, 0, 0, 0, 0, b'a', b'b']);
}

#[test]
fn remove_message_layout() {
    let (pk, sk) = keys();
    let t = TxRemoveObject::new(&pk, 5, 9, &sk);
    let mut expected = vec![4u8];
    expected.extend_from_slice(&pk.bytes);
    expected.extend_from_slice(&5u64.to_le_bytes());
    expected.extend_from_slice(&9u64.to_le_bytes());
    assert_eq!(t.message(), expected);
    let tx = ObjectTx::RemoveObject(t);
    let mut all = expected.clone();
    all.extend_from_slice(tx.signature());
    assert_eq!(tx.to_bytes(), all);
}

#[test]
fn signature_is_ed25519_of_the_message() {
    let (pk, sk) = keys();
    let t = TxTransferObject::new(&pk, 1, 2, 3, &sk);
    let key = ed25519_dalek::SigningKey::from_bytes(&[7u8; 32]);
    let expected = ed25519_dalek::Signer::sign(&key, &t.message()).to_bytes().to_vec();
    assert_eq!(t.signature, expected);
    assert_eq!(t.signature.len(), 64);
}

#[test]
fn receipt_is_sha256_of_the_signed_bytes() {
    let (pk, sk) = keys();
    let tx = ObjectTx::RestoreObject(TxRestoreObject::new(&pk, 4, 0, &sk));
    let expected = <sha2::Sha256 as sha2::Digest>::digest(tx.to_bytes()).to_vec();
    assert_eq!(tx.hash(), expected);
    assert_eq!(receipt_text(&tx), to_hex(&expected));
    assert_eq!(receipt_text(&tx).len(), 64);
}

#[test]
fn create_object_receipt_is_deterministic() {
    let (pk, sk) = keys();
    let a = ObjectTx::CreateObject(TxCreateObject::new(&pk, b"Plot1", &plot(), 7, 100, &sk).unwrap());
    let b = ObjectTx::CreateObject(TxCreateObject::new(&pk, b"Plot1", &plot(), 7, 100, &sk).unwrap());
    assert_eq!(a.to_bytes(), b.to_bytes());
    assert_eq!(hash_of(&a), hash_of(&b));
    assert_eq!(hash_of(&a), hash_of(&a));
    let c = ObjectTx::CreateObject(TxCreateObject::new(&pk, b"Plot1", &plot(), 7, 101, &sk).unwrap());
    assert_ne!(hash_of(&a), hash_of(&c));
}

#[test]
fn create_object_without_points_is_rejected() {
    let (pk, sk) = keys();
    assert_eq!(TxCreateObject::new(&pk, b"Plot1", &[], 7, 0, &sk).unwrap_err(), GatewayError::Validation);
    let jar = CookieJar { cookies: vec![] };
    let req = WriteRequest::CreateObject { title: b"Plot1".to_vec(), points: vec![], owner_id: 7 };
    assert_eq!(prepare_write(&req, &jar, 0).unwrap_err(), GatewayError::Validation);
}

#[test]
fn create_object_with_non_finite_point_is_rejected() {
    let (pk, sk) = keys();
    let pts = vec![pt(0.0, 0.0), pt(f64::NAN, 1.0)];
    assert!(!check_boundary(&pts));
    assert_eq!(TxCreateObject::new(&pk, b"P", &pts, 7, 0, &sk).unwrap_err(), GatewayError::Validation);
    assert!(!check_boundary(&[pt(f64::INFINITY, 0.0)]));
    assert!(check_boundary(&[pt(-1.5e300, 2.0)]));
}

#[test]
fn empty_names_are_rejected() {
    let (pk, sk) = keys();
    assert_eq!(TxCreateObject::new(&pk, b"", &plot(), 7, 0, &sk).unwrap_err(), GatewayError::Validation);
    assert_eq!(TxCreateOwner::new(&pk, b"", b"B", 0, &sk).unwrap_err(), GatewayError::Validation);
    assert_eq!(TxCreateOwner::new(&pk, b"A", b"", 0, &sk).unwrap_err(), GatewayError::Validation);
    assert_eq!(TxRegister::new(&pk, b"", 0, &sk).unwrap_err(), GatewayError::Validation);
}

#[test]
fn write_without_session_fails_authentication() {
    let jar = CookieJar { cookies: vec![] };
    let req = WriteRequest::RemoveObject { id: 3 };
    assert_eq!(prepare_write(&req, &jar, 0).unwrap_err(), GatewayError::Authentication);
}

#[test]
fn write_is_signed_with_the_session_key() {
    let (jar, pk, _) = session_jar();
    let req = WriteRequest::TransferObject { id: 3, owner_id: 8 };
    match prepare_write(&req, &jar, 55).unwrap() {
        ObjectTx::TransferObject(t) => {
            assert_eq!(t.pub_key, pk);
            assert_eq!((t.id, t.owner_id, t.timestamp), (3, 8, 55));
        }
        other => panic!("unexpected transaction {:?}", other),
    }
}

#[test]
fn register_stores_keys_and_signs() {
    let (pk, sk) = keys();
    let mut jar = CookieJar { cookies: vec![] };
    let t = register(b"alice", (pk.clone(), sk.clone()), &mut jar, 1).unwrap();
    assert_eq!(t.pub_key, pk);
    assert_eq!(t.name, b"alice".to_vec());
    assert_eq!(load_user(&jar).unwrap(), (pk, sk));
}

#[test]
fn register_with_empty_name_leaves_cookies() {
    let (pk, sk) = keys();
    let mut jar = CookieJar { cookies: vec![] };
    assert_eq!(register(b"", (pk, sk), &mut jar, 1).unwrap_err(), GatewayError::Validation);
    assert!(jar.cookies.is_empty());
}

#[test]
fn unknown_receipt_is_not_found() {
    let answer: Result<Option<u32>, GatewayError> = Ok(None);
    assert_eq!(resolve(answer), Err(GatewayError::NotFound));
    assert_eq!(resolve(Ok(Some(5u32))), Ok(5));
    assert_eq!(resolve::<u32>(Err(GatewayError::Backend)), Err(GatewayError::Backend));
}

#[test]
fn receipt_text_must_be_hex_of_a_digest() {
    assert_eq!(parse_receipt(b"zz"), Err(GatewayError::Decode));
    assert_eq!(parse_receipt(b"abcd"), Err(GatewayError::Decode));
    let h = vec![0x11u8; 32];
    assert_eq!(parse_receipt(&to_hex(&h)), Ok(h));
}

#[test]
fn status_codes() {
    assert_eq!(GatewayError::Validation.status_code(), 400);
    assert_eq!(GatewayError::Authentication.status_code(), 500);
    assert_eq!(GatewayError::NotFound.status_code(), 404);
    assert_eq!(GatewayError::Decode.status_code(), 400);
    assert_eq!(GatewayError::Backend.status_code(), 500);
    assert_eq!(GatewayError::Unclassified.status_code(), 501);
}

fn parcel() -> Object {
    Object { id: 1, title: b"Plot1".to_vec(), boundary: plot(), owner_id: 7, deleted: false }
}

#[test]
fn transfer_changes_only_owner() {
    let (pk, sk) = keys();
    let mut o = parcel();
    o.apply(&ObjectTx::TransferObject(TxTransferObject::new(&pk, 1, 9, 0, &sk)));
    assert_eq!(o.owner_id, 9);
    assert!(!o.deleted);
    assert_eq!(o.boundary, plot());
    assert_eq!(o.title, b"Plot1".to_vec());
    o.apply(&ObjectTx::TransferObject(TxTransferObject::new(&pk, 2, 4, 0, &sk)));
    assert_eq!(o.owner_id, 9);
}

#[test]
fn remove_then_restore_parcel() {
    let (jar, _, _) = session_jar();
    let create = WriteRequest::CreateObject { title: b"Plot1".to_vec(), points: plot(), owner_id: 7 };
    assert!(matches!(prepare_write(&create, &jar, 0).unwrap(), ObjectTx::CreateObject(_)));
    let mut o = parcel();
    let remove = prepare_write(&WriteRequest::RemoveObject { id: 1 }, &jar, 1).unwrap();
    o.apply(&remove);
    assert!(o.deleted);
    let restore = prepare_write(&WriteRequest::RestoreObject { id: 1 }, &jar, 2).unwrap();
    o.apply(&restore);
    assert!(!o.deleted);
    assert_eq!(o.owner_id, 7);
}

#[test]
fn register_then_create_owner() {
    let mut jar = CookieJar { cookies: vec![] };
    let (pk, sk) = gen_keypair();
    let reg = register(b"client", (pk.clone(), sk), &mut jar, 0).unwrap();
    let tx_hash1 = receipt_text(&ObjectTx::Register(reg));
    let req = WriteRequest::CreateOwner { firstname: b"A".to_vec(), lastname: b"B".to_vec() };
    let tx = prepare_write(&req, &jar, 1).unwrap();
    let tx_hash2 = receipt_text(&tx);
    assert_eq!(tx_hash2.len(), 64);
    assert_ne!(tx_hash1, tx_hash2);
    match tx {
        ObjectTx::CreateOwner(t) => {
            assert_eq!(t.pub_key, pk);
            assert_eq!(t.firstname, b"A".to_vec());
            assert_eq!(t.lastname, b"B".to_vec());
        }
        other => panic!("unexpected transaction {:?}", other),
    }
    assert!(parse_receipt(&tx_hash2).is_ok());
}

#[test]
fn split_drops_empty_segments() {
    assert_eq!(split_path(b"/objects//7/"), vec![b"objects".to_vec(), b"7".to_vec()]);
    assert!(split_path(b"").is_empty());
    assert!(split_path(b"///").is_empty());
}

#[test]
fn decimal_ids() {
    assert_eq!(parse_decimal(b"0"), Some(0));
    assert_eq!(parse_decimal(b"42"), Some(42));
    assert_eq!(parse_decimal(b"18446744073709551615"), Some(u64::MAX));
    assert_eq!(parse_decimal(b"18446744073709551616"), None);
    assert_eq!(parse_decimal(b""), None);
    assert_eq!(parse_decimal(b"4a"), None);
    assert_eq!(parse_decimal(b"-1"), None);
}

#[test]
fn routes_of_the_gateway() {
    assert!(matches!(route(Method::Options, b"anything/at/all"), Ok(Route::Preflight)));
    assert!(matches!(route(Method::Post, b"register"), Ok(Route::Register)));
    assert!(matches!(route(Method::Get, b"owners"), Ok(Route::OwnersList)));
    assert!(matches!(route(Method::Get, b"owners/7"), Ok(Route::OwnerInfo(7))));
    assert!(matches!(route(Method::Get, b"objects"), Ok(Route::ObjectsList)));
    assert!(matches!(route(Method::Get, b"/objects/12"), Ok(Route::ObjectInfo(12))));
    assert!(matches!(route(Method::Post, b"owners"), Ok(Route::CreateOwner)));
    assert!(matches!(route(Method::Post, b"objects"), Ok(Route::CreateObject)));
    assert!(matches!(route(Method::Post, b"objects/transfer"), Ok(Route::TransferObject)));
    assert!(matches!(route(Method::Post, b"objects/restore"), Ok(Route::RestoreObject)));
    assert!(matches!(route(Method::Delete, b"objects/3"), Ok(Route::RemoveObject(3))));
    match route(Method::Get, b"result/abcd") {
        Ok(Route::TransactionResult(t)) => assert_eq!(t, b"abcd".to_vec()),
        other => panic!("unexpected route {:?}", other),
    }
}

#[test]
fn unknown_routes_are_not_found() {
    assert_eq!(route(Method::Get, b"objects/transfer").unwrap_err(), GatewayError::NotFound);
    assert_eq!(route(Method::Delete, b"owners/3").unwrap_err(), GatewayError::NotFound);
    assert_eq!(route(Method::Get, b"owners/18446744073709551616").unwrap_err(), GatewayError::NotFound);
    assert_eq!(route(Method::Get, b"").unwrap_err(), GatewayError::NotFound);
    assert_eq!(route(Method::Post, b"objects/1/2").unwrap_err(), GatewayError::NotFound);
}

#[test]
fn register_client_draws_and_stores_a_keypair() {
    let mut jar = CookieJar { cookies: vec![cookie("theme", "dark")] };
    let t = register_client(b"bob", &mut jar, 3).unwrap();
    let (pk, sk) = load_user(&jar).unwrap();
    assert_eq!(t.pub_key, pk);
    assert_eq!(public_key_for(&sk), pk);
    assert_eq!(t.name, b"bob".to_vec());
    assert_eq!(jar.cookies[0].name, b"theme".to_vec());
    let mut other = CookieJar { cookies: vec![] };
    let u = register_client(b"carol", &mut other, 3).unwrap();
    assert_ne!(u.pub_key, t.pub_key);
    let mut empty = CookieJar { cookies: vec![] };
    assert_eq!(register_client(b"", &mut empty, 3).unwrap_err(), GatewayError::Validation);
    assert!(empty.cookies.is_empty());
}
