use vstd::prelude::*;
use crate::crypto::{gen_keypair, public_key_of, HASH_LENGTH};
use crate::error::GatewayError;
use crate::hex::{from_hex, hex_decoding, hex_encoding, to_hex};
use crate::session::{
    lemma_session_round_trip, load_user, loaded_session, save_user, stores_session, CookieJar, PublicKey,
    SecretKey,
};
use crate::tx::{
    receipt_of, signed_with, valid_boundary, GeoPoint, ObjectTx, TxCreateObject, TxCreateOwner,
    TxRegister, TxRemoveObject, TxRestoreObject, TxTransferObject,
};

verus! {

/// A write operation with its parameters, as the client sent them.
#[derive(Clone, Debug)]
pub enum WriteRequest {
    CreateOwner { firstname: Vec<u8>, lastname: Vec<u8> },
    CreateObject { title: Vec<u8>, points: Vec<GeoPoint>, owner_id: u64 },
    TransferObject { id: u64, owner_id: u64 },
    RemoveObject { id: u64 },
    RestoreObject { id: u64 },
}

/// Whether the request's parameters pass validation.
pub open spec fn request_valid(req: WriteRequest) -> bool {
    match req {
        WriteRequest::CreateOwner { firstname, lastname } => firstname@.len() > 0 && lastname@.len() > 0,
        WriteRequest::CreateObject { title, points, .. } => title@.len() > 0 && valid_boundary(points@),
        _ => true,
    }
}

/// The transaction carries exactly what the request asked for, under `pk`
/// and stamped `ts`.
pub open spec fn built_from(tx: ObjectTx, req: WriteRequest, pk: Seq<u8>, ts: u64) -> bool {
    match (tx, req) {
        (ObjectTx::CreateOwner(t), WriteRequest::CreateOwner { firstname, lastname }) =>
            t.pub_key.bytes@ == pk && t.firstname@ == firstname@ && t.lastname@ == lastname@ && t.timestamp == ts,
        (ObjectTx::CreateObject(t), WriteRequest::CreateObject { title, points, owner_id }) =>
            t.pub_key.bytes@ == pk && t.title@ == title@ && t.points@ == points@ && t.owner_id == owner_id && t.timestamp == ts,
        (ObjectTx::TransferObject(t), WriteRequest::TransferObject { id, owner_id }) =>
            t.pub_key.bytes@ == pk && t.id == id && t.owner_id == owner_id && t.timestamp == ts,
        (ObjectTx::RemoveObject(t), WriteRequest::RemoveObject { id }) =>
            t.pub_key.bytes@ == pk && t.id == id && t.timestamp == ts,
        (ObjectTx::RestoreObject(t), WriteRequest::RestoreObject { id }) =>
            t.pub_key.bytes@ == pk && t.id == id && t.timestamp == ts,
        _ => false,
    }
}

/// Turns a write request into a signed transaction under the caller's
/// session. Parameters are checked first, so an invalid request fails with
/// `Validation` and nothing is ever submitted for it; then missing or
/// malformed session cookies fail with `Authentication`.
pub fn prepare_write(req: &WriteRequest, storage: &CookieJar, timestamp: u64) -> (r: Result<ObjectTx, GatewayError>)
    ensures
        !request_valid(*req) ==> r == Err::<ObjectTx, GatewayError>(GatewayError::Validation),
        request_valid(*req) && loaded_session(storage.cookies@) is None
            ==> r == Err::<ObjectTx, GatewayError>(GatewayError::Authentication),
        r is Ok <==> request_valid(*req) && loaded_session(storage.cookies@) is Some,
        r matches Ok(tx) ==> loaded_session(storage.cookies@) matches Some((pk, sk))
            && built_from(tx, *req, pk, timestamp) && signed_with(tx, sk),
{
    let valid = match req {
        WriteRequest::CreateOwner { firstname, lastname } => firstname.len() > 0 && lastname.len() > 0,
        WriteRequest::CreateObject { title, points, .. } => title.len() > 0 && crate::tx::check_boundary(points.as_slice()),
        _ => true,
    };
    if !valid {
        return Err(GatewayError::Validation);
    }
    let (pk, sk) = match load_user(storage) {
        Ok(keys) => keys,
        Err(e) => return Err(e),
    };
    match req {
        WriteRequest::CreateOwner { firstname, lastname } => {
            match TxCreateOwner::new(&pk, firstname.as_slice(), lastname.as_slice(), timestamp, &sk) {
                Ok(t) => Ok(ObjectTx::CreateOwner(t)),
                Err(e) => Err(e),
            }
        },
        WriteRequest::CreateObject { title, points, owner_id } => {
            match TxCreateObject::new(&pk, title.as_slice(), points.as_slice(), *owner_id, timestamp, &sk) {
                Ok(t) => Ok(ObjectTx::CreateObject(t)),
                Err(e) => Err(e),
            }
        },
        WriteRequest::TransferObject { id, owner_id } => {
            Ok(ObjectTx::TransferObject(TxTransferObject::new(&pk, *id, *owner_id, timestamp, &sk)))
        },
        WriteRequest::RemoveObject { id } => {
            Ok(ObjectTx::RemoveObject(TxRemoveObject::new(&pk, *id, timestamp, &sk)))
        },
        WriteRequest::RestoreObject { id } => {
            Ok(ObjectTx::RestoreObject(TxRestoreObject::new(&pk, *id, timestamp, &sk)))
        },
    }
}

/// Registers a client under `name` with a freshly generated key pair: the
/// keys are stored in the client's cookies and a registration signed with
/// them is built. An empty name fails with `Validation` and leaves the
/// cookies untouched.
pub fn register(name: &[u8], keys: (PublicKey, SecretKey), storage: &mut CookieJar, timestamp: u64) -> (r: Result<TxRegister, GatewayError>)
    requires
        keys.0.wf(),
        keys.1.wf(),
    ensures
        r is Err <==> name@.len() == 0,
        r is Err ==> r == Err::<TxRegister, GatewayError>(GatewayError::Validation)
            && final(storage).cookies@ == old(storage).cookies@,
        r matches Ok(t) ==> stores_session(old(storage).cookies@, final(storage).cookies@, keys.0.bytes@, keys.1.bytes@)
            && t.pub_key.bytes@ == keys.0.bytes@ && t.name@ == name@ && t.timestamp == timestamp
            && signed_with(ObjectTx::Register(t), keys.1.bytes@),
{
    if name.len() == 0 {
        return Err(GatewayError::Validation);
    }
    let (pk, sk) = keys;
    save_user(storage, &pk, &sk);
    TxRegister::new(&pk, name, timestamp, &sk)
}

/// Registers a client under `name` with a key pair drawn from secure
/// randomness. Whatever pair is drawn, the client's cookies then load back
/// as that pair, and the registration is signed with it.
pub fn register_client(name: &[u8], storage: &mut CookieJar, timestamp: u64) -> (r: Result<TxRegister, GatewayError>)
    ensures
        r is Err <==> name@.len() == 0,
        r is Err ==> r == Err::<TxRegister, GatewayError>(GatewayError::Validation)
            && final(storage).cookies@ == old(storage).cookies@,
        r matches Ok(t) ==> loaded_session(final(storage).cookies@) matches Some((pk, sk))
            && stores_session(old(storage).cookies@, final(storage).cookies@, pk, sk)
            && pk == t.pub_key.bytes@ && pk == public_key_of(sk)
            && t.name@ == name@ && t.timestamp == timestamp
            && signed_with(ObjectTx::Register(t), sk),
{
    if name.len() == 0 {
        return Err(GatewayError::Validation);
    }
    let keys = gen_keypair();
    let ghost pk = keys.0.bytes@;
    let ghost sk = keys.1.bytes@;
    let ghost before = storage.cookies@;
    let r = register(name, keys, storage, timestamp);
    proof {
        if r is Ok {
            lemma_session_round_trip(before, storage.cookies@, pk, sk);
        }
    }
    r
}

/// The receipt handed back on submission: the hex text of the transaction's
/// digest.
pub fn receipt_text(tx: &ObjectTx) -> (r: Vec<u8>)
    ensures
        r@ == hex_encoding(receipt_of(*tx)),
{
    let h = tx.hash();
    to_hex(h.as_slice())
}

/// The receipt that hex text names: `Decode` where the text is not hex of a
/// digest's length.
pub fn parse_receipt(text: &[u8]) -> (r: Result<Vec<u8>, GatewayError>)
    ensures
        r is Ok <==> (hex_decoding(text@) matches Some(h) && h.len() == HASH_LENGTH),
        r matches Ok(h) ==> hex_decoding(text@) == Some(h@),
        r is Err ==> r == Err::<Vec<u8>, GatewayError>(GatewayError::Decode),
{
    match from_hex(text) {
        Some(h) => if h.len() == HASH_LENGTH {
            Ok(h)
        } else {
            Err(GatewayError::Decode)
        },
        None => Err(GatewayError::Decode),
    }
}

/// The answer to a read: what the backend found, `NotFound` where it found
/// nothing (for a receipt: not finalized yet, or never submitted), or the
/// backend's own failure.
pub fn resolve<T>(answer: Result<Option<T>, GatewayError>) -> (r: Result<T, GatewayError>)
    ensures
        answer matches Ok(Some(v)) ==> r == Ok::<T, GatewayError>(v),
        answer matches Ok(None) ==> r == Err::<T, GatewayError>(GatewayError::NotFound),
        answer matches Err(e) ==> r == Err::<T, GatewayError>(e),
{
    match answer {
        Ok(Some(v)) => Ok(v),
        Ok(None) => Err(GatewayError::NotFound),
        Err(e) => Err(e),
    }
}

} // verus!
