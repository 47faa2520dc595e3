use vstd::prelude::*;
use crate::crypto::{hash, sign, sha256_of, signature_of, HASH_LENGTH};
use crate::encoding::{field, push_bytes, push_field, push_u64, u64_le};
use crate::error::GatewayError;
use crate::session::{copy_bytes, PublicKey, SecretKey};

verus! {

/// A plane coordinate, each axis held as the bits of an IEEE 754 double.
#[derive(Clone, Copy, Debug, PartialEq, Eq, Structural)]
pub struct GeoPoint {
    pub x: u64,
    pub y: u64,
}

/// The bits of a finite double: its exponent is not all ones.
pub open spec fn finite_bits(b: u64) -> bool {
    (b >> 52u64) & 0x7ffu64 != 0x7ffu64
}

pub open spec fn finite_point(p: GeoPoint) -> bool {
    finite_bits(p.x) && finite_bits(p.y)
}

/// A boundary that a parcel may have: at least one point, all finite.
pub open spec fn valid_boundary(ps: Seq<GeoPoint>) -> bool {
    ps.len() >= 1 && forall|i: int| 0 <= i < ps.len() ==> #[trigger] finite_point(ps[i])
}

/// A point count, then each point's two axes.
pub open spec fn points_bytes(ps: Seq<GeoPoint>) -> Seq<u8> {
    u64_le(ps.len() as u64) + point_list(ps)
}

pub open spec fn point_list(ps: Seq<GeoPoint>) -> Seq<u8>
    decreases ps.len(),
{
    if ps.len() == 0 {
        Seq::empty()
    } else {
        point_list(ps.drop_last()) + u64_le(ps.last().x) + u64_le(ps.last().y)
    }
}

impl GeoPoint {
    /// Whether both axes are finite.
    pub fn is_finite(&self) -> (r: bool)
        ensures
            r == finite_point(*self),
    {
        (self.x >> 52u64) & 0x7ffu64 != 0x7ffu64 && (self.y >> 52u64) & 0x7ffu64 != 0x7ffu64
    }
}

/// Whether a boundary has at least one point and all of them are finite.
pub fn check_boundary(ps: &[GeoPoint]) -> (r: bool)
    ensures
        r == valid_boundary(ps@),
{
    if ps.len() == 0 {
        return false;
    }
    let mut i: usize = 0;
    while i < ps.len()
        invariant
            i <= ps@.len(),
            forall|j: int| 0 <= j < i ==> #[trigger] finite_point(ps@[j]),
        decreases ps@.len() - i,
    {
        if !ps[i].is_finite() {
            return false;
        }
        i = i + 1;
    }
    true
}

fn push_points(out: &mut Vec<u8>, ps: &[GeoPoint])
    ensures
        final(out)@ == old(out)@ + points_bytes(ps@),
{
    let ghost start = out@;
    push_u64(out, ps.len() as u64);
    let ghost head = out@;
    let mut i: usize = 0;
    while i < ps.len()
        invariant
            i <= ps@.len(),
            head == start + u64_le(ps@.len() as u64),
            out@ == head + point_list(ps@.take(i as int)),
        decreases ps@.len() - i,
    {
        push_u64(out, ps[i].x);
        push_u64(out, ps[i].y);
        proof {
            assert(ps@.take(i + 1).drop_last() =~= ps@.take(i as int));
        }
        i = i + 1;
        assert(out@ =~= head + point_list(ps@.take(i as int)));
    }
    assert(ps@.take(ps@.len() as int) =~= ps@);
    assert(out@ =~= start + points_bytes(ps@));
}

/// Opens a client's registration.
#[derive(Clone, Debug)]
pub struct TxRegister {
    pub pub_key: PublicKey,
    pub name: Vec<u8>,
    pub timestamp: u64,
    pub signature: Vec<u8>,
}

/// Records a new owner.
#[derive(Clone, Debug)]
pub struct TxCreateOwner {
    pub pub_key: PublicKey,
    pub firstname: Vec<u8>,
    pub lastname: Vec<u8>,
    pub timestamp: u64,
    pub signature: Vec<u8>,
}

/// Records a new parcel.
#[derive(Clone, Debug)]
pub struct TxCreateObject {
    pub pub_key: PublicKey,
    pub title: Vec<u8>,
    pub points: Vec<GeoPoint>,
    pub owner_id: u64,
    pub timestamp: u64,
    pub signature: Vec<u8>,
}

/// Hands a parcel to another owner.
#[derive(Clone, Debug)]
pub struct TxTransferObject {
    pub pub_key: PublicKey,
    pub id: u64,
    pub owner_id: u64,
    pub timestamp: u64,
    pub signature: Vec<u8>,
}

/// Marks a parcel deleted.
#[derive(Clone, Debug)]
pub struct TxRemoveObject {
    pub pub_key: PublicKey,
    pub id: u64,
    pub timestamp: u64,
    pub signature: Vec<u8>,
}

/// Marks a deleted parcel active again.
#[derive(Clone, Debug)]
pub struct TxRestoreObject {
    pub pub_key: PublicKey,
    pub id: u64,
    pub timestamp: u64,
    pub signature: Vec<u8>,
}

/// Every transaction kind the registry accepts.
#[derive(Clone, Debug)]
pub enum ObjectTx {
    Register(TxRegister),
    CreateOwner(TxCreateOwner),
    CreateObject(TxCreateObject),
    TransferObject(TxTransferObject),
    RemoveObject(TxRemoveObject),
    RestoreObject(TxRestoreObject),
}

pub open spec fn register_message(pk: Seq<u8>, name: Seq<u8>, ts: u64) -> Seq<u8> {
    seq![0u8] + pk + field(name) + u64_le(ts)
}

pub open spec fn create_owner_message(pk: Seq<u8>, first: Seq<u8>, last: Seq<u8>, ts: u64) -> Seq<u8> {
    seq![1u8] + pk + field(first) + field(last) + u64_le(ts)
}

pub open spec fn create_object_message(pk: Seq<u8>, title: Seq<u8>, ps: Seq<GeoPoint>, owner: u64, ts: u64) -> Seq<u8> {
    seq![2u8] + pk + field(title) + points_bytes(ps) + u64_le(owner) + u64_le(ts)
}

pub open spec fn transfer_message(pk: Seq<u8>, id: u64, owner: u64, ts: u64) -> Seq<u8> {
    seq![3u8] + pk + u64_le(id) + u64_le(owner) + u64_le(ts)
}

pub open spec fn remove_message(pk: Seq<u8>, id: u64, ts: u64) -> Seq<u8> {
    seq![4u8] + pk + u64_le(id) + u64_le(ts)
}

pub open spec fn restore_message(pk: Seq<u8>, id: u64, ts: u64) -> Seq<u8> {
    seq![5u8] + pk + u64_le(id) + u64_le(ts)
}

/// The canonical bytes that a transaction's signature covers.
pub open spec fn message_of(tx: ObjectTx) -> Seq<u8> {
    match tx {
        ObjectTx::Register(t) => register_message(t.pub_key.bytes@, t.name@, t.timestamp),
        ObjectTx::CreateOwner(t) => create_owner_message(t.pub_key.bytes@, t.firstname@, t.lastname@, t.timestamp),
        ObjectTx::CreateObject(t) => create_object_message(t.pub_key.bytes@, t.title@, t.points@, t.owner_id, t.timestamp),
        ObjectTx::TransferObject(t) => transfer_message(t.pub_key.bytes@, t.id, t.owner_id, t.timestamp),
        ObjectTx::RemoveObject(t) => remove_message(t.pub_key.bytes@, t.id, t.timestamp),
        ObjectTx::RestoreObject(t) => restore_message(t.pub_key.bytes@, t.id, t.timestamp),
    }
}

pub open spec fn signature_field(tx: ObjectTx) -> Seq<u8> {
    match tx {
        ObjectTx::Register(t) => t.signature@,
        ObjectTx::CreateOwner(t) => t.signature@,
        ObjectTx::CreateObject(t) => t.signature@,
        ObjectTx::TransferObject(t) => t.signature@,
        ObjectTx::RemoveObject(t) => t.signature@,
        ObjectTx::RestoreObject(t) => t.signature@,
    }
}

/// The full serialized transaction: the message, then its signature.
pub open spec fn signed_bytes(tx: ObjectTx) -> Seq<u8> {
    message_of(tx) + signature_field(tx)
}

/// A transaction's receipt: the digest of its serialized form.
pub open spec fn receipt_of(tx: ObjectTx) -> Seq<u8> {
    sha256_of(signed_bytes(tx))
}

/// The transaction is signed with `sk`: its signature is that of its message.
pub open spec fn signed_with(tx: ObjectTx, sk: Seq<u8>) -> bool {
    signature_field(tx) == signature_of(message_of(tx), sk)
}

fn start_message(tag: u8, pk: &PublicKey) -> (r: Vec<u8>)
    ensures
        r@ == seq![tag] + pk.bytes@,
{
    let mut out: Vec<u8> = Vec::new();
    out.push(tag);
    push_bytes(&mut out, pk.bytes.as_slice());
    assert(out@ =~= seq![tag] + pk.bytes@);
    out
}

impl ObjectTx {
    /// The canonical bytes that the signature covers.
    pub fn message(&self) -> (r: Vec<u8>)
        ensures
            r@ == message_of(*self),
    {
        match self {
            ObjectTx::Register(t) => t.message(),
            ObjectTx::CreateOwner(t) => t.message(),
            ObjectTx::CreateObject(t) => t.message(),
            ObjectTx::TransferObject(t) => t.message(),
            ObjectTx::RemoveObject(t) => t.message(),
            ObjectTx::RestoreObject(t) => t.message(),
        }
    }

    /// The signature carried by the transaction.
    pub fn signature(&self) -> (r: &Vec<u8>)
        ensures
            r@ == signature_field(*self),
    {
        match self {
            ObjectTx::Register(t) => &t.signature,
            ObjectTx::CreateOwner(t) => &t.signature,
            ObjectTx::CreateObject(t) => &t.signature,
            ObjectTx::TransferObject(t) => &t.signature,
            ObjectTx::RemoveObject(t) => &t.signature,
            ObjectTx::RestoreObject(t) => &t.signature,
        }
    }

    /// The serialized transaction: its message followed by its signature.
    pub fn to_bytes(&self) -> (r: Vec<u8>)
        ensures
            r@ == signed_bytes(*self),
    {
        let mut out = self.message();
        push_bytes(&mut out, self.signature().as_slice());
        out
    }

    /// The receipt: the digest of the serialized transaction.
    pub fn hash(&self) -> (r: Vec<u8>)
        ensures
            r@ == receipt_of(*self),
            r@.len() == HASH_LENGTH,
    {
        let bytes = self.to_bytes();
        hash(bytes.as_slice())
    }
}

fn copy_key(k: &PublicKey) -> (r: PublicKey)
    ensures
        r.bytes@ == k.bytes@,
{
    PublicKey { bytes: copy_bytes(k.bytes.as_slice()) }
}

impl TxRegister {
    /// The canonical bytes that the signature covers.
    pub fn message(&self) -> (r: Vec<u8>)
        ensures
            r@ == register_message(self.pub_key.bytes@, self.name@, self.timestamp),
    {
        let mut out = start_message(0, &self.pub_key);
        push_field(&mut out, self.name.as_slice());
        push_u64(&mut out, self.timestamp);
        out
    }

    /// A registration under `name`, signed with `sk`; fails with
    /// `Validation` where the name is empty.
    pub fn new(pub_key: &PublicKey, name: &[u8], timestamp: u64, sk: &SecretKey) -> (r: Result<TxRegister, GatewayError>)
        requires
            sk.wf(),
        ensures
            r is Err <==> name@.len() == 0,
            r is Err ==> r == Err::<TxRegister, GatewayError>(GatewayError::Validation),
            r matches Ok(t) ==> t.pub_key.bytes@ == pub_key.bytes@ && t.name@ == name@ && t.timestamp == timestamp
                && signed_with(ObjectTx::Register(t), sk.bytes@),
    {
        if name.len() == 0 {
            return Err(GatewayError::Validation);
        }
        let mut t = TxRegister { pub_key: copy_key(pub_key), name: copy_bytes(name), timestamp, signature: Vec::new() };
        let m = t.message();
        t.signature = sign(m.as_slice(), sk);
        Ok(t)
    }
}

impl TxCreateOwner {
    /// The canonical bytes that the signature covers.
    pub fn message(&self) -> (r: Vec<u8>)
        ensures
            r@ == create_owner_message(self.pub_key.bytes@, self.firstname@, self.lastname@, self.timestamp),
    {
        let mut out = start_message(1, &self.pub_key);
        push_field(&mut out, self.firstname.as_slice());
        push_field(&mut out, self.lastname.as_slice());
        push_u64(&mut out, self.timestamp);
        out
    }

    /// A new owner, signed with `sk`; fails with `Validation` where either
    /// name is empty.
    pub fn new(pub_key: &PublicKey, firstname: &[u8], lastname: &[u8], timestamp: u64, sk: &SecretKey) -> (r: Result<TxCreateOwner, GatewayError>)
        requires
            sk.wf(),
        ensures
            r is Err <==> firstname@.len() == 0 || lastname@.len() == 0,
            r is Err ==> r == Err::<TxCreateOwner, GatewayError>(GatewayError::Validation),
            r matches Ok(t) ==> t.pub_key.bytes@ == pub_key.bytes@ && t.firstname@ == firstname@ && t.lastname@ == lastname@
                && t.timestamp == timestamp && signed_with(ObjectTx::CreateOwner(t), sk.bytes@),
    {
        if firstname.len() == 0 || lastname.len() == 0 {
            return Err(GatewayError::Validation);
        }
        let mut t = TxCreateOwner {
            pub_key: copy_key(pub_key),
            firstname: copy_bytes(firstname),
            lastname: copy_bytes(lastname),
            timestamp,
            signature: Vec::new(),
        };
        let m = t.message();
        t.signature = sign(m.as_slice(), sk);
        Ok(t)
    }
}

impl TxCreateObject {
    /// The canonical bytes that the signature covers.
    pub fn message(&self) -> (r: Vec<u8>)
        ensures
            r@ == create_object_message(self.pub_key.bytes@, self.title@, self.points@, self.owner_id, self.timestamp),
    {
        let mut out = start_message(2, &self.pub_key);
        push_field(&mut out, self.title.as_slice());
        push_points(&mut out, self.points.as_slice());
        push_u64(&mut out, self.owner_id);
        push_u64(&mut out, self.timestamp);
        out
    }

    /// A new parcel, signed with `sk`; fails with `Validation` where the
    /// title is empty, the boundary has no point, or a coordinate is not
    /// finite.
    pub fn new(pub_key: &PublicKey, title: &[u8], points: &[GeoPoint], owner_id: u64, timestamp: u64, sk: &SecretKey) -> (r: Result<TxCreateObject, GatewayError>)
        requires
            sk.wf(),
        ensures
            r is Err <==> title@.len() == 0 || !valid_boundary(points@),
            r is Err ==> r == Err::<TxCreateObject, GatewayError>(GatewayError::Validation),
            r matches Ok(t) ==> t.pub_key.bytes@ == pub_key.bytes@ && t.title@ == title@ && t.points@ == points@
                && t.owner_id == owner_id && t.timestamp == timestamp
                && signed_with(ObjectTx::CreateObject(t), sk.bytes@),
    {
        if title.len() == 0 || !check_boundary(points) {
            return Err(GatewayError::Validation);
        }
        let mut t = TxCreateObject {
            pub_key: copy_key(pub_key),
            title: copy_bytes(title),
            points: copy_points(points),
            owner_id,
            timestamp,
            signature: Vec::new(),
        };
        let m = t.message();
        t.signature = sign(m.as_slice(), sk);
        Ok(t)
    }
}

impl TxTransferObject {
    /// The canonical bytes that the signature covers.
    pub fn message(&self) -> (r: Vec<u8>)
        ensures
            r@ == transfer_message(self.pub_key.bytes@, self.id, self.owner_id, self.timestamp),
    {
        let mut out = start_message(3, &self.pub_key);
        push_u64(&mut out, self.id);
        push_u64(&mut out, self.owner_id);
        push_u64(&mut out, self.timestamp);
        out
    }

    /// A transfer of parcel `id` to owner `owner_id`, signed with `sk`.
    pub fn new(pub_key: &PublicKey, id: u64, owner_id: u64, timestamp: u64, sk: &SecretKey) -> (r: TxTransferObject)
        requires
            sk.wf(),
        ensures
            r.pub_key.bytes@ == pub_key.bytes@ && r.id == id && r.owner_id == owner_id && r.timestamp == timestamp,
            signed_with(ObjectTx::TransferObject(r), sk.bytes@),
    {
        let mut t = TxTransferObject { pub_key: copy_key(pub_key), id, owner_id, timestamp, signature: Vec::new() };
        let m = t.message();
        t.signature = sign(m.as_slice(), sk);
        t
    }
}

impl TxRemoveObject {
    /// The canonical bytes that the signature covers.
    pub fn message(&self) -> (r: Vec<u8>)
        ensures
            r@ == remove_message(self.pub_key.bytes@, self.id, self.timestamp),
    {
        let mut out = start_message(4, &self.pub_key);
        push_u64(&mut out, self.id);
        push_u64(&mut out, self.timestamp);
        out
    }

    /// A deletion mark for parcel `id`, signed with `sk`.
    pub fn new(pub_key: &PublicKey, id: u64, timestamp: u64, sk: &SecretKey) -> (r: TxRemoveObject)
        requires
            sk.wf(),
        ensures
            r.pub_key.bytes@ == pub_key.bytes@ && r.id == id && r.timestamp == timestamp,
            signed_with(ObjectTx::RemoveObject(r), sk.bytes@),
    {
        let mut t = TxRemoveObject { pub_key: copy_key(pub_key), id, timestamp, signature: Vec::new() };
        let m = t.message();
        t.signature = sign(m.as_slice(), sk);
        t
    }
}

impl TxRestoreObject {
    /// The canonical bytes that the signature covers.
    pub fn message(&self) -> (r: Vec<u8>)
        ensures
            r@ == restore_message(self.pub_key.bytes@, self.id, self.timestamp),
    {
        let mut out = start_message(5, &self.pub_key);
        push_u64(&mut out, self.id);
        push_u64(&mut out, self.timestamp);
        out
    }

    /// A restoration of parcel `id`, signed with `sk`.
    pub fn new(pub_key: &PublicKey, id: u64, timestamp: u64, sk: &SecretKey) -> (r: TxRestoreObject)
        requires
            sk.wf(),
        ensures
            r.pub_key.bytes@ == pub_key.bytes@ && r.id == id && r.timestamp == timestamp,
            signed_with(ObjectTx::RestoreObject(r), sk.bytes@),
    {
        let mut t = TxRestoreObject { pub_key: copy_key(pub_key), id, timestamp, signature: Vec::new() };
        let m = t.message();
        t.signature = sign(m.as_slice(), sk);
        t
    }
}

fn copy_points(ps: &[GeoPoint]) -> (r: Vec<GeoPoint>)
    ensures
        r@ == ps@,
{
    let mut r: Vec<GeoPoint> = Vec::new();
    let mut i: usize = 0;
    while i < ps.len()
        invariant
            i <= ps@.len(),
            r@ == ps@.take(i as int),
        decreases ps@.len() - i,
    {
        r.push(ps[i]);
        i = i + 1;
        assert(r@ =~= ps@.take(i as int));
    }
    assert(ps@.take(ps@.len() as int) =~= ps@);
    r
}

/// Serializing a signed transaction is a function of its content: two
/// parcel transactions with the same fields, both signed with one key, have
/// the same bytes, hence the same receipt.
pub proof fn lemma_receipt_deterministic(a: TxCreateObject, b: TxCreateObject, sk: Seq<u8>)
    requires
        a.pub_key.bytes@ == b.pub_key.bytes@,
        a.title@ == b.title@,
        a.points@ == b.points@,
        a.owner_id == b.owner_id,
        a.timestamp == b.timestamp,
        signed_with(ObjectTx::CreateObject(a), sk),
        signed_with(ObjectTx::CreateObject(b), sk),
    ensures
        signed_bytes(ObjectTx::CreateObject(a)) == signed_bytes(ObjectTx::CreateObject(b)),
        receipt_of(ObjectTx::CreateObject(a)) == receipt_of(ObjectTx::CreateObject(b)),
{
}

} // verus!
