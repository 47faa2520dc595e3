use vstd::prelude::*;
use crate::error::GatewayError;
use crate::hex::{from_hex, hex_decoding, hex_encoding, lemma_hex_round_trip, to_hex};

verus! {

/// Bytes in a public key.
pub const PUBLIC_KEY_LENGTH: usize = 32;

/// Bytes in a secret key (the signing seed).
pub const SECRET_KEY_LENGTH: usize = 32;

/// A public signing key.
#[derive(Clone, Debug, PartialEq, Eq)]
pub struct PublicKey {
    pub bytes: Vec<u8>,
}

/// A secret signing key.
#[derive(Clone, Debug, PartialEq, Eq)]
pub struct SecretKey {
    pub bytes: Vec<u8>,
}

impl PublicKey {
    pub open spec fn wf(&self) -> bool {
        self.bytes@.len() == PUBLIC_KEY_LENGTH
    }

    /// The key held in `b`, where `b` has the length of a public key.
    pub fn from_slice(b: &[u8]) -> (r: Option<PublicKey>)
        ensures
            r is Some <==> b@.len() == PUBLIC_KEY_LENGTH,
            r matches Some(k) ==> k.bytes@ == b@ && k.wf(),
    {
        if b.len() == PUBLIC_KEY_LENGTH {
            Some(PublicKey { bytes: copy_bytes(b) })
        } else {
            None
        }
    }
}

impl SecretKey {
    pub open spec fn wf(&self) -> bool {
        self.bytes@.len() == SECRET_KEY_LENGTH
    }

    /// The key held in `b`, where `b` has the length of a secret key.
    pub fn from_slice(b: &[u8]) -> (r: Option<SecretKey>)
        ensures
            r is Some <==> b@.len() == SECRET_KEY_LENGTH,
            r matches Some(k) ==> k.bytes@ == b@ && k.wf(),
    {
        if b.len() == SECRET_KEY_LENGTH {
            Some(SecretKey { bytes: copy_bytes(b) })
        } else {
            None
        }
    }
}

/// A fresh vector holding the bytes of `b`.
pub fn copy_bytes(b: &[u8]) -> (r: Vec<u8>)
    ensures
        r@ == b@,
{
    let mut r: Vec<u8> = Vec::new();
    let mut i: usize = 0;
    while i < b.len()
        invariant
            i <= b@.len(),
            r@ == b@.take(i as int),
        decreases b@.len() - i,
    {
        r.push(b[i]);
        i = i + 1;
        assert(r@ =~= b@.take(i as int));
    }
    assert(b@.take(b@.len() as int) =~= b@);
    r
}

/// Byte-wise equality of two slices.
pub fn bytes_eq(a: &[u8], b: &[u8]) -> (r: bool)
    ensures
        r == (a@ == b@),
{
    if a.len() != b.len() {
        return false;
    }
    let mut i: usize = 0;
    while i < a.len()
        invariant
            a@.len() == b@.len(),
            i <= a@.len(),
            forall|j: int| 0 <= j < i ==> a@[j] == b@[j],
        decreases a@.len() - i,
    {
        if a[i] != b[i] {
            return false;
        }
        i = i + 1;
    }
    assert(a@ =~= b@);
    true
}

/// A client cookie: its name, its value, the path it is scoped to, and
/// whether it outlives the browser session.
#[derive(Clone, Debug)]
pub struct Cookie {
    pub name: Vec<u8>,
    pub value: Vec<u8>,
    pub path: Vec<u8>,
    pub permanent: bool,
}

/// The cookies a client sent, or will be told to keep.
#[derive(Clone, Debug)]
pub struct CookieJar {
    pub cookies: Vec<Cookie>,
}

/// `i` is the first position of a cookie named `n`.
pub open spec fn first_named(cs: Seq<Cookie>, n: Seq<u8>, i: int) -> bool {
    0 <= i < cs.len() && cs[i].name@ == n && forall|j: int| 0 <= j < i ==> #[trigger] cs[j].name@ != n
}

/// The value of the first cookie named `n`, if any.
pub open spec fn lookup(cs: Seq<Cookie>, n: Seq<u8>) -> Option<Seq<u8>> {
    if exists|i: int| first_named(cs, n, i) {
        Some(cs[choose|i: int| first_named(cs, n, i)].value@)
    } else {
        None
    }
}

/// Name of the cookie that holds the public key.
pub open spec fn public_key_slot() -> Seq<u8> {
    seq![112u8, 117, 98, 108, 105, 99, 95, 107, 101, 121]
}

/// Name of the cookie that holds the secret key.
pub open spec fn secret_key_slot() -> Seq<u8> {
    seq![115u8, 101, 99, 114, 101, 116, 95, 107, 101, 121]
}

/// The path that session cookies are scoped to: the whole application.
pub open spec fn root_path() -> Seq<u8> {
    seq![47u8]
}

pub open spec fn is_session_slot(n: Seq<u8>) -> bool {
    n == public_key_slot() || n == secret_key_slot()
}

pub open spec fn keeps(c: Cookie) -> bool {
    !is_session_slot(c.name@)
}

pub open spec fn session_cookie(c: Cookie, name: Seq<u8>, key: Seq<u8>) -> bool {
    c.name@ == name && c.value@ == hex_encoding(key) && c.path@ == root_path() && c.permanent
}

/// The jar after the session keys are stored: the other cookies in their
/// order, then the public key and the secret key, each hex-encoded.
pub open spec fn stores_session(before: Seq<Cookie>, after: Seq<Cookie>, pk: Seq<u8>, sk: Seq<u8>) -> bool {
    &&& after.len() == before.filter(|c: Cookie| keeps(c)).len() + 2
    &&& after.take(after.len() - 2) == before.filter(|c: Cookie| keeps(c))
    &&& session_cookie(after[after.len() - 2], public_key_slot(), pk)
    &&& session_cookie(after[after.len() - 1], secret_key_slot(), sk)
}

/// What loading a session from `cs` gives: both keys, where both cookies
/// are present and hold hex of the right length.
pub open spec fn loaded_session(cs: Seq<Cookie>) -> Option<(Seq<u8>, Seq<u8>)> {
    match (lookup(cs, public_key_slot()), lookup(cs, secret_key_slot())) {
        (Some(p), Some(s)) => match (hex_decoding(p), hex_decoding(s)) {
            (Some(pk), Some(sk)) => if pk.len() == PUBLIC_KEY_LENGTH && sk.len() == SECRET_KEY_LENGTH {
                Some((pk, sk))
            } else {
                None
            },
            _ => None,
        },
        _ => None,
    }
}

proof fn lemma_first_named_unique(cs: Seq<Cookie>, n: Seq<u8>, i: int, j: int)
    requires
        first_named(cs, n, i),
        first_named(cs, n, j),
    ensures
        i == j,
{
    if i < j {
        assert(cs[i].name@ != n);
    } else if j < i {
        assert(cs[j].name@ != n);
    }
}

proof fn lemma_lookup_at(cs: Seq<Cookie>, n: Seq<u8>, i: int)
    requires
        first_named(cs, n, i),
    ensures
        lookup(cs, n) == Some(cs[i].value@),
{
    let k = choose|k: int| first_named(cs, n, k);
    lemma_first_named_unique(cs, n, i, k);
}

proof fn lemma_slots_differ()
    ensures
        public_key_slot() != secret_key_slot(),
{
    assert(public_key_slot()[0] != secret_key_slot()[0]);
}

/// Keys stored in a jar load back unchanged, whatever else the jar held.
pub proof fn lemma_session_round_trip(before: Seq<Cookie>, after: Seq<Cookie>, pk: Seq<u8>, sk: Seq<u8>)
    requires
        pk.len() == PUBLIC_KEY_LENGTH,
        sk.len() == SECRET_KEY_LENGTH,
        stores_session(before, after, pk, sk),
    ensures
        loaded_session(after) == Some((pk, sk)),
{
    let kept = before.filter(|c: Cookie| keeps(c));
    let m = kept.len() as int;
    assert forall|j: int| 0 <= j < m implies keeps(#[trigger] after[j]) by {
        assert(after[j] == after.take(after.len() - 2)[j]);
        before.lemma_filter_pred(|c: Cookie| keeps(c), j);
    }
    lemma_slots_differ();
    assert forall|j: int| 0 <= j < m implies #[trigger] after[j].name@ != public_key_slot() by {
        assert(keeps(after[j]));
    }
    assert forall|j: int| 0 <= j < m + 1 implies #[trigger] after[j].name@ != secret_key_slot() by {
        if j < m {
            assert(keeps(after[j]));
        }
    }
    assert(first_named(after, public_key_slot(), m));
    assert(first_named(after, secret_key_slot(), m + 1));
    lemma_lookup_at(after, public_key_slot(), m);
    lemma_lookup_at(after, secret_key_slot(), m + 1);
    lemma_hex_round_trip(pk);
    lemma_hex_round_trip(sk);
}

fn public_key_slot_name() -> (r: Vec<u8>)
    ensures
        r@ == public_key_slot(),
{
    let r: Vec<u8> = vec![112u8, 117, 98, 108, 105, 99, 95, 107, 101, 121];
    assert(r@ =~= public_key_slot());
    r
}

fn secret_key_slot_name() -> (r: Vec<u8>)
    ensures
        r@ == secret_key_slot(),
{
    let r: Vec<u8> = vec![115u8, 101, 99, 114, 101, 116, 95, 107, 101, 121];
    assert(r@ =~= secret_key_slot());
    r
}

fn is_session_slot_name(n: &[u8]) -> (r: bool)
    ensures
        r == is_session_slot(n@),
{
    let p = public_key_slot_name();
    let s = secret_key_slot_name();
    bytes_eq(n, p.as_slice()) || bytes_eq(n, s.as_slice())
}

impl CookieJar {
    /// The value of the first cookie named `name`, if any.
    pub fn find(&self, name: &[u8]) -> (r: Option<&Cookie>)
        ensures
            r matches Some(c) ==> exists|i: int| first_named(self.cookies@, name@, i) && self.cookies@[i] == *c,
            r is None <==> lookup(self.cookies@, name@) is None,
            r matches Some(c) ==> lookup(self.cookies@, name@) == Some(c.value@),
    {
        let mut i: usize = 0;
        while i < self.cookies.len()
            invariant
                i <= self.cookies@.len(),
                forall|j: int| 0 <= j < i ==> #[trigger] self.cookies@[j].name@ != name@,
            decreases self.cookies@.len() - i,
        {
            if bytes_eq(self.cookies[i].name.as_slice(), name) {
                proof {
                    assert(first_named(self.cookies@, name@, i as int));
                    lemma_lookup_at(self.cookies@, name@, i as int);
                }
                return Some(&self.cookies[i]);
            }
            i = i + 1;
        }
        proof {
            if exists|k: int| first_named(self.cookies@, name@, k) {
                let k = choose|k: int| first_named(self.cookies@, name@, k);
                assert(self.cookies@[k].name@ != name@);
            }
        }
        None
    }
}

/// Stores the session keys in the jar as permanent cookies scoped to the
/// whole application, hex-encoded, replacing any earlier ones.
pub fn save_user(storage: &mut CookieJar, public_key: &PublicKey, secret_key: &SecretKey)
    requires
        public_key.wf(),
        secret_key.wf(),
    ensures
        stores_session(old(storage).cookies@, final(storage).cookies@, public_key.bytes@, secret_key.bytes@),
{
    let ghost before = storage.cookies@;
    let mut rest: Vec<Cookie> = Vec::new();
    std::mem::swap(&mut rest, &mut storage.cookies);
    let mut kept: Vec<Cookie> = Vec::new();
    let ghost mut i: int = 0;
    while rest.len() > 0
        invariant
            0 <= i <= before.len(),
            rest@ == before.skip(i),
            kept@ == before.take(i).filter(|c: Cookie| keeps(c)),
        decreases rest@.len(),
    {
        let c = rest.remove(0);
        proof {
            assert(before.take(i + 1).drop_last() =~= before.take(i));
            assert(before.take(i + 1).last() == before[i]);
            reveal(Seq::filter);
        }
        if !is_session_slot_name(c.name.as_slice()) {
            kept.push(c);
        }
        proof {
            i = i + 1;
            assert(rest@ =~= before.skip(i));
        }
    }
    assert(before.take(before.len() as int) =~= before);
    let ghost m = kept@.len();
    let path_p: Vec<u8> = vec![47u8];
    let path_s: Vec<u8> = vec![47u8];
    assert(path_p@ =~= root_path());
    assert(path_s@ =~= root_path());
    kept.push(Cookie {
        name: public_key_slot_name(),
        value: to_hex(public_key.bytes.as_slice()),
        path: path_p,
        permanent: true,
    });
    kept.push(Cookie {
        name: secret_key_slot_name(),
        value: to_hex(secret_key.bytes.as_slice()),
        path: path_s,
        permanent: true,
    });
    assert(kept@.take(kept@.len() - 2) =~= before.filter(|c: Cookie| keeps(c)));
    storage.cookies = kept;
}

/// The bytes that the hex text of the cookie named `key` stands for.
pub fn load_hex_value_from_cookie(storage: &CookieJar, key: &[u8]) -> (r: Result<Vec<u8>, GatewayError>)
    ensures
        r matches Ok(v) ==> lookup(storage.cookies@, key@) matches Some(t) && hex_decoding(t) == Some(v@),
        r is Err ==> r == Err::<Vec<u8>, GatewayError>(GatewayError::Authentication),
        r is Err <==> (lookup(storage.cookies@, key@) matches Some(t) ==> hex_decoding(t) is None),
{
    match storage.find(key) {
        Some(c) => match from_hex(c.value.as_slice()) {
            Some(v) => Ok(v),
            None => Err(GatewayError::Authentication),
        },
        None => Err(GatewayError::Authentication),
    }
}

/// The session keys held in the jar.
pub fn load_user(storage: &CookieJar) -> (r: Result<(PublicKey, SecretKey), GatewayError>)
    ensures
        r matches Ok((p, s)) ==> p.wf() && s.wf() && loaded_session(storage.cookies@) == Some((p.bytes@, s.bytes@)),
        r is Err ==> r == Err::<(PublicKey, SecretKey), GatewayError>(GatewayError::Authentication),
        r is Err <==> loaded_session(storage.cookies@) is None,
{
    let p = public_key_slot_name();
    let s = secret_key_slot_name();
    let pv = load_hex_value_from_cookie(storage, p.as_slice());
    let sv = load_hex_value_from_cookie(storage, s.as_slice());
    match (pv, sv) {
        (Ok(pb), Ok(sb)) => {
            let pk = PublicKey::from_slice(pb.as_slice());
            let sk = SecretKey::from_slice(sb.as_slice());
            match (pk, sk) {
                (Some(pk), Some(sk)) => Ok((pk, sk)),
                _ => Err(GatewayError::Authentication),
            }
        },
        _ => Err(GatewayError::Authentication),
    }
}

} // verus!
