use vstd::prelude::*;
use crate::error::GatewayError;
use crate::session::{bytes_eq, copy_bytes};

verus! {

/// The HTTP methods the gateway answers.
#[derive(Clone, Copy, Debug, PartialEq, Eq, Structural)]
pub enum Method {
    Options,
    Get,
    Post,
    Delete,
}

/// What a request asks the gateway to do.
#[derive(Clone, Debug)]
pub enum Route {
    Preflight,
    Register,
    TransactionResult(Vec<u8>),
    OwnersList,
    OwnerInfo(u64),
    ObjectsList,
    ObjectInfo(u64),
    CreateOwner,
    CreateObject,
    TransferObject,
    RemoveObject(u64),
    RestoreObject,
}

/// The path segment `register`.
pub open spec fn word_register() -> Seq<u8> {
    seq![114u8, 101, 103, 105, 115, 116, 101, 114]
}

/// The path segment `result`.
pub open spec fn word_result() -> Seq<u8> {
    seq![114u8, 101, 115, 117, 108, 116]
}

/// The path segment `owners`.
pub open spec fn word_owners() -> Seq<u8> {
    seq![111u8, 119, 110, 101, 114, 115]
}

/// The path segment `objects`.
pub open spec fn word_objects() -> Seq<u8> {
    seq![111u8, 98, 106, 101, 99, 116, 115]
}

/// The path segment `transfer`.
pub open spec fn word_transfer() -> Seq<u8> {
    seq![116u8, 114, 97, 110, 115, 102, 101, 114]
}

/// The path segment `restore`.
pub open spec fn word_restore() -> Seq<u8> {
    seq![114u8, 101, 115, 116, 111, 114, 101]
}

/// Splits on every slash; empty pieces are kept.
pub open spec fn pieces(p: Seq<u8>) -> Seq<Seq<u8>>
    decreases p.len(),
{
    if p.len() == 0 {
        seq![Seq::empty()]
    } else {
        let s = pieces(p.drop_last());
        if p.last() == 47 {
            s.push(Seq::empty())
        } else {
            s.update(s.len() - 1, s.last().push(p.last()))
        }
    }
}

/// The path's segments: the text between slashes, empty ones dropped.
pub open spec fn segments(p: Seq<u8>) -> Seq<Seq<u8>> {
    pieces(p).filter(|s: Seq<u8>| s.len() > 0)
}

/// The value of a string of decimal digits.
pub open spec fn decimal_value(s: Seq<u8>) -> nat
    decreases s.len(),
{
    if s.len() == 0 {
        0
    } else {
        decimal_value(s.drop_last()) * 10 + (s.last() - 48) as nat
    }
}

pub open spec fn is_digit(c: u8) -> bool {
    48 <= c <= 57
}

/// The number a segment writes in decimal, where it is one that fits in
/// sixty-four bits.
pub open spec fn decimal(s: Seq<u8>) -> Option<u64> {
    if s.len() > 0 && (forall|i: int| 0 <= i < s.len() ==> #[trigger] is_digit(s[i])) && decimal_value(s) <= u64::MAX {
        Some(decimal_value(s) as u64)
    } else {
        None
    }
}

/// Which operation a method and a path's segments name, if any.
pub open spec fn route_of(m: Method, segs: Seq<Seq<u8>>) -> Option<Route> {
    if m == Method::Options {
        Some(Route::Preflight)
    } else if segs.len() == 1 {
        let a = segs[0];
        if m == Method::Post && a == word_register() {
            Some(Route::Register)
        } else if m == Method::Get && a == word_owners() {
            Some(Route::OwnersList)
        } else if m == Method::Get && a == word_objects() {
            Some(Route::ObjectsList)
        } else if m == Method::Post && a == word_owners() {
            Some(Route::CreateOwner)
        } else if m == Method::Post && a == word_objects() {
            Some(Route::CreateObject)
        } else {
            None
        }
    } else if segs.len() == 2 {
        let a = segs[0];
        let b = segs[1];
        if m == Method::Get && a == word_owners() && decimal(b) is Some {
            Some(Route::OwnerInfo(decimal(b).unwrap()))
        } else if m == Method::Get && a == word_objects() && decimal(b) is Some {
            Some(Route::ObjectInfo(decimal(b).unwrap()))
        } else if m == Method::Post && a == word_objects() && b == word_transfer() {
            Some(Route::TransferObject)
        } else if m == Method::Post && a == word_objects() && b == word_restore() {
            Some(Route::RestoreObject)
        } else if m == Method::Delete && a == word_objects() && decimal(b) is Some {
            Some(Route::RemoveObject(decimal(b).unwrap()))
        } else {
            None
        }
    } else {
        None
    }
}

fn is_word_register(s: &[u8]) -> (r: bool)
    ensures
        r == (s@ == word_register()),
{
    let w: Vec<u8> = vec![114u8, 101, 103, 105, 115, 116, 101, 114];
    assert(w@ =~= word_register());
    bytes_eq(s, w.as_slice())
}

fn is_word_result(s: &[u8]) -> (r: bool)
    ensures
        r == (s@ == word_result()),
{
    let w: Vec<u8> = vec![114u8, 101, 115, 117, 108, 116];
    assert(w@ =~= word_result());
    bytes_eq(s, w.as_slice())
}

fn is_word_owners(s: &[u8]) -> (r: bool)
    ensures
        r == (s@ == word_owners()),
{
    let w: Vec<u8> = vec![111u8, 119, 110, 101, 114, 115];
    assert(w@ =~= word_owners());
    bytes_eq(s, w.as_slice())
}

fn is_word_objects(s: &[u8]) -> (r: bool)
    ensures
        r == (s@ == word_objects()),
{
    let w: Vec<u8> = vec![111u8, 98, 106, 101, 99, 116, 115];
    assert(w@ =~= word_objects());
    bytes_eq(s, w.as_slice())
}

fn is_word_transfer(s: &[u8]) -> (r: bool)
    ensures
        r == (s@ == word_transfer()),
{
    let w: Vec<u8> = vec![116u8, 114, 97, 110, 115, 102, 101, 114];
    assert(w@ =~= word_transfer());
    bytes_eq(s, w.as_slice())
}

fn is_word_restore(s: &[u8]) -> (r: bool)
    ensures
        r == (s@ == word_restore()),
{
    let w: Vec<u8> = vec![114u8, 101, 115, 116, 111, 114, 101];
    assert(w@ =~= word_restore());
    bytes_eq(s, w.as_slice())
}

/// A request for a transaction's result: `GET result/<receipt>`.
pub open spec fn is_result_path(m: Method, segs: Seq<Seq<u8>>) -> bool {
    m == Method::Get && segs.len() == 2 && segs[0] == word_result()
}

pub open spec fn views(v: Seq<Vec<u8>>) -> Seq<Seq<u8>> {
    v.map_values(|x: Vec<u8>| x@)
}

fn pieces_of(p: &[u8]) -> (r: Vec<Vec<u8>>)
    ensures
        views(r@) == pieces(p@),
{
    let mut done: Vec<Vec<u8>> = Vec::new();
    let mut cur: Vec<u8> = Vec::new();
    let mut i: usize = 0;
    assert(views(done@).push(cur@) =~= pieces(p@.take(0)));
    while i < p.len()
        invariant
            i <= p@.len(),
            views(done@).push(cur@) == pieces(p@.take(i as int)),
        decreases p@.len() - i,
    {
        let ghost before = views(done@).push(cur@);
        proof {
            assert(p@.take(i + 1).drop_last() =~= p@.take(i as int));
            assert(p@.take(i + 1).last() == p@[i as int]);
        }
        let c = p[i];
        if c == 47 {
            let mut fresh: Vec<u8> = Vec::new();
            std::mem::swap(&mut fresh, &mut cur);
            done.push(fresh);
            assert(views(done@).push(cur@) =~= before.push(Seq::empty()));
        } else {
            cur.push(c);
            assert(views(done@).push(cur@) =~= before.update(before.len() - 1, before.last().push(c)));
        }
        i = i + 1;
    }
    assert(p@.take(p@.len() as int) =~= p@);
    done.push(cur);
    assert(views(done@) =~= pieces(p@));
    done
}

/// The segments of a path: the text between slashes, empty ones dropped.
pub fn split_path(p: &[u8]) -> (r: Vec<Vec<u8>>)
    ensures
        views(r@) == segments(p@),
{
    let mut rest = pieces_of(p);
    let ghost all = views(rest@);
    let mut kept: Vec<Vec<u8>> = Vec::new();
    let ghost mut i: int = 0;
    assert(views(kept@) =~= all.take(0).filter(|s: Seq<u8>| s.len() > 0)) by {
        reveal(Seq::filter);
    }
    assert(views(rest@) =~= all.skip(0));
    while rest.len() > 0
        invariant
            0 <= i <= all.len(),
            views(rest@) == all.skip(i),
            views(kept@) == all.take(i).filter(|s: Seq<u8>| s.len() > 0),
        decreases rest@.len(),
    {
        let ghost before = views(kept@);
        proof {
            assert(views(rest@).len() == rest@.len());
            assert(i < all.len());
            assert(rest@[0]@ == views(rest@)[0]);
        }
        let ghost old_rest = rest@;
        let s = rest.remove(0);
        proof {
            assert(all.skip(i)[0] == all[i]);
            assert(all.take(i + 1).drop_last() =~= all.take(i));
            assert(all.take(i + 1).last() == all[i]);
            reveal(Seq::filter);
        }
        if s.len() > 0 {
            kept.push(s);
            assert(views(kept@) =~= before.push(all[i]));
        } else {
            assert(views(kept@) =~= before);
        }
        proof {
            i = i + 1;
            assert forall|k: int| 0 <= k < views(rest@).len() implies #[trigger] views(rest@)[k] == all.skip(i)[k] by {
                assert(rest@[k] == old_rest[k + 1]);
                assert(views(old_rest)[k + 1] == old_rest[k + 1]@);
            }
            assert(views(rest@) =~= all.skip(i));
        }
    }
    assert(all.take(all.len() as int) =~= all);
    kept
}

proof fn lemma_decimal_prefix(s: Seq<u8>, k: int)
    requires
        0 <= k <= s.len(),
    ensures
        decimal_value(s.take(k)) <= decimal_value(s),
    decreases s.len(),
{
    if k < s.len() {
        lemma_decimal_prefix(s.drop_last(), k);
        assert(s.drop_last().take(k) =~= s.take(k));
        let d = decimal_value(s.drop_last());
        assert(d * 10 + (s.last() - 48) as nat >= d) by (nonlinear_arith);
    } else {
        assert(s.take(k) =~= s);
    }
}

/// The number a segment writes in decimal, where it fits in sixty-four bits.
pub fn parse_decimal(s: &[u8]) -> (r: Option<u64>)
    ensures
        r == decimal(s@),
{
    if s.len() == 0 {
        return None;
    }
    let mut acc: u64 = 0;
    let mut i: usize = 0;
    assert(s@.take(0) =~= Seq::<u8>::empty());
    while i < s.len()
        invariant
            i <= s@.len(),
            s@.len() > 0,
            forall|j: int| 0 <= j < i ==> #[trigger] is_digit(s@[j]),
            acc as nat == decimal_value(s@.take(i as int)),
        decreases s@.len() - i,
    {
        let c = s[i];
        if c < 48 || c > 57 {
            assert(!is_digit(s@[i as int]));
            return None;
        }
        let d: u64 = (c - 48) as u64;
        proof {
            assert(s@.take(i + 1).drop_last() =~= s@.take(i as int));
            assert(s@.take(i + 1).last() == c);
        }
        if acc > (u64::MAX - d) / 10 {
            proof {
                assert(acc * 10 + d > u64::MAX) by (nonlinear_arith)
                    requires
                        acc > (u64::MAX - d) / 10,
                        d <= 9,
                ;
                lemma_decimal_prefix(s@, i + 1);
            }
            return None;
        }
        assert(acc * 10 + d <= u64::MAX) by (nonlinear_arith)
            requires
                acc <= (u64::MAX - d) / 10,
                d <= 9,
        ;
        acc = acc * 10 + d;
        i = i + 1;
    }
    assert(s@.take(s@.len() as int) =~= s@);
    Some(acc)
}

/// Which operation a request names; `NotFound` where none matches.
pub fn route(m: Method, path: &[u8]) -> (r: Result<Route, GatewayError>)
    ensures
        is_result_path(m, segments(path@)) ==> (r matches Ok(Route::TransactionResult(t))
            && t@ == segments(path@)[1]),
        !is_result_path(m, segments(path@)) ==> match route_of(m, segments(path@)) {
            Some(x) => r == Ok::<Route, GatewayError>(x),
            None => r == Err::<Route, GatewayError>(GatewayError::NotFound),
        },
{
    if m == Method::Options {
        return Ok(Route::Preflight);
    }
    let segs = split_path(path);
    proof {
        assert(segs@.len() == segments(path@).len());
        if segs@.len() >= 1 {
            assert(segs@[0]@ == segments(path@)[0]);
        }
        if segs@.len() >= 2 {
            assert(segs@[1]@ == segments(path@)[1]);
        }
    }
    if segs.len() == 1 {
        let a = segs[0].as_slice();
        if m == Method::Post && is_word_register(a) {
            Ok(Route::Register)
        } else if m == Method::Get && is_word_owners(a) {
            Ok(Route::OwnersList)
        } else if m == Method::Get && is_word_objects(a) {
            Ok(Route::ObjectsList)
        } else if m == Method::Post && is_word_owners(a) {
            Ok(Route::CreateOwner)
        } else if m == Method::Post && is_word_objects(a) {
            Ok(Route::CreateObject)
        } else {
            Err(GatewayError::NotFound)
        }
    } else if segs.len() == 2 {
        let a = segs[0].as_slice();
        let b = segs[1].as_slice();
        if m == Method::Get && is_word_result(a) {
            return Ok(Route::TransactionResult(copy_bytes(b)));
        }
        let n = parse_decimal(b);
        if m == Method::Get && is_word_owners(a) && n.is_some() {
            Ok(Route::OwnerInfo(n.unwrap()))
        } else if m == Method::Get && is_word_objects(a) && n.is_some() {
            Ok(Route::ObjectInfo(n.unwrap()))
        } else if m == Method::Post && is_word_objects(a) && is_word_transfer(b) {
            Ok(Route::TransferObject)
        } else if m == Method::Post && is_word_objects(a) && is_word_restore(b) {
            Ok(Route::RestoreObject)
        } else if m == Method::Delete && is_word_objects(a) && n.is_some() {
            Ok(Route::RemoveObject(n.unwrap()))
        } else {
            Err(GatewayError::NotFound)
        }
    } else {
        Err(GatewayError::NotFound)
    }
}

} // verus!
