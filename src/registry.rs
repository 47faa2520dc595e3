use vstd::prelude::*;
use crate::tx::{GeoPoint, ObjectTx};

verus! {

/// A parcel as the ledger holds it.
#[derive(Clone, Debug)]
pub struct Object {
    pub id: u64,
    pub title: Vec<u8>,
    pub boundary: Vec<GeoPoint>,
    pub owner_id: u64,
    pub deleted: bool,
}

/// A parcel's content, as mathematical values.
pub struct ObjectView {
    pub id: u64,
    pub title: Seq<u8>,
    pub boundary: Seq<GeoPoint>,
    pub owner_id: u64,
    pub deleted: bool,
}

impl View for Object {
    type V = ObjectView;

    open spec fn view(&self) -> ObjectView {
        ObjectView {
            id: self.id,
            title: self.title@,
            boundary: self.boundary@,
            owner_id: self.owner_id,
            deleted: self.deleted,
        }
    }
}

/// What a transaction does to a parcel: a transfer addressed to it sets
/// its owner, a removal marks it deleted, a restoration marks it active;
/// every other transaction leaves it as it was.
pub open spec fn applied(o: ObjectView, tx: ObjectTx) -> ObjectView {
    match tx {
        ObjectTx::TransferObject(t) => if t.id == o.id {
            ObjectView { owner_id: t.owner_id, ..o }
        } else {
            o
        },
        ObjectTx::RemoveObject(t) => if t.id == o.id {
            ObjectView { deleted: true, ..o }
        } else {
            o
        },
        ObjectTx::RestoreObject(t) => if t.id == o.id {
            ObjectView { deleted: false, ..o }
        } else {
            o
        },
        _ => o,
    }
}

impl Object {
    /// Applies a transaction to this parcel.
    pub fn apply(&mut self, tx: &ObjectTx)
        ensures
            final(self)@ == applied(old(self)@, *tx),
    {
        match tx {
            ObjectTx::TransferObject(t) => {
                if t.id == self.id {
                    self.owner_id = t.owner_id;
                }
            },
            ObjectTx::RemoveObject(t) => {
                if t.id == self.id {
                    self.deleted = true;
                }
            },
            ObjectTx::RestoreObject(t) => {
                if t.id == self.id {
                    self.deleted = false;
                }
            },
            _ => {},
        }
    }
}

/// A transfer changes a parcel's owner and nothing else: its title,
/// boundary and deleted flag stay as they were.
pub proof fn lemma_transfer_changes_only_owner(o: ObjectView, tx: ObjectTx)
    requires
        tx is TransferObject,
    ensures
        applied(o, tx).id == o.id,
        applied(o, tx).title == o.title,
        applied(o, tx).boundary == o.boundary,
        applied(o, tx).deleted == o.deleted,
        applied(o, tx).owner_id == (if tx->TransferObject_0.id == o.id {
            tx->TransferObject_0.owner_id
        } else {
            o.owner_id
        }),
{
}

/// Removing then restoring a parcel gives back the parcel, with the
/// deleted flag cleared.
pub proof fn lemma_remove_restore(o: ObjectView, remove: ObjectTx, restore: ObjectTx)
    requires
        remove matches ObjectTx::RemoveObject(t) && t.id == o.id,
        restore matches ObjectTx::RestoreObject(t) && t.id == o.id,
    ensures
        applied(o, remove).deleted,
        !applied(applied(o, remove), restore).deleted,
        applied(applied(o, remove), restore) == (ObjectView { deleted: false, ..o }),
{
}

} // verus!
