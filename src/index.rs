//! The requests of an index of a remote database, and their answers.
//!
//! Each operation builds the request that a connection sends; the rows
//! that come back are walked with a [`RemoteIndexIterator`].
use vstd::prelude::*;

verus! {

/// How a select compares index keys with the key it is given.
#[derive(Clone, Copy, Debug, PartialEq, Eq, Structural)]
pub enum IteratorType {
    Eq,
    Req,
    All,
    LT,
    LE,
    GE,
    GT,
    BitsAllSet,
    BitsAnySet,
    BitsAllNotSet,
    Overlaps,
    Neighbor,
}

/// The options of a select that shape the request.
#[derive(Clone, Copy, Debug, PartialEq, Eq, Structural)]
pub struct Options {
    /// The number of matching rows to skip.
    pub offset: u32,
    /// The most rows to return; `None` for no limit.
    pub limit: Option<u32>,
}

/// A request on an index, with its key and operations encoded.
#[derive(Debug, PartialEq, Eq)]
pub enum Request {
    Select {
        space_id: u32,
        index_id: u32,
        limit: u32,
        offset: u32,
        iterator_type: IteratorType,
        key: Vec<u8>,
    },
    Update { space_id: u32, index_id: u32, key: Vec<u8>, ops: Vec<u8> },
    Upsert { space_id: u32, index_id: u32, value: Vec<u8>, ops: Vec<u8> },
    Delete { space_id: u32, index_id: u32, key: Vec<u8> },
}

/// The request is a select on `space_id` and `index_id` with these settings.
pub open spec fn is_select(
    r: Request,
    space_id: u32,
    index_id: u32,
    limit: u32,
    offset: u32,
    iterator_type: IteratorType,
    key: Seq<u8>,
) -> bool {
    match r {
        Request::Select { space_id: s, index_id: i, limit: l, offset: o, iterator_type: t, key: k } => s
            == space_id && i == index_id && l == limit && o == offset && t == iterator_type && k@
            == key,
        _ => false,
    }
}

fn copy_bytes(b: &Vec<u8>) -> (r: Vec<u8>)
    ensures
        r@ == b@,
{
    let r = b.clone();
    assert(r@ =~= b@);
    r
}

/// An index of a space of a remote database.
pub struct RemoteIndex {
    space_id: u32,
    index_id: u32,
}

impl RemoteIndex {
    /// The space and the index, by their identifiers.
    pub closed spec fn view(&self) -> (u32, u32) {
        (self.space_id, self.index_id)
    }

    pub fn new(space_id: u32, index_id: u32) -> (r: Self)
        ensures
            r.view() == (space_id, index_id),
    {
        RemoteIndex { space_id, index_id }
    }

    /// The request for the row whose key equals `key`: a select of at most
    /// one row, from the first.
    pub fn get(&self, key: &Vec<u8>) -> (r: Request)
        ensures
            is_select(r, self.view().0, self.view().1, 1, 0, IteratorType::Eq, key@),
    {
        self.select(IteratorType::Eq, key, &Options { offset: 0, limit: Some(1) })
    }

    /// The request for the rows that match `key` under `iterator_type`,
    /// skipping `options.offset` of them and returning at most
    /// `options.limit`, or all where there is no limit.
    pub fn select(&self, iterator_type: IteratorType, key: &Vec<u8>, options: &Options) -> (r:
        Request)
        ensures
            is_select(
                r,
                self.view().0,
                self.view().1,
                match options.limit {
                    Some(l) => l,
                    None => u32::MAX,
                },
                options.offset,
                iterator_type,
                key@,
            ),
    {
        let limit = match options.limit {
            Some(l) => l,
            None => u32::MAX,
        };
        Request::Select {
            space_id: self.space_id,
            index_id: self.index_id,
            limit,
            offset: options.offset,
            iterator_type,
            key: copy_bytes(key),
        }
    }

    /// The request that applies the operations `ops` to the row with key
    /// `key`.
    pub fn update(&self, key: &Vec<u8>, ops: &Vec<u8>) -> (r: Request)
        ensures
            match r {
                Request::Update { space_id, index_id, key: k, ops: o } => (space_id, index_id)
                    == self.view() && k@ == key@ && o@ == ops@,
                _ => false,
            },
    {
        Request::Update {
            space_id: self.space_id,
            index_id: self.index_id,
            key: copy_bytes(key),
            ops: copy_bytes(ops),
        }
    }

    /// The request that inserts `value`, or applies `ops` to the row with
    /// the same key where there is one.
    pub fn upsert(&self, value: &Vec<u8>, ops: &Vec<u8>) -> (r: Request)
        ensures
            match r {
                Request::Upsert { space_id, index_id, value: v, ops: o } => (space_id, index_id)
                    == self.view() && v@ == value@ && o@ == ops@,
                _ => false,
            },
    {
        Request::Upsert {
            space_id: self.space_id,
            index_id: self.index_id,
            value: copy_bytes(value),
            ops: copy_bytes(ops),
        }
    }

    /// The request that deletes the row with key `key`.
    pub fn delete(&self, key: &Vec<u8>) -> (r: Request)
        ensures
            match r {
                Request::Delete { space_id, index_id, key: k } => (space_id, index_id) == self.view()
                    && k@ == key@,
                _ => false,
            },
    {
        Request::Delete { space_id: self.space_id, index_id: self.index_id, key: copy_bytes(key) }
    }
}

/// The rows that a select returned, handed out in order.
pub struct RemoteIndexIterator<T> {
    /// The rows still to hand out, the next one last.
    rest: Vec<T>,
}

impl<T> RemoteIndexIterator<T> {
    /// The rows still to hand out, in order.
    pub closed spec fn view(&self) -> Seq<T> {
        self.rest@.reverse()
    }

    /// An iterator over `rows`, in their order.
    pub fn new(rows: Vec<T>) -> (r: Self)
        ensures
            r.view() == rows@,
    {
        let ghost all = rows@;
        let mut rows = rows;
        let mut rest: Vec<T> = Vec::new();
        while rows.len() > 0
            invariant
                all == rows@ + rest@.reverse(),
            decreases rows@.len(),
        {
            let row = rows.pop().unwrap();
            rest.push(row);
            proof {
                assert(all =~= rows@ + rest@.reverse());
            }
        }
        assert(all =~= rest@.reverse());
        RemoteIndexIterator { rest }
    }

    /// The next row, if any is left.
    pub fn next(&mut self) -> (r: Option<T>)
        ensures
            old(self).view().len() == 0 ==> r is None && final(self).view() == old(self).view(),
            old(self).view().len() > 0 ==> r == Some(old(self).view()[0]) && final(self).view()
                == old(self).view().drop_first(),
    {
        let r = self.rest.pop();
        proof {
            if old(self).view().len() > 0 {
                assert(self.view() =~= old(self).view().drop_first());
            }
        }
        r
    }
}

} // verus!
