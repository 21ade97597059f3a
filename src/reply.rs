use vstd::prelude::*;

use crate::record::{Loc, LocView};

verus! {

/// The HTTP status of a reply.
#[derive(Clone, Copy, PartialEq, Eq, Structural)]
pub enum Status {
    Success,
    Created,
    NotFound,
    InternalError,
}

impl Status {
    pub open spec fn spec_code(self) -> u16 {
        match self {
            Status::Success => 200,
            Status::Created => 201,
            Status::NotFound => 404,
            Status::InternalError => 500,
        }
    }

    /// The numeric HTTP status code.
    pub fn code(self) -> (r: u16)
        ensures
            r == self.spec_code(),
    {
        match self {
            Status::Success => 200,
            Status::Created => 201,
            Status::NotFound => 404,
            Status::InternalError => 500,
        }
    }
}

/// What a reply carries besides its status.
pub enum Body {
    Empty,
    Record(Loc),
    Plates(Vec<String>),
}

pub ghost enum BodyView {
    Empty,
    Record(LocView),
    Plates(Seq<Seq<char>>),
}

pub open spec fn plates_view(v: Seq<String>) -> Seq<Seq<char>> {
    v.map_values(|s: String| s@)
}

pub open spec fn locs_view(v: Seq<Loc>) -> Seq<LocView> {
    v.map_values(|l: Loc| l@)
}

impl View for Body {
    type V = BodyView;

    open spec fn view(&self) -> BodyView {
        match self {
            Body::Empty => BodyView::Empty,
            Body::Record(l) => BodyView::Record(l@),
            Body::Plates(v) => BodyView::Plates(plates_view(v@)),
        }
    }
}

/// The reply to one request, before the cross-origin headers are added.
pub struct Reply {
    pub status: Status,
    pub body: Body,
}

pub ghost struct ReplyView {
    pub status: Status,
    pub body: BodyView,
}

impl View for Reply {
    type V = ReplyView;

    open spec fn view(&self) -> ReplyView {
        ReplyView { status: self.status, body: self.body@ }
    }
}

/// A failure reported by the storage engine. Its sub-kinds are not told apart.
pub struct StorageError;

pub open spec fn created(rec: LocView) -> ReplyView {
    ReplyView { status: Status::Created, body: BodyView::Record(rec) }
}

pub open spec fn found(rec: LocView) -> ReplyView {
    ReplyView { status: Status::Success, body: BodyView::Record(rec) }
}

pub open spec fn listed(plates: Seq<Seq<char>>) -> ReplyView {
    ReplyView { status: Status::Success, body: BodyView::Plates(plates) }
}

pub open spec fn done() -> ReplyView {
    ReplyView { status: Status::Success, body: BodyView::Empty }
}

pub open spec fn not_found() -> ReplyView {
    ReplyView { status: Status::NotFound, body: BodyView::Empty }
}

pub open spec fn storage_failure() -> ReplyView {
    ReplyView { status: Status::InternalError, body: BodyView::Empty }
}

/// The reply to a read whose query returned `rows`.
pub open spec fn read_reply(rows: Seq<LocView>) -> ReplyView {
    if rows.len() == 0 {
        not_found()
    } else {
        found(rows[0])
    }
}

/// The reply to a single-plate delete that removed `affected` rows.
pub open spec fn delete_reply(affected: nat) -> ReplyView {
    if affected == 1 {
        done()
    } else {
        not_found()
    }
}

fn failure() -> (r: Reply)
    ensures
        r@ == storage_failure(),
{
    Reply { status: Status::InternalError, body: Body::Empty }
}

/// Reply to a location report once the upsert of `data` has run: the record is
/// echoed with status "created", or the storage failure is surfaced.
pub fn create(data: Loc, written: Result<(), StorageError>) -> (r: Reply)
    ensures
        r@ == match written {
            Ok(_) => created(data@),
            Err(_) => storage_failure(),
        },
{
    match written {
        Ok(()) => Reply { status: Status::Created, body: Body::Record(data) },
        Err(_) => failure(),
    }
}

/// Reply to a listing of the stored plates, in the order the storage gave them.
pub fn list(plates: Result<Vec<String>, StorageError>) -> (r: Reply)
    ensures
        r@ == match plates {
            Ok(v) => listed(plates_view(v@)),
            Err(_) => storage_failure(),
        },
{
    match plates {
        Ok(v) => Reply { status: Status::Success, body: Body::Plates(v) },
        Err(_) => failure(),
    }
}

/// Reply to a read of one plate, given the rows that matched it: no row is
/// "not found", which is no error.
pub fn read(rows: Result<Vec<Loc>, StorageError>) -> (r: Reply)
    ensures
        r@ == match rows {
            Ok(v) => read_reply(locs_view(v@)),
            Err(_) => storage_failure(),
        },
{
    match rows {
        Ok(v) => {
            let mut v = v;
            if v.len() == 0 {
                Reply { status: Status::NotFound, body: Body::Empty }
            } else {
                let first = v.swap_remove(0);
                Reply { status: Status::Success, body: Body::Record(first) }
            }
        },
        Err(_) => failure(),
    }
}

/// Reply to a single-plate delete, given how many rows it removed: success
/// only where exactly one row went.
pub fn delete(affected: Result<usize, StorageError>) -> (r: Reply)
    ensures
        r@ == match affected {
            Ok(n) => delete_reply(n as nat),
            Err(_) => storage_failure(),
        },
{
    match affected {
        Ok(n) => {
            if n == 1 {
                Reply { status: Status::Success, body: Body::Empty }
            } else {
                Reply { status: Status::NotFound, body: Body::Empty }
            }
        },
        Err(_) => failure(),
    }
}

/// Reply to a delete of every record: success however many rows went.
pub fn destroy(removed: Result<usize, StorageError>) -> (r: Reply)
    ensures
        r@ == match removed {
            Ok(_) => done(),
            Err(_) => storage_failure(),
        },
{
    match removed {
        Ok(_) => Reply { status: Status::Success, body: Body::Empty },
        Err(_) => failure(),
    }
}

/// Reply to the preflight request on the report path: an empty success.
pub fn create_options() -> (r: Reply)
    ensures
        r@ == done(),
{
    Reply { status: Status::Success, body: Body::Empty }
}

/// Reply to the preflight request on the root path: an empty success.
pub fn list_options() -> (r: Reply)
    ensures
        r@ == done(),
{
    Reply { status: Status::Success, body: Body::Empty }
}

} // verus!
