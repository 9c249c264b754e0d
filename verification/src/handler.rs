//! How a request is carried out, one decision at a time.
//!
//! A request runs through a few phases. In each, the service performs one
//! action against the cache or the record store and learns one event in
//! return. `advance` holds every decision: given the request's plan, the
//! phase it is in and the event that just came back, it names the next
//! phase and the next action. The last action of a request is a reply or an
//! abort.

use crate::json::{array, array_of};
use crate::prelude::{
    book_json, book_of_row, borrow_json, borrow_of_row, user_json, user_of_row, Book, Borrow,
    User,
};
use crate::statement::{Record, Statement};
use crate::value::{Datum, Value};
use vstd::prelude::*;

verus! {

/// How long a cache entry lives, in seconds.
pub const CACHE_TTL_SECS: u64 = 3600;

/// The content type of every body the service replies with.
pub fn content_type() -> (r: &'static str)
    ensures
        r@ == "application/json"@,
{
    "application/json"
}

/// Why a request could not be answered.
#[derive(Clone, Copy, Debug, PartialEq, Eq, Structural)]
pub enum Fault {
    /// The record store failed or refused the statement.
    Store,
    /// A lookup by key found no row.
    NoRows,
    /// A lookup by key found more than one row.
    ManyRows,
    /// A row does not have the cells its table should have.
    BadRow,
    /// An event arrived that the request's phase does not expect.
    Stray,
}

/// The status of a reply.
#[derive(Clone, Copy, Debug, PartialEq, Eq, Structural)]
pub enum Status {
    Success,
    Created,
}

impl Status {
    pub open spec fn number(self) -> int {
        match self {
            Status::Success => 200,
            Status::Created => 201,
        }
    }

    /// The HTTP status code.
    pub fn code(self) -> (r: u16)
        ensures
            r == self.number(),
    {
        match self {
            Status::Success => 200,
            Status::Created => 201,
        }
    }
}

impl Fault {
    /// The HTTP status code a fault is reported under: every fault is a
    /// server error.
    pub fn code(self) -> (r: u16)
        ensures
            r == 500,
    {
        500
    }
}

/// What came back from the last action.
#[derive(Clone, Debug, PartialEq, Eq)]
pub enum Event {
    /// The request has just arrived; nothing was done yet.
    Arrived,
    /// The cache holds a value under the key.
    CacheHit { value: String },
    /// The cache answered and holds nothing under the key.
    CacheMiss,
    /// The cache could not be reached, or failed to read or to write.
    CacheFailed,
    /// The cache took the value.
    CacheStored,
    /// The store answered the query with these rows.
    Rows { rows: Vec<Vec<Value>> },
    /// The store executed the statement.
    Executed,
    /// The store failed or refused the statement.
    StoreFailed,
}

pub enum EventView {
    Arrived,
    CacheHit { value: Seq<char> },
    CacheMiss,
    CacheFailed,
    CacheStored,
    Rows { rows: Seq<Seq<Datum>> },
    Executed,
    StoreFailed,
}

impl View for Event {
    type V = EventView;

    open spec fn view(&self) -> EventView {
        match self {
            Event::Arrived => EventView::Arrived,
            Event::CacheHit { value } => EventView::CacheHit { value: value@ },
            Event::CacheMiss => EventView::CacheMiss,
            Event::CacheFailed => EventView::CacheFailed,
            Event::CacheStored => EventView::CacheStored,
            Event::Rows { rows } => EventView::Rows { rows: rows.deep_view() },
            Event::Executed => EventView::Executed,
            Event::StoreFailed => EventView::StoreFailed,
        }
    }
}

/// What to do next.
#[derive(Clone, Debug, PartialEq, Eq)]
pub enum Action {
    /// Ask the cache for the value under the key.
    CacheGet { key: String },
    /// Put the value into the cache under the key, to expire after `ttl`
    /// seconds.
    CachePut { key: String, value: String, ttl: u64 },
    /// Run a statement that returns rows.
    Query { statement: Statement, params: Vec<Value> },
    /// Run a statement that changes rows.
    Execute { statement: Statement, params: Vec<Value> },
    /// Answer the request. A body is JSON.
    Reply { status: Status, body: Option<String> },
    /// Give the request up.
    Abort { fault: Fault },
}

pub enum ActionView {
    CacheGet { key: Seq<char> },
    CachePut { key: Seq<char>, value: Seq<char>, ttl: int },
    Query { statement: Statement, params: Seq<Datum> },
    Execute { statement: Statement, params: Seq<Datum> },
    Reply { status: Status, body: Option<Seq<char>> },
    Abort { fault: Fault },
}

impl View for Action {
    type V = ActionView;

    open spec fn view(&self) -> ActionView {
        match self {
            Action::CacheGet { key } => ActionView::CacheGet { key: key@ },
            Action::CachePut { key, value, ttl } => ActionView::CachePut {
                key: key@,
                value: value@,
                ttl: *ttl as int,
            },
            Action::Query { statement, params } => ActionView::Query {
                statement: *statement,
                params: params.deep_view(),
            },
            Action::Execute { statement, params } => ActionView::Execute {
                statement: *statement,
                params: params.deep_view(),
            },
            Action::Reply { status, body } => ActionView::Reply {
                status: *status,
                body: body.deep_view(),
            },
            Action::Abort { fault } => ActionView::Abort { fault: *fault },
        }
    }
}

impl ActionView {
    /// Whether the action ends the request.
    pub open spec fn is_final(self) -> bool {
        self is Reply || self is Abort
    }

    /// Whether the action goes to the record store.
    pub open spec fn touches_store(self) -> bool {
        self is Query || self is Execute
    }
}

/// Where a request stands.
#[derive(Clone, Debug, PartialEq, Eq)]
pub enum Phase {
    /// Nothing was done yet.
    Start,
    /// The cache was asked for the key.
    Lookup,
    /// The store was asked for rows.
    Load,
    /// The body is made and the cache was asked to keep it.
    Fill { body: String },
    /// The store was asked to change rows.
    Apply,
    /// The request is over.
    Done,
}

pub enum PhaseView {
    Start,
    Lookup,
    Load,
    Fill { body: Seq<char> },
    Apply,
    Done,
}

impl View for Phase {
    type V = PhaseView;

    open spec fn view(&self) -> PhaseView {
        match self {
            Phase::Start => PhaseView::Start,
            Phase::Lookup => PhaseView::Lookup,
            Phase::Load => PhaseView::Load,
            Phase::Fill { body } => PhaseView::Fill { body: body@ },
            Phase::Apply => PhaseView::Apply,
            Phase::Done => PhaseView::Done,
        }
    }
}

/// One decision: the phase the request enters and the action to perform.
#[derive(Clone, Debug, PartialEq, Eq)]
pub struct Step {
    pub phase: Phase,
    pub action: Action,
}

pub struct StepView {
    pub phase: PhaseView,
    pub action: ActionView,
}

impl View for Step {
    type V = StepView;

    open spec fn view(&self) -> StepView {
        StepView { phase: self.phase@, action: self.action@ }
    }
}

/// What a request asks of the store, and under which key its answer is
/// cached, if it is.
#[derive(Clone, Debug, PartialEq, Eq)]
pub struct Plan {
    pub statement: Statement,
    pub params: Vec<Value>,
    pub cache_key: Option<String>,
}

pub struct PlanView {
    pub statement: Statement,
    pub params: Seq<Datum>,
    pub cache_key: Option<Seq<char>>,
}

impl View for Plan {
    type V = PlanView;

    open spec fn view(&self) -> PlanView {
        PlanView {
            statement: self.statement,
            params: self.params.deep_view(),
            cache_key: self.cache_key.deep_view(),
        }
    }
}

/// One row as the JSON of the record it stands for.
pub open spec fn record_json(record: Record, row: Seq<Datum>) -> Option<Seq<char>> {
    match record {
        Record::User => match user_of_row(row) {
            Some(user) => Some(user_json(user)),
            None => None,
        },
        Record::Book => match book_of_row(row) {
            Some(book) => Some(book_json(book)),
            None => None,
        },
        Record::Borrow => match borrow_of_row(row) {
            Some(borrow) => Some(borrow_json(borrow)),
            None => None,
        },
    }
}

/// The body that answers a read statement, given the rows the store
/// returned. A lookup by key wants exactly one row and answers with that
/// record; any other read answers with the array of all records, which is
/// empty where there are no rows.
pub open spec fn rendered(statement: Statement, rows: Seq<Seq<Datum>>) -> Result<
    Seq<char>,
    Fault,
> {
    let record = statement.record();
    if statement.single() {
        if rows.len() == 0 {
            Err(Fault::NoRows)
        } else if rows.len() > 1 {
            Err(Fault::ManyRows)
        } else {
            match record_json(record, rows[0]) {
                Some(json) => Ok(json),
                None => Err(Fault::BadRow),
            }
        }
    } else {
        if forall|i: int| 0 <= i < rows.len() ==> (#[trigger] record_json(record, rows[i])) is Some {
            Ok(array_of(Seq::new(rows.len(), |i: int| record_json(record, rows[i])->0)))
        } else {
            Err(Fault::BadRow)
        }
    }
}

/// Writes one row as the JSON of the record it stands for.
pub fn row_to_json(record: Record, row: &Vec<Value>) -> (r: Option<String>)
    ensures
        r.deep_view() == record_json(record, row.deep_view()),
{
    match record {
        Record::User => match User::from_row(row) {
            Some(user) => Some(user.to_json()),
            None => None,
        },
        Record::Book => match Book::from_row(row) {
            Some(book) => Some(book.to_json()),
            None => None,
        },
        Record::Borrow => match Borrow::from_row(row) {
            Some(borrow) => Some(borrow.to_json()),
            None => None,
        },
    }
}

/// Makes the body that answers a read statement out of the rows the store
/// returned.
pub fn render(statement: Statement, rows: &Vec<Vec<Value>>) -> (r: Result<String, Fault>)
    ensures
        r matches Ok(body) ==> rendered(statement, rows.deep_view()) == Ok::<Seq<char>, Fault>(
            body@,
        ),
        r matches Err(fault) ==> rendered(statement, rows.deep_view()) == Err::<
            Seq<char>,
            Fault,
        >(fault),
{
    let record = statement.record_kind();
    let ghost all = rows.deep_view();
    if statement.is_single() {
        if rows.len() == 0 {
            Err(Fault::NoRows)
        } else if rows.len() > 1 {
            Err(Fault::ManyRows)
        } else {
            assert(all[0] == rows[0].deep_view());
            match row_to_json(record, &rows[0]) {
                Some(json) => Ok(json),
                None => Err(Fault::BadRow),
            }
        }
    } else {
        let mut items: Vec<String> = Vec::new();
        let mut i: usize = 0;
        while i < rows.len()
            invariant
                i <= rows.len(),
                all == rows.deep_view(),
                record == statement.record(),
                !statement.single(),
                items.len() == i,
                forall|k: int|
                    0 <= k < i ==> (#[trigger] record_json(record, all[k])) == Some(items[k]@),
            decreases rows.len() - i,
        {
            assert(all[i as int] == rows[i as int].deep_view());
            match row_to_json(record, &rows[i]) {
                Some(json) => {
                    items.push(json);
                },
                None => {
                    assert(!(record_json(record, all[i as int]) is Some));
                    return Err(Fault::BadRow);
                },
            }
            i += 1;
        }
        proof {
            let wanted = Seq::new(all.len(), |k: int| record_json(record, all[k])->0);
            assert forall|k: int| 0 <= k < all.len() implies items.deep_view()[k] == wanted[k] by {
                assert(record_json(record, all[k]) == Some(items[k]@));
            }
            assert(items.deep_view() =~= wanted);
        }
        Ok(array(&items))
    }
}

/// The step that gives a request up over an event its phase does not
/// expect.
pub open spec fn stray() -> StepView {
    StepView { phase: PhaseView::Done, action: ActionView::Abort { fault: Fault::Stray } }
}

/// The step that ends a request with the given action.
pub open spec fn finish(action: ActionView) -> StepView {
    StepView { phase: PhaseView::Done, action }
}

/// The status a statement that changes rows is answered with.
pub open spec fn status_of(statement: Statement) -> Status {
    if statement.inserts() {
        Status::Created
    } else {
        Status::Success
    }
}

/// The step that asks the store for the plan's rows.
pub open spec fn load_step(plan: PlanView) -> StepView {
    StepView {
        phase: PhaseView::Load,
        action: ActionView::Query { statement: plan.statement, params: plan.params },
    }
}

/// The first step of a request: a write goes to the store, a cached read to
/// the cache, any other read to the store.
pub open spec fn first_step(plan: PlanView) -> StepView {
    if !plan.statement.reads() {
        StepView {
            phase: PhaseView::Apply,
            action: ActionView::Execute { statement: plan.statement, params: plan.params },
        }
    } else {
        match plan.cache_key {
            Some(key) => StepView {
                phase: PhaseView::Lookup,
                action: ActionView::CacheGet { key },
            },
            None => load_step(plan),
        }
    }
}

/// The step after the store has returned rows: a fault where they do not
/// make a body; else, for a cached read, the body goes to the cache for an
/// hour, and for any other read it is the reply.
pub open spec fn loaded_step(plan: PlanView, rows: Seq<Seq<Datum>>) -> StepView {
    match rendered(plan.statement, rows) {
        Ok(body) => match plan.cache_key {
            Some(key) => StepView {
                phase: PhaseView::Fill { body },
                action: ActionView::CachePut { key, value: body, ttl: CACHE_TTL_SECS as int },
            },
            None => finish(ActionView::Reply { status: Status::Success, body: Some(body) }),
        },
        Err(fault) => finish(ActionView::Abort { fault }),
    }
}

/// The decision table of the service.
///
/// A cached read asks the cache first. A hit is the reply, byte for byte,
/// and the store is left alone. A miss and a failing cache are one and the
/// same: the store is asked, the body is made from its rows and offered to
/// the cache, and whether or not the cache takes it, the body is the reply.
/// A read that is not cached asks the store and replies. A write executes
/// its statement and replies with its status and no body. Any failure of
/// the store ends the request with a fault, and so does an event that the
/// phase does not expect.
pub open spec fn advanced(plan: PlanView, phase: PhaseView, event: EventView) -> StepView {
    let reads = plan.statement.reads();
    let cached = reads && plan.cache_key is Some;
    match phase {
        PhaseView::Start => match event {
            EventView::Arrived => first_step(plan),
            _ => stray(),
        },
        PhaseView::Lookup => match event {
            EventView::CacheHit { value } if cached => finish(
                ActionView::Reply { status: Status::Success, body: Some(value) },
            ),
            EventView::CacheMiss if cached => load_step(plan),
            EventView::CacheFailed if cached => load_step(plan),
            _ => stray(),
        },
        PhaseView::Load => match event {
            EventView::Rows { rows } if reads => loaded_step(plan, rows),
            EventView::StoreFailed if reads => finish(ActionView::Abort { fault: Fault::Store }),
            _ => stray(),
        },
        PhaseView::Fill { body } => match event {
            EventView::CacheStored if cached => finish(
                ActionView::Reply { status: Status::Success, body: Some(body) },
            ),
            EventView::CacheFailed if cached => finish(
                ActionView::Reply { status: Status::Success, body: Some(body) },
            ),
            _ => stray(),
        },
        PhaseView::Apply => match event {
            EventView::Executed if !reads => finish(
                ActionView::Reply { status: status_of(plan.statement), body: None },
            ),
            EventView::StoreFailed if !reads => finish(
                ActionView::Abort { fault: Fault::Store },
            ),
            _ => stray(),
        },
        PhaseView::Done => stray(),
    }
}

/// The parameter list of a statement that takes one id.
pub(crate) fn id_param(id: i32) -> (r: Vec<Value>)
    ensures
        r.deep_view() == seq![Datum::Int(id as int)],
{
    let mut params: Vec<Value> = Vec::new();
    params.push(Value::Int(id));
    proof {
        assert(params.deep_view() =~= seq![Datum::Int(id as int)]);
    }
    params
}

fn give_up(fault: Fault) -> (r: Step)
    ensures
        r@ == finish(ActionView::Abort { fault }),
{
    Step { phase: Phase::Done, action: Action::Abort { fault } }
}

fn answer(status: Status, body: Option<String>) -> (r: Step)
    ensures
        r@ == finish(ActionView::Reply { status, body: body.deep_view() }),
{
    Step { phase: Phase::Done, action: Action::Reply { status, body } }
}

/// Decides the next step of a request.
pub fn advance(plan: Plan, phase: Phase, event: Event) -> (r: Step)
    ensures
        r@ == advanced(plan@, phase@, event@),
{
    let Plan { statement, params, cache_key } = plan;
    let reads = statement.is_read();
    let cached = reads && cache_key.is_some();
    match phase {
        Phase::Start => match event {
            Event::Arrived => {
                if !reads {
                    Step { phase: Phase::Apply, action: Action::Execute { statement, params } }
                } else {
                    match cache_key {
                        Some(key) => Step { phase: Phase::Lookup, action: Action::CacheGet { key } },
                        None => Step { phase: Phase::Load, action: Action::Query { statement, params } },
                    }
                }
            },
            _ => give_up(Fault::Stray),
        },
        Phase::Lookup => {
            if !cached {
                return give_up(Fault::Stray);
            }
            match event {
                Event::CacheHit { value } => answer(Status::Success, Some(value)),
                Event::CacheMiss | Event::CacheFailed => Step {
                    phase: Phase::Load,
                    action: Action::Query { statement, params },
                },
                _ => give_up(Fault::Stray),
            }
        },
        Phase::Load => {
            if !reads {
                return give_up(Fault::Stray);
            }
            match event {
                Event::Rows { rows } => match render(statement, &rows) {
                    Ok(body) => match cache_key {
                        Some(key) => {
                            let value = body.clone();
                            Step {
                                phase: Phase::Fill { body },
                                action: Action::CachePut { key, value, ttl: CACHE_TTL_SECS },
                            }
                        },
                        None => answer(Status::Success, Some(body)),
                    },
                    Err(fault) => give_up(fault),
                },
                Event::StoreFailed => give_up(Fault::Store),
                _ => give_up(Fault::Stray),
            }
        },
        Phase::Fill { body } => {
            if !cached {
                return give_up(Fault::Stray);
            }
            match event {
                Event::CacheStored | Event::CacheFailed => answer(Status::Success, Some(body)),
                _ => give_up(Fault::Stray),
            }
        },
        Phase::Apply => {
            if reads {
                return give_up(Fault::Stray);
            }
            match event {
                Event::Executed => {
                    let status = if statement.is_insert() {
                        Status::Created
                    } else {
                        Status::Success
                    };
                    answer(status, None)
                },
                Event::StoreFailed => give_up(Fault::Store),
                _ => give_up(Fault::Stray),
            }
        },
        Phase::Done => give_up(Fault::Stray),
    }
}

} // verus!
