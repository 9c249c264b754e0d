//! The requests on borrow records. They are only ever added and read.

use crate::handler::{advance, advanced, id_param, Event, Phase, Plan, PlanView, Step};
use crate::prelude::{BorrowPayload, BorrowPayloadView};
use crate::statement::Statement;
use crate::value::{Datum, Value};
use vstd::prelude::*;

verus! {

/// The parameters that carry a borrow's payload, in the order the insert
/// takes them.
pub open spec fn borrow_params(payload: BorrowPayloadView) -> Seq<Datum> {
    seq![
        Datum::Int(payload.user_id),
        Datum::Int(payload.book_id),
        Datum::Time(payload.borrow_date),
    ]
}

pub open spec fn list_borrows_plan() -> PlanView {
    PlanView { statement: Statement::ListBorrows, params: seq![], cache_key: None }
}

pub open spec fn list_borrow_plan(user_id: int, book_id: int) -> PlanView {
    PlanView {
        statement: Statement::ListBorrow,
        params: seq![Datum::Int(user_id), Datum::Int(book_id)],
        cache_key: None,
    }
}

pub open spec fn list_borrows_by_user_plan(user_id: int) -> PlanView {
    PlanView {
        statement: Statement::ListBorrowsByUser,
        params: seq![Datum::Int(user_id)],
        cache_key: None,
    }
}

pub open spec fn list_borrows_by_book_plan(book_id: int) -> PlanView {
    PlanView {
        statement: Statement::ListBorrowsByBook,
        params: seq![Datum::Int(book_id)],
        cache_key: None,
    }
}

pub open spec fn insert_borrow_plan(payload: BorrowPayloadView) -> PlanView {
    PlanView {
        statement: Statement::InsertBorrow,
        params: borrow_params(payload),
        cache_key: None,
    }
}

/// Every borrow record, as a JSON array.
pub fn list_borrows(phase: Phase, event: Event) -> (r: Step)
    ensures
        r@ == advanced(list_borrows_plan(), phase@, event@),
{
    let params: Vec<Value> = Vec::new();
    proof {
        assert(params.deep_view() =~= Seq::<Datum>::empty());
    }
    let plan = Plan { statement: Statement::ListBorrows, params, cache_key: None };
    advance(plan, phase, event)
}

/// The borrow record of one user and one book, as a JSON object.
pub fn list_borrow(user_id: i32, book_id: i32, phase: Phase, event: Event) -> (r: Step)
    ensures
        r@ == advanced(list_borrow_plan(user_id as int, book_id as int), phase@, event@),
{
    let mut params: Vec<Value> = Vec::new();
    params.push(Value::Int(user_id));
    params.push(Value::Int(book_id));
    proof {
        assert(params.deep_view() =~= seq![
            Datum::Int(user_id as int),
            Datum::Int(book_id as int),
        ]);
    }
    let plan = Plan { statement: Statement::ListBorrow, params, cache_key: None };
    advance(plan, phase, event)
}

/// The borrow records of one user, as a JSON array.
pub fn list_borrows_by_user(user_id: i32, phase: Phase, event: Event) -> (r: Step)
    ensures
        r@ == advanced(list_borrows_by_user_plan(user_id as int), phase@, event@),
{
    let plan = Plan {
        statement: Statement::ListBorrowsByUser,
        params: id_param(user_id),
        cache_key: None,
    };
    advance(plan, phase, event)
}

/// The borrow records of one book, as a JSON array.
pub fn list_borrows_by_book(book_id: i32, phase: Phase, event: Event) -> (r: Step)
    ensures
        r@ == advanced(list_borrows_by_book_plan(book_id as int), phase@, event@),
{
    let plan = Plan {
        statement: Statement::ListBorrowsByBook,
        params: id_param(book_id),
        cache_key: None,
    };
    advance(plan, phase, event)
}

/// Records that a user borrowed a book. The store refuses a user or a book
/// it does not know.
pub fn insert_borrow(payload: &BorrowPayload, phase: Phase, event: Event) -> (r: Step)
    ensures
        r@ == advanced(insert_borrow_plan(payload@), phase@, event@),
{
    let mut params: Vec<Value> = Vec::new();
    params.push(Value::Int(payload.user_id));
    params.push(Value::Int(payload.book_id));
    params.push(Value::Time(payload.borrow_date));
    proof {
        assert(params.deep_view() =~= borrow_params(payload@));
    }
    let plan = Plan { statement: Statement::InsertBorrow, params, cache_key: None };
    advance(plan, phase, event)
}

} // verus!
