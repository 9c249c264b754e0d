//! The requests on books. None of them is cached.

use crate::handler::{advance, advanced, id_param, Event, Phase, Plan, PlanView, Step};
use crate::prelude::{BookPayload, BookPayloadView};
use crate::statement::Statement;
use crate::value::{Datum, Value};
use vstd::prelude::*;

verus! {

/// The parameters that carry a book's payload, in the order the insert and
/// the update take them.
pub open spec fn book_params(payload: BookPayloadView) -> Seq<Datum> {
    seq![
        Datum::Text(payload.title),
        Datum::Text(payload.author),
        Datum::Text(payload.content),
        Datum::Text(payload.category),
        Datum::Time(payload.publish_date),
    ]
}

pub open spec fn list_books_plan() -> PlanView {
    PlanView { statement: Statement::ListBooks, params: seq![], cache_key: None }
}

pub open spec fn list_book_plan(id: int) -> PlanView {
    PlanView { statement: Statement::ListBook, params: seq![Datum::Int(id)], cache_key: None }
}

pub open spec fn insert_book_plan(payload: BookPayloadView) -> PlanView {
    PlanView { statement: Statement::InsertBook, params: book_params(payload), cache_key: None }
}

pub open spec fn update_book_plan(id: int, payload: BookPayloadView) -> PlanView {
    PlanView {
        statement: Statement::UpdateBook,
        params: book_params(payload).push(Datum::Int(id)),
        cache_key: None,
    }
}

pub open spec fn delete_book_plan(id: int) -> PlanView {
    PlanView { statement: Statement::DeleteBook, params: seq![Datum::Int(id)], cache_key: None }
}

fn payload_params(payload: &BookPayload) -> (r: Vec<Value>)
    ensures
        r.deep_view() == book_params(payload@),
{
    let mut params: Vec<Value> = Vec::new();
    params.push(Value::Text(payload.title.clone()));
    params.push(Value::Text(payload.author.clone()));
    params.push(Value::Text(payload.content.clone()));
    params.push(Value::Text(payload.category.clone()));
    params.push(Value::Time(payload.publish_date));
    proof {
        assert(params.deep_view() =~= book_params(payload@));
    }
    params
}

/// All books, as a JSON array.
pub fn list_books(phase: Phase, event: Event) -> (r: Step)
    ensures
        r@ == advanced(list_books_plan(), phase@, event@),
{
    let params: Vec<Value> = Vec::new();
    proof {
        assert(params.deep_view() =~= Seq::<Datum>::empty());
    }
    let plan = Plan { statement: Statement::ListBooks, params, cache_key: None };
    advance(plan, phase, event)
}

/// One book by id, as a JSON object.
pub fn list_book(id: i32, phase: Phase, event: Event) -> (r: Step)
    ensures
        r@ == advanced(list_book_plan(id as int), phase@, event@),
{
    let plan = Plan { statement: Statement::ListBook, params: id_param(id), cache_key: None };
    advance(plan, phase, event)
}

/// Stores a new book; the store assigns the id.
pub fn insert_book(payload: &BookPayload, phase: Phase, event: Event) -> (r: Step)
    ensures
        r@ == advanced(insert_book_plan(payload@), phase@, event@),
{
    let plan = Plan {
        statement: Statement::InsertBook,
        params: payload_params(payload),
        cache_key: None,
    };
    advance(plan, phase, event)
}

/// Overwrites every field but the id of the book with the given id.
pub fn update_book(id: i32, payload: &BookPayload, phase: Phase, event: Event) -> (r: Step)
    ensures
        r@ == advanced(update_book_plan(id as int, payload@), phase@, event@),
{
    let mut params = payload_params(payload);
    params.push(Value::Int(id));
    proof {
        assert(params.deep_view() =~= book_params(payload@).push(Datum::Int(id as int)));
    }
    let plan = Plan { statement: Statement::UpdateBook, params, cache_key: None };
    advance(plan, phase, event)
}

/// Removes the book with the given id.
pub fn delete_book(id: i32, phase: Phase, event: Event) -> (r: Step)
    ensures
        r@ == advanced(delete_book_plan(id as int), phase@, event@),
{
    let plan = Plan { statement: Statement::DeleteBook, params: id_param(id), cache_key: None };
    advance(plan, phase, event)
}

} // verus!
