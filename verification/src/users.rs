//! The requests on users. The two reads go through the cache.

use crate::handler::{advance, advanced, id_param, Event, Phase, Plan, PlanView, Step};
use crate::json::{decimal, push_number};
use crate::prelude::{UserPayload, UserPayloadView};
use crate::statement::Statement;
use crate::value::{Datum, Value};
use vstd::prelude::*;
use vstd::string::*;

verus! {

/// The cache key of the list of all users.
pub open spec fn users_key() -> Seq<char> {
    "users:all"@
}

/// The cache key of one user.
pub open spec fn user_key(id: int) -> Seq<char> {
    "user:"@ + decimal(id)
}

/// The parameters that carry a user's payload, in the order the insert and
/// the update take them.
pub open spec fn user_params(payload: UserPayloadView) -> Seq<Datum> {
    seq![Datum::Text(payload.name), Datum::Text(payload.email), Datum::Text(payload.password)]
}

pub open spec fn list_users_plan() -> PlanView {
    PlanView { statement: Statement::ListUsers, params: seq![], cache_key: Some(users_key()) }
}

pub open spec fn list_user_plan(id: int) -> PlanView {
    PlanView {
        statement: Statement::ListUser,
        params: seq![Datum::Int(id)],
        cache_key: Some(user_key(id)),
    }
}

pub open spec fn insert_user_plan(payload: UserPayloadView) -> PlanView {
    PlanView { statement: Statement::InsertUser, params: user_params(payload), cache_key: None }
}

pub open spec fn update_user_plan(id: int, payload: UserPayloadView) -> PlanView {
    PlanView {
        statement: Statement::UpdateUser,
        params: user_params(payload).push(Datum::Int(id)),
        cache_key: None,
    }
}

pub open spec fn delete_user_plan(id: int) -> PlanView {
    PlanView { statement: Statement::DeleteUser, params: seq![Datum::Int(id)], cache_key: None }
}

/// The cache key of one user: `user:` and the id in decimal.
pub fn user_cache_key(id: i32) -> (r: String)
    ensures
        r@ == user_key(id as int),
{
    let mut key = String::from_str("user:");
    push_number(&mut key, id);
    key
}

fn payload_params(payload: &UserPayload) -> (r: Vec<Value>)
    ensures
        r.deep_view() == user_params(payload@),
{
    let mut params: Vec<Value> = Vec::new();
    params.push(Value::Text(payload.name.clone()));
    params.push(Value::Text(payload.email.clone()));
    params.push(Value::Text(payload.password.clone()));
    proof {
        assert(params.deep_view() =~= user_params(payload@));
    }
    params
}

/// All users, as a JSON array, read through the cache under `users:all`.
pub fn list_users(phase: Phase, event: Event) -> (r: Step)
    ensures
        r@ == advanced(list_users_plan(), phase@, event@),
{
    let params: Vec<Value> = Vec::new();
    proof {
        assert(params.deep_view() =~= Seq::<Datum>::empty());
    }
    let plan = Plan {
        statement: Statement::ListUsers,
        params,
        cache_key: Some(String::from_str("users:all")),
    };
    advance(plan, phase, event)
}

/// One user by id, as a JSON object, read through the cache under
/// `user:<id>`.
pub fn list_user(id: i32, phase: Phase, event: Event) -> (r: Step)
    ensures
        r@ == advanced(list_user_plan(id as int), phase@, event@),
{
    let plan = Plan {
        statement: Statement::ListUser,
        params: id_param(id),
        cache_key: Some(user_cache_key(id)),
    };
    advance(plan, phase, event)
}

/// Stores a new user; the store assigns the id and the timestamps.
pub fn insert_user(payload: &UserPayload, phase: Phase, event: Event) -> (r: Step)
    ensures
        r@ == advanced(insert_user_plan(payload@), phase@, event@),
{
    let plan = Plan {
        statement: Statement::InsertUser,
        params: payload_params(payload),
        cache_key: None,
    };
    advance(plan, phase, event)
}

/// Overwrites the name, email and password of the user with the given id.
pub fn update_user(id: i32, payload: &UserPayload, phase: Phase, event: Event) -> (r: Step)
    ensures
        r@ == advanced(update_user_plan(id as int, payload@), phase@, event@),
{
    let mut params = payload_params(payload);
    params.push(Value::Int(id));
    proof {
        assert(params.deep_view() =~= user_params(payload@).push(Datum::Int(id as int)));
    }
    let plan = Plan { statement: Statement::UpdateUser, params, cache_key: None };
    advance(plan, phase, event)
}

/// Removes the user with the given id.
pub fn delete_user(id: i32, phase: Phase, event: Event) -> (r: Step)
    ensures
        r@ == advanced(delete_user_plan(id as int), phase@, event@),
{
    let plan = Plan { statement: Statement::DeleteUser, params: id_param(id), cache_key: None };
    advance(plan, phase, event)
}

} // verus!
