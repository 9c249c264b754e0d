use library_api::books::{delete_book, insert_book, list_book, list_books, update_book};
use library_api::borrow::{
    insert_borrow, list_borrow, list_borrows, list_borrows_by_book, list_borrows_by_user,
};
use library_api::handler::{
    advance, content_type, Action, Event, Fault, Phase, Plan, Status, Step, CACHE_TTL_SECS,
};
use library_api::prelude::{BookPayload, BorrowPayload, UserPayload};
use library_api::statement::Statement;
use library_api::timestamp::Timestamp;
use library_api::users::{
    delete_user, insert_user, list_user, list_users, update_user, user_cache_key,
};
use library_api::value::Value;

fn at(year: i32, month: u32, day: u32) -> Timestamp {
    Timestamp::new(year, month, day, 0, 0, 0, 0).unwrap()
}

fn text(s: &str) -> Value {
    Value::Text(s.to_string())
}

fn ann() -> UserPayload {
    UserPayload { name: "Ann".to_string(), email: "a@x.com".to_string(), password: "p".to_string() }
}

fn novel() -> BookPayload {
    BookPayload {
        title: "T".to_string(),
        author: "A".to_string(),
        content: "C".to_string(),
        category: "Fic".to_string(),
        publish_date: at(2020, 1, 1),
    }
}

fn ann_row(id: i32) -> Vec<Value> {
    vec![
        Value::Int(id),
        text("Ann"),
        text("a@x.com"),
        text("p"),
        text("active"),
        Value::Time(at(2024, 1, 1)),
        Value::Time(at(2024, 1, 1)),
    ]
}

const ANN_1: &str = "{\"id\":1,\"name\":\"Ann\",\"email\":\"a@x.com\",\"password\":\"p\",\
                     \"trang_thai\":\"active\",\"created_at\":\"2024-01-01T00:00:00\",\
                     \"updated_at\":\"2024-01-01T00:00:00\"}";

fn stray() -> Step {
    Step { phase: Phase::Done, action: Action::Abort { fault: Fault::Stray } }
}

fn reply(status: Status, body: Option<&str>) -> Step {
    Step { phase: Phase::Done, action: Action::Reply { status, body: body.map(|b| b.to_string()) } }
}

fn abort(fault: Fault) -> Step {
    Step { phase: Phase::Done, action: Action::Abort { fault } }
}

#[test]
fn cache_key_of_a_user_is_its_id_in_decimal() {
    assert_eq!(user_cache_key(1), "user:1");
    assert_eq!(user_cache_key(42), "user:42");
    assert_eq!(user_cache_key(0), "user:0");
    assert_eq!(user_cache_key(-7), "user:-7");
    assert_eq!(user_cache_key(i32::MAX), "user:2147483647");
    assert_eq!(user_cache_key(i32::MIN), "user:-2147483648");
}

#[test]
fn cache_keys_do_not_collide() {
    let mut keys: Vec<String> = (-20..=120).map(user_cache_key).collect();
    keys.push("users:all".to_string());
    let n = keys.len();
    keys.sort();
    keys.dedup();
    assert_eq!(keys.len(), n);
}

#[test]
fn bodies_are_json() {
    assert_eq!(content_type(), "application/json");
}

#[test]
fn ttl_is_one_hour() {
    assert_eq!(CACHE_TTL_SECS, 3600);
}

#[test]
fn status_codes() {
    assert_eq!(Status::Success.code(), 200);
    assert_eq!(Status::Created.code(), 201);
    for fault in [Fault::Store, Fault::NoRows, Fault::ManyRows, Fault::BadRow, Fault::Stray] {
        assert_eq!(fault.code(), 500);
    }
}

#[test]
fn list_users_asks_the_cache_first() {
    let step = list_users(Phase::Start, Event::Arrived);
    assert_eq!(
        step,
        Step { phase: Phase::Lookup, action: Action::CacheGet { key: "users:all".to_string() } }
    );
}

#[test]
fn list_users_replies_with_the_cached_bytes_on_a_hit() {
    let step = list_users(Phase::Lookup, Event::CacheHit { value: "[anything at all".to_string() });
    assert_eq!(step, reply(Status::Success, Some("[anything at all")));
}

#[test]
fn list_users_asks_the_store_on_a_miss_and_on_a_failing_cache() {
    let query = Step {
        phase: Phase::Load,
        action: Action::Query { statement: Statement::ListUsers, params: vec![] },
    };
    assert_eq!(list_users(Phase::Lookup, Event::CacheMiss), query);
    assert_eq!(list_users(Phase::Lookup, Event::CacheFailed), query);
}

#[test]
fn list_users_offers_the_body_to_the_cache_for_an_hour() {
    let step = list_users(Phase::Load, Event::Rows { rows: vec![ann_row(1)] });
    let body = format!("[{}]", ANN_1);
    assert_eq!(
        step,
        Step {
            phase: Phase::Fill { body: body.clone() },
            action: Action::CachePut { key: "users:all".to_string(), value: body, ttl: 3600 },
        }
    );
}

#[test]
fn list_users_replies_whether_or_not_the_cache_took_the_body() {
    let body = format!("[{}]", ANN_1);
    assert_eq!(
        list_users(Phase::Fill { body: body.clone() }, Event::CacheStored),
        reply(Status::Success, Some(&body))
    );
    assert_eq!(
        list_users(Phase::Fill { body: body.clone() }, Event::CacheFailed),
        reply(Status::Success, Some(&body))
    );
}

#[test]
fn list_users_of_an_empty_table_is_an_empty_array() {
    let step = list_users(Phase::Load, Event::Rows { rows: vec![] });
    assert_eq!(
        step,
        Step {
            phase: Phase::Fill { body: "[]".to_string() },
            action: Action::CachePut {
                key: "users:all".to_string(),
                value: "[]".to_string(),
                ttl: 3600
            },
        }
    );
}

#[test]
fn list_users_gives_up_when_the_store_fails() {
    assert_eq!(list_users(Phase::Load, Event::StoreFailed), abort(Fault::Store));
    assert_eq!(
        list_users(Phase::Load, Event::Rows { rows: vec![vec![Value::Int(1)]] }),
        abort(Fault::BadRow)
    );
}

#[test]
fn list_user_goes_through_the_cache_under_its_own_key() {
    assert_eq!(
        list_user(1, Phase::Start, Event::Arrived),
        Step { phase: Phase::Lookup, action: Action::CacheGet { key: "user:1".to_string() } }
    );
    assert_eq!(
        list_user(1, Phase::Lookup, Event::CacheHit { value: ANN_1.to_string() }),
        reply(Status::Success, Some(ANN_1))
    );
    assert_eq!(
        list_user(1, Phase::Lookup, Event::CacheMiss),
        Step {
            phase: Phase::Load,
            action: Action::Query { statement: Statement::ListUser, params: vec![Value::Int(1)] },
        }
    );
    assert_eq!(
        list_user(1, Phase::Load, Event::Rows { rows: vec![ann_row(1)] }),
        Step {
            phase: Phase::Fill { body: ANN_1.to_string() },
            action: Action::CachePut {
                key: "user:1".to_string(),
                value: ANN_1.to_string(),
                ttl: 3600
            },
        }
    );
    assert_eq!(
        list_user(1, Phase::Fill { body: ANN_1.to_string() }, Event::CacheFailed),
        reply(Status::Success, Some(ANN_1))
    );
}

#[test]
fn list_user_without_a_row_is_a_fault() {
    assert_eq!(list_user(9, Phase::Load, Event::Rows { rows: vec![] }), abort(Fault::NoRows));
    assert_eq!(
        list_user(1, Phase::Load, Event::Rows { rows: vec![ann_row(1), ann_row(1)] }),
        abort(Fault::ManyRows)
    );
    assert_eq!(list_user(1, Phase::Load, Event::StoreFailed), abort(Fault::Store));
}

#[test]
fn insert_user_executes_and_replies_created() {
    assert_eq!(
        insert_user(&ann(), Phase::Start, Event::Arrived),
        Step {
            phase: Phase::Apply,
            action: Action::Execute {
                statement: Statement::InsertUser,
                params: vec![text("Ann"), text("a@x.com"), text("p")],
            },
        }
    );
    assert_eq!(insert_user(&ann(), Phase::Apply, Event::Executed), reply(Status::Created, None));
    assert_eq!(insert_user(&ann(), Phase::Apply, Event::StoreFailed), abort(Fault::Store));
}

#[test]
fn update_user_puts_the_id_last() {
    assert_eq!(
        update_user(5, &ann(), Phase::Start, Event::Arrived),
        Step {
            phase: Phase::Apply,
            action: Action::Execute {
                statement: Statement::UpdateUser,
                params: vec![text("Ann"), text("a@x.com"), text("p"), Value::Int(5)],
            },
        }
    );
    assert_eq!(update_user(5, &ann(), Phase::Apply, Event::Executed), reply(Status::Success, None));
    assert_eq!(update_user(5, &ann(), Phase::Apply, Event::StoreFailed), abort(Fault::Store));
}

#[test]
fn delete_user_executes_and_replies_ok() {
    assert_eq!(
        delete_user(5, Phase::Start, Event::Arrived),
        Step {
            phase: Phase::Apply,
            action: Action::Execute { statement: Statement::DeleteUser, params: vec![Value::Int(5)] },
        }
    );
    assert_eq!(delete_user(5, Phase::Apply, Event::Executed), reply(Status::Success, None));
    assert_eq!(delete_user(5, Phase::Apply, Event::StoreFailed), abort(Fault::Store));
}

#[test]
fn writes_never_name_the_cache() {
    let steps = vec![
        insert_user(&ann(), Phase::Start, Event::Arrived),
        update_user(1, &ann(), Phase::Start, Event::Arrived),
        delete_user(1, Phase::Start, Event::Arrived),
        insert_user(&ann(), Phase::Apply, Event::Executed),
        update_user(1, &ann(), Phase::Apply, Event::Executed),
        delete_user(1, Phase::Apply, Event::Executed),
    ];
    for step in steps {
        assert!(!matches!(step.action, Action::CacheGet { .. } | Action::CachePut { .. }));
    }
}

#[test]
fn books_are_read_without_the_cache() {
    assert_eq!(
        list_books(Phase::Start, Event::Arrived),
        Step {
            phase: Phase::Load,
            action: Action::Query { statement: Statement::ListBooks, params: vec![] },
        }
    );
    assert_eq!(list_books(Phase::Load, Event::Rows { rows: vec![] }), reply(Status::Success, Some("[]")));
    assert_eq!(
        list_book(7, Phase::Start, Event::Arrived),
        Step {
            phase: Phase::Load,
            action: Action::Query { statement: Statement::ListBook, params: vec![Value::Int(7)] },
        }
    );
    let row = vec![Value::Int(7), text("T"), text("A"), text("C"), text("Fic"), Value::Time(at(2020, 1, 1))];
    let json = "{\"id\":7,\"title\":\"T\",\"author\":\"A\",\"content\":\"C\",\"category\":\"Fic\",\
                \"publish_date\":\"2020-01-01T00:00:00\"}";
    assert_eq!(
        list_book(7, Phase::Load, Event::Rows { rows: vec![row.clone()] }),
        reply(Status::Success, Some(json))
    );
    assert_eq!(
        list_books(Phase::Load, Event::Rows { rows: vec![row.clone(), row] }),
        reply(Status::Success, Some(&format!("[{},{}]", json, json)))
    );
    assert_eq!(list_book(7, Phase::Load, Event::Rows { rows: vec![] }), abort(Fault::NoRows));
    assert_eq!(list_books(Phase::Load, Event::StoreFailed), abort(Fault::Store));
}

#[test]
fn books_are_written() {
    assert_eq!(
        insert_book(&novel(), Phase::Start, Event::Arrived),
        Step {
            phase: Phase::Apply,
            action: Action::Execute {
                statement: Statement::InsertBook,
                params: vec![text("T"), text("A"), text("C"), text("Fic"), Value::Time(at(2020, 1, 1))],
            },
        }
    );
    assert_eq!(insert_book(&novel(), Phase::Apply, Event::Executed), reply(Status::Created, None));
    assert_eq!(
        update_book(3, &novel(), Phase::Start, Event::Arrived),
        Step {
            phase: Phase::Apply,
            action: Action::Execute {
                statement: Statement::UpdateBook,
                params: vec![
                    text("T"),
                    text("A"),
                    text("C"),
                    text("Fic"),
                    Value::Time(at(2020, 1, 1)),
                    Value::Int(3)
                ],
            },
        }
    );
    assert_eq!(update_book(3, &novel(), Phase::Apply, Event::Executed), reply(Status::Success, None));
    assert_eq!(
        delete_book(3, Phase::Start, Event::Arrived),
        Step {
            phase: Phase::Apply,
            action: Action::Execute { statement: Statement::DeleteBook, params: vec![Value::Int(3)] },
        }
    );
    assert_eq!(delete_book(3, Phase::Apply, Event::Executed), reply(Status::Success, None));
    assert_eq!(delete_book(3, Phase::Apply, Event::StoreFailed), abort(Fault::Store));
}

#[test]
fn borrows_are_read() {
    assert_eq!(
        list_borrows(Phase::Start, Event::Arrived),
        Step {
            phase: Phase::Load,
            action: Action::Query { statement: Statement::ListBorrows, params: vec![] },
        }
    );
    assert_eq!(
        list_borrow(1, 7, Phase::Start, Event::Arrived),
        Step {
            phase: Phase::Load,
            action: Action::Query {
                statement: Statement::ListBorrow,
                params: vec![Value::Int(1), Value::Int(7)]
            },
        }
    );
    assert_eq!(
        list_borrows_by_user(1, Phase::Start, Event::Arrived),
        Step {
            phase: Phase::Load,
            action: Action::Query {
                statement: Statement::ListBorrowsByUser,
                params: vec![Value::Int(1)]
            },
        }
    );
    assert_eq!(
        list_borrows_by_book(7, Phase::Start, Event::Arrived),
        Step {
            phase: Phase::Load,
            action: Action::Query {
                statement: Statement::ListBorrowsByBook,
                params: vec![Value::Int(7)]
            },
        }
    );
    let row = vec![text("Ann"), text("T"), Value::Time(at(2024, 1, 1))];
    let json = "{\"username\":\"Ann\",\"title\":\"T\",\"borrow_date\":\"2024-01-01T00:00:00\"}";
    assert_eq!(
        list_borrow(1, 7, Phase::Load, Event::Rows { rows: vec![row.clone()] }),
        reply(Status::Success, Some(json))
    );
    assert_eq!(list_borrow(1, 7, Phase::Load, Event::Rows { rows: vec![] }), abort(Fault::NoRows));
    assert_eq!(
        list_borrows_by_user(1, Phase::Load, Event::Rows { rows: vec![row.clone()] }),
        reply(Status::Success, Some(&format!("[{}]", json)))
    );
    assert_eq!(
        list_borrows_by_book(7, Phase::Load, Event::Rows { rows: vec![] }),
        reply(Status::Success, Some("[]"))
    );
    assert_eq!(
        list_borrows(Phase::Load, Event::Rows { rows: vec![row.clone(), row] }),
        reply(Status::Success, Some(&format!("[{},{}]", json, json)))
    );
}

#[test]
fn borrow_is_inserted() {
    let payload = BorrowPayload { user_id: 1, book_id: 7, borrow_date: at(2024, 1, 1) };
    assert_eq!(
        insert_borrow(&payload, Phase::Start, Event::Arrived),
        Step {
            phase: Phase::Apply,
            action: Action::Execute {
                statement: Statement::InsertBorrow,
                params: vec![Value::Int(1), Value::Int(7), Value::Time(at(2024, 1, 1))],
            },
        }
    );
    assert_eq!(insert_borrow(&payload, Phase::Apply, Event::Executed), reply(Status::Created, None));
    assert_eq!(insert_borrow(&payload, Phase::Apply, Event::StoreFailed), abort(Fault::Store));
}

#[test]
fn an_event_out_of_turn_ends_the_request() {
    assert_eq!(list_users(Phase::Start, Event::CacheMiss), stray());
    assert_eq!(list_users(Phase::Lookup, Event::Arrived), stray());
    assert_eq!(list_users(Phase::Lookup, Event::Rows { rows: vec![] }), stray());
    assert_eq!(list_users(Phase::Load, Event::CacheMiss), stray());
    assert_eq!(list_users(Phase::Fill { body: "[]".to_string() }, Event::Executed), stray());
    assert_eq!(list_users(Phase::Apply, Event::Executed), stray());
    assert_eq!(list_users(Phase::Done, Event::Arrived), stray());
    assert_eq!(list_books(Phase::Lookup, Event::CacheMiss), stray());
    assert_eq!(list_books(Phase::Fill { body: "[]".to_string() }, Event::CacheStored), stray());
    assert_eq!(insert_user(&ann(), Phase::Load, Event::Rows { rows: vec![] }), stray());
    assert_eq!(insert_user(&ann(), Phase::Apply, Event::CacheStored), stray());
    assert_eq!(delete_book(1, Phase::Done, Event::Executed), stray());
}

#[test]
fn advance_takes_any_plan() {
    let plan = Plan {
        statement: Statement::ListBooks,
        params: vec![],
        cache_key: Some("books:all".to_string()),
    };
    assert_eq!(
        advance(plan.clone(), Phase::Start, Event::Arrived),
        Step { phase: Phase::Lookup, action: Action::CacheGet { key: "books:all".to_string() } }
    );
    assert_eq!(
        advance(plan, Phase::Load, Event::Rows { rows: vec![] }),
        Step {
            phase: Phase::Fill { body: "[]".to_string() },
            action: Action::CachePut {
                key: "books:all".to_string(),
                value: "[]".to_string(),
                ttl: 3600
            },
        }
    );
    let write = Plan {
        statement: Statement::DeleteUser,
        params: vec![Value::Int(1)],
        cache_key: Some("ignored".to_string()),
    };
    assert_eq!(
        advance(write, Phase::Start, Event::Arrived),
        Step {
            phase: Phase::Apply,
            action: Action::Execute { statement: Statement::DeleteUser, params: vec![Value::Int(1)] },
        }
    );
}
