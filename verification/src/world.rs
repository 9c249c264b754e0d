//! A model of the cache and the record store.
//!
//! Nothing here runs. The model states what the handlers rely on: a cache
//! that forgets an entry when its time is up, and a store whose statements
//! do what their SQL says. A run plays a request against a world: it
//! performs each action the decision table names and feeds back the event
//! the world answers with, until the request ends.

use crate::handler::{advanced, status_of, ActionView, EventView, PhaseView, PlanView, Status};
use crate::json::array_of;
use crate::prelude::{
    book_json, borrow_json, row_of_book, row_of_borrow, row_of_user, user_json, BookPayloadView,
    BookView, BorrowPayloadView, BorrowView, UserPayloadView, UserView,
};
use crate::statement::Statement;
use crate::timestamp::Civil;
use crate::value::Datum;
use vstd::prelude::*;

verus! {

/// A cached value and the time at which it is forgotten.
pub struct Entry {
    pub value: Seq<char>,
    pub expires: int,
}

/// The cache: whether it answers reads, whether it takes writes, and what
/// it holds. A cache that is down does neither.
pub struct Cache {
    pub readable: bool,
    pub writable: bool,
    pub entries: Map<Seq<char>, Entry>,
}

impl Cache {
    /// The value the cache would return for a key at a time.
    pub open spec fn live(self, key: Seq<char>, now: int) -> Option<Seq<char>> {
        if self.entries.contains_key(key) && now < self.entries[key].expires {
            Some(self.entries[key].value)
        } else {
            None
        }
    }
}

/// A row of the borrow table.
pub struct Loan {
    pub user_id: int,
    pub book_id: int,
    pub borrow_date: Civil,
}

/// The record store: its three tables, the ids it will assign next, and
/// what it fills in by itself when a user is inserted.
pub struct Store {
    pub up: bool,
    pub users: Seq<UserView>,
    pub books: Seq<BookView>,
    pub loans: Seq<Loan>,
    pub next_user_id: int,
    pub next_book_id: int,
    pub default_status: Seq<char>,
    pub clock: Civil,
}

/// The cache, the store, and the time in seconds.
pub struct World {
    pub now: int,
    pub cache: Cache,
    pub store: Store,
}

/// The rows the given users are stored as.
pub open spec fn user_rows(users: Seq<UserView>) -> Seq<Seq<Datum>> {
    users.map_values(|user: UserView| row_of_user(user))
}

/// The rows the given books are stored as.
pub open spec fn book_rows(books: Seq<BookView>) -> Seq<Seq<Datum>> {
    books.map_values(|book: BookView| row_of_book(book))
}

/// The test a `WHERE id = $1` makes of a user.
pub open spec fn user_has_id(id: int) -> spec_fn(UserView) -> bool {
    |user: UserView| user.id == id
}

/// The test of the users a delete by id leaves.
pub open spec fn user_lacks_id(id: int) -> spec_fn(UserView) -> bool {
    |user: UserView| user.id != id
}

/// The test a `WHERE id = $1` makes of a book.
pub open spec fn book_has_id(id: int) -> spec_fn(BookView) -> bool {
    |book: BookView| book.id == id
}

/// The test of the books a delete by id leaves.
pub open spec fn book_lacks_id(id: int) -> spec_fn(BookView) -> bool {
    |book: BookView| book.id != id
}

/// The test a `WHERE br.user_id = $1` makes of a loan.
pub open spec fn loan_of_user(user_id: int) -> spec_fn(Loan) -> bool {
    |loan: Loan| loan.user_id == user_id
}

/// The test a `WHERE br.book_id = $1` makes of a loan.
pub open spec fn loan_of_book(book_id: int) -> spec_fn(Loan) -> bool {
    |loan: Loan| loan.book_id == book_id
}

/// The test a `WHERE br.user_id = $1 AND br.book_id = $2` makes of a loan.
pub open spec fn loan_of_pair(user_id: int, book_id: int) -> spec_fn(Loan) -> bool {
    |loan: Loan| loan.user_id == user_id && loan.book_id == book_id
}

impl Store {
    /// Ids are assigned in increasing order and never twice, and every loan
    /// is of a user and a book that are there.
    pub open spec fn wf(self) -> bool {
        &&& forall|i: int|
            0 <= i < self.users.len() ==> (#[trigger] self.users[i]).id < self.next_user_id
        &&& forall|i: int, j: int|
            0 <= i < j < self.users.len() ==> (#[trigger] self.users[i]).id != (
            #[trigger] self.users[j]).id
        &&& forall|i: int|
            0 <= i < self.books.len() ==> (#[trigger] self.books[i]).id < self.next_book_id
        &&& forall|i: int, j: int|
            0 <= i < j < self.books.len() ==> (#[trigger] self.books[i]).id != (
            #[trigger] self.books[j]).id
        &&& forall|k: int|
            0 <= k < self.loans.len() ==> self.has_user((#[trigger] self.loans[k]).user_id)
                && self.has_book(self.loans[k].book_id)
    }

    /// The users with the id: one at most, where the store is well formed.
    pub open spec fn users_with(self, id: int) -> Seq<UserView> {
        self.users.filter(user_has_id(id))
    }

    /// The books with the id: one at most, where the store is well formed.
    pub open spec fn books_with(self, id: int) -> Seq<BookView> {
        self.books.filter(book_has_id(id))
    }

    /// Whether there is a user with the id.
    pub open spec fn has_user(self, id: int) -> bool {
        self.users_with(id).len() > 0
    }

    /// Whether there is a book with the id.
    pub open spec fn has_book(self, id: int) -> bool {
        self.books_with(id).len() > 0
    }

    /// What the join of a loan with its user and its book reads as.
    pub open spec fn borrow_of(self, loan: Loan) -> BorrowView {
        BorrowView {
            username: self.users_with(loan.user_id)[0].name,
            title: self.books_with(loan.book_id)[0].title,
            borrow_date: loan.borrow_date,
        }
    }

    /// The rows the join returns for the given loans.
    pub open spec fn borrow_rows(self, loans: Seq<Loan>) -> Seq<Seq<Datum>> {
        loans.map_values(|loan: Loan| row_of_borrow(self.borrow_of(loan)))
    }

    /// The rows a read statement returns; `None` where the store is down,
    /// the statement is no read, or the parameters are not what it takes.
    pub open spec fn answer(self, statement: Statement, params: Seq<Datum>) -> Option<
        Seq<Seq<Datum>>,
    > {
        if !self.up || params.len() != statement.arity() {
            None
        } else {
            match statement {
                Statement::ListUsers => Some(user_rows(self.users)),
                Statement::ListUser => match params[0] {
                    Datum::Int(id) => Some(user_rows(self.users_with(id))),
                    _ => None,
                },
                Statement::ListBooks => Some(book_rows(self.books)),
                Statement::ListBook => match params[0] {
                    Datum::Int(id) => Some(book_rows(self.books_with(id))),
                    _ => None,
                },
                Statement::ListBorrows => Some(self.borrow_rows(self.loans)),
                Statement::ListBorrow => match (params[0], params[1]) {
                    (Datum::Int(user_id), Datum::Int(book_id)) => Some(
                        self.borrow_rows(self.loans.filter(loan_of_pair(user_id, book_id))),
                    ),
                    _ => None,
                },
                Statement::ListBorrowsByUser => match params[0] {
                    Datum::Int(user_id) => Some(
                        self.borrow_rows(self.loans.filter(loan_of_user(user_id))),
                    ),
                    _ => None,
                },
                Statement::ListBorrowsByBook => match params[0] {
                    Datum::Int(book_id) => Some(
                        self.borrow_rows(self.loans.filter(loan_of_book(book_id))),
                    ),
                    _ => None,
                },
                _ => None,
            }
        }
    }

    /// The store after a statement that changes rows; `None` where the
    /// store is down, the statement is a read, the parameters are not what
    /// it takes, or a foreign key forbids the change.
    pub open spec fn applied(self, statement: Statement, params: Seq<Datum>) -> Option<Store> {
        if !self.up || params.len() != statement.arity() {
            None
        } else {
            match statement {
                Statement::InsertUser => match (params[0], params[1], params[2]) {
                    (Datum::Text(name), Datum::Text(email), Datum::Text(password)) => Some(
                        Store {
                            users: self.users.push(
                                UserView {
                                    id: self.next_user_id,
                                    name,
                                    email,
                                    password,
                                    trang_thai: self.default_status,
                                    created_at: self.clock,
                                    updated_at: self.clock,
                                },
                            ),
                            next_user_id: self.next_user_id + 1,
                            ..self
                        },
                    ),
                    _ => None,
                },
                Statement::UpdateUser => match (params[0], params[1], params[2], params[3]) {
                    (
                        Datum::Text(name),
                        Datum::Text(email),
                        Datum::Text(password),
                        Datum::Int(id),
                    ) => Some(
                        Store {
                            users: self.users.map_values(
                                |user: UserView|
                                    if user.id == id {
                                        UserView { name, email, password, ..user }
                                    } else {
                                        user
                                    },
                            ),
                            ..self
                        },
                    ),
                    _ => None,
                },
                Statement::DeleteUser => match params[0] {
                    Datum::Int(id) => if self.loans.filter(loan_of_user(id)).len() > 0 {
                        None
                    } else {
                        Some(Store { users: self.users.filter(user_lacks_id(id)), ..self })
                    },
                    _ => None,
                },
                Statement::InsertBook => match (
                    params[0],
                    params[1],
                    params[2],
                    params[3],
                    params[4],
                ) {
                    (
                        Datum::Text(title),
                        Datum::Text(author),
                        Datum::Text(content),
                        Datum::Text(category),
                        Datum::Time(publish_date),
                    ) => Some(
                        Store {
                            books: self.books.push(
                                BookView {
                                    id: self.next_book_id,
                                    title,
                                    author,
                                    content,
                                    category,
                                    publish_date,
                                },
                            ),
                            next_book_id: self.next_book_id + 1,
                            ..self
                        },
                    ),
                    _ => None,
                },
                Statement::UpdateBook => match (
                    params[0],
                    params[1],
                    params[2],
                    params[3],
                    params[4],
                    params[5],
                ) {
                    (
                        Datum::Text(title),
                        Datum::Text(author),
                        Datum::Text(content),
                        Datum::Text(category),
                        Datum::Time(publish_date),
                        Datum::Int(id),
                    ) => Some(
                        Store {
                            books: self.books.map_values(
                                |book: BookView|
                                    if book.id == id {
                                        BookView { id, title, author, content, category, publish_date }
                                    } else {
                                        book
                                    },
                            ),
                            ..self
                        },
                    ),
                    _ => None,
                },
                Statement::DeleteBook => match params[0] {
                    Datum::Int(id) => if self.loans.filter(loan_of_book(id)).len() > 0 {
                        None
                    } else {
                        Some(Store { books: self.books.filter(book_lacks_id(id)), ..self })
                    },
                    _ => None,
                },
                Statement::InsertBorrow => match (params[0], params[1], params[2]) {
                    (Datum::Int(user_id), Datum::Int(book_id), Datum::Time(borrow_date)) => if
                        self.has_user(user_id) && self.has_book(book_id) {
                        Some(
                            Store {
                                loans: self.loans.push(Loan { user_id, book_id, borrow_date }),
                                ..self
                            },
                        )
                    } else {
                        None
                    },
                    _ => None,
                },
                _ => None,
            }
        }
    }
}

/// What the world answers to an action, and the world after it.
pub open spec fn respond(world: World, action: ActionView) -> (World, EventView) {
    match action {
        ActionView::CacheGet { key } => if !world.cache.readable {
            (world, EventView::CacheFailed)
        } else {
            match world.cache.live(key, world.now) {
                Some(value) => (world, EventView::CacheHit { value }),
                None => (world, EventView::CacheMiss),
            }
        },
        ActionView::CachePut { key, value, ttl } => if !world.cache.writable {
            (world, EventView::CacheFailed)
        } else {
            (
                World {
                    cache: Cache {
                        entries: world.cache.entries.insert(
                            key,
                            Entry { value, expires: world.now + ttl },
                        ),
                        ..world.cache
                    },
                    ..world
                },
                EventView::CacheStored,
            )
        },
        ActionView::Query { statement, params } => match world.store.answer(statement, params) {
            Some(rows) => (world, EventView::Rows { rows }),
            None => (world, EventView::StoreFailed),
        },
        ActionView::Execute { statement, params } => match world.store.applied(
            statement,
            params,
        ) {
            Some(store) => (World { store, ..world }, EventView::Executed),
            None => (world, EventView::StoreFailed),
        },
        _ => (world, EventView::Arrived),
    }
}

/// How a request went: the world it left, the action it ended with, and the
/// actions performed before that, in order.
pub struct Run {
    pub world: World,
    pub last: ActionView,
    pub trace: Seq<ActionView>,
}

/// Plays a request from a phase and an event on, for at most `fuel` actions
/// before the last.
pub open spec fn run_from(
    plan: PlanView,
    phase: PhaseView,
    event: EventView,
    world: World,
    fuel: nat,
) -> Run
    decreases fuel,
{
    let step = advanced(plan, phase, event);
    if step.action.is_final() || fuel == 0 {
        Run { world, last: step.action, trace: seq![] }
    } else {
        let (next, answer) = respond(world, step.action);
        let rest = run_from(plan, step.phase, answer, next, (fuel - 1) as nat);
        Run { world: rest.world, last: rest.last, trace: seq![step.action] + rest.trace }
    }
}

/// Plays a whole request against a world.
pub open spec fn run(plan: PlanView, world: World) -> Run {
    run_from(plan, PhaseView::Start, EventView::Arrived, world, 3)
}

/// Whether the plan is a read that goes through the cache under `key`.
pub open spec fn cached_read(plan: PlanView, key: Seq<char>) -> bool {
    plan.statement.reads() && plan.cache_key == Some(key)
}

/// The reply that carries a body.
pub open spec fn reply_with(body: Seq<char>) -> ActionView {
    ActionView::Reply { status: Status::Success, body: Some(body) }
}

/// Whether the cache has nothing to say about the plan: the plan is not
/// cached, the cache is down, or it holds no live entry under the plan's key.
pub open spec fn cache_is_silent(plan: PlanView, world: World) -> bool {
    plan.cache_key matches Some(key) ==> !world.cache.readable || world.cache.live(key, world.now)
        is None
}

/// The JSON array of users.
pub open spec fn users_json(users: Seq<UserView>) -> Seq<char> {
    array_of(users.map_values(|user: UserView| user_json(user)))
}

/// The JSON array of books.
pub open spec fn books_json(books: Seq<BookView>) -> Seq<char> {
    array_of(books.map_values(|book: BookView| book_json(book)))
}

/// The JSON array of borrow records.
pub open spec fn borrows_json(borrows: Seq<BorrowView>) -> Seq<char> {
    array_of(borrows.map_values(|borrow: BorrowView| borrow_json(borrow)))
}

/// The user an insert adds: the payload's fields, the next id, and what the
/// store fills in.
pub open spec fn inserted_user(store: Store, payload: UserPayloadView) -> UserView {
    UserView {
        id: store.next_user_id,
        name: payload.name,
        email: payload.email,
        password: payload.password,
        trang_thai: store.default_status,
        created_at: store.clock,
        updated_at: store.clock,
    }
}

/// The book an insert adds: the payload's fields and the next id.
pub open spec fn inserted_book(store: Store, payload: BookPayloadView) -> BookView {
    BookView {
        id: store.next_book_id,
        title: payload.title,
        author: payload.author,
        content: payload.content,
        category: payload.category,
        publish_date: payload.publish_date,
    }
}

/// The reply to a write that went through.
pub open spec fn reply_to(statement: Statement) -> ActionView {
    ActionView::Reply { status: status_of(statement), body: None }
}

/// The borrow record an insert makes readable: the name of the user and
/// the title of the book with the payload's ids, and the payload's date.
pub open spec fn inserted_borrow(store: Store, payload: BorrowPayloadView) -> BorrowView {
    store.borrow_of(
        Loan {
            user_id: payload.user_id,
            book_id: payload.book_id,
            borrow_date: payload.borrow_date,
        },
    )
}

} // verus!
