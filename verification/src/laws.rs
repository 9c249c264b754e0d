//! The laws the service keeps when the cache and the record store behave
//! as the model of them says.

use crate::books::{
    delete_book_plan, insert_book_plan, list_book_plan, list_books_plan, update_book_plan,
};
use crate::borrow::{
    insert_borrow_plan, list_borrow_plan, list_borrows_by_book_plan, list_borrows_by_user_plan,
    list_borrows_plan,
};
use crate::handler::{
    record_json, rendered, status_of, ActionView, EventView, Fault, PhaseView, PlanView,
    CACHE_TTL_SECS,
};
use crate::json::{array_of, decimal, digit, digits};
use crate::prelude::{
    book_json, book_of_row, borrow_json, borrow_of_row, row_of_book, row_of_borrow, row_of_user,
    user_json, user_of_row, BookPayloadView, BookView, BorrowPayloadView, BorrowView,
    UserPayloadView, UserView,
};
use crate::statement::{Record, Statement};
use crate::users::{
    delete_user_plan, insert_user_plan, list_user_plan, list_users_plan, update_user_plan,
    user_key, users_key,
};
use crate::value::Datum;
use crate::world::{
    book_has_id, book_lacks_id, book_rows, books_json, borrows_json, cache_is_silent, cached_read,
    inserted_book, inserted_borrow, inserted_user, loan_of_book, loan_of_pair, loan_of_user,
    reply_to, reply_with, run, run_from, user_has_id, user_lacks_id, user_rows, users_json, Cache,
    Entry, Loan, Store, World,
};
use vstd::prelude::*;

verus! {

/// Every request ends, with a reply or an abort, after at most three
/// actions against the cache and the store.
pub proof fn law_every_request_ends(plan: PlanView, world: World)
    ensures
        run(plan, world).last.is_final(),
        run(plan, world).trace.len() <= 3,
        run(plan, world).world.now == world.now,
{
    reveal_with_fuel(run_from, 4);
}

/// A cached read that finds its key in the cache replies with the cached
/// value, byte for byte, and with nothing else: the store is not asked and
/// the world stays as it was.
pub proof fn law_hit_is_served_from_cache(
    plan: PlanView,
    key: Seq<char>,
    world: World,
    value: Seq<char>,
)
    requires
        cached_read(plan, key),
        world.cache.readable,
        world.cache.live(key, world.now) == Some(value),
    ensures
        run(plan, world).last == reply_with(value),
        run(plan, world).trace == seq![ActionView::CacheGet { key }],
        run(plan, world).world == world,
{
    reveal_with_fuel(run_from, 4);
    assert(run(plan, world).trace =~= seq![ActionView::CacheGet { key }]);
}

/// A cached read that misses asks the store and replies with the body made
/// from its rows. Where the cache takes writes, it holds that body for an
/// hour from then on; where it does not, it stays as it was and the reply
/// is the same.
pub proof fn law_miss_loads_and_fills(
    plan: PlanView,
    key: Seq<char>,
    world: World,
    rows: Seq<Seq<Datum>>,
    body: Seq<char>,
)
    requires
        cached_read(plan, key),
        world.cache.readable,
        world.cache.live(key, world.now) is None,
        world.store.answer(plan.statement, plan.params) == Some(rows),
        rendered(plan.statement, rows) == Ok::<Seq<char>, Fault>(body),
    ensures
        run(plan, world).last == reply_with(body),
        run(plan, world).world.store == world.store,
        world.cache.writable ==> run(plan, world).world.cache == (Cache {
            entries: world.cache.entries.insert(
                key,
                Entry { value: body, expires: world.now + CACHE_TTL_SECS },
            ),
            ..world.cache
        }),
        world.cache.writable ==> forall|at: int|
            at < world.now + 3600 ==> #[trigger] run(plan, world).world.cache.live(key, at)
                == Some(body),
        world.cache.writable ==> forall|at: int|
            at >= world.now + 3600 ==> #[trigger] run(plan, world).world.cache.live(key, at)
                is None,
        !world.cache.writable ==> run(plan, world).world == world,
{
    reveal_with_fuel(run_from, 4);
}

/// After a cold read through the cache, a second read of the same key
/// within the hour replies with the same bytes, taken from the cache: no
/// action of the second request goes to the store.
pub proof fn law_second_read_is_byte_identical(
    plan: PlanView,
    key: Seq<char>,
    world: World,
    rows: Seq<Seq<Datum>>,
    body: Seq<char>,
    later: int,
)
    requires
        cached_read(plan, key),
        world.cache.readable,
        world.cache.writable,
        world.cache.live(key, world.now) is None,
        world.store.answer(plan.statement, plan.params) == Some(rows),
        rendered(plan.statement, rows) == Ok::<Seq<char>, Fault>(body),
        world.now <= later < world.now + 3600,
    ensures
        ({
            let first = run(plan, world);
            let second = run(plan, World { now: later, ..first.world });
            &&& first.last == reply_with(body)
            &&& second.last == first.last
            &&& forall|i: int|
                0 <= i < second.trace.len() ==> !(#[trigger] second.trace[i]).touches_store()
        }),
{
    law_miss_loads_and_fills(plan, key, world, rows, body);
    let first = run(plan, world);
    let again = World { now: later, ..first.world };
    assert(first.world.cache.live(key, later) == Some(body));
    law_hit_is_served_from_cache(plan, key, again, body);
}

/// Requests do not wait for one another. A request that has seen a miss
/// goes on to the store and to the cache whatever another request has put
/// there meanwhile: it replies with the body made from the store's rows,
/// and its write stands in the cache, over any earlier one.
pub proof fn law_last_fill_wins(
    plan: PlanView,
    key: Seq<char>,
    world: World,
    rows: Seq<Seq<Datum>>,
    body: Seq<char>,
)
    requires
        cached_read(plan, key),
        world.cache.writable,
        world.store.answer(plan.statement, plan.params) == Some(rows),
        rendered(plan.statement, rows) == Ok::<Seq<char>, Fault>(body),
    ensures
        ({
            let rest = run_from(plan, PhaseView::Lookup, EventView::CacheMiss, world, 2);
            &&& rest.last == reply_with(body)
            &&& rest.world.store == world.store
            &&& rest.world.cache.entries[key] == (Entry {
                value: body,
                expires: world.now + CACHE_TTL_SECS,
            })
        }),
{
    reveal_with_fuel(run_from, 3);
}

/// A cache that cannot be reached does not fail a cached read: the reply is
/// the body made from the store's rows, as after a miss, and the world
/// stays as it was.
pub proof fn law_cache_outage_is_a_miss(
    plan: PlanView,
    key: Seq<char>,
    world: World,
    rows: Seq<Seq<Datum>>,
    body: Seq<char>,
)
    requires
        cached_read(plan, key),
        !world.cache.readable,
        !world.cache.writable,
        world.store.answer(plan.statement, plan.params) == Some(rows),
        rendered(plan.statement, rows) == Ok::<Seq<char>, Fault>(body),
    ensures
        run(plan, world).last == reply_with(body),
        run(plan, world).world == world,
{
    reveal_with_fuel(run_from, 4);
}

/// A read whose rows make no body, or whose query the store fails, ends in
/// that fault whether or not it is cached, unless the cache answers first.
pub proof fn law_read_fault_is_surfaced(plan: PlanView, world: World)
    requires
        plan.statement.reads(),
        cache_is_silent(plan, world),
    ensures
        world.store.answer(plan.statement, plan.params) is None ==> run(plan, world).last
            == (ActionView::Abort { fault: Fault::Store }),
        world.store.answer(plan.statement, plan.params) matches Some(rows) ==> (rendered(
            plan.statement,
            rows,
        ) matches Err(fault) ==> run(plan, world).last == (ActionView::Abort { fault })),
{
    reveal_with_fuel(run_from, 4);
}

/// A write never touches the cache: whatever the store says to it, the
/// cache holds after the request what it held before.
pub proof fn law_writes_leave_cache_alone(plan: PlanView, world: World)
    requires
        !plan.statement.reads(),
    ensures
        run(plan, world).world.cache == world.cache,
        run(plan, world).trace == seq![
            ActionView::Execute { statement: plan.statement, params: plan.params },
        ],
        world.store.applied(plan.statement, plan.params) matches Some(store) ==> run(
            plan,
            world,
        ).world.store == store && run(plan, world).last == (ActionView::Reply {
            status: status_of(plan.statement),
            body: None,
        }),
        world.store.applied(plan.statement, plan.params) is None ==> run(plan, world).world
            == world && run(plan, world).last == (ActionView::Abort { fault: Fault::Store }),
{
    reveal_with_fuel(run_from, 4);
    assert(run(plan, world).trace =~= seq![
        ActionView::Execute { statement: plan.statement, params: plan.params },
    ]);
}

/// Whatever the cache does short of a hit, it does not change the reply of
/// a read: whether the read is cached or not, whether the cache answers or
/// not, and whether it takes the write or not, the reply is the body made
/// from the store's rows. A read that is not cached leaves the world as it
/// was.
pub proof fn law_read_replies_from_store(
    plan: PlanView,
    world: World,
    rows: Seq<Seq<Datum>>,
    body: Seq<char>,
)
    requires
        plan.statement.reads(),
        cache_is_silent(plan, world),
        world.store.answer(plan.statement, plan.params) == Some(rows),
        rendered(plan.statement, rows) == Ok::<Seq<char>, Fault>(body),
    ensures
        run(plan, world).last == reply_with(body),
        run(plan, world).world.store == world.store,
        plan.cache_key is None ==> run(plan, world).world == world,
{
    reveal_with_fuel(run_from, 4);
}

/// A user written as a row reads back as the same user.
pub proof fn law_user_row_reads_back(user: UserView)
    ensures
        user_of_row(row_of_user(user)) == Some(user),
{
}

/// A book written as a row reads back as the same book.
pub proof fn law_book_row_reads_back(book: BookView)
    ensures
        book_of_row(row_of_book(book)) == Some(book),
{
}

/// A borrow record written as a row reads back as the same record.
pub proof fn law_borrow_row_reads_back(borrow: BorrowView)
    ensures
        borrow_of_row(row_of_borrow(borrow)) == Some(borrow),
{
}

/// The rows of any users make the array of those users, and the one row of
/// a lookup makes that user.
proof fn lemma_users_render(users: Seq<UserView>)
    ensures
        rendered(Statement::ListUsers, user_rows(users)) == Ok::<Seq<char>, Fault>(
            users_json(users),
        ),
        users.len() == 0 ==> rendered(Statement::ListUser, user_rows(users)) == Err::<
            Seq<char>,
            Fault,
        >(Fault::NoRows),
        users.len() == 1 ==> rendered(Statement::ListUser, user_rows(users)) == Ok::<
            Seq<char>,
            Fault,
        >(user_json(users[0])),
{
    let rows = user_rows(users);
    assert forall|i: int| 0 <= i < rows.len() implies (#[trigger] record_json(
        Record::User,
        rows[i],
    )) == Some(user_json(users[i])) by {
        law_user_row_reads_back(users[i]);
    }
    assert(Seq::new(rows.len(), |i: int| record_json(Record::User, rows[i])->0)
        =~= users.map_values(|user: UserView| user_json(user)));
}

/// The rows of any books make the array of those books, and the one row of
/// a lookup makes that book.
proof fn lemma_books_render(books: Seq<BookView>)
    ensures
        rendered(Statement::ListBooks, book_rows(books)) == Ok::<Seq<char>, Fault>(
            books_json(books),
        ),
        books.len() == 0 ==> rendered(Statement::ListBook, book_rows(books)) == Err::<
            Seq<char>,
            Fault,
        >(Fault::NoRows),
        books.len() == 1 ==> rendered(Statement::ListBook, book_rows(books)) == Ok::<
            Seq<char>,
            Fault,
        >(book_json(books[0])),
{
    let rows = book_rows(books);
    assert forall|i: int| 0 <= i < rows.len() implies (#[trigger] record_json(
        Record::Book,
        rows[i],
    )) == Some(book_json(books[i])) by {
        law_book_row_reads_back(books[i]);
    }
    assert(Seq::new(rows.len(), |i: int| record_json(Record::Book, rows[i])->0)
        =~= books.map_values(|book: BookView| book_json(book)));
}

/// The rows of any loans make the array of their borrow records, and the
/// one row of a lookup makes that record.
proof fn lemma_borrows_render(store: Store, loans: Seq<Loan>)
    ensures
        rendered(Statement::ListBorrows, store.borrow_rows(loans)) == Ok::<Seq<char>, Fault>(
            borrows_json(loans.map_values(|loan: Loan| store.borrow_of(loan))),
        ),
        loans.len() == 1 ==> rendered(Statement::ListBorrow, store.borrow_rows(loans)) == Ok::<
            Seq<char>,
            Fault,
        >(borrow_json(store.borrow_of(loans[0]))),
{
    let rows = store.borrow_rows(loans);
    let borrows = loans.map_values(|loan: Loan| store.borrow_of(loan));
    assert forall|i: int| 0 <= i < rows.len() implies (#[trigger] record_json(
        Record::Borrow,
        rows[i],
    )) == Some(borrow_json(borrows[i])) by {
        law_borrow_row_reads_back(borrows[i]);
    }
    assert(Seq::new(rows.len(), |i: int| record_json(Record::Borrow, rows[i])->0)
        =~= borrows.map_values(|borrow: BorrowView| borrow_json(borrow)));
}

/// A user that was inserted is listed: where the cache is silent about the
/// list, the list read right after the insert is the users that were there
/// and, last, the new one with the payload's name, email and password.
pub proof fn law_inserted_user_is_listed(payload: UserPayloadView, world: World)
    requires
        world.store.up,
        cache_is_silent(list_users_plan(), world),
    ensures
        ({
            let insert = run(insert_user_plan(payload), world);
            let list = run(list_users_plan(), insert.world);
            &&& insert.last == reply_to(Statement::InsertUser)
            &&& list.last == reply_with(
                users_json(world.store.users.push(inserted_user(world.store, payload))),
            )
        }),
{
    let plan = insert_user_plan(payload);
    law_writes_leave_cache_alone(plan, world);
    law_every_request_ends(plan, world);
    let after = run(plan, world).world;
    lemma_users_render(after.store.users);
    law_read_replies_from_store(
        list_users_plan(),
        after,
        user_rows(after.store.users),
        users_json(after.store.users),
    );
}

/// A user that was inserted is found under the id the store gave it: where
/// the cache is silent about that id, the lookup right after the insert
/// replies with the payload's name, email and password.
pub proof fn law_inserted_user_is_found(payload: UserPayloadView, world: World)
    requires
        world.store.up,
        world.store.wf(),
        cache_is_silent(list_user_plan(world.store.next_user_id), world),
    ensures
        ({
            let insert = run(insert_user_plan(payload), world);
            let get = run(list_user_plan(world.store.next_user_id), insert.world);
            get.last == reply_with(user_json(inserted_user(world.store, payload)))
        }),
{
    let plan = insert_user_plan(payload);
    let id = world.store.next_user_id;
    let new = inserted_user(world.store, payload);
    law_writes_leave_cache_alone(plan, world);
    law_every_request_ends(plan, world);
    let after = run(plan, world).world;
    assert(after.store.users == world.store.users.push(new));
    world.store.users.lemma_all_neg_filter_empty(user_has_id(id));
    world.store.users.lemma_filter_push(new, user_has_id(id));
    assert(after.store.users_with(id) =~= seq![new]);
    lemma_users_render(after.store.users_with(id));
    law_read_replies_from_store(
        list_user_plan(id),
        after,
        user_rows(after.store.users_with(id)),
        user_json(new),
    );
}

/// A book that was inserted is listed and is found under the id the store
/// gave it, with the payload's fields.
pub proof fn law_inserted_book_is_read(payload: BookPayloadView, world: World)
    requires
        world.store.up,
        world.store.wf(),
    ensures
        ({
            let insert = run(insert_book_plan(payload), world);
            let list = run(list_books_plan(), insert.world);
            let get = run(list_book_plan(world.store.next_book_id), insert.world);
            &&& insert.last == reply_to(Statement::InsertBook)
            &&& list.last == reply_with(
                books_json(world.store.books.push(inserted_book(world.store, payload))),
            )
            &&& get.last == reply_with(book_json(inserted_book(world.store, payload)))
        }),
{
    let plan = insert_book_plan(payload);
    let id = world.store.next_book_id;
    let new = inserted_book(world.store, payload);
    law_writes_leave_cache_alone(plan, world);
    law_every_request_ends(plan, world);
    let after = run(plan, world).world;
    assert(after.store.books == world.store.books.push(new));
    lemma_books_render(after.store.books);
    law_read_replies_from_store(
        list_books_plan(),
        after,
        book_rows(after.store.books),
        books_json(after.store.books),
    );
    world.store.books.lemma_all_neg_filter_empty(book_has_id(id));
    world.store.books.lemma_filter_push(new, book_has_id(id));
    assert(after.store.books_with(id) =~= seq![new]);
    lemma_books_render(after.store.books_with(id));
    law_read_replies_from_store(
        list_book_plan(id),
        after,
        book_rows(after.store.books_with(id)),
        book_json(new),
    );
}

/// A borrow that was inserted for a user and a book that are there is
/// listed last among the borrow records, and where that user had not
/// borrowed that book before, the lookup of the pair finds it.
pub proof fn law_inserted_borrow_is_read(payload: BorrowPayloadView, world: World)
    requires
        world.store.up,
        world.store.has_user(payload.user_id),
        world.store.has_book(payload.book_id),
    ensures
        ({
            let insert = run(insert_borrow_plan(payload), world);
            let list = run(list_borrows_plan(), insert.world);
            let get = run(list_borrow_plan(payload.user_id, payload.book_id), insert.world);
            let before = world.store.loans.map_values(|loan: Loan| world.store.borrow_of(loan));
            &&& insert.last == reply_to(Statement::InsertBorrow)
            &&& list.last == reply_with(
                borrows_json(before.push(inserted_borrow(world.store, payload))),
            )
            &&& world.store.loans.filter(loan_of_pair(payload.user_id, payload.book_id)).len()
                == 0 ==> get.last == reply_with(
                borrow_json(inserted_borrow(world.store, payload)),
            )
        }),
{
    let plan = insert_borrow_plan(payload);
    let new = Loan {
        user_id: payload.user_id,
        book_id: payload.book_id,
        borrow_date: payload.borrow_date,
    };
    let pair = loan_of_pair(payload.user_id, payload.book_id);
    law_writes_leave_cache_alone(plan, world);
    law_every_request_ends(plan, world);
    let after = run(plan, world).world;
    assert(after.store.loans == world.store.loans.push(new));
    assert(after.store.users == world.store.users);
    assert(after.store.books == world.store.books);
    assert forall|loan: Loan| after.store.borrow_of(loan) == world.store.borrow_of(loan) by {
    }
    let before = world.store.loans.map_values(|loan: Loan| world.store.borrow_of(loan));
    assert(after.store.loans.map_values(|loan: Loan| after.store.borrow_of(loan))
        =~= before.push(world.store.borrow_of(new)));
    lemma_borrows_render(after.store, after.store.loans);
    law_read_replies_from_store(
        list_borrows_plan(),
        after,
        after.store.borrow_rows(after.store.loans),
        borrows_json(before.push(world.store.borrow_of(new))),
    );
    if world.store.loans.filter(pair).len() == 0 {
        world.store.loans.lemma_filter_push(new, pair);
        assert(after.store.loans.filter(pair) =~= seq![new]);
        lemma_borrows_render(after.store, after.store.loans.filter(pair));
        law_read_replies_from_store(
            list_borrow_plan(payload.user_id, payload.book_id),
            after,
            after.store.borrow_rows(after.store.loans.filter(pair)),
            borrow_json(world.store.borrow_of(new)),
        );
    }
}

/// A user that was deleted is not found: where the cache is silent about
/// the id, the lookup right after the delete ends in the fault of a lookup
/// without a row, not in a reply.
pub proof fn law_deleted_user_is_not_found(id: int, world: World)
    requires
        world.store.applied(Statement::DeleteUser, seq![Datum::Int(id)]) is Some,
        cache_is_silent(list_user_plan(id), world),
    ensures
        ({
            let delete = run(delete_user_plan(id), world);
            let get = run(list_user_plan(id), delete.world);
            &&& delete.last == reply_to(Statement::DeleteUser)
            &&& get.last == (ActionView::Abort { fault: Fault::NoRows })
        }),
{
    let plan = delete_user_plan(id);
    law_writes_leave_cache_alone(plan, world);
    law_every_request_ends(plan, world);
    let after = run(plan, world).world;
    let left = world.store.users.filter(user_lacks_id(id));
    assert(after.store.users == left);
    assert forall|i: int| 0 <= i < left.len() implies !user_has_id(id)(#[trigger] left[i]) by {
        world.store.users.lemma_filter_pred(user_lacks_id(id), i);
    }
    left.lemma_all_neg_filter_empty(user_has_id(id));
    lemma_users_render(after.store.users_with(id));
    law_read_fault_is_surfaced(list_user_plan(id), after);
}

/// A book that was deleted is not found: the lookup right after the delete
/// ends in the fault of a lookup without a row.
pub proof fn law_deleted_book_is_not_found(id: int, world: World)
    requires
        world.store.applied(Statement::DeleteBook, seq![Datum::Int(id)]) is Some,
    ensures
        ({
            let delete = run(delete_book_plan(id), world);
            let get = run(list_book_plan(id), delete.world);
            &&& delete.last == reply_to(Statement::DeleteBook)
            &&& get.last == (ActionView::Abort { fault: Fault::NoRows })
        }),
{
    let plan = delete_book_plan(id);
    law_writes_leave_cache_alone(plan, world);
    law_every_request_ends(plan, world);
    let after = run(plan, world).world;
    let left = world.store.books.filter(book_lacks_id(id));
    assert(after.store.books == left);
    assert forall|i: int| 0 <= i < left.len() implies !book_has_id(id)(#[trigger] left[i]) by {
        world.store.books.lemma_filter_pred(book_lacks_id(id), i);
    }
    left.lemma_all_neg_filter_empty(book_has_id(id));
    lemma_books_render(after.store.books_with(id));
    law_read_fault_is_surfaced(list_book_plan(id), after);
}

/// A list that finds no row replies with the empty array, `[]`, and
/// succeeds.
pub proof fn law_no_rows_is_an_empty_array(plan: PlanView, world: World)
    requires
        plan.statement.reads(),
        !plan.statement.single(),
        cache_is_silent(plan, world),
        world.store.answer(plan.statement, plan.params) == Some(Seq::<Seq<Datum>>::empty()),
    ensures
        run(plan, world).last == reply_with(seq!['[', ']']),
{
    let rows = Seq::<Seq<Datum>>::empty();
    let items = Seq::new(rows.len(), |i: int| record_json(plan.statement.record(), rows[i])->0);
    assert(items =~= Seq::<Seq<char>>::empty());
    assert(array_of(items) =~= seq!['[', ']']);
    law_read_replies_from_store(plan, world, rows, seq!['[', ']']);
}

/// Each list of a table that is empty replies with the empty array.
pub proof fn law_empty_table_lists_nothing(world: World)
    requires
        world.store.up,
    ensures
        world.store.users.len() == 0 && cache_is_silent(list_users_plan(), world) ==> run(
            list_users_plan(),
            world,
        ).last == reply_with(seq!['[', ']']),
        world.store.books.len() == 0 ==> run(list_books_plan(), world).last == reply_with(
            seq!['[', ']'],
        ),
        world.store.loans.len() == 0 ==> run(list_borrows_plan(), world).last == reply_with(
            seq!['[', ']'],
        ),
{
    if world.store.users.len() == 0 && cache_is_silent(list_users_plan(), world) {
        assert(user_rows(world.store.users) =~= Seq::<Seq<Datum>>::empty());
        law_no_rows_is_an_empty_array(list_users_plan(), world);
    }
    if world.store.books.len() == 0 {
        assert(book_rows(world.store.books) =~= Seq::<Seq<Datum>>::empty());
        law_no_rows_is_an_empty_array(list_books_plan(), world);
    }
    if world.store.loans.len() == 0 {
        assert(world.store.borrow_rows(world.store.loans) =~= Seq::<Seq<Datum>>::empty());
        law_no_rows_is_an_empty_array(list_borrows_plan(), world);
    }
}

/// No write refreshes the cache: a cached read after a write replies with
/// what the cache held before the write, for as long as that entry lives.
pub proof fn law_writes_do_not_refresh_cached_reads(
    write: PlanView,
    read: PlanView,
    key: Seq<char>,
    world: World,
    value: Seq<char>,
    later: int,
)
    requires
        !write.statement.reads(),
        cached_read(read, key),
        world.cache.readable,
        world.now <= later,
        world.cache.live(key, later) == Some(value),
    ensures
        ({
            let written = run(write, world);
            &&& written.world.cache == world.cache
            &&& run(read, World { now: later, ..written.world }).last == reply_with(value)
        }),
{
    law_writes_leave_cache_alone(write, world);
    let written = run(write, world);
    law_hit_is_served_from_cache(read, key, World { now: later, ..written.world }, value);
}

/// Updating a user does not change what is cached of users: the list under
/// `users:all` and the user under `user:<id>` are replied as they were
/// cached before the update, until their hour is over. The cached copy is
/// stale from the update on.
pub proof fn law_update_leaves_cached_users_stale(
    id: int,
    payload: UserPayloadView,
    world: World,
    later: int,
)
    requires
        world.cache.readable,
        world.now <= later,
    ensures
        ({
            let updated = run(update_user_plan(id, payload), world);
            let then = World { now: later, ..updated.world };
            &&& updated.world.cache == world.cache
            &&& world.cache.live(users_key(), later) matches Some(list) ==> run(
                list_users_plan(),
                then,
            ).last == reply_with(list)
            &&& world.cache.live(user_key(id), later) matches Some(user) ==> run(
                list_user_plan(id),
                then,
            ).last == reply_with(user)
        }),
{
    let write = update_user_plan(id, payload);
    law_writes_leave_cache_alone(write, world);
    match world.cache.live(users_key(), later) {
        Some(list) => {
            law_writes_do_not_refresh_cached_reads(
                write,
                list_users_plan(),
                users_key(),
                world,
                list,
                later,
            );
        },
        None => {},
    }
    match world.cache.live(user_key(id), later) {
        Some(user) => {
            law_writes_do_not_refresh_cached_reads(
                write,
                list_user_plan(id),
                user_key(id),
                world,
                user,
                later,
            );
        },
        None => {},
    }
}

/// What a filter keeps was there before and passes the filter.
proof fn lemma_filter_members<A>(items: Seq<A>, pred: spec_fn(A) -> bool)
    ensures
        forall|i: int|
            0 <= i < items.filter(pred).len() ==> items.contains(
                #[trigger] items.filter(pred)[i],
            ) && pred(items.filter(pred)[i]),
{
    let kept = items.filter(pred);
    assert forall|i: int| 0 <= i < kept.len() implies items.contains(#[trigger] kept[i]) && pred(
        kept[i],
    ) by {
        items.lemma_filter_pred(pred, i);
        assert(kept.contains(kept[i]));
        items.lemma_filter_contains_rev(pred, kept[i]);
    }
}

/// Whether one of the store's users carries the id.
spec fn user_is_there(store: Store, id: int) -> bool {
    exists|i: int| 0 <= i < store.users.len() && (#[trigger] store.users[i]).id == id
}

/// Whether one of the store's books carries the id.
spec fn book_is_there(store: Store, id: int) -> bool {
    exists|i: int| 0 <= i < store.books.len() && (#[trigger] store.books[i]).id == id
}

/// A store has a user exactly if one of its rows carries the id.
proof fn lemma_has_user(store: Store, id: int)
    ensures
        store.has_user(id) <==> user_is_there(store, id),
{
    let pred = user_has_id(id);
    let kept = store.users.filter(pred);
    if kept.len() > 0 {
        lemma_filter_members(store.users, pred);
        assert(store.users.contains(kept[0]));
        let i = choose|i: int| 0 <= i < store.users.len() && store.users[i] == kept[0];
        assert(store.users[i].id == id);
    }
    if exists|i: int| 0 <= i < store.users.len() && (#[trigger] store.users[i]).id == id {
        let i = choose|i: int| 0 <= i < store.users.len() && (#[trigger] store.users[i]).id == id;
        store.users.lemma_filter_contains(pred, i);
    }
}

/// A store has a book exactly if one of its rows carries the id.
proof fn lemma_has_book(store: Store, id: int)
    ensures
        store.has_book(id) <==> book_is_there(store, id),
{
    let pred = book_has_id(id);
    let kept = store.books.filter(pred);
    if kept.len() > 0 {
        lemma_filter_members(store.books, pred);
        assert(store.books.contains(kept[0]));
        let i = choose|i: int| 0 <= i < store.books.len() && store.books[i] == kept[0];
        assert(store.books[i].id == id);
    }
    if exists|i: int| 0 <= i < store.books.len() && (#[trigger] store.books[i]).id == id {
        let i = choose|i: int| 0 <= i < store.books.len() && (#[trigger] store.books[i]).id == id;
        store.books.lemma_filter_contains(pred, i);
    }
}

/// Users with different ids stay apart when some of them are filtered out.
proof fn lemma_filter_keeps_users_apart(users: Seq<UserView>, pred: spec_fn(UserView) -> bool)
    requires
        forall|i: int, j: int|
            0 <= i < j < users.len() ==> (#[trigger] users[i]).id != (#[trigger] users[j]).id,
    ensures
        forall|i: int, j: int|
            0 <= i < j < users.filter(pred).len() ==> (#[trigger] users.filter(pred)[i]).id != (
            #[trigger] users.filter(pred)[j]).id,
    decreases users.len(),
{
    reveal(Seq::filter);
    if users.len() > 0 {
        let rest = users.drop_last();
        let kept = rest.filter(pred);
        lemma_filter_keeps_users_apart(rest, pred);
        lemma_filter_members(rest, pred);
        if pred(users.last()) {
            assert(users.filter(pred) == kept.push(users.last()));
            assert forall|i: int| 0 <= i < kept.len() implies (#[trigger] kept[i]).id
                != users.last().id by {
                assert(rest.contains(kept[i]));
                let k = choose|k: int| 0 <= k < rest.len() && rest[k] == kept[i];
                assert(users[k] == kept[i]);
                assert(users[users.len() - 1] == users.last());
            }
        } else {
            assert(users.filter(pred) == kept);
        }
    }
}

/// Books with different ids stay apart when some of them are filtered out.
proof fn lemma_filter_keeps_books_apart(books: Seq<BookView>, pred: spec_fn(BookView) -> bool)
    requires
        forall|i: int, j: int|
            0 <= i < j < books.len() ==> (#[trigger] books[i]).id != (#[trigger] books[j]).id,
    ensures
        forall|i: int, j: int|
            0 <= i < j < books.filter(pred).len() ==> (#[trigger] books.filter(pred)[i]).id != (
            #[trigger] books.filter(pred)[j]).id,
    decreases books.len(),
{
    reveal(Seq::filter);
    if books.len() > 0 {
        let rest = books.drop_last();
        let kept = rest.filter(pred);
        lemma_filter_keeps_books_apart(rest, pred);
        lemma_filter_members(rest, pred);
        if pred(books.last()) {
            assert(books.filter(pred) == kept.push(books.last()));
            assert forall|i: int| 0 <= i < kept.len() implies (#[trigger] kept[i]).id
                != books.last().id by {
                assert(rest.contains(kept[i]));
                let k = choose|k: int| 0 <= k < rest.len() && rest[k] == kept[i];
                assert(books[k] == kept[i]);
                assert(books[books.len() - 1] == books.last());
            }
        } else {
            assert(books.filter(pred) == kept);
        }
    }
}

/// The store keeps its order. Whatever statement it applies, ids stay
/// below the next id to assign, so that no id is ever given twice, no two
/// rows of a table share an id, and every loan is still of a user and a
/// book that are there.
pub proof fn law_store_stays_well_formed(store: Store, statement: Statement, params: Seq<Datum>)
    requires
        store.wf(),
        store.applied(statement, params) is Some,
    ensures
        store.applied(statement, params)->0.wf(),
        store.applied(statement, params)->0.next_user_id >= store.next_user_id,
        store.applied(statement, params)->0.next_book_id >= store.next_book_id,
{
    let after = store.applied(statement, params)->0;
    assert forall|k: int| 0 <= k < store.loans.len() implies user_is_there(
        store,
        (#[trigger] store.loans[k]).user_id,
    ) && book_is_there(store, store.loans[k].book_id) by {
        assert(store.has_user(store.loans[k].user_id));
        lemma_has_user(store, store.loans[k].user_id);
        lemma_has_book(store, store.loans[k].book_id);
    }
    match statement {
        Statement::DeleteUser => {
            let id = params[0]->Int_0;
            lemma_filter_members(store.users, user_lacks_id(id));
            lemma_filter_keeps_users_apart(store.users, user_lacks_id(id));
            assert forall|i: int| 0 <= i < after.users.len() implies (#[trigger] after.users[i]).id
                < after.next_user_id by {
                assert(store.users.contains(after.users[i]));
            }
            assert forall|k: int| 0 <= k < after.loans.len() implies after.has_user(
                (#[trigger] after.loans[k]).user_id,
            ) && after.has_book(after.loans[k].book_id) by {
                let loan = store.loans[k];
                if loan.user_id == id {
                    store.loans.lemma_filter_contains(loan_of_user(id), k);
                }
                let i = choose|i: int|
                    0 <= i < store.users.len() && (#[trigger] store.users[i]).id == loan.user_id;
                store.users.lemma_filter_contains(user_lacks_id(id), i);
                let kept = store.users[i];
                let at = choose|at: int| 0 <= at < after.users.len() && after.users[at] == kept;
                assert(after.users[at].id == loan.user_id);
                lemma_has_user(after, loan.user_id);
                assert(store.has_book(loan.book_id));
            }
        },
        Statement::DeleteBook => {
            let id = params[0]->Int_0;
            lemma_filter_members(store.books, book_lacks_id(id));
            lemma_filter_keeps_books_apart(store.books, book_lacks_id(id));
            assert forall|i: int| 0 <= i < after.books.len() implies (#[trigger] after.books[i]).id
                < after.next_book_id by {
                assert(store.books.contains(after.books[i]));
            }
            assert forall|k: int| 0 <= k < after.loans.len() implies after.has_user(
                (#[trigger] after.loans[k]).user_id,
            ) && after.has_book(after.loans[k].book_id) by {
                let loan = store.loans[k];
                if loan.book_id == id {
                    store.loans.lemma_filter_contains(loan_of_book(id), k);
                }
                let i = choose|i: int|
                    0 <= i < store.books.len() && (#[trigger] store.books[i]).id == loan.book_id;
                store.books.lemma_filter_contains(book_lacks_id(id), i);
                let kept = store.books[i];
                let at = choose|at: int| 0 <= at < after.books.len() && after.books[at] == kept;
                assert(after.books[at].id == loan.book_id);
                lemma_has_book(after, loan.book_id);
                assert(store.has_user(loan.user_id));
            }
        },
        Statement::InsertUser | Statement::UpdateUser => {
            assert forall|k: int| 0 <= k < after.loans.len() implies after.has_user(
                (#[trigger] after.loans[k]).user_id,
            ) && after.has_book(after.loans[k].book_id) by {
                let loan = store.loans[k];
                let i = choose|i: int|
                    0 <= i < store.users.len() && (#[trigger] store.users[i]).id == loan.user_id;
                assert(after.users[i].id == loan.user_id);
                lemma_has_user(after, loan.user_id);
                assert(store.has_book(loan.book_id));
            }
        },
        Statement::InsertBook | Statement::UpdateBook => {
            assert forall|k: int| 0 <= k < after.loans.len() implies after.has_user(
                (#[trigger] after.loans[k]).user_id,
            ) && after.has_book(after.loans[k].book_id) by {
                let loan = store.loans[k];
                let i = choose|i: int|
                    0 <= i < store.books.len() && (#[trigger] store.books[i]).id == loan.book_id;
                assert(after.books[i].id == loan.book_id);
                lemma_has_book(after, loan.book_id);
                assert(store.has_user(loan.user_id));
            }
        },
        Statement::InsertBorrow => {
            assert forall|k: int| 0 <= k < after.loans.len() implies after.has_user(
                (#[trigger] after.loans[k]).user_id,
            ) && after.has_book(after.loans[k].book_id) by {
                if k < store.loans.len() {
                    assert(after.loans[k] == store.loans[k]);
                    assert(store.has_user(store.loans[k].user_id));
                }
            }
        },
        _ => {},
    }
}

/// A number in decimal has at least one character, and its first is a
/// digit.
proof fn lemma_digits_start_with_a_digit(n: nat)
    ensures
        digits(n).len() >= 1,
        digits(n)[0] != '-',
        n >= 10 ==> digits(n).len() >= 2,
    decreases n,
{
    if n >= 10 {
        lemma_digits_start_with_a_digit(n / 10);
    }
}

/// Two numbers that read the same in decimal are the same number.
proof fn lemma_digits_tell_numbers_apart(a: nat, b: nat)
    requires
        digits(a) == digits(b),
    ensures
        a == b,
    decreases a,
{
    lemma_digits_start_with_a_digit(a);
    lemma_digits_start_with_a_digit(b);
    if a >= 10 && b >= 10 {
        let x = digits(a / 10);
        let y = digits(b / 10);
        assert(x == digits(a).drop_last());
        assert(y == digits(b).drop_last());
        assert(digit((a % 10) as int) == digits(a).last());
        assert(digit((b % 10) as int) == digits(b).last());
        lemma_digits_tell_numbers_apart(a / 10, b / 10);
    } else if a < 10 && b < 10 {
        assert(digits(a)[0] == digit(a as int));
        assert(digits(b)[0] == digit(b as int));
    }
}

/// Two integers that read the same in decimal are the same integer.
pub proof fn law_decimal_tells_numbers_apart(a: int, b: int)
    requires
        decimal(a) == decimal(b),
    ensures
        a == b,
{
    if a < 0 {
        lemma_digits_start_with_a_digit((-a) as nat);
    } else {
        lemma_digits_start_with_a_digit(a as nat);
    }
    if b < 0 {
        lemma_digits_start_with_a_digit((-b) as nat);
    } else {
        lemma_digits_start_with_a_digit(b as nat);
    }
    assert(decimal(a)[0] == decimal(b)[0]);
    if a < 0 {
        assert(decimal(a)[0] == '-');
        assert(b < 0);
        assert(decimal(a).subrange(1, decimal(a).len() as int) =~= digits((-a) as nat));
        assert(decimal(b).subrange(1, decimal(b).len() as int) =~= digits((-b) as nat));
        lemma_digits_tell_numbers_apart((-a) as nat, (-b) as nat);
    } else {
        assert(decimal(a)[0] != '-');
        assert(b >= 0);
        lemma_digits_tell_numbers_apart(a as nat, b as nat);
    }
}

/// The service caches under two kinds of key and no other: the list of all
/// users under `users:all`, each user under `user:` and its id. No two
/// users share a key, and no user's key is the key of the list.
pub proof fn law_cache_keys_do_not_collide(a: int, b: int)
    ensures
        cached_read(list_users_plan(), users_key()),
        cached_read(list_user_plan(a), user_key(a)),
        user_key(a) == user_key(b) ==> a == b,
        user_key(a) != users_key(),
{
    reveal_strlit("user:");
    reveal_strlit("users:all");
    if a < 0 {
        lemma_digits_start_with_a_digit((-a) as nat);
    } else {
        lemma_digits_start_with_a_digit(a as nat);
    }
    assert(user_key(a)[4] == ':');
    assert(users_key()[4] == 's');
    if user_key(a) == user_key(b) {
        assert(user_key(a).subrange(5, user_key(a).len() as int) =~= decimal(a));
        assert(user_key(b).subrange(5, user_key(b).len() as int) =~= decimal(b));
        law_decimal_tells_numbers_apart(a, b);
    }
}

/// Nothing but the two reads of users goes through the cache.
pub proof fn law_only_user_reads_are_cached(
    id: int,
    other: int,
    user: UserPayloadView,
    book: BookPayloadView,
    borrow: BorrowPayloadView,
)
    ensures
        list_users_plan().cache_key is Some,
        list_user_plan(id).cache_key is Some,
        insert_user_plan(user).cache_key is None,
        update_user_plan(id, user).cache_key is None,
        delete_user_plan(id).cache_key is None,
        list_books_plan().cache_key is None,
        list_book_plan(id).cache_key is None,
        insert_book_plan(book).cache_key is None,
        update_book_plan(id, book).cache_key is None,
        delete_book_plan(id).cache_key is None,
        list_borrows_plan().cache_key is None,
        list_borrow_plan(id, other).cache_key is None,
        list_borrows_by_user_plan(id).cache_key is None,
        list_borrows_by_book_plan(id).cache_key is None,
        insert_borrow_plan(borrow).cache_key is None,
{
}

/// Each request hands its statement exactly as many parameters as the
/// statement takes.
pub proof fn law_plans_fit_their_statements(
    id: int,
    other: int,
    user: UserPayloadView,
    book: BookPayloadView,
    borrow: BorrowPayloadView,
)
    ensures
        list_users_plan().params.len() == Statement::ListUsers.arity(),
        list_user_plan(id).params.len() == Statement::ListUser.arity(),
        insert_user_plan(user).params.len() == Statement::InsertUser.arity(),
        update_user_plan(id, user).params.len() == Statement::UpdateUser.arity(),
        delete_user_plan(id).params.len() == Statement::DeleteUser.arity(),
        list_books_plan().params.len() == Statement::ListBooks.arity(),
        list_book_plan(id).params.len() == Statement::ListBook.arity(),
        insert_book_plan(book).params.len() == Statement::InsertBook.arity(),
        update_book_plan(id, book).params.len() == Statement::UpdateBook.arity(),
        delete_book_plan(id).params.len() == Statement::DeleteBook.arity(),
        list_borrows_plan().params.len() == Statement::ListBorrows.arity(),
        list_borrow_plan(id, other).params.len() == Statement::ListBorrow.arity(),
        list_borrows_by_user_plan(id).params.len() == Statement::ListBorrowsByUser.arity(),
        list_borrows_by_book_plan(id).params.len() == Statement::ListBorrowsByBook.arity(),
        insert_borrow_plan(borrow).params.len() == Statement::InsertBorrow.arity(),
{
}

/// A store that is up answers every read the service makes, and takes
/// every insert and update of a user or a book: the parameters the
/// requests hand it are of the number and the kinds their statements take.
/// What it may still refuse is what a foreign key forbids.
pub proof fn law_store_takes_what_requests_hand_it(
    store: Store,
    id: int,
    other: int,
    user: UserPayloadView,
    book: BookPayloadView,
)
    requires
        store.up,
    ensures
        store.answer(list_users_plan().statement, list_users_plan().params) is Some,
        store.answer(list_user_plan(id).statement, list_user_plan(id).params) is Some,
        store.answer(list_books_plan().statement, list_books_plan().params) is Some,
        store.answer(list_book_plan(id).statement, list_book_plan(id).params) is Some,
        store.answer(list_borrows_plan().statement, list_borrows_plan().params) is Some,
        store.answer(
            list_borrow_plan(id, other).statement,
            list_borrow_plan(id, other).params,
        ) is Some,
        store.answer(
            list_borrows_by_user_plan(id).statement,
            list_borrows_by_user_plan(id).params,
        ) is Some,
        store.answer(
            list_borrows_by_book_plan(id).statement,
            list_borrows_by_book_plan(id).params,
        ) is Some,
        store.applied(insert_user_plan(user).statement, insert_user_plan(user).params) is Some,
        store.applied(
            update_user_plan(id, user).statement,
            update_user_plan(id, user).params,
        ) is Some,
        store.applied(insert_book_plan(book).statement, insert_book_plan(book).params) is Some,
        store.applied(
            update_book_plan(id, book).statement,
            update_book_plan(id, book).params,
        ) is Some,
{
}

} // verus!
