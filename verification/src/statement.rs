//! The statements the service keeps prepared against the record store.

use vstd::prelude::*;

verus! {

/// Which kind of record a read statement returns.
#[derive(Clone, Copy, Debug, PartialEq, Eq, Structural)]
pub enum Record {
    User,
    Book,
    Borrow,
}

/// One prepared statement per access pattern.
#[derive(Clone, Copy, Debug, PartialEq, Eq, Structural)]
pub enum Statement {
    ListUsers,
    ListUser,
    InsertUser,
    UpdateUser,
    DeleteUser,
    ListBooks,
    ListBook,
    InsertBook,
    UpdateBook,
    DeleteBook,
    ListBorrows,
    ListBorrow,
    ListBorrowsByUser,
    ListBorrowsByBook,
    InsertBorrow,
}

impl Statement {
    /// Whether the statement returns rows rather than changing them.
    pub open spec fn reads(self) -> bool {
        match self {
            Statement::ListUsers
            | Statement::ListUser
            | Statement::ListBooks
            | Statement::ListBook
            | Statement::ListBorrows
            | Statement::ListBorrow
            | Statement::ListBorrowsByUser
            | Statement::ListBorrowsByBook => true,
            _ => false,
        }
    }

    /// Whether the statement is a lookup that must find exactly one row.
    pub open spec fn single(self) -> bool {
        match self {
            Statement::ListUser | Statement::ListBook | Statement::ListBorrow => true,
            _ => false,
        }
    }

    /// Whether the statement adds a row.
    pub open spec fn inserts(self) -> bool {
        match self {
            Statement::InsertUser | Statement::InsertBook | Statement::InsertBorrow => true,
            _ => false,
        }
    }

    /// The kind of record the statement reads or writes.
    pub open spec fn record(self) -> Record {
        match self {
            Statement::ListUsers
            | Statement::ListUser
            | Statement::InsertUser
            | Statement::UpdateUser
            | Statement::DeleteUser => Record::User,
            Statement::ListBooks
            | Statement::ListBook
            | Statement::InsertBook
            | Statement::UpdateBook
            | Statement::DeleteBook => Record::Book,
            _ => Record::Borrow,
        }
    }

    /// How many parameters the statement takes.
    pub open spec fn arity(self) -> nat {
        match self {
            Statement::ListUsers | Statement::ListBooks | Statement::ListBorrows => 0,
            Statement::ListUser
            | Statement::DeleteUser
            | Statement::ListBook
            | Statement::DeleteBook
            | Statement::ListBorrowsByUser
            | Statement::ListBorrowsByBook => 1,
            Statement::ListBorrow => 2,
            Statement::InsertUser | Statement::InsertBorrow => 3,
            Statement::UpdateUser => 4,
            Statement::InsertBook => 5,
            Statement::UpdateBook => 6,
        }
    }

    /// The statement's SQL text.
    pub open spec fn sql_text(self) -> Seq<char> {
        match self {
            Statement::ListUsers => "SELECT * FROM \"USERS\""@,
            Statement::ListUser => "SELECT * FROM \"USERS\" WHERE id = $1"@,
            Statement::InsertUser => "INSERT INTO \"USERS\" (name, email, password) VALUES ($1, $2, $3)"@,
            Statement::UpdateUser => "UPDATE \"USERS\" SET name = $1, email = $2, password = $3 WHERE id = $4"@,
            Statement::DeleteUser => "DELETE FROM \"USERS\" WHERE id = $1"@,
            Statement::ListBooks => "SELECT * FROM \"BOOKS\""@,
            Statement::ListBook => "SELECT * FROM \"BOOKS\" WHERE id = $1"@,
            Statement::InsertBook => "INSERT INTO \"BOOKS\" (title, author, content, category, publish_date) VALUES ($1, $2, $3, $4, $5)"@,
            Statement::UpdateBook => "UPDATE \"BOOKS\" SET title = $1, author = $2, content = $3, category = $4, publish_date = $5 WHERE id = $6"@,
            Statement::DeleteBook => "DELETE FROM \"BOOKS\" WHERE id = $1"@,
            Statement::ListBorrows => "SELECT u.name AS username, bo.title, br.borrow_date FROM \"BORROW\" AS br JOIN \"USERS\" AS u ON br.user_id = u.id JOIN \"BOOKS\" AS bo ON br.book_id = bo.id"@,
            Statement::ListBorrow => "SELECT u.name AS username, bo.title, br.borrow_date FROM \"BORROW\" AS br JOIN \"USERS\" AS u ON br.user_id = u.id JOIN \"BOOKS\" AS bo ON br.book_id = bo.id WHERE br.user_id = $1 AND br.book_id = $2"@,
            Statement::ListBorrowsByUser => "SELECT u.name AS username, bo.title, br.borrow_date FROM \"BORROW\" AS br JOIN \"USERS\" AS u ON br.user_id = u.id JOIN \"BOOKS\" AS bo ON br.book_id = bo.id WHERE br.user_id = $1"@,
            Statement::ListBorrowsByBook => "SELECT u.name AS username, bo.title, br.borrow_date FROM \"BORROW\" AS br JOIN \"USERS\" AS u ON br.user_id = u.id JOIN \"BOOKS\" AS bo ON br.book_id = bo.id WHERE br.book_id = $1"@,
            Statement::InsertBorrow => "INSERT INTO \"BORROW\" (user_id, book_id, borrow_date) VALUES ($1, $2, $3)"@,
        }
    }

    /// Whether the statement returns rows rather than changing them.
    pub fn is_read(self) -> (r: bool)
        ensures
            r == self.reads(),
    {
        match self {
            Statement::ListUsers
            | Statement::ListUser
            | Statement::ListBooks
            | Statement::ListBook
            | Statement::ListBorrows
            | Statement::ListBorrow
            | Statement::ListBorrowsByUser
            | Statement::ListBorrowsByBook => true,
            _ => false,
        }
    }

    /// Whether the statement is a lookup that must find exactly one row.
    pub fn is_single(self) -> (r: bool)
        ensures
            r == self.single(),
    {
        match self {
            Statement::ListUser | Statement::ListBook | Statement::ListBorrow => true,
            _ => false,
        }
    }

    /// Whether the statement adds a row.
    pub fn is_insert(self) -> (r: bool)
        ensures
            r == self.inserts(),
    {
        match self {
            Statement::InsertUser | Statement::InsertBook | Statement::InsertBorrow => true,
            _ => false,
        }
    }

    /// The kind of record the statement reads or writes.
    pub fn record_kind(self) -> (r: Record)
        ensures
            r == self.record(),
    {
        match self {
            Statement::ListUsers
            | Statement::ListUser
            | Statement::InsertUser
            | Statement::UpdateUser
            | Statement::DeleteUser => Record::User,
            Statement::ListBooks
            | Statement::ListBook
            | Statement::InsertBook
            | Statement::UpdateBook
            | Statement::DeleteBook => Record::Book,
            _ => Record::Borrow,
        }
    }

    /// How many parameters the statement takes.
    pub fn parameter_count(self) -> (r: usize)
        ensures
            r == self.arity(),
    {
        match self {
            Statement::ListUsers | Statement::ListBooks | Statement::ListBorrows => 0,
            Statement::ListUser
            | Statement::DeleteUser
            | Statement::ListBook
            | Statement::DeleteBook
            | Statement::ListBorrowsByUser
            | Statement::ListBorrowsByBook => 1,
            Statement::ListBorrow => 2,
            Statement::InsertUser | Statement::InsertBorrow => 3,
            Statement::UpdateUser => 4,
            Statement::InsertBook => 5,
            Statement::UpdateBook => 6,
        }
    }

    /// The statement's SQL text, to prepare it with.
    pub fn sql(self) -> (r: &'static str)
        ensures
            r@ == self.sql_text(),
    {
        match self {
            Statement::ListUsers => "SELECT * FROM \"USERS\"",
            Statement::ListUser => "SELECT * FROM \"USERS\" WHERE id = $1",
            Statement::InsertUser => "INSERT INTO \"USERS\" (name, email, password) VALUES ($1, $2, $3)",
            Statement::UpdateUser => "UPDATE \"USERS\" SET name = $1, email = $2, password = $3 WHERE id = $4",
            Statement::DeleteUser => "DELETE FROM \"USERS\" WHERE id = $1",
            Statement::ListBooks => "SELECT * FROM \"BOOKS\"",
            Statement::ListBook => "SELECT * FROM \"BOOKS\" WHERE id = $1",
            Statement::InsertBook => "INSERT INTO \"BOOKS\" (title, author, content, category, publish_date) VALUES ($1, $2, $3, $4, $5)",
            Statement::UpdateBook => "UPDATE \"BOOKS\" SET title = $1, author = $2, content = $3, category = $4, publish_date = $5 WHERE id = $6",
            Statement::DeleteBook => "DELETE FROM \"BOOKS\" WHERE id = $1",
            Statement::ListBorrows => "SELECT u.name AS username, bo.title, br.borrow_date FROM \"BORROW\" AS br JOIN \"USERS\" AS u ON br.user_id = u.id JOIN \"BOOKS\" AS bo ON br.book_id = bo.id",
            Statement::ListBorrow => "SELECT u.name AS username, bo.title, br.borrow_date FROM \"BORROW\" AS br JOIN \"USERS\" AS u ON br.user_id = u.id JOIN \"BOOKS\" AS bo ON br.book_id = bo.id WHERE br.user_id = $1 AND br.book_id = $2",
            Statement::ListBorrowsByUser => "SELECT u.name AS username, bo.title, br.borrow_date FROM \"BORROW\" AS br JOIN \"USERS\" AS u ON br.user_id = u.id JOIN \"BOOKS\" AS bo ON br.book_id = bo.id WHERE br.user_id = $1",
            Statement::ListBorrowsByBook => "SELECT u.name AS username, bo.title, br.borrow_date FROM \"BORROW\" AS br JOIN \"USERS\" AS u ON br.user_id = u.id JOIN \"BOOKS\" AS bo ON br.book_id = bo.id WHERE br.book_id = $1",
            Statement::InsertBorrow => "INSERT INTO \"BORROW\" (user_id, book_id, borrow_date) VALUES ($1, $2, $3)",
        }
    }
}

} // verus!
