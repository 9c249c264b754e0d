//! The records of the service: what a row of each table becomes, and what a
//! request body carries.

use crate::json::{decimal, json_string, number, object, object_of, string};
use crate::timestamp::{Civil, Timestamp};
use crate::value::{Datum, Value};
use vstd::prelude::*;

verus! {

/// A registered user, as stored.
#[derive(Clone, Debug, PartialEq, Eq)]
pub struct User {
    pub id: i32,
    pub name: String,
    pub email: String,
    pub password: String,
    pub trang_thai: String,
    pub created_at: Timestamp,
    pub updated_at: Timestamp,
}

pub struct UserView {
    pub id: int,
    pub name: Seq<char>,
    pub email: Seq<char>,
    pub password: Seq<char>,
    pub trang_thai: Seq<char>,
    pub created_at: Civil,
    pub updated_at: Civil,
}

impl View for User {
    type V = UserView;

    open spec fn view(&self) -> UserView {
        UserView {
            id: self.id as int,
            name: self.name@,
            email: self.email@,
            password: self.password@,
            trang_thai: self.trang_thai@,
            created_at: self.created_at@,
            updated_at: self.updated_at@,
        }
    }
}

impl DeepView for User {
    type V = UserView;

    open spec fn deep_view(&self) -> UserView {
        self@
    }
}

/// The user a row of the users table stands for: its first seven cells are
/// id, name, email, password, status, creation time and last update. `None`
/// where the row is shorter or a cell has another type.
pub open spec fn user_of_row(row: Seq<Datum>) -> Option<UserView> {
    if row.len() >= 7 && row[0] is Int && row[1] is Text && row[2] is Text && row[3] is Text
        && row[4] is Text && row[5] is Time && row[6] is Time {
        Some(
            UserView {
                id: row[0]->Int_0,
                name: row[1]->Text_0,
                email: row[2]->Text_0,
                password: row[3]->Text_0,
                trang_thai: row[4]->Text_0,
                created_at: row[5]->Time_0,
                updated_at: row[6]->Time_0,
            },
        )
    } else {
        None
    }
}

/// The row a user is stored as.
pub open spec fn row_of_user(user: UserView) -> Seq<Datum> {
    seq![
        Datum::Int(user.id),
        Datum::Text(user.name),
        Datum::Text(user.email),
        Datum::Text(user.password),
        Datum::Text(user.trang_thai),
        Datum::Time(user.created_at),
        Datum::Time(user.updated_at),
    ]
}

/// A timestamp as a JSON string.
pub open spec fn time_json(at: Civil) -> Seq<char> {
    json_string(at.text())
}

/// The members of the JSON object a user is written as.
pub open spec fn user_members(user: UserView) -> Seq<(Seq<char>, Seq<char>)> {
    seq![
        (json_string("id"@), decimal(user.id)),
        (json_string("name"@), json_string(user.name)),
        (json_string("email"@), json_string(user.email)),
        (json_string("password"@), json_string(user.password)),
        (json_string("trang_thai"@), json_string(user.trang_thai)),
        (json_string("created_at"@), time_json(user.created_at)),
        (json_string("updated_at"@), time_json(user.updated_at)),
    ]
}

/// A user as JSON.
pub open spec fn user_json(user: UserView) -> Seq<char> {
    object_of(user_members(user))
}

/// A timestamp as a JSON string.
pub fn time_to_json(at: &Timestamp) -> (r: String)
    ensures
        r@ == time_json(at@),
{
    let text = at.text();
    string(text.as_str())
}

impl User {
    /// Reads a user out of a row of the users table.
    pub fn from_row(row: &Vec<Value>) -> (r: Option<User>)
        ensures
            r.deep_view() == user_of_row(row.deep_view()),
    {
        if row.len() < 7 {
            return None;
        }
        match (&row[0], &row[1], &row[2], &row[3], &row[4], &row[5], &row[6]) {
            (
                Value::Int(id),
                Value::Text(name),
                Value::Text(email),
                Value::Text(password),
                Value::Text(trang_thai),
                Value::Time(created_at),
                Value::Time(updated_at),
            ) => Some(
                User {
                    id: *id,
                    name: name.clone(),
                    email: email.clone(),
                    password: password.clone(),
                    trang_thai: trang_thai.clone(),
                    created_at: *created_at,
                    updated_at: *updated_at,
                },
            ),
            _ => None,
        }
    }

    /// Writes the user as a JSON object.
    pub fn to_json(&self) -> (r: String)
        ensures
            r@ == user_json(self@),
    {
        let mut members: Vec<(String, String)> = Vec::new();
        members.push((string("id"), number(self.id)));
        members.push((string("name"), string(self.name.as_str())));
        members.push((string("email"), string(self.email.as_str())));
        members.push((string("password"), string(self.password.as_str())));
        members.push((string("trang_thai"), string(self.trang_thai.as_str())));
        members.push((string("created_at"), time_to_json(&self.created_at)));
        members.push((string("updated_at"), time_to_json(&self.updated_at)));
        proof {
            assert(members.deep_view() =~= user_members(self@));
        }
        object(&members)
    }
}

/// What a request to create or overwrite a user carries.
#[derive(Clone, Debug, PartialEq, Eq)]
pub struct UserPayload {
    pub name: String,
    pub email: String,
    pub password: String,
}

pub struct UserPayloadView {
    pub name: Seq<char>,
    pub email: Seq<char>,
    pub password: Seq<char>,
}

impl View for UserPayload {
    type V = UserPayloadView;

    open spec fn view(&self) -> UserPayloadView {
        UserPayloadView { name: self.name@, email: self.email@, password: self.password@ }
    }
}

impl DeepView for UserPayload {
    type V = UserPayloadView;

    open spec fn deep_view(&self) -> UserPayloadView {
        self@
    }
}

/// A book, as stored.
#[derive(Clone, Debug, PartialEq, Eq)]
pub struct Book {
    pub id: i32,
    pub title: String,
    pub author: String,
    pub content: String,
    pub category: String,
    pub publish_date: Timestamp,
}

pub struct BookView {
    pub id: int,
    pub title: Seq<char>,
    pub author: Seq<char>,
    pub content: Seq<char>,
    pub category: Seq<char>,
    pub publish_date: Civil,
}

impl View for Book {
    type V = BookView;

    open spec fn view(&self) -> BookView {
        BookView {
            id: self.id as int,
            title: self.title@,
            author: self.author@,
            content: self.content@,
            category: self.category@,
            publish_date: self.publish_date@,
        }
    }
}

impl DeepView for Book {
    type V = BookView;

    open spec fn deep_view(&self) -> BookView {
        self@
    }
}

/// The book a row of the books table stands for: its first six cells are id,
/// title, author, content, category and publish date.
pub open spec fn book_of_row(row: Seq<Datum>) -> Option<BookView> {
    if row.len() >= 6 && row[0] is Int && row[1] is Text && row[2] is Text && row[3] is Text
        && row[4] is Text && row[5] is Time {
        Some(
            BookView {
                id: row[0]->Int_0,
                title: row[1]->Text_0,
                author: row[2]->Text_0,
                content: row[3]->Text_0,
                category: row[4]->Text_0,
                publish_date: row[5]->Time_0,
            },
        )
    } else {
        None
    }
}

/// The row a book is stored as.
pub open spec fn row_of_book(book: BookView) -> Seq<Datum> {
    seq![
        Datum::Int(book.id),
        Datum::Text(book.title),
        Datum::Text(book.author),
        Datum::Text(book.content),
        Datum::Text(book.category),
        Datum::Time(book.publish_date),
    ]
}

/// The members of the JSON object a book is written as.
pub open spec fn book_members(book: BookView) -> Seq<(Seq<char>, Seq<char>)> {
    seq![
        (json_string("id"@), decimal(book.id)),
        (json_string("title"@), json_string(book.title)),
        (json_string("author"@), json_string(book.author)),
        (json_string("content"@), json_string(book.content)),
        (json_string("category"@), json_string(book.category)),
        (json_string("publish_date"@), time_json(book.publish_date)),
    ]
}

/// A book as JSON.
pub open spec fn book_json(book: BookView) -> Seq<char> {
    object_of(book_members(book))
}

impl Book {
    /// Reads a book out of a row of the books table.
    pub fn from_row(row: &Vec<Value>) -> (r: Option<Book>)
        ensures
            r.deep_view() == book_of_row(row.deep_view()),
    {
        if row.len() < 6 {
            return None;
        }
        match (&row[0], &row[1], &row[2], &row[3], &row[4], &row[5]) {
            (
                Value::Int(id),
                Value::Text(title),
                Value::Text(author),
                Value::Text(content),
                Value::Text(category),
                Value::Time(publish_date),
            ) => Some(
                Book {
                    id: *id,
                    title: title.clone(),
                    author: author.clone(),
                    content: content.clone(),
                    category: category.clone(),
                    publish_date: *publish_date,
                },
            ),
            _ => None,
        }
    }

    /// Writes the book as a JSON object.
    pub fn to_json(&self) -> (r: String)
        ensures
            r@ == book_json(self@),
    {
        let mut members: Vec<(String, String)> = Vec::new();
        members.push((string("id"), number(self.id)));
        members.push((string("title"), string(self.title.as_str())));
        members.push((string("author"), string(self.author.as_str())));
        members.push((string("content"), string(self.content.as_str())));
        members.push((string("category"), string(self.category.as_str())));
        members.push((string("publish_date"), time_to_json(&self.publish_date)));
        proof {
            assert(members.deep_view() =~= book_members(self@));
        }
        object(&members)
    }
}

/// What a request to create or overwrite a book carries.
#[derive(Clone, Debug, PartialEq, Eq)]
pub struct BookPayload {
    pub title: String,
    pub author: String,
    pub content: String,
    pub category: String,
    pub publish_date: Timestamp,
}

pub struct BookPayloadView {
    pub title: Seq<char>,
    pub author: Seq<char>,
    pub content: Seq<char>,
    pub category: Seq<char>,
    pub publish_date: Civil,
}

impl View for BookPayload {
    type V = BookPayloadView;

    open spec fn view(&self) -> BookPayloadView {
        BookPayloadView {
            title: self.title@,
            author: self.author@,
            content: self.content@,
            category: self.category@,
            publish_date: self.publish_date@,
        }
    }
}

impl DeepView for BookPayload {
    type V = BookPayloadView;

    open spec fn deep_view(&self) -> BookPayloadView {
        self@
    }
}

/// A borrow record as it is read: who borrowed which book, and when.
#[derive(Clone, Debug, PartialEq, Eq)]
pub struct Borrow {
    pub username: String,
    pub title: String,
    pub borrow_date: Timestamp,
}

pub struct BorrowView {
    pub username: Seq<char>,
    pub title: Seq<char>,
    pub borrow_date: Civil,
}

impl View for Borrow {
    type V = BorrowView;

    open spec fn view(&self) -> BorrowView {
        BorrowView {
            username: self.username@,
            title: self.title@,
            borrow_date: self.borrow_date@,
        }
    }
}

impl DeepView for Borrow {
    type V = BorrowView;

    open spec fn deep_view(&self) -> BorrowView {
        self@
    }
}

/// The borrow record a row of the join stands for: its first three cells
/// are the user's name, the book's title and the borrow date.
pub open spec fn borrow_of_row(row: Seq<Datum>) -> Option<BorrowView> {
    if row.len() >= 3 && row[0] is Text && row[1] is Text && row[2] is Time {
        Some(
            BorrowView {
                username: row[0]->Text_0,
                title: row[1]->Text_0,
                borrow_date: row[2]->Time_0,
            },
        )
    } else {
        None
    }
}

/// The row a borrow record is read as.
pub open spec fn row_of_borrow(borrow: BorrowView) -> Seq<Datum> {
    seq![
        Datum::Text(borrow.username),
        Datum::Text(borrow.title),
        Datum::Time(borrow.borrow_date),
    ]
}

/// The members of the JSON object a borrow record is written as.
pub open spec fn borrow_members(borrow: BorrowView) -> Seq<(Seq<char>, Seq<char>)> {
    seq![
        (json_string("username"@), json_string(borrow.username)),
        (json_string("title"@), json_string(borrow.title)),
        (json_string("borrow_date"@), time_json(borrow.borrow_date)),
    ]
}

/// A borrow record as JSON.
pub open spec fn borrow_json(borrow: BorrowView) -> Seq<char> {
    object_of(borrow_members(borrow))
}

impl Borrow {
    /// Reads a borrow record out of a row of the join.
    pub fn from_row(row: &Vec<Value>) -> (r: Option<Borrow>)
        ensures
            r.deep_view() == borrow_of_row(row.deep_view()),
    {
        if row.len() < 3 {
            return None;
        }
        match (&row[0], &row[1], &row[2]) {
            (Value::Text(username), Value::Text(title), Value::Time(borrow_date)) => Some(
                Borrow {
                    username: username.clone(),
                    title: title.clone(),
                    borrow_date: *borrow_date,
                },
            ),
            _ => None,
        }
    }

    /// Writes the borrow record as a JSON object.
    pub fn to_json(&self) -> (r: String)
        ensures
            r@ == borrow_json(self@),
    {
        let mut members: Vec<(String, String)> = Vec::new();
        members.push((string("username"), string(self.username.as_str())));
        members.push((string("title"), string(self.title.as_str())));
        members.push((string("borrow_date"), time_to_json(&self.borrow_date)));
        proof {
            assert(members.deep_view() =~= borrow_members(self@));
        }
        object(&members)
    }
}

/// What a request to record a borrow carries.
#[derive(Clone, Debug, PartialEq, Eq)]
pub struct BorrowPayload {
    pub user_id: i32,
    pub book_id: i32,
    pub borrow_date: Timestamp,
}

pub struct BorrowPayloadView {
    pub user_id: int,
    pub book_id: int,
    pub borrow_date: Civil,
}

impl View for BorrowPayload {
    type V = BorrowPayloadView;

    open spec fn view(&self) -> BorrowPayloadView {
        BorrowPayloadView {
            user_id: self.user_id as int,
            book_id: self.book_id as int,
            borrow_date: self.borrow_date@,
        }
    }
}

impl DeepView for BorrowPayload {
    type V = BorrowPayloadView;

    open spec fn deep_view(&self) -> BorrowPayloadView {
        self@
    }
}

} // verus!
