//! The records that the server sends and the front end shows.

use vstd::prelude::*;
use vstd::string::*;

verus! {

/// A title of the catalogue with its stock.
#[derive(Clone, PartialEq, Debug)]
pub struct Book {
    pub id: i32,
    pub name: String,
    pub author: String,
    pub description: String,
    pub total: i32,
    pub available: i32,
}

/// A title that a user holds on loan.
#[derive(Clone, PartialEq, Debug)]
pub struct BorrowedBook {
    pub id: i32,
    pub name: String,
    pub author: String,
}

/// The signed-in account with the titles it holds.
#[derive(Clone, PartialEq, Debug)]
pub struct User {
    pub id: i32,
    pub username: String,
    pub permission: String,
    pub borrowed_books: Vec<BorrowedBook>,
}

/// One page of the catalogue, or the hits of a search.
#[derive(Clone, PartialEq, Debug)]
pub struct BookListResponse {
    pub items: Vec<Book>,
    pub total: i32,
    pub page: i32,
    pub limit: i32,
}

/// An account as the administrators' list shows it.
#[derive(Clone, PartialEq, Debug)]
pub struct UserBrief {
    pub id: i32,
    pub username: String,
    pub permission: String,
}

/// One loan, as the administrators' list shows it.
#[derive(Clone, PartialEq, Debug)]
pub struct BorrowRecord {
    pub user_id: i32,
    pub username: String,
    pub book_id: i32,
    pub book_name: String,
}

/// What a [`User`] holds, with its loans as a sequence.
pub struct UserView {
    pub id: i32,
    pub username: Seq<char>,
    pub permission: Seq<char>,
    pub borrowed_books: Seq<BorrowedBook>,
}

impl View for User {
    type V = UserView;

    open spec fn view(&self) -> UserView {
        UserView {
            id: self.id,
            username: self.username@,
            permission: self.permission@,
            borrowed_books: self.borrowed_books@,
        }
    }
}

/// What a [`BookListResponse`] holds, with its titles as a sequence.
pub struct BookListView {
    pub items: Seq<Book>,
    pub total: i32,
    pub page: i32,
    pub limit: i32,
}

impl View for BookListResponse {
    type V = BookListView;

    open spec fn view(&self) -> BookListView {
        BookListView { items: self.items@, total: self.total, page: self.page, limit: self.limit }
    }
}

/// The permission string of administrators.
pub open spec fn is_admin_permission(permission: Seq<char>) -> bool {
    permission == "admin"@
}

/// Whether `permission` is the administrators' permission.
pub fn admin_permission(permission: &String) -> (r: bool)
    ensures
        r == is_admin_permission(permission@),
{
    *permission == String::from_str("admin")
}

/// Whether some title of `books` has the id `id`.
pub open spec fn holds_title(books: Seq<BorrowedBook>, id: i32) -> bool {
    exists|i: int| 0 <= i < books.len() && #[trigger] books[i].id == id
}

impl User {
    /// Whether the account is an administrator.
    pub fn is_admin(&self) -> (r: bool)
        ensures
            r == is_admin_permission(self.permission@),
    {
        admin_permission(&self.permission)
    }

    /// Whether the account holds the title `id` on loan.
    pub fn has_borrowed(&self, id: i32) -> (r: bool)
        ensures
            r == holds_title(self.borrowed_books@, id),
    {
        let n = self.borrowed_books.len();
        let mut i: usize = 0;
        while i < n
            invariant
                n == self.borrowed_books@.len(),
                i <= n,
                forall|j: int| 0 <= j < i ==> self.borrowed_books@[j].id != id,
            decreases n - i,
        {
            if self.borrowed_books[i].id == id {
                assert(self.borrowed_books@[i as int].id == id);
                return true;
            }
            i = i + 1;
        }
        false
    }

    /// A copy of the account, equal to it.
    pub fn duplicate(&self) -> (r: User)
        ensures
            r@ == self@,
    {
        let mut books: Vec<BorrowedBook> = Vec::new();
        let n = self.borrowed_books.len();
        let mut i: usize = 0;
        while i < n
            invariant
                n == self.borrowed_books@.len(),
                i <= n,
                books@ == self.borrowed_books@.take(i as int),
            decreases n - i,
        {
            books.push(self.borrowed_books[i].duplicate());
            i = i + 1;
            assert(books@ =~= self.borrowed_books@.take(i as int));
        }
        assert(books@ =~= self.borrowed_books@);
        User {
            id: self.id,
            username: self.username.clone(),
            permission: self.permission.clone(),
            borrowed_books: books,
        }
    }
}

impl BorrowedBook {
    /// A copy of the loan, equal to it.
    pub fn duplicate(&self) -> (r: BorrowedBook)
        ensures
            r == *self,
    {
        BorrowedBook { id: self.id, name: self.name.clone(), author: self.author.clone() }
    }
}

impl Book {
    /// A copy of the title, equal to it.
    pub fn duplicate(&self) -> (r: Book)
        ensures
            r == *self,
    {
        Book {
            id: self.id,
            name: self.name.clone(),
            author: self.author.clone(),
            description: self.description.clone(),
            total: self.total,
            available: self.available,
        }
    }
}

impl UserBrief {
    /// Whether the listed account is an administrator.
    pub fn is_admin(&self) -> (r: bool)
        ensures
            r == is_admin_permission(self.permission@),
    {
        admin_permission(&self.permission)
    }
}

} // verus!
