//! Decisions of the catalogue page: the query, the pages, the editor's
//! fields and how each title's card presents it.

use vstd::prelude::*;
use vstd::string::*;

use crate::models::Book;
use crate::text::{
    char_to_uppercase, decimal, is_white_space, is_white_space_char, lemma_trim_front_at,
    parse_i32, parsed_i32, push_decimal, trim, trim_front, trimmed, uppercase_of,
};

verus! {

/// Titles on one page of the catalogue.
pub const PAGE_SIZE: i32 = 9;

/// What the catalogue shows: titles matching `keyword` (all when empty),
/// page `page`.
#[derive(Clone, PartialEq, Debug)]
pub struct Query {
    pub keyword: String,
    pub page: i32,
}

impl Query {
    /// The first page of the whole catalogue (also what "clear" gives).
    pub fn first() -> (r: Query)
        ensures
            r.keyword@ == Seq::<char>::empty(),
            r.page == 1,
    {
        Query { keyword: String::new(), page: 1 }
    }

    /// The query for what was typed into the search box: the trimmed
    /// keyword, first page.
    pub fn from_input(input: &str) -> (r: Query)
        ensures
            r.keyword@ == trimmed(input@),
            r.page == 1,
    {
        Query { keyword: trim(input), page: 1 }
    }

    /// The page before.
    pub fn previous(&self) -> (r: Query)
        requires
            self.page > i32::MIN,
        ensures
            r.keyword@ == self.keyword@,
            r.page == self.page - 1,
    {
        Query { keyword: self.keyword.clone(), page: self.page - 1 }
    }

    /// The page after.
    pub fn next(&self) -> (r: Query)
        requires
            self.page < i32::MAX,
        ensures
            r.keyword@ == self.keyword@,
            r.page == self.page + 1,
    {
        Query { keyword: self.keyword.clone(), page: self.page + 1 }
    }
}

/// Number of pages for `total` titles: enough pages of nine, and at least
/// one.
pub open spec fn page_count(total: i32) -> int {
    if total > 0 {
        (total - 1) / 9 + 1
    } else {
        1
    }
}

/// Where the catalogue's page controls stand.
#[derive(Clone, Copy, PartialEq, Eq, Debug, Structural)]
pub struct Pagination {
    pub page: i32,
    pub total_pages: i32,
    pub has_prev: bool,
    pub has_next: bool,
}

/// The page controls for page `page` of `total` titles, `count` of which
/// the page shows: back from any page after the first, forward while a page
/// follows and this one is not empty.
pub fn paginate(page: i32, total: i32, count: usize) -> (r: Pagination)
    ensures
        r.page == page,
        r.total_pages == page_count(total),
        r.has_prev == (page > 1),
        r.has_next == (page < page_count(total) && count > 0),
        r.has_prev ==> page > i32::MIN,
        r.has_next ==> page < i32::MAX,
{
    let total_pages = if total > 0 {
        (total - 1) / 9 + 1
    } else {
        1
    };
    Pagination {
        page,
        total_pages,
        has_prev: page > 1,
        has_next: page < total_pages && count > 0,
    }
}

/// A law of the page controls: the page count is the fewest pages of nine
/// that hold all titles.
pub proof fn law_page_count_fits(total: i32)
    ensures
        page_count(total) >= 1,
        total > 0 ==> 9 * (page_count(total) - 1) < total <= 9 * page_count(total),
{
}

/// The line under the catalogue's heading.
pub fn catalogue_hint(is_authed: bool) -> (r: String)
    ensures
        r@ == (if is_authed {
            "搜索书名、作者或描述关键词即可借阅。"@
        } else {
            "搜索书名、作者或描述关键词，登录后即可借阅。"@
        }),
{
    if is_authed {
        String::from_str("搜索书名、作者或描述关键词即可借阅。")
    } else {
        String::from_str("搜索书名、作者或描述关键词，登录后即可借阅。")
    }
}

/// The fields of the title editor; `id` is the title being edited, none
/// for a new one.
#[derive(Clone, PartialEq, Debug)]
pub struct BookDraft {
    pub id: Option<i32>,
    pub name: String,
    pub author: String,
    pub description: String,
    pub total: i32,
}

impl BookDraft {
    /// The editor for a new title: empty fields, one copy.
    pub fn blank() -> (r: BookDraft)
        ensures
            r.id is None,
            r.name@ == Seq::<char>::empty(),
            r.author@ == Seq::<char>::empty(),
            r.description@ == Seq::<char>::empty(),
            r.total == 1,
    {
        BookDraft {
            id: None,
            name: String::new(),
            author: String::new(),
            description: String::new(),
            total: 1,
        }
    }

    /// The editor for `book`, filled with its fields.
    pub fn of(book: &Book) -> (r: BookDraft)
        ensures
            r.id == Some(book.id),
            r.name == book.name,
            r.author == book.author,
            r.description == book.description,
            r.total == book.total,
    {
        BookDraft {
            id: Some(book.id),
            name: book.name.clone(),
            author: book.author.clone(),
            description: book.description.clone(),
            total: book.total,
        }
    }
}

/// The number of copies after typing `input` into its field: the number
/// typed when it reads as one, else what it was.
pub fn total_after_input(current: i32, input: &str) -> (r: i32)
    ensures
        r == (match parsed_i32(input@) {
            Some(n) => n,
            None => current,
        }),
{
    match parse_i32(input) {
        Some(n) => n,
        None => current,
    }
}

/// Cover colours, one of five chosen by the title's id.
pub open spec fn gradient_class(k: int) -> Seq<char> {
    if k == 0 {
        "from-indigo-500 to-violet-500"@
    } else if k == 1 {
        "from-sky-500 to-cyan-500"@
    } else if k == 2 {
        "from-emerald-500 to-teal-500"@
    } else if k == 3 {
        "from-amber-500 to-orange-500"@
    } else {
        "from-rose-500 to-pink-500"@
    }
}

/// Absolute value.
pub open spec fn abs(n: int) -> int {
    if n < 0 {
        -n
    } else {
        n
    }
}

/// The cover colours of the title `id`: the palette entry at `|id| mod 5`.
pub fn cover_gradient(id: i32) -> (r: String)
    ensures
        r@ == gradient_class(abs(id as int) % 5),
{
    let a: i64 = if id < 0 {
        -(id as i64)
    } else {
        id as i64
    };
    let k = a % 5;
    if k == 0 {
        String::from_str("from-indigo-500 to-violet-500")
    } else if k == 1 {
        String::from_str("from-sky-500 to-cyan-500")
    } else if k == 2 {
        String::from_str("from-emerald-500 to-teal-500")
    } else if k == 3 {
        String::from_str("from-amber-500 to-orange-500")
    } else {
        String::from_str("from-rose-500 to-pink-500")
    }
}

/// The letter on a cover: the upper case of the first character of the
/// title that is not white space, or `?`.
pub open spec fn cover_letter(name: Seq<char>) -> Seq<char> {
    if trim_front(name).len() > 0 {
        uppercase_of(trim_front(name)[0])
    } else {
        "?"@
    }
}

/// The letter on the cover of the title `name` (see [`cover_letter`]).
pub fn cover_initial(name: &str) -> (r: String)
    ensures
        r@ == cover_letter(name@),
{
    let n = name.unicode_len();
    let mut i: usize = 0;
    while i < n && is_white_space_char(name.get_char(i))
        invariant
            n == name@.len(),
            i <= n,
            forall|j: int| 0 <= j < i ==> is_white_space(#[trigger] name@[j]),
        decreases n - i,
    {
        i = i + 1;
    }
    proof {
        lemma_trim_front_at(name@, i as int);
    }
    if i < n {
        char_to_uppercase(name.get_char(i))
    } else {
        String::from_str("?")
    }
}

/// The letter on an account's avatar: the upper case of the first
/// character of its name, or `?`.
pub open spec fn avatar_letter(name: Seq<char>) -> Seq<char> {
    if name.len() > 0 {
        uppercase_of(name[0])
    } else {
        "?"@
    }
}

/// The letter on the avatar of the account `name` (see [`avatar_letter`]).
pub fn avatar_initial(name: &str) -> (r: String)
    ensures
        r@ == avatar_letter(name@),
{
    if name.unicode_len() > 0 {
        char_to_uppercase(name.get_char(0))
    } else {
        String::from_str("?")
    }
}

/// How much of a title is left to lend, for the bar on its card.
#[derive(Clone, Copy, PartialEq, Eq, Debug, Structural)]
pub enum StockLevel {
    /// More than half of the copies are in.
    Plenty,
    /// Some, but at most half, are in.
    Low,
    /// None are in.
    Out,
}

/// The stock level of a title with `available` of `total` copies in: the
/// share `available / total` (zero when `total` is not positive) compared
/// with one half and with zero, done in integers.
pub open spec fn stock_level_of(available: i32, total: i32) -> StockLevel {
    if total > 0 && 2 * available > total {
        StockLevel::Plenty
    } else if total > 0 && available > 0 {
        StockLevel::Low
    } else {
        StockLevel::Out
    }
}

/// The stock level of a title (see [`stock_level_of`]).
pub fn stock_level(available: i32, total: i32) -> (r: StockLevel)
    ensures
        r == stock_level_of(available, total),
{
    if total > 0 && 2 * (available as i64) > total as i64 {
        StockLevel::Plenty
    } else if total > 0 && available > 0 {
        StockLevel::Low
    } else {
        StockLevel::Out
    }
}

impl StockLevel {
    /// Colour of the stock bar.
    pub fn bar_class(&self) -> (r: String)
        ensures
            r@ == (match *self {
                StockLevel::Plenty => "bg-emerald-400"@,
                StockLevel::Low => "bg-amber-400"@,
                StockLevel::Out => "bg-rose-400"@,
            }),
    {
        match self {
            StockLevel::Plenty => String::from_str("bg-emerald-400"),
            StockLevel::Low => String::from_str("bg-amber-400"),
            StockLevel::Out => String::from_str("bg-rose-400"),
        }
    }
}

/// The stock line of a card: `available/total 可借` while copies are in,
/// else `已借完`.
pub open spec fn stock_text(available: i32, total: i32) -> Seq<char> {
    if available > 0 {
        decimal(available as int) + "/"@ + decimal(total as int) + " 可借"@
    } else {
        "已借完"@
    }
}

/// The stock line of a card (see [`stock_text`]).
pub fn stock_label(available: i32, total: i32) -> (r: String)
    ensures
        r@ == stock_text(available, total),
{
    if available > 0 {
        let mut s = String::new();
        push_decimal(&mut s, available as i64);
        let mut s = s.concat("/");
        push_decimal(&mut s, total as i64);
        let s = s.concat(" 可借");
        assert(s@ =~= stock_text(available, total));
        s
    } else {
        String::from_str("已借完")
    }
}

/// Colour of the stock line: green while copies are in, else red.
pub fn stock_label_class(available: i32) -> (r: String)
    ensures
        r@ == (if available > 0 {
            "text-emerald-600"@
        } else {
            "text-rose-500"@
        }),
{
    if available > 0 {
        String::from_str("text-emerald-600")
    } else {
        String::from_str("text-rose-500")
    }
}

/// Whether a title can be borrowed: at least one copy is in.
pub fn can_borrow(available: i32) -> (r: bool)
    ensures
        r == (available >= 1),
{
    available >= 1
}

/// The borrow button's text.
pub fn borrow_label(available: i32) -> (r: String)
    ensures
        r@ == (if available < 1 {
            "不可借"@
        } else {
            "借阅"@
        }),
{
    if available < 1 {
        String::from_str("不可借")
    } else {
        String::from_str("借阅")
    }
}

} // verus!
