//! State the front end keeps between pages: the session, the cache of
//! titles seen, and the toast notifications.

use std::collections::HashMap;

use vstd::prelude::*;
use vstd::string::*;

use crate::models::{is_admin_permission, Book, User, UserView};

verus! {

broadcast use vstd::std_specs::hash::group_hash_axioms;

/// Key under which the session token is kept in the browser's storage.
pub const TOKEN_KEY: &'static str = "library_token";

/// A change that the browser's storage must see.
#[derive(Clone, PartialEq, Debug)]
pub enum StorageAction {
    /// Keep `value` under `key`.
    Store { key: String, value: String },
    /// Forget what is kept under `key`.
    Remove { key: String },
}

/// Whether `act` keeps `token` under the session key.
pub open spec fn keeps_token(act: StorageAction, token: Seq<char>) -> bool {
    act matches StorageAction::Store { key, value } && key@ == TOKEN_KEY@ && value@ == token
}

/// Whether `act` forgets what is kept under the session key.
pub open spec fn drops_token(act: StorageAction) -> bool {
    act matches StorageAction::Remove { key } && key@ == TOKEN_KEY@
}

/// The browser's storage, as a map from keys to values, after `act`.
pub open spec fn stored_after(store: Map<Seq<char>, Seq<char>>, act: StorageAction) -> Map<
    Seq<char>,
    Seq<char>,
> {
    match act {
        StorageAction::Store { key, value } => store.insert(key@, value@),
        StorageAction::Remove { key } => store.remove(key@),
    }
}

/// The token a later visit finds in the storage.
pub open spec fn saved_token(store: Map<Seq<char>, Seq<char>>) -> Option<Seq<char>> {
    if store.contains_key(TOKEN_KEY@) {
        Some(store[TOKEN_KEY@])
    } else {
        None
    }
}

/// A law of the session: a later visit finds the token that signing in
/// kept, and finds none after signing out.
pub proof fn law_session_storage_round_trip(
    store: Map<Seq<char>, Seq<char>>,
    act: StorageAction,
    token: Seq<char>,
)
    ensures
        keeps_token(act, token) ==> saved_token(stored_after(store, act)) == Some(token),
        drops_token(act) ==> saved_token(stored_after(store, act)) is None,
{
}

/// The session: the token the server issued and the account it belongs to.
#[derive(Clone, PartialEq, Debug)]
pub struct Auth {
    pub token: Option<String>,
    pub user: Option<User>,
}

/// The view of an optional account.
pub open spec fn user_view(u: Option<User>) -> Option<UserView> {
    match u {
        Some(u) => Some(u@),
        None => None,
    }
}

impl Auth {
    /// The session at start-up: the token kept from an earlier visit, if
    /// any, and no account loaded yet.
    pub fn restored(token: Option<String>) -> (r: Auth)
        ensures
            r.token == token,
            r.user is None,
    {
        Auth { token, user: None }
    }

    /// The token, if signed in.
    pub fn token_value(&self) -> (r: Option<String>)
        ensures
            r == self.token,
    {
        match &self.token {
            Some(t) => Some(t.clone()),
            None => None,
        }
    }

    /// Whether a token is held.
    pub fn is_authed(&self) -> (r: bool)
        ensures
            r == self.token is Some,
    {
        self.token.is_some()
    }

    /// The account, if loaded.
    pub fn user_value(&self) -> (r: Option<User>)
        ensures
            user_view(r) == user_view(self.user),
    {
        match &self.user {
            Some(u) => Some(u.duplicate()),
            None => None,
        }
    }

    /// Whether the loaded account is an administrator.
    pub fn is_admin(&self) -> (r: bool)
        ensures
            r == (self.user matches Some(u) && is_admin_permission(u.permission@)),
    {
        match &self.user {
            Some(u) => u.is_admin(),
            None => false,
        }
    }

    /// Signs in: holds the token and the account, and asks the storage to
    /// keep the token.
    pub fn set_session(&mut self, token: String, user: User) -> (act: StorageAction)
        ensures
            final(self).token == Some(token),
            final(self).user == Some(user),
            keeps_token(act, token@),
    {
        let value = token.clone();
        self.token = Some(token);
        self.user = Some(user);
        StorageAction::Store { key: String::from_str(TOKEN_KEY), value }
    }

    /// Replaces the loaded account, keeping the token.
    pub fn set_user(&mut self, user: User)
        ensures
            final(self).token == old(self).token,
            final(self).user == Some(user),
    {
        self.user = Some(user);
    }

    /// Signs out: forgets token and account, and asks the storage to forget
    /// the token.
    pub fn logout(&mut self) -> (act: StorageAction)
        ensures
            final(self).token is None,
            final(self).user is None,
            drops_token(act),
    {
        self.token = None;
        self.user = None;
        StorageAction::Remove { key: String::from_str(TOKEN_KEY) }
    }
}

/// The cache after storing `books` one after the other into `m`: a later
/// title replaces an earlier one with the same id.
pub open spec fn cached_after(m: Map<i32, Book>, books: Seq<Book>) -> Map<i32, Book>
    decreases books.len(),
{
    if books.len() == 0 {
        m
    } else {
        cached_after(m, books.drop_last()).insert(books.last().id, books.last())
    }
}

/// Titles seen on any page, by id.
pub struct BookCache {
    map: HashMap<i32, Book>,
}

impl View for BookCache {
    type V = Map<i32, Book>;

    closed spec fn view(&self) -> Map<i32, Book> {
        self.map@
    }
}

impl BookCache {
    /// An empty cache.
    pub fn new() -> (r: BookCache)
        ensures
            r@ == Map::<i32, Book>::empty(),
    {
        BookCache { map: HashMap::new() }
    }

    /// The cached title with id `id`, if any.
    pub fn get(&self, id: i32) -> (r: Option<&Book>)
        ensures
            match r {
                Some(b) => self@.contains_key(id) && *b == self@[id],
                None => !self@.contains_key(id),
            },
    {
        self.map.get(&id)
    }

    /// Stores every title of `books`, a later one replacing an earlier one
    /// with the same id.
    pub fn insert_many(&mut self, books: &[Book])
        ensures
            final(self)@ == cached_after(old(self)@, books@),
    {
        let n = books.len();
        let mut i: usize = 0;
        while i < n
            invariant
                n == books@.len(),
                i <= n,
                self@ == cached_after(old(self)@, books@.take(i as int)),
            decreases n - i,
        {
            let b = books[i].duplicate();
            self.map.insert(b.id, b);
            proof {
                assert(books@.take(i + 1).drop_last() =~= books@.take(i as int));
            }
            i = i + 1;
        }
        assert(books@.take(n as int) =~= books@);
    }
}

/// A law of the cache: a title stays retrievable by its id unless a later
/// title of the same batch has that id.
pub proof fn law_cache_holds_latest(m: Map<i32, Book>, books: Seq<Book>, i: int)
    requires
        0 <= i < books.len(),
        forall|j: int| i < j < books.len() ==> #[trigger] books[j].id != books[i].id,
    ensures
        cached_after(m, books).contains_key(books[i].id),
        cached_after(m, books)[books[i].id] == books[i],
    decreases books.len(),
{
    if i < books.len() - 1 {
        law_cache_holds_latest(m, books.drop_last(), i);
    }
}

/// A law of the cache: ids that no title of the batch has keep what they
/// had.
pub proof fn law_cache_keeps_others(m: Map<i32, Book>, books: Seq<Book>, k: i32)
    requires
        forall|j: int| 0 <= j < books.len() ==> #[trigger] books[j].id != k,
    ensures
        cached_after(m, books).contains_key(k) == m.contains_key(k),
        m.contains_key(k) ==> cached_after(m, books)[k] == m[k],
    decreases books.len(),
{
    if books.len() > 0 {
        law_cache_keeps_others(m, books.drop_last(), k);
    }
}


/// Kind of a toast notification.
#[derive(Clone, Copy, PartialEq, Eq, Debug, Structural)]
pub enum ToastKind {
    Success,
    Error,
}

/// A toast notification on screen.
#[derive(Clone, PartialEq, Debug)]
pub struct Toast {
    pub id: u64,
    pub message: String,
    pub kind: ToastKind,
}

/// The toasts on screen, oldest first, and the id the next one gets.
pub struct Toaster {
    items: Vec<Toast>,
    next_id: u64,
}

/// What a [`Toaster`] holds.
pub struct ToasterView {
    pub items: Seq<Toast>,
    pub next_id: u64,
}

impl View for Toaster {
    type V = ToasterView;

    closed spec fn view(&self) -> ToasterView {
        ToasterView { items: self.items@, next_id: self.next_id }
    }
}

/// Ids rise from the oldest toast to the newest, and all lie below the id
/// the next toast gets; so no two toasts share an id.
pub open spec fn toasts_well_formed(v: ToasterView) -> bool {
    &&& forall|i: int, j: int|
        0 <= i < j < v.items.len() ==> #[trigger] v.items[i].id < #[trigger] v.items[j].id
    &&& forall|i: int| 0 <= i < v.items.len() ==> #[trigger] v.items[i].id < v.next_id
}

/// The toasts after a new one of `kind` saying `message` appears.
pub open spec fn toasts_pushed(v: ToasterView, kind: ToastKind, message: String) -> ToasterView {
    ToasterView {
        items: v.items.push(Toast { id: v.next_id, message, kind }),
        next_id: (v.next_id + 1) as u64,
    }
}

/// Whether a toast is other than the one with id `id`.
pub open spec fn toast_other_than(id: u64) -> spec_fn(Toast) -> bool {
    |t: Toast| t.id != id
}

/// The toasts after the one with id `id` is dismissed.
pub open spec fn toasts_dismissed(v: ToasterView, id: u64) -> ToasterView {
    ToasterView { items: v.items.filter(toast_other_than(id)), next_id: v.next_id }
}

proof fn lemma_filter_rising(s: Seq<Toast>, id: u64, next: u64)
    requires
        toasts_well_formed(ToasterView { items: s, next_id: next }),
    ensures
        toasts_well_formed(ToasterView { items: s.filter(toast_other_than(id)), next_id: next }),
        forall|k: int|
            0 <= k < s.filter(toast_other_than(id)).len() ==> s.contains(
                #[trigger] s.filter(toast_other_than(id))[k],
            ),
    decreases s.len(),
{
    reveal_with_fuel(Seq::filter, 1);
    if s.len() > 0 {
        let p = s.drop_last();
        lemma_filter_rising(p, id, next);
        let fp = p.filter(toast_other_than(id));
        assert forall|k: int| 0 <= k < fp.len() implies #[trigger] fp[k].id < s.last().id by {
            assert(p.contains(fp[k]));
            let w = choose|w: int| 0 <= w < p.len() && p[w] == fp[k];
            assert(s[w] == p[w]);
        }
        assert forall|k: int| 0 <= k < fp.len() implies s.contains(#[trigger] fp[k]) by {
            let w = choose|w: int| 0 <= w < p.len() && p[w] == fp[k];
            assert(s[w] == p[w]);
        }
        assert(s[s.len() - 1] == s.last());
    }
}

proof fn lemma_filter_keeps_all(s: Seq<Toast>, id: u64)
    requires
        forall|i: int| 0 <= i < s.len() ==> (#[trigger] s[i]).id != id,
    ensures
        s.filter(toast_other_than(id)) == s,
    decreases s.len(),
{
    reveal_with_fuel(Seq::filter, 1);
    if s.len() > 0 {
        lemma_filter_keeps_all(s.drop_last(), id);
        assert(s.drop_last().push(s.last()) =~= s);
    }
}

impl Toaster {
    /// Every toaster keeps its ids rising and below the next id.
    #[verifier::type_invariant]
    spec fn well_formed(self) -> bool {
        toasts_well_formed(self@)
    }

    /// No toasts; the first gets id 0.
    pub fn new() -> (r: Toaster)
        ensures
            r@.items == Seq::<Toast>::empty(),
            r@.next_id == 0,
            toasts_well_formed(r@),
    {
        Toaster { items: Vec::new(), next_id: 0 }
    }

    /// The toasts on screen, oldest first.
    pub fn items(&self) -> (r: &Vec<Toast>)
        ensures
            r@ == self@.items,
            toasts_well_formed(self@),
    {
        proof {
            use_type_invariant(self);
        }
        &self.items
    }

    /// Whether another toast can get an id.
    pub fn can_push(&self) -> (r: bool)
        ensures
            r == (self@.next_id < u64::MAX),
    {
        self.next_id < u64::MAX
    }

    /// Shows a new toast, with the next id.
    pub fn push(&mut self, kind: ToastKind, message: String)
        requires
            old(self)@.next_id < u64::MAX,
        ensures
            final(self)@ == toasts_pushed(old(self)@, kind, message),
            toasts_well_formed(final(self)@),
    {
        proof {
            use_type_invariant(&*self);
        }
        let id = self.next_id;
        let mut items: Vec<Toast> = Vec::new();
        std::mem::swap(&mut items, &mut self.items);
        items.push(Toast { id, message, kind });
        self.next_id = id + 1;
        self.items = items;
    }

    /// Shows a success toast.
    pub fn success(&mut self, message: String)
        requires
            old(self)@.next_id < u64::MAX,
        ensures
            final(self)@ == toasts_pushed(old(self)@, ToastKind::Success, message),
            toasts_well_formed(final(self)@),
    {
        proof {
            use_type_invariant(&*self);
        }
        self.push(ToastKind::Success, message);
    }

    /// Shows an error toast.
    pub fn error(&mut self, message: String)
        requires
            old(self)@.next_id < u64::MAX,
        ensures
            final(self)@ == toasts_pushed(old(self)@, ToastKind::Error, message),
            toasts_well_formed(final(self)@),
    {
        proof {
            use_type_invariant(&*self);
        }
        self.push(ToastKind::Error, message);
    }

    /// Removes the toast with id `id`, if it is on screen.
    pub fn dismiss(&mut self, id: u64)
        ensures
            final(self)@ == toasts_dismissed(old(self)@, id),
            toasts_well_formed(final(self)@),
    {
        proof {
            use_type_invariant(&*self);
        }
        let ghost old_items = self.items@;
        let mut kept: Vec<Toast> = Vec::new();
        let n = self.items.len();
        let mut i: usize = 0;
        while i < n
            invariant
                n == self.items@.len(),
                self.items@ == old_items,
                i <= n,
                kept@ == old_items.take(i as int).filter(toast_other_than(id)),
            decreases n - i,
        {
            proof {
                reveal_with_fuel(Seq::filter, 1);
                assert(old_items.take(i + 1).drop_last() =~= old_items.take(i as int));
                assert(old_items.take(i + 1).last() == old_items[i as int]);
            }
            if self.items[i].id != id {
                let t = Toast {
                    id: self.items[i].id,
                    message: self.items[i].message.clone(),
                    kind: self.items[i].kind,
                };
                kept.push(t);
            }
            i = i + 1;
        }
        assert(old_items.take(n as int) =~= old_items);
        proof {
            lemma_filter_rising(old_items, id, self.next_id);
        }
        self.items = kept;
    }
}

/// A law of the toasts: dismissing the toast that was just shown gives back
/// the toasts as they were, apart from the id counter.
pub proof fn law_dismiss_undoes_push(v: ToasterView, kind: ToastKind, message: String)
    requires
        toasts_well_formed(v),
        v.next_id < u64::MAX,
    ensures
        toasts_dismissed(toasts_pushed(v, kind, message), v.next_id).items == v.items,
        toasts_dismissed(toasts_pushed(v, kind, message), v.next_id).next_id == v.next_id + 1,
{
    reveal_with_fuel(Seq::filter, 1);
    let p = toasts_pushed(v, kind, message).items;
    assert(p.drop_last() =~= v.items);
    lemma_filter_keeps_all(v.items, v.next_id);
}

/// A law of the toasts: dismissing twice is dismissing once.
pub proof fn law_dismiss_idempotent(v: ToasterView, id: u64)
    ensures
        toasts_dismissed(toasts_dismissed(v, id), id) == toasts_dismissed(v, id),
{
    broadcast use vstd::seq_lib::group_filter_ensures;

    let f = v.items.filter(toast_other_than(id));
    assert forall|i: int| 0 <= i < f.len() implies (#[trigger] f[i]).id != id by {
        assert(toast_other_than(id)(f[i]));
    }
    lemma_filter_keeps_all(f, id);
}

/// A law of the toasts: dismissing one toast keeps every other toast.
pub proof fn law_dismiss_keeps_others(v: ToasterView, id: u64, i: int)
    requires
        0 <= i < v.items.len(),
        v.items[i].id != id,
    ensures
        toasts_dismissed(v, id).items.contains(v.items[i]),
{
    broadcast use vstd::seq_lib::group_filter_ensures;

    assert(toast_other_than(id)(v.items[i]));
}

/// A law of the toasts: after a dismissal no toast with that id is left.
pub proof fn law_dismiss_removes(v: ToasterView, id: u64, i: int)
    requires
        0 <= i < toasts_dismissed(v, id).items.len(),
    ensures
        toasts_dismissed(v, id).items[i].id != id,
{
    broadcast use vstd::seq_lib::group_filter_ensures;

    assert(toast_other_than(id)(toasts_dismissed(v, id).items[i]));
}

} // verus!
