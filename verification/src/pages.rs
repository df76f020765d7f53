//! Decisions of the page frame and the account pages: who may see a page,
//! what the navigation bar offers, and the small texts pages show.

use vstd::prelude::*;
use vstd::string::*;

use crate::models::{holds_title, is_admin_permission};
use crate::state::{Auth, ToastKind};

verus! {

/// What a page that needs a session shows.
#[derive(Clone, Copy, PartialEq, Eq, Debug, Structural)]
pub enum Access {
    /// No session: ask to sign in.
    SignInFirst,
    /// A session whose account is not loaded yet: wait.
    Loading,
    /// The account is not an administrator, and the page is theirs.
    AdminsOnly,
    /// Show the page.
    Granted,
}

/// Who may see a page: a session is needed, then its account, then, for
/// `admins_only` pages, administrator rights.
pub fn page_access(auth: &Auth, admins_only: bool) -> (r: Access)
    ensures
        r == (if auth.token is None {
            Access::SignInFirst
        } else if auth.user is None {
            Access::Loading
        } else if admins_only && !is_admin_permission(auth.user->0.permission@) {
            Access::AdminsOnly
        } else {
            Access::Granted
        }),
{
    if !auth.is_authed() {
        return Access::SignInFirst;
    }
    match &auth.user {
        None => Access::Loading,
        Some(u) => if admins_only && !u.is_admin() {
            Access::AdminsOnly
        } else {
            Access::Granted
        },
    }
}

/// The account shown at the right of the navigation bar.
#[derive(Clone, PartialEq, Debug)]
pub struct NavAccount {
    pub username: String,
    pub admin_badge: bool,
}

/// What the navigation bar offers.
#[derive(Clone, PartialEq, Debug)]
pub struct NavModel {
    /// Links to one's loans and account page.
    pub member_links: bool,
    /// Link to the administration page.
    pub admin_link: bool,
    /// The account with its sign-out button, or none for the sign-in and
    /// registration links.
    pub account: Option<NavAccount>,
}

/// The navigation bar for the session `auth`: member links with a token,
/// the administration link for administrators, and the loaded account.
pub fn nav_model(auth: &Auth) -> (r: NavModel)
    ensures
        r.member_links == auth.token is Some,
        r.admin_link == (auth.user matches Some(u) && is_admin_permission(u.permission@)),
        r.account is Some == auth.user is Some,
        auth.user is Some ==> r.account->0.username@ == auth.user->0.username@
            && r.account->0.admin_badge == is_admin_permission(auth.user->0.permission@),
{
    let account = match &auth.user {
        Some(u) => Some(NavAccount { username: u.username.clone(), admin_badge: u.is_admin() }),
        None => None,
    };
    NavModel { member_links: auth.is_authed(), admin_link: auth.is_admin(), account }
}

/// Whether the signed-in account holds the title `book_id`.
pub fn holds_on_loan(auth: &Auth, book_id: i32) -> (r: bool)
    ensures
        r == (auth.user matches Some(u) && holds_title(u.borrowed_books@, book_id)),
{
    match &auth.user {
        Some(u) => u.has_borrowed(book_id),
        None => false,
    }
}

/// Whether the listed account `id` is the signed-in one.
pub fn is_self(current_user_id: Option<i32>, id: i32) -> (r: bool)
    ensures
        r == (current_user_id == Some(id)),
{
    match current_user_id {
        Some(c) => c == id,
        None => false,
    }
}

/// Class of a tab of the administration page.
pub fn tab_class(active: bool) -> (r: String)
    ensures
        r@ == "px-4 py-2 text-sm font-medium rounded-lg transition"@ + " "@ + (if active {
            "bg-indigo-100 text-indigo-700"@
        } else {
            "text-slate-500 hover:text-slate-700 hover:bg-slate-100"@
        }),
{
    let base = String::from_str("px-4 py-2 text-sm font-medium rounded-lg transition").concat(" ");
    if active {
        base.concat("bg-indigo-100 text-indigo-700")
    } else {
        base.concat("text-slate-500 hover:text-slate-700 hover:bg-slate-100")
    }
}

/// How long a toast stays on screen, in milliseconds.
pub const TOAST_LIFETIME_MS: u32 = 3400;

/// How a toast looks: border accent, icon and icon badge.
#[derive(Clone, PartialEq, Debug)]
pub struct ToastStyle {
    pub accent: String,
    pub icon: String,
    pub badge: String,
}

/// The look of a toast of `kind`: green with a tick for success, red with
/// an exclamation mark for errors.
pub fn toast_style(kind: ToastKind) -> (r: ToastStyle)
    ensures
        kind == ToastKind::Success ==> r.accent@ == "border-l-emerald-500"@ && r.icon@ == "✓"@
            && r.badge@ == "bg-emerald-100 text-emerald-600"@,
        kind == ToastKind::Error ==> r.accent@ == "border-l-rose-500"@ && r.icon@ == "!"@
            && r.badge@ == "bg-rose-100 text-rose-600"@,
{
    match kind {
        ToastKind::Success => ToastStyle {
            accent: String::from_str("border-l-emerald-500"),
            icon: String::from_str("✓"),
            badge: String::from_str("bg-emerald-100 text-emerald-600"),
        },
        ToastKind::Error => ToastStyle {
            accent: String::from_str("border-l-rose-500"),
            icon: String::from_str("!"),
            badge: String::from_str("bg-rose-100 text-rose-600"),
        },
    }
}

/// `parts` joined by `/`, after a leading `/`.
pub open spec fn joined_path(parts: Seq<Seq<char>>) -> Seq<char>
    decreases parts.len(),
{
    if parts.len() == 0 {
        "/"@
    } else if parts.len() == 1 {
        "/"@ + parts[0]
    } else {
        joined_path(parts.drop_last()) + "/"@ + parts.last()
    }
}

/// The path of a page that does not exist, from its segments.
pub fn missing_path(parts: &Vec<String>) -> (r: String)
    ensures
        r@ == joined_path(parts@.map_values(|p: String| p@)),
{
    let ghost views = parts@.map_values(|p: String| p@);
    let mut r = String::from_str("/");
    let n = parts.len();
    let mut i: usize = 0;
    while i < n
        invariant
            n == parts@.len(),
            views == parts@.map_values(|p: String| p@),
            i <= n,
            i == 0 ==> r@ == "/"@,
            i > 0 ==> r@ == joined_path(views.take(i as int)),
        decreases n - i,
    {
        if i > 0 {
            r = r.concat("/");
        }
        r = r.concat(parts[i].as_str());
        proof {
            let t = views.take(i + 1);
            assert(t.drop_last() =~= views.take(i as int));
            assert(t.last() == parts@[i as int]@);
            if i == 0 {
                assert(t.len() == 1);
                assert(t[0] == parts@[0]@);
            }
        }
        i = i + 1;
    }
    proof {
        assert(views.take(n as int) =~= views);
        if n == 0 {
            assert(views.len() == 0);
        }
    }
    r
}

} // verus!
