use library_frontend::models::{Book, BorrowedBook, User, UserBrief};
use library_frontend::state::{Auth, BookCache, StorageAction, ToastKind, Toaster, TOKEN_KEY};

fn user(permission: &str) -> User {
    User {
        id: 7,
        username: "alice".into(),
        permission: permission.into(),
        borrowed_books: vec![
            BorrowedBook { id: 3, name: "x".into(), author: "".into() },
            BorrowedBook { id: 11, name: "y".into(), author: "z".into() },
        ],
    }
}

fn book(id: i32, name: &str) -> Book {
    Book { id, name: name.into(), author: "a".into(), description: "".into(), total: 2, available: 1 }
}

#[test]
fn user_permissions_and_loans() {
    assert!(user("admin").is_admin());
    assert!(!user("user").is_admin());
    assert!(!user("Admin").is_admin());
    assert!(user("user").has_borrowed(11));
    assert!(!user("user").has_borrowed(4));
    let brief = UserBrief { id: 1, username: "r".into(), permission: "admin".into() };
    assert!(brief.is_admin());
    assert_eq!(user("user").duplicate(), user("user"));
}

#[test]
fn session_sign_in_and_out() {
    let mut auth = Auth::restored(Some("old".into()));
    assert!(auth.is_authed());
    assert_eq!(auth.user_value(), None);
    assert!(!auth.is_admin());
    let act = auth.set_session("new".into(), user("admin"));
    assert_eq!(act, StorageAction::Store { key: TOKEN_KEY.into(), value: "new".into() });
    assert_eq!(TOKEN_KEY, "library_token");
    assert_eq!(auth.token_value(), Some("new".to_string()));
    assert_eq!(auth.user_value(), Some(user("admin")));
    assert!(auth.is_admin());
    auth.set_user(user("user"));
    assert_eq!(auth.token_value(), Some("new".to_string()));
    assert!(!auth.is_admin());
    let act = auth.logout();
    assert_eq!(act, StorageAction::Remove { key: "library_token".into() });
    assert!(!auth.is_authed());
    assert_eq!(auth.user_value(), None);
    assert_eq!(Auth::restored(None).token_value(), None);
}

#[test]
fn cache_keeps_latest_title() {
    let mut cache = BookCache::new();
    assert!(cache.get(1).is_none());
    cache.insert_many(&[book(1, "a"), book(2, "b"), book(1, "c")]);
    assert_eq!(cache.get(1), Some(&book(1, "c")));
    assert_eq!(cache.get(2), Some(&book(2, "b")));
    cache.insert_many(&[book(3, "d")]);
    assert_eq!(cache.get(2), Some(&book(2, "b")));
    assert_eq!(cache.get(3), Some(&book(3, "d")));
    assert!(cache.get(4).is_none());
}

#[test]
fn toasts_get_rising_ids() {
    let mut t = Toaster::new();
    assert!(t.can_push());
    t.success("saved".into());
    t.error("failed".into());
    t.push(ToastKind::Success, "again".into());
    let ids: Vec<u64> = t.items().iter().map(|x| x.id).collect();
    assert_eq!(ids, vec![0, 1, 2]);
    assert_eq!(t.items()[1].kind, ToastKind::Error);
    assert_eq!(t.items()[1].message, "failed");
}

#[test]
fn dismiss_removes_only_that_toast() {
    let mut t = Toaster::new();
    t.success("a".into());
    t.success("b".into());
    t.success("c".into());
    t.dismiss(1);
    let msgs: Vec<&str> = t.items().iter().map(|x| x.message.as_str()).collect();
    assert_eq!(msgs, vec!["a", "c"]);
    t.dismiss(1);
    assert_eq!(t.items().len(), 2);
    t.dismiss(99);
    assert_eq!(t.items().len(), 2);
}

#[test]
fn dismiss_undoes_push() {
    let mut t = Toaster::new();
    t.success("a".into());
    let before = t.items().clone();
    t.error("b".into());
    t.dismiss(1);
    assert_eq!(t.items(), &before);
    t.success("c".into());
    assert_eq!(t.items()[1].id, 2);
}
