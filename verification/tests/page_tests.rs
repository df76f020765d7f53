use library_frontend::actions::{
    borrow_attempt, close_account_attempt, delete_book_attempt, editor_attempt, empty_loans_note,
    feedback, lost_admin_rights, permission_attempt, profile_attempt, react, remove_user_attempt,
    return_attempt, session_token, Attempt, Place, Reaction,
};
use library_frontend::api::{Action, HttpMethod, RequestBody};
use library_frontend::catalog::{
    avatar_initial, borrow_label, can_borrow, catalogue_hint, cover_gradient, cover_initial,
    paginate, stock_label, stock_label_class, stock_level, total_after_input, BookDraft, Query,
    StockLevel, PAGE_SIZE,
};
use library_frontend::models::{Book, BorrowedBook, User, UserBrief};
use library_frontend::pages::{
    holds_on_loan, is_self, missing_path, nav_model, page_access, tab_class, toast_style,
    Access, TOAST_LIFETIME_MS,
};
use library_frontend::state::{Auth, ToastKind};

fn token() -> Option<String> {
    Some("tok".to_string())
}

fn sent(a: Attempt) -> (library_frontend::api::ApiRequest, Action) {
    match a {
        Attempt::Send { request, action } => (request, action),
        _ => panic!("expected a request"),
    }
}

fn refused(a: Attempt) -> String {
    match a {
        Attempt::Refuse { message } => message,
        _ => panic!("expected a refusal"),
    }
}

#[test]
fn queries_and_pages() {
    let q = Query::from_input("  刘慈欣 ");
    assert_eq!((q.keyword.as_str(), q.page), ("刘慈欣", 1));
    let q = Query::first();
    assert_eq!((q.keyword.as_str(), q.page), ("", 1));
    let n = q.next();
    assert_eq!(n.page, 2);
    assert_eq!(n.previous().page, 1);
    assert_eq!(PAGE_SIZE, 9);

    let p = paginate(1, 0, 0);
    assert_eq!((p.total_pages, p.has_prev, p.has_next), (1, false, false));
    let p = paginate(1, 9, 9);
    assert_eq!((p.total_pages, p.has_prev, p.has_next), (1, false, false));
    let p = paginate(1, 10, 9);
    assert_eq!((p.total_pages, p.has_prev, p.has_next), (2, false, true));
    let p = paginate(2, 10, 1);
    assert_eq!((p.total_pages, p.has_prev, p.has_next), (2, true, false));
    let p = paginate(1, 30, 0);
    assert_eq!((p.total_pages, p.has_next), (4, false));
    assert_eq!(paginate(1, i32::MAX, 9).total_pages, 238609295);
}

#[test]
fn catalogue_texts() {
    assert_eq!(catalogue_hint(true), "搜索书名、作者或描述关键词即可借阅。");
    assert_eq!(catalogue_hint(false), "搜索书名、作者或描述关键词，登录后即可借阅。");
    assert_eq!(cover_gradient(0), "from-indigo-500 to-violet-500");
    assert_eq!(cover_gradient(-7), "from-emerald-500 to-teal-500");
    assert_eq!(cover_gradient(9), "from-rose-500 to-pink-500");
    assert_eq!(cover_gradient(i32::MIN), "from-amber-500 to-orange-500");
    assert_eq!(cover_initial("  rust in action"), "R");
    assert_eq!(cover_initial("\u{3000}三体"), "三");
    assert_eq!(cover_initial("straße"), "S");
    assert_eq!(cover_initial(" ßx"), "SS");
    assert_eq!(cover_initial("   "), "?");
    assert_eq!(avatar_initial("alice"), "A");
    assert_eq!(avatar_initial(" alice"), " ");
    assert_eq!(avatar_initial(""), "?");
}

#[test]
fn stock_display() {
    assert_eq!(stock_level(6, 10), StockLevel::Plenty);
    assert_eq!(stock_level(5, 10), StockLevel::Low);
    assert_eq!(stock_level(1, 10), StockLevel::Low);
    assert_eq!(stock_level(0, 10), StockLevel::Out);
    assert_eq!(stock_level(3, 0), StockLevel::Out);
    assert_eq!(stock_level(i32::MAX, i32::MAX), StockLevel::Plenty);
    for (a, t) in [(6, 10), (5, 10), (1, 10), (0, 10), (3, 0), (-1, 4), (1, 1), (1, 3)] {
        let pct = if t > 0 { a as f64 / t as f64 } else { 0.0 };
        let expected = if pct > 0.5 {
            StockLevel::Plenty
        } else if pct > 0.0 {
            StockLevel::Low
        } else {
            StockLevel::Out
        };
        assert_eq!(stock_level(a, t), expected, "{a}/{t}");
    }
    assert_eq!(StockLevel::Plenty.bar_class(), "bg-emerald-400");
    assert_eq!(StockLevel::Low.bar_class(), "bg-amber-400");
    assert_eq!(StockLevel::Out.bar_class(), "bg-rose-400");
    assert_eq!(stock_label(2, 5), "2/5 可借");
    assert_eq!(stock_label(0, 5), "已借完");
    assert_eq!(stock_label_class(1), "text-emerald-600");
    assert_eq!(stock_label_class(0), "text-rose-500");
    assert!(can_borrow(1));
    assert!(!can_borrow(0));
    assert_eq!(borrow_label(0), "不可借");
    assert_eq!(borrow_label(3), "借阅");
}

#[test]
fn editor_fields() {
    let d = BookDraft::blank();
    assert_eq!((d.id, d.name.as_str(), d.total), (None, "", 1));
    let b = Book {
        id: 4,
        name: "n".into(),
        author: "a".into(),
        description: "d".into(),
        total: 6,
        available: 2,
    };
    let d = BookDraft::of(&b);
    assert_eq!((d.id, d.name.as_str(), d.author.as_str(), d.description.as_str(), d.total), (Some(4), "n", "a", "d", 6));
    assert_eq!(total_after_input(3, "12"), 12);
    assert_eq!(total_after_input(3, "-2"), -2);
    assert_eq!(total_after_input(3, "1.5"), 3);
    assert_eq!(total_after_input(3, ""), 3);
}

#[test]
fn editor_saves() {
    let mut d = BookDraft::blank();
    assert!(matches!(editor_attempt(true, &token(), &d), Attempt::Ignore));
    assert_eq!(refused(editor_attempt(false, &None, &d)), "请先登录");
    assert_eq!(refused(editor_attempt(false, &token(), &d)), "书名和作者不能为空");
    d.name = " 三体 ".into();
    d.author = " 刘慈欣".into();
    d.description = " 科幻 ".into();
    d.total = 0;
    assert_eq!(refused(editor_attempt(false, &token(), &d)), "数量至少为 1");
    d.total = 2;
    let (r, a) = sent(editor_attempt(false, &token(), &d));
    assert_eq!(a, Action::CreateBook);
    assert_eq!((r.method, r.url.as_str()), (HttpMethod::Post, "/api/books"));
    assert_eq!(
        r.body,
        RequestBody::BookFields { name: "三体".into(), author: "刘慈欣".into(), description: "科幻".into(), total: 2 }
    );
    d.id = Some(8);
    let (r, a) = sent(editor_attempt(false, &token(), &d));
    assert_eq!(a, Action::UpdateBook);
    assert_eq!((r.method, r.url.as_str()), (HttpMethod::Put, "/api/books/8"));
}

#[test]
fn card_buttons() {
    assert!(matches!(borrow_attempt(true, &token(), Some(1), 2), Attempt::Ignore));
    assert_eq!(refused(borrow_attempt(false, &None, Some(1), 2)), "请先登录后再借阅");
    assert_eq!(refused(borrow_attempt(false, &token(), None, 2)), "无法获取用户信息");
    let (r, a) = sent(borrow_attempt(false, &token(), Some(1), 2));
    assert_eq!((a, r.url.as_str()), (Action::Borrow, "/api/borrow"));
    assert_eq!(r.body, RequestBody::Loan { user_id: 1, book_id: 2 });
    assert!(matches!(return_attempt(false, &None, Some(1), 2), Attempt::Ignore));
    assert!(matches!(return_attempt(false, &token(), None, 2), Attempt::Ignore));
    let (r, a) = sent(return_attempt(false, &token(), Some(1), 2));
    assert_eq!((a, r.url.as_str()), (Action::Return, "/api/return"));
    assert!(matches!(delete_book_attempt(false, &None, 2), Attempt::Ignore));
    let (r, a) = sent(delete_book_attempt(false, &token(), 2));
    assert_eq!((a, r.method, r.url.as_str()), (Action::DeleteBook, HttpMethod::Delete, "/api/books/2"));
}

#[test]
fn account_buttons() {
    assert!(matches!(profile_attempt(false, &None, 1, "ab", "old", ""), Attempt::Ignore));
    assert_eq!(refused(profile_attempt(false, &token(), 1, "a", "old", "")), "用户名长度需 2-20 位");
    let (r, a) = sent(profile_attempt(false, &token(), 1, " ab ", "old", "123456"));
    assert_eq!((a, r.url.as_str()), (Action::UpdateProfile, "/api/users/1"));
    assert_eq!(
        r.body,
        RequestBody::ProfileChange { old_password: "old".into(), username: "ab".into(), password: "123456".into() }
    );
    let (r, a) = sent(close_account_attempt(false, &token(), 5));
    assert_eq!((a, r.method, r.url.as_str()), (Action::CloseAccount, HttpMethod::Delete, "/api/users/5"));
    assert!(matches!(close_account_attempt(true, &token(), 5), Attempt::Ignore));
    let admin = UserBrief { id: 3, username: "r".into(), permission: "admin".into() };
    let plain = UserBrief { id: 4, username: "s".into(), permission: "user".into() };
    let (r, a) = sent(permission_attempt(false, &token(), &admin));
    assert_eq!((a, r.url.as_str()), (Action::SetPermission, "/api/users/3/permission"));
    assert_eq!(r.body, RequestBody::Permission { permission: "user".into() });
    let (r, _) = sent(permission_attempt(false, &token(), &plain));
    assert_eq!(r.body, RequestBody::Permission { permission: "admin".into() });
    let (r, a) = sent(remove_user_attempt(false, &token(), 4));
    assert_eq!((a, r.url.as_str()), (Action::DeleteUser, "/api/users/4"));
    assert!(matches!(remove_user_attempt(true, &token(), 4), Attempt::Ignore));
    assert_eq!(feedback(&Ok("好".into())), (ToastKind::Success, "好".to_string()));
    assert_eq!(feedback(&Err("坏".into())), (ToastKind::Error, "坏".to_string()));
    assert!(lost_admin_rights("需要管理员权限"));
    assert!(!lost_admin_rights("需要管理员权限 "));
}

fn member(permission: &str) -> User {
    User {
        id: 2,
        username: "carol".into(),
        permission: permission.into(),
        borrowed_books: vec![BorrowedBook { id: 9, name: "b".into(), author: "".into() }],
    }
}

#[test]
fn page_frame() {
    let none = Auth::restored(None);
    let waiting = Auth::restored(token());
    let user = Auth { token: token(), user: Some(member("user")) };
    let admin = Auth { token: token(), user: Some(member("admin")) };
    assert_eq!(page_access(&none, false), Access::SignInFirst);
    assert_eq!(page_access(&waiting, true), Access::Loading);
    assert_eq!(page_access(&user, false), Access::Granted);
    assert_eq!(page_access(&user, true), Access::AdminsOnly);
    assert_eq!(page_access(&admin, true), Access::Granted);

    let n = nav_model(&none);
    assert!(!n.member_links && !n.admin_link && n.account.is_none());
    let n = nav_model(&waiting);
    assert!(n.member_links && !n.admin_link && n.account.is_none());
    let n = nav_model(&admin);
    assert!(n.member_links && n.admin_link);
    let acc = n.account.unwrap();
    assert_eq!((acc.username.as_str(), acc.admin_badge), ("carol", true));

    assert!(holds_on_loan(&user, 9));
    assert!(!holds_on_loan(&user, 8));
    assert!(!holds_on_loan(&none, 9));
    assert!(is_self(Some(3), 3));
    assert!(!is_self(Some(3), 4));
    assert!(!is_self(None, 3));
}

#[test]
fn small_texts() {
    assert_eq!(tab_class(true), "px-4 py-2 text-sm font-medium rounded-lg transition bg-indigo-100 text-indigo-700");
    assert_eq!(
        tab_class(false),
        "px-4 py-2 text-sm font-medium rounded-lg transition text-slate-500 hover:text-slate-700 hover:bg-slate-100"
    );
    let s = toast_style(ToastKind::Success);
    assert_eq!((s.accent.as_str(), s.icon.as_str(), s.badge.as_str()), ("border-l-emerald-500", "✓", "bg-emerald-100 text-emerald-600"));
    let s = toast_style(ToastKind::Error);
    assert_eq!((s.accent.as_str(), s.icon.as_str(), s.badge.as_str()), ("border-l-rose-500", "!", "bg-rose-100 text-rose-600"));
    assert_eq!(TOAST_LIFETIME_MS, 3400);
    assert_eq!(missing_path(&vec![]), "/");
    assert_eq!(missing_path(&vec!["a".into()]), "/a");
    assert_eq!(missing_path(&vec!["a".into(), "b c".into(), "".into()]), "/a/b c/");
}

fn reaction(p: Place, o: Result<&str, &str>) -> Reaction {
    react(p, &o.map(|m| m.to_string()).map_err(|e| e.to_string()))
}

#[test]
fn reactions_after_success() {
    let r = reaction(Place::Editor, Ok("图书更新成功"));
    assert_eq!((r.toast, r.message.as_str()), (ToastKind::Success, "图书更新成功"));
    assert_eq!(
        (r.close_editor, r.refresh_listing, r.reload_user, r.clear_passwords, r.sign_out),
        (true, true, false, false, false)
    );
    let r = reaction(Place::CardLoan, Ok("借阅成功"));
    assert_eq!(
        (r.close_editor, r.refresh_listing, r.reload_user, r.clear_passwords, r.sign_out),
        (false, true, true, false, false)
    );
    let r = reaction(Place::CardDelete, Ok("图书删除成功"));
    assert_eq!(
        (r.close_editor, r.refresh_listing, r.reload_user, r.clear_passwords, r.sign_out),
        (false, true, false, false, false)
    );
    let r = reaction(Place::LoanList, Ok("归还成功"));
    assert_eq!(
        (r.close_editor, r.refresh_listing, r.reload_user, r.clear_passwords, r.sign_out),
        (false, false, true, false, false)
    );
    let r = reaction(Place::AccountForm, Ok("个人信息已更新"));
    assert_eq!(
        (r.close_editor, r.refresh_listing, r.reload_user, r.clear_passwords, r.sign_out),
        (false, false, true, true, false)
    );
    let r = reaction(Place::AccountClosing, Ok("账号已注销"));
    assert_eq!(
        (r.close_editor, r.refresh_listing, r.reload_user, r.clear_passwords, r.sign_out),
        (false, false, false, false, true)
    );
    let r = reaction(Place::UserRow, Ok("权限已更新"));
    assert_eq!(
        (r.close_editor, r.refresh_listing, r.reload_user, r.clear_passwords, r.sign_out),
        (false, true, false, false, false)
    );
}

#[test]
fn reactions_after_failure() {
    for p in [
        Place::Editor,
        Place::CardLoan,
        Place::CardDelete,
        Place::LoanList,
        Place::AccountForm,
        Place::AccountClosing,
        Place::UserRow,
    ] {
        let r = reaction(p, Err("库存不足"));
        assert_eq!((r.toast, r.message.as_str()), (ToastKind::Error, "库存不足"));
        assert_eq!(
            (r.close_editor, r.refresh_listing, r.reload_user, r.clear_passwords, r.sign_out),
            (false, false, false, false, false)
        );
    }
    let r = reaction(Place::UserRow, Err("需要管理员权限"));
    assert_eq!((r.toast, r.reload_user, r.refresh_listing), (ToastKind::Error, true, false));
    let r = reaction(Place::CardLoan, Err("需要管理员权限"));
    assert!(!r.reload_user);
}

#[test]
fn admin_list_lines() {
    assert_eq!(session_token(&token()), Ok("tok".to_string()));
    assert_eq!(session_token(&None), Err("未登录".to_string()));
    assert_eq!(empty_loans_note(0), Some("暂无借阅记录".to_string()));
    assert_eq!(empty_loans_note(3), None);
}
