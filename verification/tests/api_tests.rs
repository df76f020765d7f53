use library_frontend::api::{
    action_outcome, bearer, borrow_request, closing_outcome, create_book_request,
    decode_failure, delete_book_request, delete_user_request, error_message,
    list_borrowed_request, list_users_request, login_request, me_request, network_error,
    refresh_request, register_request, reply_text, return_request, search_page,
    search_request, set_permission_request, success_message, token_outcome,
    update_book_request, update_profile_request, Action, HttpMethod, HttpReply, Listing,
    RequestBody,
};
use library_frontend::models::Book;

fn ok_reply(body: &str) -> HttpReply {
    HttpReply { ok: true, status: 200, body: Ok(body.to_string()) }
}

fn failed_reply(status: u16, body: &str) -> HttpReply {
    HttpReply { ok: false, status, body: Ok(body.to_string()) }
}

#[test]
fn bearer_header() {
    assert_eq!(bearer("abc.def"), "Bearer abc.def");
    assert_eq!(bearer(""), "Bearer ");
}

#[test]
fn login_and_register_requests() {
    let r = login_request("alice", "secret1");
    assert_eq!(r.method, HttpMethod::Post);
    assert_eq!(r.url, "/api/login");
    assert_eq!(r.authorization, None);
    assert_eq!(
        r.body,
        RequestBody::Credentials { username: "alice".into(), password: "secret1".into() }
    );
    let r = register_request("bob", "pw");
    assert_eq!(r.url, "/api/register");
    assert_eq!(r.method, HttpMethod::Post);
}

#[test]
fn authorized_requests() {
    let r = refresh_request("t1");
    assert_eq!((r.method, r.url.as_str()), (HttpMethod::Post, "/api/refresh"));
    assert_eq!(r.authorization.as_deref(), Some("Bearer t1"));
    assert_eq!(r.body, RequestBody::Empty);
    let r = me_request("t2");
    assert_eq!((r.method, r.url.as_str()), (HttpMethod::Get, "/api/me"));
    assert_eq!(r.authorization.as_deref(), Some("Bearer t2"));
    let r = list_users_request("t");
    assert_eq!((r.method, r.url.as_str()), (HttpMethod::Get, "/api/users"));
    let r = list_borrowed_request("t");
    assert_eq!((r.method, r.url.as_str()), (HttpMethod::Get, "/api/admin/borrowed"));
}

#[test]
fn book_requests() {
    let r = create_book_request("t", "三体", "刘慈欣", "", 3);
    assert_eq!((r.method, r.url.as_str()), (HttpMethod::Post, "/api/books"));
    assert_eq!(
        r.body,
        RequestBody::BookFields {
            name: "三体".into(),
            author: "刘慈欣".into(),
            description: "".into(),
            total: 3
        }
    );
    let r = update_book_request("t", 17, "n", "a", "d", 2);
    assert_eq!((r.method, r.url.as_str()), (HttpMethod::Put, "/api/books/17"));
    let r = delete_book_request("t", 5);
    assert_eq!((r.method, r.url.as_str()), (HttpMethod::Delete, "/api/books/5"));
    assert_eq!(r.authorization.as_deref(), Some("Bearer t"));
}

#[test]
fn loan_and_user_requests() {
    let r = borrow_request("t", 3, 9);
    assert_eq!((r.method, r.url.as_str()), (HttpMethod::Post, "/api/borrow"));
    assert_eq!(r.body, RequestBody::Loan { user_id: 3, book_id: 9 });
    let r = return_request("t", 3, 9);
    assert_eq!((r.method, r.url.as_str()), (HttpMethod::Post, "/api/return"));
    assert_eq!(r.body, RequestBody::Loan { user_id: 3, book_id: 9 });
    let r = update_profile_request("t", 12, "old", "new name", "");
    assert_eq!((r.method, r.url.as_str()), (HttpMethod::Put, "/api/users/12"));
    assert_eq!(
        r.body,
        RequestBody::ProfileChange {
            old_password: "old".into(),
            username: "new name".into(),
            password: "".into()
        }
    );
    let r = delete_user_request("t", 12);
    assert_eq!((r.method, r.url.as_str()), (HttpMethod::Delete, "/api/users/12"));
    let r = set_permission_request("t", 4, "admin");
    assert_eq!((r.method, r.url.as_str()), (HttpMethod::Put, "/api/users/4/permission"));
    assert_eq!(r.body, RequestBody::Permission { permission: "admin".into() });
}

#[test]
fn search_requests() {
    let p = search_request("   ", 2);
    assert_eq!(p.listing, Listing::Catalogue);
    assert_eq!(p.request.url, "/api/books?page=2&limit=9");
    assert_eq!(p.request.method, HttpMethod::Get);
    assert_eq!(p.request.authorization, None);
    let p = search_request(" c++ 入门 ", 1);
    assert_eq!(p.listing, Listing::Search);
    assert_eq!(p.request.url, "/api/books/search?q=c%2B%2B%20%E5%85%A5%E9%97%A8");
    let p = search_request("Rust-2024_v1.0~x", 5);
    assert_eq!(p.request.url, "/api/books/search?q=Rust-2024_v1.0~x");
}

#[test]
fn failure_messages() {
    assert_eq!(error_message(409, &Ok(r#"{"error":"用户名已存在"}"#.into())), "用户名已存在");
    assert_eq!(error_message(500, &Ok("oops".into())), "请求失败（HTTP 500）");
    assert_eq!(error_message(404, &Ok(r#"{"error":5}"#.into())), "请求失败（HTTP 404）");
    assert_eq!(error_message(403, &Ok(r#"{"msg":"x"}"#.into())), "请求失败（HTTP 403）");
    assert_eq!(error_message(502, &Err("boom".into())), "无法解析响应：boom");
    assert_eq!(network_error("timeout"), "无法连接服务器：timeout");
    assert_eq!(decode_failure("bad"), "解析失败：bad");
}

#[test]
fn token_replies() {
    assert_eq!(token_outcome(&ok_reply(r#"{"token":"abc"}"#)), Ok("abc".to_string()));
    assert_eq!(token_outcome(&ok_reply(r#"{"user":1}"#)), Err("响应缺少 token".to_string()));
    let parse_err = serde_json::from_str::<serde_json::Value>("not json").unwrap_err();
    assert_eq!(token_outcome(&ok_reply("not json")), Err(format!("解析失败：{}", parse_err)));
    let r = HttpReply { ok: true, status: 200, body: Err("reset".into()) };
    assert_eq!(token_outcome(&r), Err("无法连接服务器：reset".to_string()));
    assert_eq!(
        token_outcome(&failed_reply(401, r#"{"error":"用户名或密码错误"}"#)),
        Err("用户名或密码错误".to_string())
    );
}

#[test]
fn action_replies() {
    assert_eq!(action_outcome(&ok_reply(""), Action::Borrow), Ok("借阅成功".to_string()));
    assert_eq!(action_outcome(&ok_reply("{}"), Action::Register), Ok("注册成功".to_string()));
    assert_eq!(
        action_outcome(&failed_reply(400, r#"{"error":"库存不足"}"#), Action::Borrow),
        Err("库存不足".to_string())
    );
    let all = [
        (Action::Register, "注册成功"),
        (Action::CreateBook, "图书创建成功"),
        (Action::UpdateBook, "图书更新成功"),
        (Action::UpdateProfile, "个人信息已更新"),
        (Action::DeleteBook, "图书删除成功"),
        (Action::Borrow, "借阅成功"),
        (Action::SetPermission, "权限已更新"),
        (Action::DeleteUser, "用户已删除"),
        (Action::Return, "归还成功"),
        (Action::CloseAccount, "账号已注销"),
    ];
    for (a, m) in all {
        assert_eq!(success_message(a), m);
    }
}

#[test]
fn closing_replies() {
    assert_eq!(closing_outcome(&ok_reply(r#"{"msg":"再见"}"#)), Ok("再见".to_string()));
    assert_eq!(closing_outcome(&ok_reply("")), Ok("账号已注销".to_string()));
    let r = HttpReply { ok: true, status: 200, body: Err("x".into()) };
    assert_eq!(closing_outcome(&r), Ok("账号已注销".to_string()));
    assert_eq!(
        closing_outcome(&failed_reply(500, "")),
        Err("请求失败（HTTP 500）".to_string())
    );
}

#[test]
fn reply_bodies() {
    assert_eq!(reply_text(&ok_reply("[1]")), Ok("[1]".to_string()));
    let r = HttpReply { ok: true, status: 200, body: Err("eof".into()) };
    assert_eq!(reply_text(&r), Err("无法连接服务器：eof".to_string()));
    assert_eq!(reply_text(&failed_reply(401, r#"{"error":"未登录"}"#)), Err("未登录".to_string()));
}

#[test]
fn search_hits_page() {
    let b = |id| Book {
        id,
        name: format!("b{id}"),
        author: "a".into(),
        description: "".into(),
        total: 1,
        available: 1,
    };
    let p = search_page(vec![b(1), b(2), b(3)]);
    assert_eq!((p.total, p.page, p.limit, p.items.len()), (3, 1, 3, 3));
    assert_eq!(p.items[2].id, 3);
    let p = search_page(vec![]);
    assert_eq!((p.total, p.page, p.limit), (0, 1, 0));
}

#[test]
fn closing_action_replies() {
    assert_eq!(
        action_outcome(&ok_reply(r#"{"msg":"再见"}"#), Action::CloseAccount),
        Ok("再见".to_string())
    );
    assert_eq!(action_outcome(&ok_reply(""), Action::CloseAccount), Ok("账号已注销".to_string()));
    assert_eq!(
        action_outcome(&failed_reply(403, r#"{"error":"无权限"}"#), Action::CloseAccount),
        Err("无权限".to_string())
    );
}
