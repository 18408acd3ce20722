use chat_backend::config::auth::{check_password, Auth, PasswordCheck};
use chat_backend::controllers::auth::login::{self, login_decision, login_success, LoginOutcome, LoginParams};
use chat_backend::controllers::auth::me::me_response;
use chat_backend::controllers::chat::create_chat_room::{
    invalid_room_request, room_created, room_name, validator_step, RoomAction, RoomBody, RoomEvent,
};
use chat_backend::controllers::chat::get_chat_list::{authorized_room, chat_list_error, chat_list_found, chat_list_room};
use chat_backend::controllers::chat::get_chat_rooms::chat_rooms_response;
use chat_backend::controllers::members::get_users::{users_found, users_query, users_query_failed, Info};
use chat_backend::controllers::users::create_new_users::{
    self, created_user_response, invalid_request, new_member, NewUsers,
};
use chat_backend::controllers::users::get_users::users_listing;
use chat_backend::controllers::ws::send_message::{socket_token, socket_user, ErrorCustom, Header};
use chat_backend::interface::global::{ResponseJson, ResponseJsonWithData, UserToken};
use chat_backend::models::{Role, Users};

fn params(nrp: &str, password: &str) -> LoginParams {
    LoginParams { nrp: nrp.to_string(), password: password.to_string() }
}

#[test]
fn login_validator_limits_nrp_to_twenty_bytes() {
    assert!(login::validator(&params("12345678901234567890", "x")).is_ok());
    let err = login::validator(&params("123456789012345678901", "x")).unwrap_err();
    assert_eq!(err.status, "fail");
    assert_eq!(err.status_code, 400);
    assert_eq!(err.message, "Nrp tidak boleh lebih dari 20 karakter");
    // Eleven two-byte characters are 22 bytes.
    assert!(login::validator(&params("ééééééééééé", "x")).is_err());
    assert!(login::validator(&params("", "x")).is_ok());
}

fn new_users(name: &str, nrp: &str, password: &str) -> NewUsers {
    NewUsers { name: name.to_string(), nrp: nrp.to_string(), password: password.to_string() }
}

#[test]
fn registration_validator_reports_first_broken_rule() {
    let long_name = "n".repeat(41);
    let cases = [
        (new_users("", "", ""), Err("Name can not be empty".to_string())),
        (new_users(&long_name, "1", "p"), Err("Nama tidak boleh lebih dari 40 char".to_string())),
        (new_users("a", "123456789012345678901", "p"), Err("Nama tidak boleh lebih dari 20 char".to_string())),
        (new_users("a", "", "p"), Err("NRP Can not be empty".to_string())),
        (new_users("a", "1", ""), Err("Password can not be empty".to_string())),
        (new_users(&"n".repeat(40), "12345678901234567890", "p"), Ok(())),
    ];
    for (args, expected) in cases {
        assert_eq!(create_new_users::validator(&args), expected);
    }
}

#[test]
fn new_member_is_a_member_with_encrypted_password() {
    let user = new_member(&new_users("Zul", "1234/p", "Hello world"), "key");
    assert_eq!(user.name, "Zul");
    assert_eq!(user.nrp, "1234/p");
    assert_eq!(user.role, Role::MEMBER);
    assert_eq!((user.id >> 76) & 0xf, 4);
    let stored = user.password.unwrap();
    assert_eq!(stored, Auth { plain: "Hello world".to_string() }.encrypt("key"));
    assert_eq!(check_password("key", &stored, "Hello world"), PasswordCheck::Matches);
}

#[test]
fn created_user_answer_reads_row_positionally() {
    let body = created_user_response(Ok((9, "the-nrp".to_string(), "the-name".to_string(), None))).unwrap();
    assert_eq!(body.data.id, 9);
    assert_eq!(body.data.name, "the-nrp");
    assert_eq!(body.data.nrp, "the-name");
    assert_eq!(body.message, "success");
    let err = created_user_response(Err(())).unwrap_err();
    assert_eq!(err.message, "NRP telah digunakan");
    assert_eq!(err.status_code, 400);
    let invalid = invalid_request("Name can not be empty".to_string());
    assert_eq!((invalid.status.as_str(), invalid.status_code), ("fail", 400));
}

fn stored_user(password: Option<String>) -> Users {
    Users { id: 42, nrp: "1234/p".to_string(), name: "Zul".to_string(), password, role: Role::ADMIN }
}

#[test]
fn login_decisions() {
    let key = "private";
    let stored = Auth { plain: "pw".to_string() }.encrypt(key);
    match login_decision(&params("1234/p", "pw"), None, key, 100) {
        LoginOutcome::Rejected(e) => {
            assert_eq!((e.status_code, e.message.as_str()), (422, "Invalid password or NRp"))
        }
        _ => panic!("expected a rejection"),
    }
    match login_decision(&params("1234/p", "bad"), Some(stored_user(Some(stored.clone()))), key, 100) {
        LoginOutcome::Rejected(e) => assert_eq!((e.status_code, e.message.as_str()), (401, "Invalid password")),
        _ => panic!("expected a rejection"),
    }
    assert!(matches!(
        login_decision(&params("1234/p", "pw"), Some(stored_user(None)), key, 100),
        LoginOutcome::StoredPasswordMissing
    ));
    assert!(matches!(
        login_decision(&params("1234/p", "pw"), Some(stored_user(Some("???".to_string()))), key, 100),
        LoginOutcome::StoredPasswordUnreadable
    ));
    match login_decision(&params("1234/p", "pw"), Some(stored_user(Some(stored))), key, 1_700_000_000) {
        LoginOutcome::Accepted { claims, role } => {
            assert_eq!(claims.id, 42);
            assert_eq!(claims.name, "Zul");
            assert_eq!(claims.nrp, "1234/p");
            assert_eq!(claims.role, "ADMIN");
            assert_eq!(claims.exp, 1_700_000_000);
            assert_eq!(role, Role::ADMIN);
            let body = login_success(&claims, role, key);
            assert_eq!(body.data.token.split('.').count(), 3);
            assert_eq!(chat_backend::config::jwt::decode_user_token(&body.data.token, key).is_err(), true);
            assert_eq!(body.data.id, 42);
            assert_eq!(body.data.nrp, "1234/p");
            assert_eq!(body.message, "Success to login");
            assert_eq!(body.status, "success");
            assert_eq!(body.status_code, 200);
        }
        _ => panic!("expected acceptance"),
    }
}

fn claims() -> UserToken {
    UserToken { nrp: "n".to_string(), name: "a".to_string(), id: 1, role: "MEMBER".to_string(), exp: 5 }
}

#[test]
fn me_answers_claims_or_error() {
    let ok = me_response(Some(claims())).unwrap();
    assert_eq!(ok.data.role, "MEMBER");
    assert_eq!(ok.message, "");
    assert_eq!(ok.status_code, 200);
    let err = me_response(None).unwrap_err();
    assert_eq!((err.status_code, err.message.as_str(), err.status.as_str()), (400, "Something went wrong", "fail"));
}

#[test]
fn room_request_check_steps() {
    let id = 0x11112222333344445555666677778888u128;
    let text = "11112222-3333-4444-5555-666677778888".to_string();
    let empty = RoomBody { to_id: String::new() };
    assert_eq!(validator_step(&empty, RoomEvent::Begin), RoomAction::Done { valid: false });
    let body = RoomBody { to_id: text.clone() };
    assert_eq!(validator_step(&body, RoomEvent::Begin), RoomAction::PrepareTargetQuery);
    assert_eq!(validator_step(&body, RoomEvent::TargetQueryPrepared), RoomAction::QueryExistingRooms { to_id: id });
    let garbage = RoomBody { to_id: "xyz".to_string() };
    assert_eq!(validator_step(&garbage, RoomEvent::TargetQueryPrepared), RoomAction::Done { valid: false });
    assert_eq!(validator_step(&body, RoomEvent::ExistingRooms { to_id: id, rows: 1 }), RoomAction::Done { valid: false });
    assert_eq!(validator_step(&body, RoomEvent::ExistingRooms { to_id: id, rows: 0 }), RoomAction::QueryTarget { to_id: id });
    assert_eq!(validator_step(&body, RoomEvent::TargetRows { rows: 0 }), RoomAction::Done { valid: false });
    assert_eq!(validator_step(&body, RoomEvent::TargetRows { rows: 1 }), RoomAction::Done { valid: true });
}

#[test]
fn room_answers() {
    assert_eq!(room_name(0, "abc"), "00000000-0000-0000-0000-000000000000_abc");
    let invalid = invalid_room_request();
    assert_eq!((invalid.status_code, invalid.message.as_str()), (400, "Invalid data"));
    assert_eq!(room_created(Ok(7)).unwrap().data.id, 7);
    assert_eq!(room_created(Ok(7)).unwrap().message, "success to create room");
    assert_eq!(room_created(Err(())).unwrap_err().message, "Something went wrong");
}

#[test]
fn chat_list_answers() {
    assert_eq!(chat_list_room("00000000-0000-0000-0000-00000000000a").unwrap(), 10);
    let err = chat_list_room("nope").unwrap_err();
    assert_eq!((err.status_code, err.message.as_str()), (422, "Something went wrong"));
    assert_eq!(chat_list_error().status, "fail");
    assert!(authorized_room(Ok(3)));
    assert!(authorized_room(Ok(0)));
    assert!(!authorized_room(Err(())));
    assert_eq!(chat_list_found(vec![1, 2]).data, vec![1, 2]);
}

#[test]
fn chat_rooms_answers() {
    let ok: ResponseJsonWithData<Vec<u8>> = chat_rooms_response(Ok(vec![1])).unwrap();
    assert_eq!((ok.data, ok.message.as_str()), (vec![1], "success"));
    let err: ResponseJson = chat_rooms_response::<u8>(Err(())).unwrap_err();
    assert_eq!((err.status_code, err.message.as_str()), (400, "something went wrong"));
}

#[test]
fn member_search_queries() {
    let q = users_query(&Info { search: Some("zul".to_string()) });
    assert_eq!(q.sql, "SELECT id, name FROM users WHERE name ILIKE $1");
    assert_eq!(q.param, Some("%zul%".to_string()));
    let q = users_query(&Info { search: None });
    assert_eq!(q.sql, "SELECT id, name FROM users LIMIT 10");
    assert_eq!(q.param, None);
    let e = users_query_failed("db down");
    assert_eq!((e.message.as_str(), e.status.as_str(), e.status_code), ("Something went wrong db down", "error", 400));
    assert_eq!(users_found(vec!["a"]).message, "success");
    assert_eq!(users_listing(vec!["a"]).message, "success get data");
}

#[test]
fn socket_requests() {
    assert_eq!(socket_token(&Header { token: Some("t".to_string()) }).unwrap(), "t");
    assert_eq!(socket_token(&Header { token: None }).unwrap_err().message, "Something went wrong");
    assert_eq!(socket_user(Some(5)).unwrap(), 5);
    assert_eq!(socket_user(None).unwrap_err().to_string(), "Something went wrong");
    assert_eq!(ErrorCustom::something_went_wrong().message, "Something went wrong");
}

#[test]
fn response_texts() {
    let r = ResponseJson::new("fail", 400, "m");
    assert_eq!(r.to_string(), "m");
}

#[test]
fn successful_login_body_carries_a_token_that_reads_back() {
    let claims = UserToken {
        nrp: "1234/p".to_string(),
        name: "Zul".to_string(),
        id: 42,
        role: "ADMIN".to_string(),
        exp: 4_102_444_800,
    };
    let body = login_success(&claims, Role::ADMIN, "private");
    assert_eq!(body.status_code, 200);
    assert_eq!(body.data.token, chat_backend::config::jwt::issue_token(&claims, "private"));
    let back = chat_backend::config::jwt::decode_user_token(&body.data.token, "private").unwrap();
    assert_eq!((back.id, back.nrp.as_str(), back.name.as_str(), back.role.as_str()), (42, "1234/p", "Zul", "ADMIN"));
    assert_eq!(back.exp, 4_102_444_800);
}

#[test]
fn nrp_length_is_counted_in_bytes() {
    assert!(login::validator(&params(&"é".repeat(10), "pw")).is_ok());
    assert!(login::validator(&params(&"é".repeat(11), "pw")).is_err());
}
