use chat_backend::envelope::SqlResult;
use chat_backend::handlers::{
    add_user, create_room, delete_user, enter_room, message_get, message_send, search_user,
};
use chat_backend::outcome::{MessageLookup, StatementError};
use chat_backend::records::{ChatRoom, User};
use chat_backend::requests::{EnterRoom, Message, Search};
use chat_backend::statement::{Command, MessageQuery, UserQuery};
use chat_backend::store::Database;

fn user(id: u64, name: &str, password: &str) -> User {
    User { id, name: name.to_string(), password: password.to_string() }
}

fn search(id: u64) -> Search {
    Search { id, name: String::new() }
}

fn room_request(room_id: i32, room_name: &str, password: &str, user_id: u64) -> EnterRoom {
    EnterRoom {
        room_id,
        room_name: room_name.to_string(),
        password: password.to_string(),
        user_id,
    }
}

fn message(text: &str, room_id: i32) -> Message {
    Message { text: text.to_string(), room_id }
}

#[test]
fn new_database_is_empty() {
    let db = Database::new();
    assert_eq!(db.user_count(), 0);
    assert_eq!(db.room_count(), 0);
    assert_eq!(db.user(1), None);
    assert_eq!(db.room(1), None);
}

#[test]
fn added_user_is_found_alone() {
    let mut db = Database::new();
    assert_eq!(
        add_user(&mut db, user(7, "bob", "secret")),
        SqlResult { message: "ユーザーの追加に成功しました".to_string(), data: Some(true) }
    );
    assert_eq!(
        add_user(&mut db, user(9, "carol", "other")),
        SqlResult { message: "ユーザーの追加に成功しました".to_string(), data: Some(true) }
    );
    assert_eq!(
        search_user(&db, search(9)),
        SqlResult {
            message: "ユーザーが見つかりました".to_string(),
            data: Some(vec![user(9, "carol", "other")]),
        }
    );
    assert_eq!(db.user_count(), 2);
}

#[test]
fn add_user_with_taken_id_changes_nothing() {
    let mut db = Database::new();
    add_user(&mut db, user(1, "alice", "pw"));
    assert_eq!(
        add_user(&mut db, user(1, "mallory", "x")),
        SqlResult { message: String::new(), data: Some(false) }
    );
    assert_eq!(db.user_count(), 1);
    assert_eq!(db.user(1), Some(user(1, "alice", "pw")));
}

#[test]
fn search_ignores_the_name() {
    let mut db = Database::new();
    add_user(&mut db, user(3, "dave", "pw"));
    let found = search_user(&db, Search { id: 3, name: "nobody".to_string() });
    assert_eq!(found.data, Some(vec![user(3, "dave", "pw")]));
}

#[test]
fn search_without_match_gives_empty_list() {
    let mut db = Database::new();
    add_user(&mut db, user(1, "alice", "pw"));
    assert_eq!(
        search_user(&db, search(2)),
        SqlResult {
            message: "条件に該当するユーザーが見つかりませんでした".to_string(),
            data: Some(Vec::new()),
        }
    );
}

#[test]
fn delete_needs_id_name_and_password() {
    let mut db = Database::new();
    add_user(&mut db, user(1, "alice", "pw"));
    add_user(&mut db, user(2, "bob", "pw"));
    let not_found =
        SqlResult { message: "削除するUserが見つかりませんでした".to_string(), data: Some(0u64) };
    assert_eq!(delete_user(&mut db, user(1, "alice", "wrong")), not_found);
    assert_eq!(delete_user(&mut db, user(1, "bob", "pw")), not_found);
    assert_eq!(delete_user(&mut db, user(3, "alice", "pw")), not_found);
    assert_eq!(db.user_count(), 2);
    assert_eq!(
        delete_user(&mut db, user(1, "alice", "pw")),
        SqlResult { message: "削除に成功しました!".to_string(), data: Some(1u64) }
    );
    assert_eq!(db.user_count(), 1);
    assert_eq!(db.user(1), None);
    assert_eq!(db.user(2), Some(user(2, "bob", "pw")));
}

#[test]
fn delete_keeps_the_order_of_the_rest() {
    let mut db = Database::new();
    add_user(&mut db, user(10, "a", "1"));
    add_user(&mut db, user(20, "b", "2"));
    add_user(&mut db, user(30, "c", "3"));
    delete_user(&mut db, user(20, "b", "2"));
    assert_eq!(db.user_count(), 2);
    add_user(&mut db, user(20, "b2", "22"));
    assert_eq!(search_user(&db, search(20)).data, Some(vec![user(20, "b2", "22")]));
    assert_eq!(search_user(&db, search(10)).data, Some(vec![user(10, "a", "1")]));
    assert_eq!(search_user(&db, search(30)).data, Some(vec![user(30, "c", "3")]));
}

#[test]
fn create_room_ignores_room_id_and_user_id() {
    let mut db = Database::new();
    let mut other = Database::new();
    assert_eq!(
        create_room(&mut db, room_request(500, "general", "p", 42)),
        SqlResult { message: "部屋の作成に成功しました".to_string(), data: Some(true) }
    );
    create_room(&mut other, room_request(-3, "general", "p", 0));
    let expected = ChatRoom {
        id: 1,
        name: "general".to_string(),
        password: "p".to_string(),
        message: None,
        user_list: Vec::new(),
    };
    assert_eq!(db.room(1), Some(expected));
    assert_eq!(db.room(1), other.room(1));
    assert_eq!(db.room(500), None);
    assert_eq!(db.room_count(), 1);
}

#[test]
fn rooms_are_numbered_in_order_of_creation() {
    let mut db = Database::new();
    create_room(&mut db, room_request(9, "one", "a", 0));
    create_room(&mut db, room_request(9, "two", "b", 0));
    create_room(&mut db, room_request(9, "three", "c", 0));
    assert_eq!(db.room_count(), 3);
    assert_eq!(db.room(2).map(|room| room.name), Some("two".to_string()));
    assert_eq!(db.room(3).map(|room| room.id), Some(3));
    assert_eq!(db.room(0), None);
    assert_eq!(db.room(4), None);
    assert_eq!(db.room(-1), None);
}

#[test]
fn enter_room_appends_only_on_full_match() {
    let mut db = Database::new();
    create_room(&mut db, room_request(0, "general", "p", 0));
    let entered = SqlResult { message: "入室に成功しました".to_string(), data: Some(true) };
    assert_eq!(enter_room(&mut db, room_request(1, "general", "wrong", 5)), entered);
    assert_eq!(enter_room(&mut db, room_request(1, "other", "p", 5)), entered);
    assert_eq!(enter_room(&mut db, room_request(2, "general", "p", 5)), entered);
    assert_eq!(db.room(1).map(|room| room.user_list), Some(Vec::new()));
    assert_eq!(enter_room(&mut db, room_request(1, "general", "p", 5)), entered);
    assert_eq!(enter_room(&mut db, room_request(1, "general", "p", 8)), entered);
    assert_eq!(enter_room(&mut db, room_request(1, "general", "p", 5)), entered);
    assert_eq!(db.room(1).map(|room| room.user_list), Some(vec![5, 8, 5]));
}

#[test]
fn enter_room_touches_no_other_room() {
    let mut db = Database::new();
    create_room(&mut db, room_request(0, "general", "p", 0));
    create_room(&mut db, room_request(0, "general", "p", 0));
    enter_room(&mut db, room_request(2, "general", "p", 11));
    assert_eq!(db.room(1).map(|room| room.user_list), Some(Vec::new()));
    assert_eq!(db.room(2).map(|room| room.user_list), Some(vec![11]));
}

#[test]
fn message_send_asks_for_no_credential() {
    let mut db = Database::new();
    create_room(&mut db, room_request(0, "general", "p", 0));
    let sent = SqlResult { message: "メッセージの送信に成功".to_string(), data: Some(true) };
    assert_eq!(message_send(&mut db, message("hello", 1)), sent);
    assert_eq!(message_send(&mut db, message("again", 1)), sent);
    assert_eq!(
        message_get(&db, 1),
        SqlResult {
            message: "メッセージの読み取りに成功".to_string(),
            data: Some(vec!["hello".to_string(), "again".to_string()]),
        }
    );
}

#[test]
fn message_send_to_missing_room_changes_nothing() {
    let mut db = Database::new();
    create_room(&mut db, room_request(0, "general", "p", 0));
    assert_eq!(
        message_send(&mut db, message("lost", 2)),
        SqlResult { message: "メッセージの送信に成功".to_string(), data: Some(true) }
    );
    assert_eq!(db.room(1).map(|room| room.message), Some(None));
    assert_eq!(db.room_count(), 1);
}

#[test]
fn scenario_user_survives_delete_with_wrong_password() {
    let mut db = Database::new();
    add_user(&mut db, user(1, "alice", "pw"));
    assert_eq!(search_user(&db, search(1)).data, Some(vec![user(1, "alice", "pw")]));
    assert_eq!(
        delete_user(&mut db, user(1, "alice", "wrong")),
        SqlResult { message: "削除するUserが見つかりませんでした".to_string(), data: Some(0u64) }
    );
    assert_eq!(
        search_user(&db, search(1)),
        SqlResult {
            message: "ユーザーが見つかりました".to_string(),
            data: Some(vec![user(1, "alice", "pw")]),
        }
    );
}

#[test]
fn scenario_new_room_has_no_message_list() {
    let mut db = Database::new();
    let created = create_room(
        &mut db,
        EnterRoom {
            room_id: 0,
            room_name: "general".to_string(),
            password: "p".to_string(),
            user_id: 0,
        },
    );
    assert_eq!(created.data, Some(true));
    assert_eq!(db.room(1).map(|room| room.message), Some(None));
    let lookup = db.fetch_messages(&MessageQuery { room_id: 1 });
    assert_eq!(lookup, MessageLookup::Unset);
    assert!(!lookup.is_found());
    assert_eq!(db.fetch_messages(&MessageQuery { room_id: 2 }), MessageLookup::NoRoom);
    message_send(&mut db, message("first", 1));
    let lookup = db.fetch_messages(&MessageQuery { room_id: 1 });
    assert!(lookup.is_found());
    assert_eq!(lookup, MessageLookup::Found(vec!["first".to_string()]));
}

#[test]
fn execute_reports_rows_and_errors() {
    let mut db = Database::new();
    let insert = |id: u64| Command::InsertUser {
        id,
        name: "n".to_string(),
        password: "p".to_string(),
    };
    assert_eq!(db.execute(insert(4)), Ok(1));
    assert_eq!(db.execute(insert(4)), Err(StatementError::DuplicateKey));
    assert_eq!(
        db.execute(Command::DeleteUser { id: 4, name: "n".to_string(), password: "q".to_string() }),
        Ok(0)
    );
    assert_eq!(
        db.execute(Command::DeleteUser { id: 4, name: "n".to_string(), password: "p".to_string() }),
        Ok(1)
    );
    assert_eq!(
        db.execute(Command::InsertRoom { name: "r".to_string(), password: "s".to_string() }),
        Ok(1)
    );
    let enter = |room_id: i32, password: &str| Command::EnterRoom {
        user_id: 4,
        room_id,
        name: "r".to_string(),
        password: password.to_string(),
    };
    assert_eq!(db.execute(enter(1, "s")), Ok(1));
    assert_eq!(db.execute(enter(1, "t")), Ok(0));
    assert_eq!(db.execute(enter(2, "s")), Ok(0));
    assert_eq!(db.execute(Command::AppendMessage { text: "m".to_string(), room_id: 1 }), Ok(1));
    assert_eq!(db.execute(Command::AppendMessage { text: "m".to_string(), room_id: 0 }), Ok(0));
}

#[test]
fn fetch_users_hands_out_copies() {
    let mut db = Database::new();
    add_user(&mut db, user(1, "alice", "pw"));
    let mut rows = db.fetch_users(&UserQuery { id: 1 });
    assert_eq!(rows, vec![user(1, "alice", "pw")]);
    rows[0].name.push('!');
    assert_eq!(db.fetch_users(&UserQuery { id: 1 }), vec![user(1, "alice", "pw")]);
    assert_eq!(db.fetch_users(&UserQuery { id: 2 }), Vec::new());
}

#[test]
fn credentials_are_compared_in_full() {
    let alice = user(1, "alice", "pw");
    assert!(alice.has_credentials(1, &"alice".to_string(), &"pw".to_string()));
    assert!(!alice.has_credentials(2, &"alice".to_string(), &"pw".to_string()));
    assert!(!alice.has_credentials(1, &"Alice".to_string(), &"pw".to_string()));
    assert!(!alice.has_credentials(1, &"alice".to_string(), &"pw ".to_string()));
    let room = ChatRoom {
        id: 3,
        name: "general".to_string(),
        password: "p".to_string(),
        message: Some(vec!["x".to_string()]),
        user_list: vec![1],
    };
    assert!(room.has_credentials(3, &"general".to_string(), &"p".to_string()));
    assert!(!room.has_credentials(3, &"general".to_string(), &"".to_string()));
    assert_eq!(room.clone(), room);
    assert_eq!(alice.clone(), alice);
}
