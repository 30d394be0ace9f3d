use chat_backend::envelope::SqlResult;
use chat_backend::outcome::{MessageLookup, StatementError};
use chat_backend::records::User;
use chat_backend::response::{
    add_user_response, create_room_response, delete_user_response, enter_room_response,
    message_get_response, message_send_response, search_user_response,
};

fn envelope<T>(message: &str, data: Option<T>) -> SqlResult<T> {
    SqlResult { message: message.to_string(), data }
}

#[test]
fn envelope_new_keeps_both_parts() {
    let built = SqlResult::new("text", Some(3u64));
    assert_eq!(built.message, "text");
    assert_eq!(built.data, Some(3));
    assert_eq!(SqlResult::<bool>::new("", None), envelope("", None));
}

#[test]
fn add_user_response_needs_an_inserted_row() {
    assert_eq!(add_user_response(Ok(1)), envelope("ユーザーの追加に成功しました", Some(true)));
    assert_eq!(add_user_response(Ok(2)), envelope("ユーザーの追加に成功しました", Some(true)));
    assert_eq!(add_user_response(Ok(0)), envelope("", Some(false)));
    assert_eq!(add_user_response(Err(StatementError::DuplicateKey)), envelope("", Some(false)));
    assert_eq!(add_user_response(Err(StatementError::Backend)), envelope("", Some(false)));
}

#[test]
fn search_user_response_folds_error_into_not_found() {
    let alice = || User { id: 1, name: "alice".to_string(), password: "pw".to_string() };
    assert_eq!(
        search_user_response(Ok(vec![alice()])),
        envelope("ユーザーが見つかりました", Some(vec![alice()]))
    );
    let not_found = || envelope("条件に該当するユーザーが見つかりませんでした", Some(Vec::<User>::new()));
    assert_eq!(search_user_response(Ok(Vec::new())), not_found());
    assert_eq!(search_user_response(Err(StatementError::Backend)), not_found());
}

#[test]
fn delete_user_response_reports_the_count() {
    assert_eq!(delete_user_response(Ok(1)), envelope("削除に成功しました!", Some(1)));
    assert_eq!(delete_user_response(Ok(3)), envelope("削除に成功しました!", Some(3)));
    assert_eq!(delete_user_response(Ok(0)), envelope("削除するUserが見つかりませんでした", Some(0)));
    assert_eq!(
        delete_user_response(Err(StatementError::Backend)),
        envelope("削除するUserが見つかりませんでした", Some(0))
    );
}

#[test]
fn create_room_response_tells_success_from_failure() {
    assert_eq!(create_room_response(Ok(1)), envelope("部屋の作成に成功しました", Some(true)));
    assert_eq!(create_room_response(Ok(0)), envelope("部屋の作成に成功しました", Some(true)));
    assert_eq!(
        create_room_response(Err(StatementError::OutOfIds)),
        envelope("部屋の作成に失敗しました", Some(false))
    );
}

#[test]
fn enter_room_response_succeeds_on_zero_rows() {
    assert_eq!(enter_room_response(Ok(0)), envelope("入室に成功しました", Some(true)));
    assert_eq!(enter_room_response(Ok(1)), envelope("入室に成功しました", Some(true)));
    assert_eq!(enter_room_response(Err(StatementError::Backend)), envelope("入室に失敗", None));
}

#[test]
fn message_get_response_keeps_its_text_on_failure() {
    let texts = vec!["a".to_string(), "b".to_string()];
    assert_eq!(
        message_get_response(Ok(MessageLookup::Found(texts.clone()))),
        envelope("メッセージの読み取りに成功", Some(texts))
    );
    assert_eq!(
        message_get_response(Ok(MessageLookup::Found(Vec::new()))),
        envelope("メッセージの読み取りに成功", Some(Vec::new()))
    );
    assert_eq!(
        message_get_response(Err(StatementError::Backend)),
        envelope("メッセージの読み取りに成功", None)
    );
}

#[test]
fn message_send_response_keeps_its_text_on_failure() {
    assert_eq!(message_send_response(Ok(1)), envelope("メッセージの送信に成功", Some(true)));
    assert_eq!(message_send_response(Ok(0)), envelope("メッセージの送信に成功", Some(true)));
    assert_eq!(
        message_send_response(Err(StatementError::Backend)),
        envelope("メッセージの送信に成功", None)
    );
}
