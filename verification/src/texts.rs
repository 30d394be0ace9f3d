//! The outcome texts that the envelopes carry.

use vstd::prelude::*;

verus! {

/// A user was registered.
pub const USER_ADDED: &'static str = "ユーザーの追加に成功しました";

/// A search matched at least one user.
pub const USER_FOUND: &'static str = "ユーザーが見つかりました";

/// A search matched no user, or could not be run.
pub const USER_NOT_FOUND: &'static str = "条件に該当するユーザーが見つかりませんでした";

/// At least one user was deleted.
pub const USER_DELETED: &'static str = "削除に成功しました!";

/// No user carried the credentials given for deletion.
pub const NO_USER_TO_DELETE: &'static str = "削除するUserが見つかりませんでした";

/// A room was created.
pub const ROOM_CREATED: &'static str = "部屋の作成に成功しました";

/// A room could not be created.
pub const ROOM_NOT_CREATED: &'static str = "部屋の作成に失敗しました";

/// The statement that lets a user enter a room ran.
pub const ROOM_ENTERED: &'static str = "入室に成功しました";

/// The statement that lets a user enter a room failed.
pub const ROOM_NOT_ENTERED: &'static str = "入室に失敗";

/// The answer to reading a room's messages. A failed read carries the same
/// text and is told apart by its missing payload.
pub const MESSAGES_READ: &'static str = "メッセージの読み取りに成功";

/// The answer to sending a message. A failed send carries the same text and
/// is told apart by its missing payload.
pub const MESSAGE_SENT: &'static str = "メッセージの送信に成功";

} // verus!
