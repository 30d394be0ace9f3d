//! The fixed paths under which the operations are served.

use vstd::prelude::*;

verus! {

/// One of the seven operations.
#[derive(Debug, Clone, Copy, PartialEq, Eq, Structural)]
pub enum Operation {
    AddUser,
    SearchUser,
    DeleteUser,
    CreateRoom,
    EnterRoom,
    MessageGet,
    MessageSend,
}

impl Operation {
    /// The path of the operation.
    pub open spec fn route(self) -> Seq<char> {
        match self {
            Operation::AddUser => "/user/add"@,
            Operation::SearchUser => "/user/search"@,
            Operation::DeleteUser => "/user/delete"@,
            Operation::CreateRoom => "/room/create"@,
            Operation::EnterRoom => "/room/enter"@,
            Operation::MessageGet => "/message/get"@,
            Operation::MessageSend => "/message/send"@,
        }
    }

    /// The path of the operation.
    pub fn path(self) -> (text: &'static str)
        ensures
            text@ == self.route(),
    {
        match self {
            Operation::AddUser => "/user/add",
            Operation::SearchUser => "/user/search",
            Operation::DeleteUser => "/user/delete",
            Operation::CreateRoom => "/room/create",
            Operation::EnterRoom => "/room/enter",
            Operation::MessageGet => "/message/get",
            Operation::MessageSend => "/message/send",
        }
    }

    /// The seven operations.
    pub fn all() -> (list: Vec<Operation>)
        ensures
            list@ == seq![
                Operation::AddUser,
                Operation::SearchUser,
                Operation::DeleteUser,
                Operation::CreateRoom,
                Operation::EnterRoom,
                Operation::MessageGet,
                Operation::MessageSend,
            ],
    {
        let mut list: Vec<Operation> = Vec::new();
        list.push(Operation::AddUser);
        list.push(Operation::SearchUser);
        list.push(Operation::DeleteUser);
        list.push(Operation::CreateRoom);
        list.push(Operation::EnterRoom);
        list.push(Operation::MessageGet);
        list.push(Operation::MessageSend);
        assert(list@ =~= seq![
            Operation::AddUser,
            Operation::SearchUser,
            Operation::DeleteUser,
            Operation::CreateRoom,
            Operation::EnterRoom,
            Operation::MessageGet,
            Operation::MessageSend,
        ]);
        list
    }
}

/// No two operations share a path.
pub proof fn lemma_paths_differ(a: Operation, b: Operation)
    requires
        a != b,
    ensures
        a.route() != b.route(),
{
    reveal_strlit("/user/add");
    reveal_strlit("/user/search");
    reveal_strlit("/user/delete");
    reveal_strlit("/room/create");
    reveal_strlit("/room/enter");
    reveal_strlit("/message/get");
    reveal_strlit("/message/send");
    if a.route() == b.route() {
        assert(a.route().len() == b.route().len());
        assert(a.route()[1] == b.route()[1]);
        assert(a.route()[6] == b.route()[6]);
    }
}

} // verus!
