//! Method names of the app-server protocol.
use vstd::prelude::*;

verus! {

pub const THREAD_START: &'static str = "thread/start";
pub const THREAD_RESUME: &'static str = "thread/resume";
pub const THREAD_FORK: &'static str = "thread/fork";
pub const THREAD_ARCHIVE: &'static str = "thread/archive";
pub const THREAD_READ: &'static str = "thread/read";
pub const THREAD_LIST: &'static str = "thread/list";
pub const THREAD_LOADED_LIST: &'static str = "thread/loaded/list";
pub const THREAD_ROLLBACK: &'static str = "thread/rollback";
pub const SKILLS_LIST: &'static str = "skills/list";
pub const COMMAND_EXEC: &'static str = "command/exec";
pub const COMMAND_EXEC_WRITE: &'static str = "command/exec/write";
pub const COMMAND_EXEC_TERMINATE: &'static str = "command/exec/terminate";
pub const COMMAND_EXEC_RESIZE: &'static str = "command/exec/resize";
pub const TURN_START: &'static str = "turn/start";
pub const TURN_INTERRUPT: &'static str = "turn/interrupt";

/// The methods whose request and response shapes are checked.
pub const KNOWN: [&'static str; 15] = [
    THREAD_START,
    THREAD_RESUME,
    THREAD_FORK,
    THREAD_ARCHIVE,
    THREAD_READ,
    THREAD_LIST,
    THREAD_LOADED_LIST,
    THREAD_ROLLBACK,
    SKILLS_LIST,
    COMMAND_EXEC,
    COMMAND_EXEC_WRITE,
    COMMAND_EXEC_TERMINATE,
    COMMAND_EXEC_RESIZE,
    TURN_START,
    TURN_INTERRUPT,
];

} // verus!
