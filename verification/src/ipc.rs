//! The commands that a second instance of the program sends to the one
//! that is running, and what the running instance does with them.

use vstd::prelude::*;
use vstd::string::StringExecFns;

verus! {

/// A command to the running instance.
#[derive(Clone, Copy, Debug, PartialEq, Eq, Structural)]
pub enum Command {
    Show,
    Hide,
    Toggle,
    Close,
}

impl Command {
    /// The word that stands for the command on the socket.
    pub open spec fn text(self) -> Seq<char> {
        match self {
            Command::Show => "show"@,
            Command::Hide => "hide"@,
            Command::Toggle => "toggle"@,
            Command::Close => "close"@,
        }
    }

    /// The word that stands for the command on the socket.
    pub fn as_str(&self) -> (word: &'static str)
        ensures
            word@ == self.text(),
    {
        match self {
            Command::Show => "show",
            Command::Hide => "hide",
            Command::Toggle => "toggle",
            Command::Close => "close",
        }
    }

    /// The command that `word` stands for, if it stands for one.
    pub fn parse(word: &str) -> (command: Option<Command>)
        ensures
            match command {
                Some(c) => c.text() == word@,
                None => forall|c: Command| c.text() != word@,
            },
    {
        let word = word.to_owned();
        if word == String::from_str("show") {
            Some(Command::Show)
        } else if word == String::from_str("hide") {
            Some(Command::Hide)
        } else if word == String::from_str("toggle") {
            Some(Command::Toggle)
        } else if word == String::from_str("close") {
            Some(Command::Close)
        } else {
            None
        }
    }
}

/// What the running instance does about a command.
#[derive(Clone, Copy, Debug, PartialEq, Eq, Structural)]
pub enum WindowAction {
    /// Show the window.
    Show,
    /// Hide the window and stay in the background.
    Hide,
    /// Close the window, which ends the program.
    Close,
    /// Send this command to the running instance, that is, to itself.
    Send(Command),
}

/// What the running instance does about `command`, given whether it stays
/// in the background between sessions (`daemon`) and whether its window is
/// visible.
///
/// To hide is to end the program unless it runs as a daemon; to toggle is
/// to hide a visible window and to show a hidden one.
pub open spec fn action_for(command: Command, daemon: bool, visible: bool) -> WindowAction {
    match command {
        Command::Show => WindowAction::Show,
        Command::Hide => if daemon {
            WindowAction::Hide
        } else {
            WindowAction::Send(Command::Close)
        },
        Command::Toggle => if visible {
            WindowAction::Send(Command::Hide)
        } else {
            WindowAction::Send(Command::Show)
        },
        Command::Close => WindowAction::Close,
    }
}

/// What the running instance does about `command`: see [`action_for`].
pub fn window_action(command: Command, daemon: bool, visible: bool) -> (action: WindowAction)
    ensures
        action == action_for(command, daemon, visible),
{
    match command {
        Command::Show => WindowAction::Show,
        Command::Hide => if daemon {
            WindowAction::Hide
        } else {
            WindowAction::Send(Command::Close)
        },
        Command::Toggle => if visible {
            WindowAction::Send(Command::Hide)
        } else {
            WindowAction::Send(Command::Show)
        },
        Command::Close => WindowAction::Close,
    }
}

/// The command that a second instance sends: the one it was started
/// with, and `Show` where it was started with none.
pub fn remote_command(requested: Option<Command>) -> (command: Command)
    ensures
        command == match requested {
            Some(c) => c,
            None => Command::Show,
        },
{
    match requested {
        Some(command) => command,
        None => Command::Show,
    }
}

/// The part of `buf` that is left when the zero bytes at both of its ends
/// are taken away: it runs from `start` up to, not including, `end`.
pub open spec fn trimmed(buf: Seq<u8>, start: int, end: int) -> bool {
    &&& 0 <= start <= end <= buf.len()
    &&& forall|i: int| 0 <= i < start ==> buf[i] == 0
    &&& forall|i: int| end <= i < buf.len() ==> buf[i] == 0
    &&& start < end ==> buf[start] != 0 && buf[end - 1] != 0
}

/// Where the message in a receive buffer lies: the buffer without the zero
/// bytes at both of its ends. A buffer of zero bytes alone holds the empty
/// message, at its start.
pub fn trim_nul(buf: &[u8]) -> (range: (usize, usize))
    ensures
        trimmed(buf@, range.0 as int, range.1 as int),
        range.0 == range.1 ==> range.0 == 0,
{
    let mut end: usize = buf.len();
    while end > 0 && buf[end - 1] == 0
        invariant
            end <= buf.len(),
            forall|i: int| end <= i < buf.len() ==> buf@[i] == 0,
        decreases end,
    {
        end -= 1;
    }
    if end == 0 {
        return (0, 0);
    }
    let mut start: usize = 0;
    while start < end && buf[start] == 0
        invariant
            start <= end <= buf.len(),
            end > 0,
            buf@[end - 1] != 0,
            forall|i: int| 0 <= i < start ==> buf@[i] == 0,
        decreases end - start,
    {
        start += 1;
    }
    (start, end)
}

} // verus!
