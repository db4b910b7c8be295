//! The command shell's editing and parsing state: the input line buffer,
//! the cursor, and the decision of which command a finished line names.
//!
//! The shell is a front end beside the interrupt core, not part of it; what
//! it triggers — printing, reading the filesystem, jumping into a loaded
//! program — belongs to the drivers around it. This module holds only the
//! state and decisions: which characters stand in the line, where the cursor
//! is, and which command the line asks for.

use vstd::prelude::*;
use vstd::string::StrSliceExecFns;

verus! {

/// Capacity of the input line buffer, in characters.
pub const BUFFER_SIZE: usize = 256;

/// Length of a command's file-name argument: an 8.3 directory-entry name.
pub const ARG_SIZE: usize = 11;

/// First buffer index of a command's argument: the argument follows the
/// three-letter command word and one separator.
pub const ARG_START: usize = 4;

/// `short` matches the head of `long`: every character of `short` stands at
/// the same position in `long`.
pub open spec fn spec_prefix_matches(short: Seq<char>, long: Seq<char>) -> bool {
    forall|i: int| 0 <= i < short.len() ==> short[i] == long[i]
}

/// Compares a command word against the head of the line buffer, character by
/// character. Characters of the line beyond the word do not matter.
pub fn equals(short: &str, long: &[char]) -> (r: bool)
    requires
        short@.len() <= long@.len(),
    ensures
        r == spec_prefix_matches(short@, long@),
{
    let n = short.unicode_len();
    let mut i: usize = 0;
    while i < n
        invariant
            n == short@.len(),
            short@.len() <= long@.len(),
            i <= n,
            forall|j: int| 0 <= j < i ==> short@[j] == long@[j],
        decreases n - i,
    {
        if short.get_char(i) != long[i] {
            proof {
                assert(short@[i as int] != long@[i as int]);
            }
            return false;
        }
        i += 1;
    }
    true
}

/// The commands a finished line can name. A line names the first of these
/// whose word matches its head; a line whose first character is the padding
/// character is empty, and anything else is unknown.
#[derive(Clone, Copy, PartialEq, Eq, Structural, Debug)]
pub enum Command {
    Ping,
    Ls,
    Cat,
    Run,
    Help,
    Empty,
    Unknown,
}

/// Which command a line buffer names, tried in the shell's fixed order.
pub open spec fn spec_command(line: Seq<char>) -> Command {
    if spec_prefix_matches("ping"@, line) {
        Command::Ping
    } else if spec_prefix_matches("ls"@, line) {
        Command::Ls
    } else if spec_prefix_matches("cat"@, line) {
        Command::Cat
    } else if spec_prefix_matches("run"@, line) {
        Command::Run
    } else if spec_prefix_matches("help"@, line) {
        Command::Help
    } else if line[0] == '\0' {
        Command::Empty
    } else {
        Command::Unknown
    }
}

/// The shell's state: the line being edited, the cursor one past its last
/// character, and the argument carried out of the last parsed command.
pub struct Shell {
    /// The input line, padded with `'\0'` beyond the cursor.
    pub buffer: Vec<char>,
    /// The file-name argument of the last `cat` or `run` command.
    pub arg: Vec<char>,
    /// Index the next typed character goes to.
    pub cursor: usize,
}

impl Shell {
    /// Both fixed-size buffers have their full size and the cursor is inside
    /// the line buffer.
    pub open spec fn well_formed(self) -> bool {
        &&& self.buffer@.len() == BUFFER_SIZE
        &&& self.arg@.len() == ARG_SIZE
        &&& self.cursor <= BUFFER_SIZE
    }

    /// A fresh shell: an empty line and an empty argument.
    pub fn new() -> (shell: Shell)
        ensures
            shell.well_formed(),
            shell.cursor == 0,
            forall|i: int| 0 <= i < BUFFER_SIZE ==> shell.buffer@[i] == '\0',
    {
        let mut shell = Shell { buffer: Vec::new(), arg: Vec::new(), cursor: 0 };
        while shell.buffer.len() < BUFFER_SIZE
            invariant
                shell.buffer@.len() <= BUFFER_SIZE,
                shell.arg@.len() == 0,
                shell.cursor == 0,
                forall|i: int| 0 <= i < shell.buffer@.len() ==> shell.buffer@[i] == '\0',
            decreases BUFFER_SIZE - shell.buffer@.len(),
        {
            shell.buffer.push('\0');
        }
        while shell.arg.len() < ARG_SIZE
            invariant
                shell.arg@.len() <= ARG_SIZE,
                shell.buffer@.len() == BUFFER_SIZE,
                shell.cursor == 0,
                forall|i: int| 0 <= i < shell.buffer@.len() ==> shell.buffer@[i] == '\0',
            decreases ARG_SIZE - shell.arg@.len(),
        {
            shell.arg.push('\0');
        }
        shell
    }

    /// Starts a new line: clears the whole buffer and puts the cursor at its
    /// start. Printing the prompt belongs to the console driver.
    pub fn init(&mut self)
        requires
            old(self).well_formed(),
        ensures
            final(self).well_formed(),
            final(self).cursor == 0,
            forall|i: int| 0 <= i < BUFFER_SIZE ==> final(self).buffer@[i] == '\0',
            final(self).arg@ == old(self).arg@,
    {
        let mut i: usize = 0;
        while i < BUFFER_SIZE
            invariant
                self.buffer@.len() == BUFFER_SIZE,
                self.arg@ == old(self).arg@,
                i <= BUFFER_SIZE,
                forall|j: int| 0 <= j < i ==> self.buffer@[j] == '\0',
            decreases BUFFER_SIZE - i,
        {
            self.buffer[i] = '\0';
            i += 1;
        }
        self.cursor = 0;
    }

    /// Takes one typed character into the line and advances the cursor.
    /// A full buffer admits no further character.
    pub fn add(&mut self, c: char)
        requires
            old(self).well_formed(),
            old(self).cursor < BUFFER_SIZE,
        ensures
            final(self).well_formed(),
            final(self).buffer@ == old(self).buffer@.update(old(self).cursor as int, c),
            final(self).cursor == old(self).cursor + 1,
            final(self).arg@ == old(self).arg@,
    {
        let cur = self.cursor;
        self.buffer[cur] = c;
        self.cursor = cur + 1;
    }

    /// Steps the cursor back over the last typed character, clearing the
    /// slot the cursor stood on; at the start of the line it does nothing.
    pub fn backspace(&mut self)
        requires
            old(self).well_formed(),
            old(self).cursor < BUFFER_SIZE,
        ensures
            final(self).well_formed(),
            final(self).arg@ == old(self).arg@,
            old(self).cursor > 0 ==> {
                &&& final(self).buffer@ == old(self).buffer@.update(old(self).cursor as int, '\0')
                &&& final(self).cursor == old(self).cursor - 1
            },
            old(self).cursor == 0 ==> *final(self) == *old(self),
    {
        if self.cursor > 0 {
            let cur = self.cursor;
            self.buffer[cur] = '\0';
            self.cursor = cur - 1;
        }
    }

    /// Decides which command the finished line names, trying the command
    /// words in the shell's fixed order; for `cat` and `run` it also copies
    /// the file-name argument out of the line. Running the command — the
    /// printing, the filesystem reads — stays with the drivers.
    pub fn interpret(&mut self) -> (cmd: Command)
        requires
            old(self).well_formed(),
        ensures
            final(self).well_formed(),
            final(self).buffer@ == old(self).buffer@,
            final(self).cursor == old(self).cursor,
            cmd == spec_command(old(self).buffer@),
            cmd == Command::Cat || cmd == Command::Run ==> final(self).arg@ == old(
                self,
            ).buffer@.subrange(ARG_START as int, ARG_START + ARG_SIZE),
            !(cmd == Command::Cat || cmd == Command::Run) ==> final(self).arg@ == old(self).arg@,
    {
        proof {
            reveal_strlit("ping");
            reveal_strlit("ls");
            reveal_strlit("cat");
            reveal_strlit("run");
            reveal_strlit("help");
        }
        if equals("ping", self.buffer.as_slice()) {
            Command::Ping
        } else if equals("ls", self.buffer.as_slice()) {
            Command::Ls
        } else if equals("cat", self.buffer.as_slice()) {
            self.copy_arg();
            Command::Cat
        } else if equals("run", self.buffer.as_slice()) {
            self.copy_arg();
            Command::Run
        } else if equals("help", self.buffer.as_slice()) {
            Command::Help
        } else if self.buffer[0] == '\0' {
            Command::Empty
        } else {
            Command::Unknown
        }
    }

    /// Copies the file-name argument — the characters after the command word
    /// and its separator — out of the line buffer.
    fn copy_arg(&mut self)
        requires
            old(self).well_formed(),
        ensures
            final(self).well_formed(),
            final(self).buffer@ == old(self).buffer@,
            final(self).cursor == old(self).cursor,
            final(self).arg@ == old(self).buffer@.subrange(ARG_START as int, ARG_START + ARG_SIZE),
    {
        let mut i: usize = ARG_START;
        while i < ARG_START + ARG_SIZE
            invariant
                self.well_formed(),
                self.buffer@ == old(self).buffer@,
                self.cursor == old(self).cursor,
                ARG_START <= i <= ARG_START + ARG_SIZE,
                forall|j: int|
                    ARG_START <= j < i ==> self.arg@[j - ARG_START] == self.buffer@[j],
            decreases ARG_START + ARG_SIZE - i,
        {
            let c = self.buffer[i];
            self.arg[i - ARG_START] = c;
            i += 1;
        }
        proof {
            assert(self.arg@ =~= old(self).buffer@.subrange(
                ARG_START as int,
                ARG_START + ARG_SIZE,
            ));
        }
    }

    /// A finished line: decide its command and start a new line. The command
    /// comes back for the surrounding driver to act on.
    pub fn enter(&mut self) -> (cmd: Command)
        requires
            old(self).well_formed(),
        ensures
            final(self).well_formed(),
            final(self).cursor == 0,
            forall|i: int| 0 <= i < BUFFER_SIZE ==> final(self).buffer@[i] == '\0',
            cmd == spec_command(old(self).buffer@),
            cmd == Command::Cat || cmd == Command::Run ==> final(self).arg@ == old(
                self,
            ).buffer@.subrange(ARG_START as int, ARG_START + ARG_SIZE),
            !(cmd == Command::Cat || cmd == Command::Run) ==> final(self).arg@ == old(self).arg@,
    {
        let cmd = self.interpret();
        self.init();
        cmd
    }
}

} // verus!
