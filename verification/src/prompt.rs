//! The two one-line prompts: the name of the file to save to, and the
//! number of the line to jump to.

use crate::editorcommands::{FileNameCommand, JumpCommand};
use crate::text::{pop_char, push_char};
use vstd::prelude::*;
use vstd::string::StringExecFns;

verus! {

/// The column in which a typed file name begins, right after the label of
/// the prompt.
pub const FILENAME_COLUMN: usize = 10;

/// The character of the decimal digit `digit`.
pub open spec fn digit_char(digit: nat) -> char {
    if digit == 0 {
        '0'
    } else if digit == 1 {
        '1'
    } else if digit == 2 {
        '2'
    } else if digit == 3 {
        '3'
    } else if digit == 4 {
        '4'
    } else if digit == 5 {
        '5'
    } else if digit == 6 {
        '6'
    } else if digit == 7 {
        '7'
    } else if digit == 8 {
        '8'
    } else {
        '9'
    }
}

/// The decimal numeral of `n`.
pub open spec fn decimal(n: nat) -> Seq<char>
    decreases n,
{
    if n < 10 {
        seq![digit_char(n)]
    } else {
        decimal(n / 10).push(digit_char(n % 10))
    }
}

fn digit_of(digit: usize) -> (c: char)
    requires
        digit < 10,
    ensures
        c == digit_char(digit as nat),
{
    if digit == 0 {
        '0'
    } else if digit == 1 {
        '1'
    } else if digit == 2 {
        '2'
    } else if digit == 3 {
        '3'
    } else if digit == 4 {
        '4'
    } else if digit == 5 {
        '5'
    } else if digit == 6 {
        '6'
    } else if digit == 7 {
        '7'
    } else if digit == 8 {
        '8'
    } else {
        '9'
    }
}

/// The decimal numeral of `n` as a string.
pub fn decimal_text(n: usize) -> (text: String)
    ensures
        text@ == decimal(n as nat),
    decreases n,
{
    if n < 10 {
        let mut text = String::new();
        push_char(&mut text, digit_of(n));
        assert(text@ =~= seq![digit_char(n as nat)]);
        text
    } else {
        let mut text = decimal_text(n / 10);
        push_char(&mut text, digit_of(n % 10));
        text
    }
}

/// How a prompt goes on after a command.
#[derive(Copy, Clone, Debug, PartialEq, Eq, Structural)]
pub enum PromptStep {
    /// The prompt goes on.
    Continue,
    /// What was typed is accepted.
    Accept,
    /// The prompt is left, and what was typed is dropped.
    Cancel,
}

/// The prompt for the name of the file to save to.
#[derive(Debug)]
pub struct FileNamePrompt {
    /// The name as typed so far.
    pub filename_buffer: String,
    /// The screen column the cursor is in.
    pub curr_position: usize,
}

/// The cursor's column in the file name prompt after a command: one to
/// the right for a typed character, one to the left for a backspace, but
/// never left of where the name begins.
pub open spec fn column_after(column: usize, command: FileNameCommand) -> usize {
    match command {
        FileNameCommand::Insert(_) => if column < usize::MAX {
            (column + 1) as usize
        } else {
            column
        },
        FileNameCommand::BackSpace => if column >= FILENAME_COLUMN + 1 {
            (column - 1) as usize
        } else {
            FILENAME_COLUMN
        },
        _ => column,
    }
}

/// The name in the file name prompt after a command.
pub open spec fn name_after(name: Seq<char>, command: FileNameCommand) -> Seq<char> {
    match command {
        FileNameCommand::Insert(c) => name.push(c),
        FileNameCommand::BackSpace => if name.len() > 0 {
            name.drop_last()
        } else {
            name
        },
        _ => name,
    }
}

impl FileNamePrompt {
    /// A prompt with nothing typed yet.
    pub fn new() -> (prompt: FileNamePrompt)
        ensures
            prompt.filename_buffer@.len() == 0,
            prompt.curr_position == FILENAME_COLUMN,
    {
        FileNamePrompt { filename_buffer: String::new(), curr_position: FILENAME_COLUMN }
    }

    /// Carries out one command of the prompt.
    pub fn handle(&mut self, command: FileNameCommand) -> (step: PromptStep)
        ensures
            final(self).filename_buffer@ == name_after(old(self).filename_buffer@, command),
            final(self).curr_position == column_after(old(self).curr_position, command),
            step == match command {
                FileNameCommand::SaveFileName => PromptStep::Accept,
                FileNameCommand::Quit => PromptStep::Cancel,
                _ => PromptStep::Continue,
            },
    {
        match command {
            FileNameCommand::Insert(c) => {
                push_char(&mut self.filename_buffer, c);
                self.curr_position = self.curr_position.saturating_add(1);
                PromptStep::Continue
            },
            FileNameCommand::BackSpace => {
                let _ = pop_char(&mut self.filename_buffer);
                let left = self.curr_position.saturating_sub(1);
                self.curr_position = if left >= FILENAME_COLUMN {
                    left
                } else {
                    FILENAME_COLUMN
                };
                PromptStep::Continue
            },
            FileNameCommand::SaveFileName => PromptStep::Accept,
            FileNameCommand::NoAction => PromptStep::Continue,
            FileNameCommand::Quit => PromptStep::Cancel,
        }
    }
}

/// The prompt for the number of the line to jump to.
#[derive(Copy, Clone, Debug, PartialEq, Eq, Structural)]
pub struct JumpPrompt {
    /// The number as typed so far; 0 while nothing is typed.
    pub line: usize,
}

/// The number in the jump prompt after a command: a digit is appended, a
/// backspace takes the last digit off. The number stops at `usize::MAX`.
pub open spec fn number_after(line: usize, command: JumpCommand) -> usize {
    match command {
        JumpCommand::Enter(digit) => if line * 10 + digit <= usize::MAX {
            (line * 10 + digit) as usize
        } else {
            usize::MAX
        },
        JumpCommand::Delete => line / 10,
        _ => line,
    }
}

impl JumpPrompt {
    /// A prompt with nothing typed yet.
    pub fn new() -> (prompt: JumpPrompt)
        ensures
            prompt.line == 0,
    {
        JumpPrompt { line: 0 }
    }

    /// Carries out one command of the prompt.
    pub fn handle(&mut self, command: JumpCommand) -> (step: PromptStep)
        ensures
            final(self).line == number_after(old(self).line, command),
            step == match command {
                JumpCommand::Move => PromptStep::Accept,
                JumpCommand::Exit => PromptStep::Cancel,
                _ => PromptStep::Continue,
            },
    {
        match command {
            JumpCommand::Enter(digit) => {
                self.line = if self.line <= (usize::MAX - digit) / 10 {
                    self.line * 10 + digit
                } else {
                    usize::MAX
                };
                PromptStep::Continue
            },
            JumpCommand::Delete => {
                self.line = if self.line > 9 {
                    self.line / 10
                } else {
                    0
                };
                PromptStep::Continue
            },
            JumpCommand::Move => PromptStep::Accept,
            JumpCommand::Exit => PromptStep::Cancel,
            JumpCommand::NoAction => PromptStep::Continue,
        }
    }

    /// The line the prompt shows: its label, and the number once one is
    /// typed.
    pub fn text(&self) -> (line: String)
        ensures
            line@ == if self.line == 0 {
                "Jump to: "@
            } else {
                "Jump to: "@ + decimal(self.line as nat)
            },
    {
        let mut line = "Jump to: ".to_owned();
        if self.line != 0 {
            line.append(decimal_text(self.line).as_str());
        }
        line
    }
}

} // verus!
