//! The modal mode: moving by keys, word motions, and colon commands.

use crate::buffer::{backward_target, forward_target, moved_to, Buffer, BufferView};
use crate::coordinate::{
    displacement, in_view, offset_after_follow, Position, ScreenOffset, Size,
};
use crate::editorcommands::{
    after_move, lemma_move_stays_on_text, ColonQueueActions, Direction, QueueInitCommand,
    VimColonQueue, VimModeCommands,
};
use crate::input::{Event, KeyCode};
use crate::line::FragmentView;
use crate::text::{chars_of, pop_char, push_char};
use crate::text::lines_of;
use crate::view::{
    after_paste, cursor_ok, kept_on_row, paste_at, render_rows, shows_row, drawn_end, ScreenRow,
    RESERVED_ROWS,
};
use vstd::prelude::*;
use vstd::string::StringExecFns;

verus! {

/// How the modal mode goes on after a command.
#[derive(Copy, Clone, Debug, PartialEq, Eq, Structural)]
pub enum ContinueState {
    /// The whole editor session is over.
    ExitSession,
    /// The mode goes on.
    ContinueVim,
    /// The mode goes on, and the message on the command line stays.
    ContinueVimPersistError,
    /// The letters made no command the mode knows: the mode goes on, and
    /// the command line stays open.
    InvalidCommand,
}

/// What the command line shows.
#[derive(Copy, Clone, Debug, PartialEq, Eq, Structural)]
pub enum VimMessage {
    /// Nothing new.
    Nothing,
    /// The colon command as typed so far.
    Queue,
    /// The buffer is not saved: `!` overrides, `w` saves.
    NotSaved,
    /// The letters are no command.
    InvalidCommand,
    /// The letters are actions, but not in an order that means anything.
    InvalidOrder,
    /// The buffer has no file name to be written to.
    NoFileName,
}

/// What became of a colon command.
#[derive(Copy, Clone, Debug, PartialEq, Eq, Structural)]
pub struct ColonOutcome {
    pub state: ContinueState,
    /// The buffer is to be written to its file.
    pub save: bool,
    pub message: VimMessage,
}

/// What a multi-key command still waits for.
#[derive(Copy, Clone, Debug, PartialEq, Eq, Structural)]
pub enum Pending {
    /// No command is under way.
    Nothing,
    /// A colon command is being typed.
    Colon,
    /// A `g` was typed and waits for its second.
    PageUp,
    /// A `G` was typed and waits for its second.
    PageDown,
}

/// What the mode asks of its driver.
#[derive(Copy, Clone, Debug, PartialEq, Eq, Structural)]
pub enum VimRequest {
    Nothing,
    /// Read the clipboard and paste it.
    Paste,
    /// Enter the highlight mode.
    Highlight,
    /// Show the help of the modal mode.
    Help,
    /// Leave the modal mode and take its cursor, view and size back.
    HandBack,
    /// End the session.
    Quit,
}

/// What became of an event.
#[derive(Copy, Clone, Debug, PartialEq, Eq, Structural)]
pub struct VimStep {
    pub request: VimRequest,
    /// The buffer is to be written to its file first.
    pub save: bool,
    pub message: VimMessage,
    /// The view moved: the screen is to be drawn again.
    pub needs_render: bool,
}

/// What a run of colon actions does to a buffer that has a file name or
/// not, and is saved or not.
///
/// `w` writes, `q` quits a saved buffer, `wq` writes and quits, `q!` quits
/// whatever the state. An unsaved buffer is not quit by `q` alone, and no
/// buffer is written without a file name. Any other run of actions is no
/// command.
pub open spec fn colon_outcome(queue: Seq<ColonQueueActions>, named: bool, saved: bool) -> ColonOutcome {
    if queue == seq![ColonQueueActions::Write] {
        if named {
            ColonOutcome {
                state: ContinueState::ContinueVim,
                save: true,
                message: VimMessage::Nothing,
            }
        } else {
            ColonOutcome {
                state: ContinueState::ContinueVimPersistError,
                save: false,
                message: VimMessage::NoFileName,
            }
        }
    } else if queue == seq![ColonQueueActions::Quit] {
        if saved {
            ColonOutcome {
                state: ContinueState::ExitSession,
                save: false,
                message: VimMessage::Nothing,
            }
        } else {
            ColonOutcome {
                state: ContinueState::ContinueVimPersistError,
                save: false,
                message: VimMessage::NotSaved,
            }
        }
    } else if queue == seq![ColonQueueActions::Override] {
        ColonOutcome {
            state: ContinueState::InvalidCommand,
            save: false,
            message: VimMessage::InvalidCommand,
        }
    } else if queue == seq![ColonQueueActions::Write, ColonQueueActions::Quit] {
        if named {
            ColonOutcome {
                state: ContinueState::ExitSession,
                save: true,
                message: VimMessage::Nothing,
            }
        } else {
            ColonOutcome {
                state: ContinueState::ContinueVimPersistError,
                save: false,
                message: VimMessage::NoFileName,
            }
        }
    } else if queue == seq![ColonQueueActions::Quit, ColonQueueActions::Override] {
        ColonOutcome { state: ContinueState::ExitSession, save: false, message: VimMessage::Nothing }
    } else {
        ColonOutcome {
            state: ContinueState::InvalidCommand,
            save: false,
            message: VimMessage::InvalidOrder,
        }
    }
}

/// Whether a colon command was one the mode knows, whatever became of it.
/// A command it does not know leaves the command line open.
pub open spec fn recognised(outcome: ColonOutcome) -> bool {
    outcome.state != ContinueState::InvalidCommand
}

/// Whether every letter of `text` is a colon action.
pub open spec fn all_actions(text: Seq<char>) -> bool {
    forall|i: int| 0 <= i < text.len() ==> ColonQueueActions::decoded(#[trigger] text[i]) is Some
}

/// The cursor after a word motion of the modal mode: where the motion
/// lands, kept within its row.
pub open spec fn after_word_motion(
    lines: Seq<Seq<FragmentView>>,
    cursor: Position,
    command: VimModeCommands,
) -> Position {
    if lines.len() == 0 {
        cursor
    } else {
        let target = match command {
            VimModeCommands::StartOfNextWord => forward_target(
                lines,
                cursor.height as int,
                cursor.width as int,
                false,
            ),
            VimModeCommands::EndOfCurrentWord => forward_target(
                lines,
                cursor.height as int,
                cursor.width as int,
                true,
            ),
            _ => backward_target(lines, cursor.height as int, cursor.width as int),
        };
        let landed = moved_to(cursor, target);
        Position {
            width: kept_on_row(landed.width as int, lines, landed.height as int),
            max_width: 0,
            ..landed
        }
    }
}

/// The actions the letters of `text` stand for.
pub open spec fn actions_of(text: Seq<char>) -> Seq<ColonQueueActions> {
    Seq::new(text.len(), |i: int| ColonQueueActions::decoded(text[i])->0)
}

/// Whether a move in `direction` is one the modal mode makes on a single
/// key.
pub open spec fn single_key_move(direction: Direction) -> bool {
    direction != Direction::PageUp && direction != Direction::PageDown
}

/// The cursor after a command of the modal mode.
pub open spec fn cursor_after_command(
    lines: Seq<Seq<FragmentView>>,
    cursor: Position,
    command: VimModeCommands,
) -> Position {
    match command {
        VimModeCommands::Move(direction) => if !single_key_move(direction) {
            cursor
        } else if lines.len() == 0 {
            Position { width: 0, height: 0, max_width: 0 }
        } else {
            after_move(direction, cursor, lines)
        },
        VimModeCommands::StartOfNextWord
        | VimModeCommands::EndOfCurrentWord
        | VimModeCommands::BeginingOfCurrentWord => after_word_motion(lines, cursor, command),
        _ => cursor,
    }
}

/// How a command of the modal mode, given while no multi-key command is
/// under way, changes the mode and what it hands back.
pub open spec fn stepped_by_command(
    before: VimMode,
    after: VimMode,
    command: VimModeCommands,
    lines: Seq<Seq<FragmentView>>,
    step: VimStep,
) -> bool {
    &&& after.size == match command {
        VimModeCommands::Resize(size) => size,
        _ => before.size,
    }
    &&& after.pending == match command {
        VimModeCommands::ComplexCommand(QueueInitCommand::Colon) => Pending::Colon,
        VimModeCommands::ComplexCommand(QueueInitCommand::PageUp) => Pending::PageUp,
        VimModeCommands::ComplexCommand(QueueInitCommand::PageDown) => Pending::PageDown,
        _ => before.pending,
    }
    &&& after.queue@ == if command == VimModeCommands::ComplexCommand(QueueInitCommand::Colon) {
        Seq::<char>::empty()
    } else {
        before.queue@
    }
    &&& after.cursor_position == cursor_after_command(lines, before.cursor_position, command)
    &&& after.screen_offset == offset_after_follow(
        after.cursor_position,
        before.screen_offset,
        after.size,
        RESERVED_ROWS,
        lines.len() as int,
    )
    &&& step.request == match command {
        VimModeCommands::Highlight => VimRequest::Highlight,
        VimModeCommands::Paste => VimRequest::Paste,
        VimModeCommands::NoAction => VimRequest::Help,
        VimModeCommands::Exit => VimRequest::HandBack,
        _ => VimRequest::Nothing,
    }
    &&& !step.save
    &&& step.message == if command == VimModeCommands::ComplexCommand(QueueInitCommand::Colon) {
        VimMessage::Queue
    } else {
        VimMessage::Nothing
    }
    &&& step.needs_render == (command is Resize || displacement(
        after.cursor_position,
        before.screen_offset,
        after.size,
        RESERVED_ROWS,
    ) > 0)
}

/// How a key changes a colon command that is being typed, and what
/// becomes of the command when it is carried out.
pub open spec fn stepped_by_queue(
    before: VimMode,
    after: VimMode,
    command: VimColonQueue,
    buffer: BufferView,
    step: VimStep,
) -> bool {
    let outcome = colon_outcome(actions_of(before.queue@), buffer.filename is Some, buffer.is_saved);
    let carried_out = command == VimColonQueue::Execute && all_actions(before.queue@)
        && recognised(outcome);
    &&& after.cursor_position == before.cursor_position
    &&& after.size == match command {
        VimColonQueue::Resize(size) => size,
        _ => before.size,
    }
    &&& after.screen_offset == match command {
        VimColonQueue::Resize(size) => offset_after_follow(
            before.cursor_position,
            before.screen_offset,
            size,
            RESERVED_ROWS,
            buffer.lines.len() as int,
        ),
        _ => before.screen_offset,
    }
    &&& after.queue@ == match command {
        VimColonQueue::New(c) => before.queue@.push(c),
        VimColonQueue::Backspace => if before.queue@.len() > 0 {
            before.queue@.drop_last()
        } else {
            before.queue@
        },
        VimColonQueue::Execute => Seq::<char>::empty(),
        _ => before.queue@,
    }
    &&& after.pending == if carried_out || (command == VimColonQueue::Backspace
        && before.queue@.len() == 0) {
        Pending::Nothing
    } else {
        Pending::Colon
    }
    &&& step.request == if carried_out && outcome.state == ContinueState::ExitSession {
        VimRequest::Quit
    } else {
        VimRequest::Nothing
    }
    &&& step.save == (carried_out && outcome.save)
    &&& step.message == match command {
        VimColonQueue::New(_) => VimMessage::Queue,
        VimColonQueue::Backspace => if before.queue@.len() > 0 {
            VimMessage::Queue
        } else {
            VimMessage::Nothing
        },
        VimColonQueue::Execute => if all_actions(before.queue@) {
            outcome.message
        } else {
            VimMessage::InvalidCommand
        },
        _ => VimMessage::Nothing,
    }
    &&& step.needs_render == (command is Resize)
}

/// Whether `event` is the key that completes the two-key move `pending`
/// waits for.
pub open spec fn completes(pending: Pending, event: Event) -> bool {
    match event {
        Event::Key(key) => (pending == Pending::PageUp && key.code == KeyCode::Char('g')) || (
        pending == Pending::PageDown && key.code == KeyCode::Char('G')),
        _ => false,
    }
}

/// How the key after a `g` or a `G` changes the mode: the matching key
/// takes the cursor to the first or the last row; any other key shows
/// the help. Either way the wait is over. A resize is taken on, and the
/// wait goes on.
pub open spec fn stepped_by_page(
    before: VimMode,
    after: VimMode,
    event: Event,
    lines: Seq<Seq<FragmentView>>,
    step: VimStep,
) -> bool {
    let direction = if before.pending == Pending::PageUp {
        Direction::PageUp
    } else {
        Direction::PageDown
    };
    match event {
        Event::Resize(width, height) => {
            &&& after.pending == before.pending
            &&& after.size == crate::editorcommands::resized(width, height)
            &&& after.queue@ == before.queue@
            &&& after.cursor_position == before.cursor_position
            &&& after.screen_offset == offset_after_follow(
                before.cursor_position,
                before.screen_offset,
                after.size,
                RESERVED_ROWS,
                lines.len() as int,
            )
            &&& step == (VimStep {
                request: VimRequest::Nothing,
                save: false,
                message: VimMessage::Nothing,
                needs_render: true,
            })
        },
        _ => stepped_by_key_after(before, after, event, lines, step, direction),
    }
}

/// How an event other than a resize ends the wait for the second key of a
/// two-key move.
pub open spec fn stepped_by_key_after(
    before: VimMode,
    after: VimMode,
    event: Event,
    lines: Seq<Seq<FragmentView>>,
    step: VimStep,
    direction: Direction,
) -> bool {
    &&& after.pending == Pending::Nothing
    &&& after.size == before.size
    &&& after.queue@ == before.queue@
    &&& after.cursor_position == if completes(before.pending, event) && lines.len() > 0 {
        after_move(direction, before.cursor_position, lines)
    } else {
        before.cursor_position
    }
    &&& after.screen_offset == offset_after_follow(
        after.cursor_position,
        before.screen_offset,
        before.size,
        RESERVED_ROWS,
        lines.len() as int,
    )
    &&& step.request == if completes(before.pending, event) {
        VimRequest::Nothing
    } else {
        VimRequest::Help
    }
    &&& !step.save
    &&& step.message == VimMessage::Nothing
    &&& step.needs_render == completes(before.pending, event)
}

/// What an event does to the modal mode: a command of its own, the next
/// key of a colon command, or the second key of a two-key move, whichever
/// the mode is waiting for.
pub open spec fn vim_handled(
    before: VimMode,
    after: VimMode,
    event: Event,
    buffer: BufferView,
    step: VimStep,
) -> bool {
    match before.pending {
        Pending::Nothing => stepped_by_command(
            before,
            after,
            VimModeCommands::decoded(event),
            buffer.lines,
            step,
        ),
        Pending::Colon => stepped_by_queue(
            before,
            after,
            VimColonQueue::decoded(event),
            buffer,
            step,
        ),
        _ => stepped_by_page(before, after, event, buffer.lines, step),
    }
}

/// The state of the modal mode.
#[derive(Debug)]
pub struct VimMode {
    pub cursor_position: Position,
    pub screen_offset: ScreenOffset,
    pub size: Size,
    /// What a multi-key command still waits for.
    pub pending: Pending,
    /// The colon command as typed so far.
    pub queue: String,
}

impl VimMode {
    /// The modal mode, entered with the cursor, the view and the size as
    /// they are.
    pub fn new(cursor_position: Position, screen_offset: ScreenOffset, size: Size) -> (mode: VimMode)
        ensures
            mode.cursor_position == cursor_position,
            mode.screen_offset == screen_offset,
            mode.size == size,
            mode.pending == Pending::Nothing,
            mode.queue@.len() == 0,
    {
        VimMode { cursor_position, screen_offset, size, pending: Pending::Nothing, queue: String::new() }
    }

    /// Takes on a new terminal size.
    pub fn resize(&mut self, new_size: Size)
        ensures
            final(self).size == new_size,
            final(self).cursor_position == old(self).cursor_position,
            final(self).screen_offset == old(self).screen_offset,
            final(self).pending == old(self).pending,
            final(self).queue == old(self).queue,
    {
        self.size = new_size;
    }

    /// Hands the cursor, the view and the size back to whoever entered the
    /// mode.
    pub fn hand_back_state(&self, pos: &mut Position, offset: &mut ScreenOffset, size: &mut Size)
        ensures
            *final(pos) == self.cursor_position,
            *final(offset) == self.screen_offset,
            *final(size) == self.size,
    {
        *pos = self.cursor_position;
        *offset = self.screen_offset;
        if *size != self.size {
            *size = self.size;
        }
    }

    /// Brings the view back around the cursor and says how far outside
    /// the cursor was.
    pub fn resolve_displacement(&mut self, buffer: &Buffer) -> (distance: usize)
        ensures
            distance == displacement(
                old(self).cursor_position,
                old(self).screen_offset,
                old(self).size,
                RESERVED_ROWS,
            ),
            final(self).screen_offset == offset_after_follow(
                old(self).cursor_position,
                old(self).screen_offset,
                old(self).size,
                RESERVED_ROWS,
                buffer@.lines.len() as int,
            ),
            in_view(
                final(self).cursor_position,
                final(self).screen_offset,
                final(self).size,
                RESERVED_ROWS,
            ),
            final(self).cursor_position == old(self).cursor_position,
            final(self).size == old(self).size,
            final(self).pending == old(self).pending,
            final(self).queue == old(self).queue,
    {
        self.screen_offset.follow(&self.cursor_position, &self.size, RESERVED_ROWS, buffer.len())
    }

    /// Moves the cursor one step and brings the view along.
    pub fn move_and_resolve(&mut self, dir: Direction, buffer: &Buffer) -> (distance: usize)
        requires
            buffer@.lines.len() > 0,
            cursor_ok(old(self).cursor_position, buffer@.lines),
        ensures
            cursor_ok(final(self).cursor_position, buffer@.lines),
            final(self).cursor_position == after_move(
                dir,
                old(self).cursor_position,
                buffer@.lines,
            ),
            distance == displacement(
                final(self).cursor_position,
                old(self).screen_offset,
                old(self).size,
                RESERVED_ROWS,
            ),
            final(self).screen_offset == offset_after_follow(
                final(self).cursor_position,
                old(self).screen_offset,
                old(self).size,
                RESERVED_ROWS,
                buffer@.lines.len() as int,
            ),
            in_view(
                final(self).cursor_position,
                final(self).screen_offset,
                final(self).size,
                RESERVED_ROWS,
            ),
            final(self).size == old(self).size,
            final(self).pending == old(self).pending,
            final(self).queue == old(self).queue,
    {
        proof {
            assert(buffer@.lines.len() == buffer.text.len());
            lemma_move_stays_on_text(dir, self.cursor_position, buffer@.lines);
        }
        dir.move_cursor(&mut self.cursor_position, buffer);
        self.resolve_displacement(buffer)
    }

    /// Moves the cursor one step and says how far the view had to follow.
    /// In an empty buffer the cursor goes to the origin and the view
    /// stays.
    pub fn move_cursor(&mut self, dir: Direction, buffer: &Buffer) -> (distance: usize)
        requires
            cursor_ok(old(self).cursor_position, buffer@.lines),
        ensures
            cursor_ok(final(self).cursor_position, buffer@.lines),
            final(self).cursor_position == if buffer@.lines.len() == 0 {
                Position { width: 0, height: 0, max_width: 0 }
            } else {
                after_move(dir, old(self).cursor_position, buffer@.lines)
            },
            buffer@.lines.len() == 0 ==> distance == 0 && final(self).screen_offset == old(
                self,
            ).screen_offset,
            buffer@.lines.len() > 0 ==> distance == displacement(
                final(self).cursor_position,
                old(self).screen_offset,
                old(self).size,
                RESERVED_ROWS,
            ) && final(self).screen_offset == offset_after_follow(
                final(self).cursor_position,
                old(self).screen_offset,
                old(self).size,
                RESERVED_ROWS,
                buffer@.lines.len() as int,
            ),
            final(self).size == old(self).size,
            final(self).pending == old(self).pending,
            final(self).queue == old(self).queue,
    {
        if buffer.is_empty() {
            self.cursor_position.snap_left();
            self.cursor_position.page_up();
            0
        } else {
            self.move_and_resolve(dir, buffer)
        }
    }

    /// The row of the command line, and the text shown there for
    /// `message`: a colon and the message.
    pub fn command_status_line(&self, message: &str) -> (shown: (usize, String))
        ensures
            shown.0 == if self.size.height >= 2 {
                self.size.height - 2
            } else {
                0
            },
            shown.1@ == seq![':'] + message@,
    {
        let mut text = String::new();
        push_char(&mut text, ':');
        text.append(message);
        assert(text@ =~= seq![':'] + message@);
        (self.size.height.saturating_sub(2), text)
    }

    /// Turns the letters of a colon command into actions. It fails when
    /// some letter is no action.
    pub fn map_string_to_queue_vec(string_queue: &str) -> (result: Result<
        Vec<ColonQueueActions>,
        String,
    >)
        ensures
            match result {
                Ok(actions) => all_actions(string_queue@) && actions@.len() == string_queue@.len()
                    && forall|i: int|
                    0 <= i < actions@.len() ==> ColonQueueActions::decoded(string_queue@[i])
                        == Some(#[trigger] actions@[i]),
                Err(message) => !all_actions(string_queue@) && message@ == "Invalid command"@,
            },
    {
        let chars = chars_of(string_queue);
        let mut res: Vec<ColonQueueActions> = Vec::new();
        let mut i: usize = 0;
        while i < chars.len()
            invariant
                i <= chars.len(),
                chars@ == string_queue@,
                res@.len() == i,
                forall|k: int|
                    0 <= k < i ==> ColonQueueActions::decoded(string_queue@[k]) == Some(
                        #[trigger] res@[k],
                    ),
            decreases chars.len() - i,
        {
            match ColonQueueActions::try_from(chars[i]) {
                Ok(action) => {
                    res.push(action);
                },
                Err(message) => {
                    assert(ColonQueueActions::decoded(string_queue@[i as int]) is None);
                    return Err(message);
                },
            }
            i += 1;
        }
        assert forall|k: int| 0 <= k < string_queue@.len() implies ColonQueueActions::decoded(
            #[trigger] string_queue@[k],
        ) is Some by {
            assert(ColonQueueActions::decoded(string_queue@[k]) == Some(res@[k]));
        }
        Ok(res)
    }

    /// Decides what a colon command does.
    pub fn eval_colon_queue(&self, queue: Vec<ColonQueueActions>, buffer: &Buffer) -> (outcome:
        ColonOutcome)
        ensures
            outcome == colon_outcome(queue@, buffer@.filename is Some, buffer@.is_saved),
    {
        let named = buffer.filename.is_some();
        let invalid = ColonOutcome {
            state: ContinueState::InvalidCommand,
            save: false,
            message: VimMessage::InvalidOrder,
        };
        let unnamed = ColonOutcome {
            state: ContinueState::ContinueVimPersistError,
            save: false,
            message: VimMessage::NoFileName,
        };
        let leave = ColonOutcome {
            state: ContinueState::ExitSession,
            save: false,
            message: VimMessage::Nothing,
        };
        if queue.len() == 1 {
            assert(queue@ =~= seq![queue@[0]]);
            match queue[0] {
                ColonQueueActions::Write => {
                    if named {
                        ColonOutcome {
                            state: ContinueState::ContinueVim,
                            save: true,
                            message: VimMessage::Nothing,
                        }
                    } else {
                        unnamed
                    }
                },
                ColonQueueActions::Quit => {
                    if !buffer.is_saved {
                        ColonOutcome {
                            state: ContinueState::ContinueVimPersistError,
                            save: false,
                            message: VimMessage::NotSaved,
                        }
                    } else {
                        leave
                    }
                },
                ColonQueueActions::Override => ColonOutcome {
                    state: ContinueState::InvalidCommand,
                    save: false,
                    message: VimMessage::InvalidCommand,
                },
            }
        } else if queue.len() == 2 {
            assert(queue@ =~= seq![queue@[0], queue@[1]]);
            match (queue[0], queue[1]) {
                (ColonQueueActions::Write, ColonQueueActions::Quit) => {
                    if named {
                        ColonOutcome {
                            state: ContinueState::ExitSession,
                            save: true,
                            message: VimMessage::Nothing,
                        }
                    } else {
                        unnamed
                    }
                },
                (ColonQueueActions::Quit, ColonQueueActions::Override) => leave,
                _ => {
                    assert(queue@ != seq![ColonQueueActions::Write, ColonQueueActions::Quit]) by {
                        if queue@ == seq![ColonQueueActions::Write, ColonQueueActions::Quit] {
                            assert(queue@[0] == ColonQueueActions::Write);
                            assert(queue@[1] == ColonQueueActions::Quit);
                        }
                    }
                    assert(queue@ != seq![ColonQueueActions::Quit, ColonQueueActions::Override])
                        by {
                        if queue@ == seq![ColonQueueActions::Quit, ColonQueueActions::Override] {
                            assert(queue@[0] == ColonQueueActions::Quit);
                            assert(queue@[1] == ColonQueueActions::Override);
                        }
                    }
                    invalid
                },
            }
        } else {
            assert(seq![ColonQueueActions::Write].len() == 1);
            assert(seq![ColonQueueActions::Write, ColonQueueActions::Quit].len() == 2);
            invalid
        }
    }

    fn land_on_row(&mut self, buffer: &Buffer)
        requires
            old(self).cursor_position.height < buffer@.lines.len(),
        ensures
            final(self).cursor_position == (Position {
                width: kept_on_row(
                    old(self).cursor_position.width as int,
                    buffer@.lines,
                    old(self).cursor_position.height as int,
                ),
                max_width: 0,
                ..old(self).cursor_position
            }),
            final(self).screen_offset == old(self).screen_offset,
            final(self).size == old(self).size,
            final(self).pending == old(self).pending,
            final(self).queue == old(self).queue,
    {
        assert(buffer@.lines.len() == buffer.text.len());
        let width = buffer.text[self.cursor_position.height].grapheme_len();
        if self.cursor_position.width > width {
            self.cursor_position.width = width;
        }
        self.cursor_position.max_width = 0;
    }

    /// Starts a multi-key command: the mode now waits for the rest of it.
    pub fn determine_queue_command(&mut self, command: QueueInitCommand) -> (message: VimMessage)
        ensures
            final(self).pending == match command {
                QueueInitCommand::Colon => Pending::Colon,
                QueueInitCommand::PageUp => Pending::PageUp,
                QueueInitCommand::PageDown => Pending::PageDown,
            },
            final(self).queue@ == if command == QueueInitCommand::Colon {
                Seq::<char>::empty()
            } else {
                old(self).queue@
            },
            message == if command == QueueInitCommand::Colon {
                VimMessage::Queue
            } else {
                VimMessage::Nothing
            },
            final(self).cursor_position == old(self).cursor_position,
            final(self).screen_offset == old(self).screen_offset,
            final(self).size == old(self).size,
    {
        match command {
            QueueInitCommand::Colon => {
                self.queue = String::new();
                self.pending = Pending::Colon;
                VimMessage::Queue
            },
            QueueInitCommand::PageUp => {
                self.pending = Pending::PageUp;
                VimMessage::Nothing
            },
            QueueInitCommand::PageDown => {
                self.pending = Pending::PageDown;
                VimMessage::Nothing
            },
        }
    }

    /// Carries out a command given while no multi-key command is under
    /// way.
    pub fn handle_command(&mut self, command: VimModeCommands, buffer: &Buffer) -> (step: VimStep)
        requires
            cursor_ok(old(self).cursor_position, buffer@.lines),
        ensures
            cursor_ok(final(self).cursor_position, buffer@.lines),
            in_view(
                final(self).cursor_position,
                final(self).screen_offset,
                final(self).size,
                RESERVED_ROWS,
            ),
            stepped_by_command(*old(self), *final(self), command, buffer@.lines, step),
    {
        let mut request = VimRequest::Nothing;
        let mut message = VimMessage::Nothing;
        let mut resized = false;
        match command {
            VimModeCommands::Move(dir) => {
                match dir {
                    Direction::PageUp | Direction::PageDown => {},
                    _ => {
                        if buffer.is_empty() {
                            self.cursor_position = Position::default();
                        } else {
                            proof {
                                assert(buffer@.lines.len() == buffer.text.len());
                                lemma_move_stays_on_text(dir, self.cursor_position, buffer@.lines);
                            }
                            dir.move_cursor(&mut self.cursor_position, buffer);
                        }
                    },
                }
            },
            VimModeCommands::StartOfNextWord => {
                if !buffer.is_empty() {
                    buffer.begining_of_next_word(&mut self.cursor_position);
                    self.land_on_row(buffer);
                }
            },
            VimModeCommands::EndOfCurrentWord => {
                if !buffer.is_empty() {
                    buffer.end_of_current_word(&mut self.cursor_position);
                    self.land_on_row(buffer);
                }
            },
            VimModeCommands::BeginingOfCurrentWord => {
                if !buffer.is_empty() {
                    buffer.begining_of_current_word(&mut self.cursor_position);
                    self.land_on_row(buffer);
                }
            },
            VimModeCommands::ComplexCommand(queue_command) => {
                message = self.determine_queue_command(queue_command);
            },
            VimModeCommands::Highlight => {
                request = VimRequest::Highlight;
            },
            VimModeCommands::Paste => {
                request = VimRequest::Paste;
            },
            VimModeCommands::NoAction => {
                request = VimRequest::Help;
            },
            VimModeCommands::Resize(new_size) => {
                self.resize(new_size);
                resized = true;
            },
            VimModeCommands::Exit => {
                request = VimRequest::HandBack;
            },
        }
        let distance = self.resolve_displacement(buffer);
        VimStep { request, save: false, message, needs_render: resized || distance > 0 }
    }

    /// Carries out one key of a colon command that is being typed.
    pub fn queue_colon(&mut self, command: VimColonQueue, buffer: &Buffer) -> (step: VimStep)
        ensures
            stepped_by_queue(*old(self), *final(self), command, buffer@, step),
            in_view(
                old(self).cursor_position,
                old(self).screen_offset,
                old(self).size,
                RESERVED_ROWS,
            ) ==> in_view(
                final(self).cursor_position,
                final(self).screen_offset,
                final(self).size,
                RESERVED_ROWS,
            ),
    {
        let mut request = VimRequest::Nothing;
        let mut message = VimMessage::Nothing;
        let mut save = false;
        let mut needs_render = false;
        match command {
            VimColonQueue::New(c) => {
                push_char(&mut self.queue, c);
                self.pending = Pending::Colon;
                message = VimMessage::Queue;
            },
            VimColonQueue::Backspace => {
                if self.queue.as_str().unicode_len() == 0 {
                    self.pending = Pending::Nothing;
                } else {
                    let _ = pop_char(&mut self.queue);
                    self.pending = Pending::Colon;
                    message = VimMessage::Queue;
                }
            },
            VimColonQueue::Execute => {
                match VimMode::map_string_to_queue_vec(self.queue.as_str()) {
                    Ok(mapped) => {
                        assert(mapped@ =~= actions_of(self.queue@));
                        let outcome = self.eval_colon_queue(mapped, buffer);
                        self.pending = match outcome.state {
                            ContinueState::InvalidCommand => Pending::Colon,
                            _ => Pending::Nothing,
                        };
                        save = outcome.save;
                        message = outcome.message;
                        if outcome.state == ContinueState::ExitSession {
                            request = VimRequest::Quit;
                        }
                    },
                    Err(_) => {
                        self.pending = Pending::Colon;
                        message = VimMessage::InvalidCommand;
                    },
                }
                self.queue = String::new();
            },
            VimColonQueue::Resize(size) => {
                self.resize(size);
                self.pending = Pending::Colon;
                let _ = self.resolve_displacement(buffer);
                needs_render = true;
            },
            VimColonQueue::Other => {
                self.pending = Pending::Colon;
            },
        }
        VimStep { request, save, message, needs_render }
    }

    /// Takes the key after a `g`: a second `g` moves the cursor to the
    /// first row. Says whether the key was that.
    pub fn queue_page_up(&mut self, event: Event, buffer: &Buffer) -> (valid: bool)
        requires
            cursor_ok(old(self).cursor_position, buffer@.lines),
        ensures
            valid == completes(Pending::PageUp, event),
            cursor_ok(final(self).cursor_position, buffer@.lines),
            final(self).cursor_position == if valid && buffer@.lines.len() > 0 {
                after_move(Direction::PageUp, old(self).cursor_position, buffer@.lines)
            } else {
                old(self).cursor_position
            },
            final(self).screen_offset == if valid && buffer@.lines.len() > 0 {
                offset_after_follow(
                    final(self).cursor_position,
                    old(self).screen_offset,
                    old(self).size,
                    RESERVED_ROWS,
                    buffer@.lines.len() as int,
                )
            } else {
                old(self).screen_offset
            },
            final(self).size == old(self).size,
            final(self).pending == old(self).pending,
            final(self).queue == old(self).queue,
    {
        let valid = match event {
            Event::Key(key) => match key.code {
                KeyCode::Char(c) => c == 'g',
                _ => false,
            },
            _ => false,
        };
        if valid && !buffer.is_empty() {
            let _ = self.move_and_resolve(Direction::PageUp, buffer);
        }
        valid
    }

    /// Takes the key after a `G`: a second `G` moves the cursor to the
    /// last row. Says whether the key was that.
    pub fn queue_page_down(&mut self, event: Event, buffer: &Buffer) -> (valid: bool)
        requires
            cursor_ok(old(self).cursor_position, buffer@.lines),
        ensures
            valid == completes(Pending::PageDown, event),
            cursor_ok(final(self).cursor_position, buffer@.lines),
            final(self).cursor_position == if valid && buffer@.lines.len() > 0 {
                after_move(Direction::PageDown, old(self).cursor_position, buffer@.lines)
            } else {
                old(self).cursor_position
            },
            final(self).screen_offset == if valid && buffer@.lines.len() > 0 {
                offset_after_follow(
                    final(self).cursor_position,
                    old(self).screen_offset,
                    old(self).size,
                    RESERVED_ROWS,
                    buffer@.lines.len() as int,
                )
            } else {
                old(self).screen_offset
            },
            final(self).size == old(self).size,
            final(self).pending == old(self).pending,
            final(self).queue == old(self).queue,
    {
        let valid = match event {
            Event::Key(key) => match key.code {
                KeyCode::Char(c) => c == 'G',
                _ => false,
            },
            _ => false,
        };
        if valid && !buffer.is_empty() {
            let _ = self.move_and_resolve(Direction::PageDown, buffer);
        }
        valid
    }

    /// Carries out one event of the modal mode: a command of its own, the
    /// next key of a colon command, or the second key of a two-key move,
    /// whichever the mode is waiting for.
    pub fn handle(&mut self, event: Event, buffer: &Buffer) -> (step: VimStep)
        requires
            cursor_ok(old(self).cursor_position, buffer@.lines),
        ensures
            cursor_ok(final(self).cursor_position, buffer@.lines),
            in_view(
                old(self).cursor_position,
                old(self).screen_offset,
                old(self).size,
                RESERVED_ROWS,
            ) ==> in_view(
                final(self).cursor_position,
                final(self).screen_offset,
                final(self).size,
                RESERVED_ROWS,
            ),
            vim_handled(*old(self), *final(self), event, buffer@, step),
    {
        match self.pending {
            Pending::Nothing => {
                match VimModeCommands::try_from(event) {
                    Ok(command) => self.handle_command(command, buffer),
                    Err(_) => VimStep {
                        request: VimRequest::Nothing,
                        save: false,
                        message: VimMessage::Nothing,
                        needs_render: false,
                    },
                }
            },
            Pending::Colon => {
                match VimColonQueue::try_from(event) {
                    Ok(command) => self.queue_colon(command, buffer),
                    Err(_) => VimStep {
                        request: VimRequest::Nothing,
                        save: false,
                        message: VimMessage::Nothing,
                        needs_render: false,
                    },
                }
            },
            Pending::PageUp => {
                match event {
                    Event::Resize(_, _) => self.resize_while_waiting(event, buffer),
                    _ => {
                        let valid = self.queue_page_up(event, buffer);
                        let step = self.finish_page(valid, buffer);
                        VimStep { needs_render: valid, ..step }
                    },
                }
            },
            Pending::PageDown => {
                match event {
                    Event::Resize(_, _) => self.resize_while_waiting(event, buffer),
                    _ => {
                        let valid = self.queue_page_down(event, buffer);
                        let step = self.finish_page(valid, buffer);
                        VimStep { needs_render: valid, ..step }
                    },
                }
            },
        }
    }

    fn resize_while_waiting(&mut self, event: Event, buffer: &Buffer) -> (step: VimStep)
        requires
            event is Resize,
        ensures
            in_view(
                final(self).cursor_position,
                final(self).screen_offset,
                final(self).size,
                RESERVED_ROWS,
            ),
            final(self).pending == old(self).pending,
            final(self).cursor_position == old(self).cursor_position,
            final(self).queue == old(self).queue,
            final(self).size == crate::editorcommands::resized(event->Resize_0, event->Resize_1),
            final(self).screen_offset == offset_after_follow(
                old(self).cursor_position,
                old(self).screen_offset,
                final(self).size,
                RESERVED_ROWS,
                buffer@.lines.len() as int,
            ),
            step == (VimStep {
                request: VimRequest::Nothing,
                save: false,
                message: VimMessage::Nothing,
                needs_render: true,
            }),
    {
        if let Event::Resize(width, height) = event {
            self.resize(Size { height: height as usize, width: width as usize });
        }
        let _ = self.resolve_displacement(buffer);
        VimStep {
            request: VimRequest::Nothing,
            save: false,
            message: VimMessage::Nothing,
            needs_render: true,
        }
    }

    fn finish_page(&mut self, valid: bool, buffer: &Buffer) -> (step: VimStep)
        ensures
            in_view(
                final(self).cursor_position,
                final(self).screen_offset,
                final(self).size,
                RESERVED_ROWS,
            ),
            final(self).pending == Pending::Nothing,
            final(self).cursor_position == old(self).cursor_position,
            final(self).size == old(self).size,
            final(self).queue == old(self).queue,
            final(self).screen_offset == offset_after_follow(
                old(self).cursor_position,
                old(self).screen_offset,
                old(self).size,
                RESERVED_ROWS,
                buffer@.lines.len() as int,
            ),
            step == (VimStep {
                request: if valid {
                    VimRequest::Nothing
                } else {
                    VimRequest::Help
                },
                save: false,
                message: VimMessage::Nothing,
                needs_render: false,
            }),
    {
        self.pending = Pending::Nothing;
        let _ = self.resolve_displacement(buffer);
        VimStep {
            request: if valid {
                VimRequest::Nothing
            } else {
                VimRequest::Help
            },
            save: false,
            message: VimMessage::Nothing,
            needs_render: false,
        }
    }

    /// Pastes `paste_text` before the fragment the cursor stands before
    /// and brings the view back around the cursor.
    pub fn add_to_clipboard(&mut self, paste_text: &str, buffer: &mut Buffer)
        requires
            old(buffer).wf(),
            cursor_ok(old(self).cursor_position, old(buffer)@.lines),
        ensures
            final(buffer).wf(),
            cursor_ok(final(self).cursor_position, final(buffer)@.lines),
            (final(buffer)@.lines, final(self).cursor_position) == after_paste(
                old(buffer)@.lines,
                old(self).cursor_position,
                lines_of(paste_text@),
            ),
            final(buffer)@.filename == old(buffer)@.filename,
            final(buffer)@.is_saved == (old(buffer)@.is_saved && lines_of(paste_text@).len() == 0),
            final(self).screen_offset == offset_after_follow(
                final(self).cursor_position,
                old(self).screen_offset,
                old(self).size,
                RESERVED_ROWS,
                final(buffer)@.lines.len() as int,
            ),
            final(self).size == old(self).size,
            final(self).pending == old(self).pending,
            final(self).queue == old(self).queue,
    {
        let _ = paste_at(buffer, &mut self.cursor_position, paste_text);
        let _ = self.resolve_displacement(buffer);
    }

    /// The rows of the text area to draw.
    pub fn render(&self, buffer: &Buffer) -> (rows: Vec<ScreenRow>)
        ensures
            rows.len() == if self.screen_offset.height <= drawn_end(self.screen_offset, self.size) {
                drawn_end(self.screen_offset, self.size) - self.screen_offset.height
            } else {
                0
            },
            forall|i: int|
                0 <= i < rows.len() ==> shows_row(
                    #[trigger] rows[i],
                    buffer@.lines,
                    self.screen_offset,
                    self.size,
                    self.screen_offset.height + i,
                ),
    {
        render_rows(buffer, &self.screen_offset, &self.size, self.screen_offset.height)
    }
}

} // verus!
