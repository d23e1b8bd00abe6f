//! The editor: one engine, one mode at a time, and for every input event
//! what changes and what is left for the front end to do.

use crate::buffer::BufferView;
use crate::coordinate::{in_view, Position, ScreenOffset, Size};
use crate::editorcommands::{
    parse_highlight_normal_mode, parse_highlight_vim_mode, EditorCommand, FileNameCommand,
    HelpCommand, HighlightCommand, JumpCommand, SearchCommand,
};
use crate::highlight::{Highlight, HighlightStep};
use crate::input::{Event, KeyCode};
use crate::prompt::{FileNamePrompt, JumpPrompt, PromptStep};
use crate::search::{Search, SearchStep};
use crate::view::{
    cursor_ok, request_of, view_handled, Outcome, Redraw, Request, View, RESERVED_ROWS,
};
use crate::vim_mode::{
    all_actions, actions_of, colon_outcome, completes, vim_handled, ContinueState, Pending,
    VimMessage, VimMode, VimRequest, VimStep,
};
use crate::editorcommands::{VimColonQueue, VimModeCommands};
use crate::text::lines_of;
use crate::view::after_paste;
use vstd::prelude::*;
use vstd::view::View as _;

verus! {

/// The mode the editor is in.
#[derive(Copy, Clone, Debug, PartialEq, Eq, Structural)]
pub enum Mode {
    /// The default mode: every printable key is typed into the text.
    Normal,
    /// The modal mode.
    Vim,
    /// The highlight mode, entered from the modal mode.
    VimHighlight,
    /// The help of the modal mode.
    VimHelp,
    /// Incremental search.
    Search,
    /// The highlight mode.
    Highlight,
    /// The prompt for a file name, before a save.
    FileName,
    /// The prompt for a line number.
    JumpLine,
    /// The help screen.
    Help,
    /// The question whether to leave without saving.
    ConfirmQuit,
}

/// What the front end is to do after an event, besides drawing.
#[derive(Copy, Clone, Debug, PartialEq, Eq, Structural)]
pub enum Action {
    Nothing,
    /// Write the buffer to its file.
    Save,
    /// Read the clipboard and hand the text to `paste`.
    Paste,
    /// Put the text in `copied` on the clipboard.
    Copy,
    /// Switch to the next colour theme.
    Theme,
    /// Say that the editor is left without saving.
    Farewell,
}

/// What became of an event.
#[derive(Copy, Clone, Debug, PartialEq, Eq, Structural)]
pub struct Effect {
    pub redraw: Redraw,
    pub action: Action,
    /// What the command line of the modal mode shows.
    pub message: VimMessage,
}

/// The editor's whole state.
#[derive(Debug)]
pub struct Editor {
    pub should_quit: bool,
    pub view: View,
    pub mode: Mode,
    /// The modal mode's own cursor, view and size, while it is entered.
    pub vim: VimMode,
    pub search: Search,
    pub highlight: Highlight,
    pub file_name: FileNamePrompt,
    pub jump: JumpPrompt,
    /// The editor is left once the file name prompt is done.
    pub quit_after_name: bool,
    /// The text last copied, for the front end to put on the clipboard.
    pub copied: String,
}

/// Whether `event` is the key `c` with control held alone.
pub open spec fn is_control_key(event: Event, c: char) -> bool {
    match event {
        Event::Key(key) => key.code == KeyCode::Char(c) && key.modifiers.is_control(),
        _ => false,
    }
}

impl Editor {
    /// Whether the modal mode's own cursor is the one in use.
    pub open spec fn in_vim(&self) -> bool {
        self.mode == Mode::Vim || self.mode == Mode::VimHighlight || self.mode == Mode::VimHelp
    }

    /// The cursor in use.
    pub open spec fn cursor(&self) -> Position {
        if self.in_vim() {
            self.vim.cursor_position
        } else {
            self.view.cursor_position
        }
    }

    /// The view in use.
    pub open spec fn offset(&self) -> ScreenOffset {
        if self.in_vim() {
            self.vim.screen_offset
        } else {
            self.view.screen_offset
        }
    }

    /// The terminal size in use.
    pub open spec fn size(&self) -> Size {
        if self.in_vim() {
            self.vim.size
        } else {
            self.view.size
        }
    }

    /// The cursor in use lies within the text area of the view in use.
    pub open spec fn on_screen(&self) -> bool {
        in_view(self.cursor(), self.offset(), self.size(), RESERVED_ROWS)
    }

    /// The engine is well formed, the cursor in use is a place in the
    /// buffer and on the screen, and so are the places the mode entered
    /// remembers.
    pub open spec fn wf(&self) -> bool {
        &&& self.view.wf()
        &&& cursor_ok(self.cursor(), self.view.buffer@.lines)
        &&& self.on_screen()
        &&& self.mode == Mode::Search ==> cursor_ok(
            self.search.previous_position,
            self.view.buffer@.lines,
        )
        &&& (self.mode == Mode::Highlight || self.mode == Mode::VimHighlight) ==> {
            &&& cursor_ok(self.highlight.anchor, self.view.buffer@.lines)
            &&& self.highlight.end == self.cursor()
        }
    }

    /// An editor in the default mode with an empty, unnamed buffer on a
    /// terminal of `size`.
    pub fn new(size: Size) -> (editor: Editor)
        ensures
            editor.wf(),
            editor.mode == Mode::Normal,
            !editor.should_quit,
            editor.view.size == size,
            editor.view.buffer@ == (BufferView {
                lines: Seq::empty(),
                filename: None,
                is_saved: false,
            }),
            editor.view.cursor_position == (Position { width: 0, height: 0, max_width: 0 }),
            editor.view.screen_offset == (ScreenOffset { width: 0, height: 0 }),
            editor.view.needs_redraw,
            !editor.quit_after_name,
            editor.copied@ == Seq::<char>::empty(),
    {
        let view = View::new(size);
        Editor {
            should_quit: false,
            mode: Mode::Normal,
            vim: VimMode::new(view.cursor_position, view.screen_offset, view.size),
            search: Search::default(),
            highlight: Highlight::new(view.cursor_position),
            file_name: FileNamePrompt::new(),
            jump: JumpPrompt::new(),
            quit_after_name: false,
            copied: String::new(),
            view,
        }
    }

    fn quiet() -> (effect: Effect)
        ensures
            effect == (Effect {
                redraw: Redraw::Nothing,
                action: Action::Nothing,
                message: VimMessage::Nothing,
            }),
    {
        Effect { redraw: Redraw::Nothing, action: Action::Nothing, message: VimMessage::Nothing }
    }

    fn draw(redraw: Redraw, action: Action) -> (effect: Effect)
        ensures
            effect == (Effect { redraw, action, message: VimMessage::Nothing }),
    {
        Effect { redraw, action, message: VimMessage::Nothing }
    }

    /// The engine after an event in a mode that leaves the text alone: a
    /// resize is taken on, with the view placed afresh around the cursor;
    /// after any other event the engine is as it was.
    pub open spec fn view_kept(before: View, after: View, event: Event) -> bool {
        match event {
            Event::Resize(width, height) => {
                let size = crate::editorcommands::resized(width, height);
                &&& after.size == size
                &&& after.screen_offset == (ScreenOffset {
                    height: crate::coordinate::snap_top(
                        before.cursor_position.height as int,
                        crate::coordinate::text_rows(size, RESERVED_ROWS),
                        before.buffer@.lines.len() as int,
                    ) as usize,
                    width: crate::coordinate::snap_left(
                        before.cursor_position.width as int,
                        crate::coordinate::text_columns(size),
                    ) as usize,
                })
                &&& after.cursor_position == before.cursor_position
                &&& after.buffer == before.buffer
                &&& after.needs_redraw == before.needs_redraw
            },
            _ => after == before,
        }
    }

    /// The states of the modal mode, the search and the selection, and the
    /// text last copied, are as they were.
    pub open spec fn modes_kept(before: Editor, after: Editor) -> bool {
        &&& after.vim == before.vim
        &&& after.search == before.search
        &&& after.highlight == before.highlight
        &&& after.copied == before.copied
    }

    /// The states of the two prompts are as they were.
    pub open spec fn prompts_kept(before: Editor, after: Editor) -> bool {
        &&& after.file_name == before.file_name
        &&& after.jump == before.jump
        &&& after.quit_after_name == before.quit_after_name
    }

    /// Takes on a new terminal size while a prompt is open. The prompt
    /// and the text stay as they are.
    fn resize_in_prompt(&mut self, event: Event) -> (effect: Effect)
        requires
            old(self).wf(),
            !old(self).in_vim(),
            event is Resize,
        ensures
            final(self).wf(),
            final(self).mode == old(self).mode,
            final(self).should_quit == old(self).should_quit,
            final(self).quit_after_name == old(self).quit_after_name,
            final(self).file_name == old(self).file_name,
            final(self).jump == old(self).jump,
            Editor::view_kept(old(self).view, final(self).view, event),
            Editor::modes_kept(*old(self), *final(self)),
            effect == (Effect {
                redraw: Redraw::Screen,
                action: Action::Nothing,
                message: VimMessage::Nothing,
            }),
    {
        if let Event::Resize(width, height) = event {
            self.view.resize(Size { height: height as usize, width: width as usize });
        }
        Editor::draw(Redraw::Screen, Action::Nothing)
    }

    /// What asking to leave does: a buffer that is saved, or empty, is left at
    /// once; any other is not, and the editor asks first. Nothing is written
    /// and nothing is changed either way.
    pub open spec fn quit_asked(before: Editor, after: Editor, effect: Effect) -> bool {
        &&& effect.message == VimMessage::Nothing
        &&& effect.redraw == if !before.view.buffer@.is_saved && before.view.buffer@.lines.len()
            > 0 {
            Redraw::Screen
        } else {
            Redraw::Nothing
        }
        &&& after.view == before.view
        &&& Editor::modes_kept(before, after)
        &&& Editor::prompts_kept(before, after)
        &&& effect.action == Action::Nothing
        &&& if !before.view.buffer@.is_saved && before.view.buffer@.lines.len() > 0 {
            after.mode == Mode::ConfirmQuit && after.should_quit == before.should_quit
        } else {
            after.mode == Mode::Normal && after.should_quit
        }
    }

    /// Asks to leave the editor. A buffer that is saved, or empty, is left
    /// at once. Any other is not: the editor asks first whether to leave
    /// without saving, and until the answer comes nothing is written and
    /// nothing is lost.
    pub fn request_quit(&mut self) -> (effect: Effect)
        requires
            old(self).wf(),
            old(self).mode == Mode::Normal,
        ensures
            final(self).wf(),
            Editor::quit_asked(*old(self), *final(self), effect),
    {
        if !self.view.buffer.is_saved && !self.view.buffer.is_empty() {
            self.mode = Mode::ConfirmQuit;
            Editor::draw(Redraw::Screen, Action::Nothing)
        } else {
            self.should_quit = true;
            Editor::quiet()
        }
    }

    /// What an answer to the question whether to leave without saving
    /// does. Until Control-y or Control-n comes the question stands, and
    /// but for a resize the engine is as it was. Control-y leaves.
    /// Control-n saves and leaves where the buffer has a file name, and
    /// asks for one where it has none.
    pub open spec fn quit_answered(before: Editor, after: Editor, event: Event, effect: Effect) -> bool {
        &&& effect.message == VimMessage::Nothing
        &&& effect.redraw == if event is Resize || is_control_key(event, 'y') || (is_control_key(
            event,
            'n',
        ) && before.view.buffer@.filename is None) {
            Redraw::Screen
        } else {
            Redraw::Nothing
        }
        &&& Editor::view_kept(before.view, after.view, event)
        &&& Editor::modes_kept(before, after)
        &&& after.jump == before.jump
        &&& if is_control_key(event, 'y') {
            &&& after.should_quit
            &&& after.mode == Mode::Normal
            &&& effect.action == Action::Farewell
            &&& after.file_name == before.file_name
            &&& after.quit_after_name == before.quit_after_name
        } else if is_control_key(event, 'n') {
            if before.view.buffer@.filename is Some {
                &&& after.should_quit
                &&& after.mode == Mode::Normal
                &&& effect.action == Action::Save
                &&& after.file_name == before.file_name
                &&& after.quit_after_name == before.quit_after_name
            } else {
                &&& after.should_quit == before.should_quit
                &&& after.mode == Mode::FileName
                &&& after.quit_after_name
                &&& after.file_name.filename_buffer@.len() == 0
                &&& after.file_name.curr_position == crate::prompt::FILENAME_COLUMN
                &&& effect.action == Action::Nothing
            }
        } else {
            &&& after.should_quit == before.should_quit
            &&& after.mode == Mode::ConfirmQuit
            &&& effect.action == Action::Nothing
            &&& after.file_name == before.file_name
            &&& after.quit_after_name == before.quit_after_name
        }
    }


    /// Takes the answer to the question whether to leave without saving.
    /// Control-y leaves. Control-n saves first: at once where the buffer
    /// has a file name, and after asking for one where it has none. Any
    /// other event leaves the question standing.
    pub fn exit_without_saving(&mut self, event: Event) -> (effect: Effect)
        requires
            old(self).wf(),
            old(self).mode == Mode::ConfirmQuit,
        ensures
            final(self).wf(),
            Editor::quit_answered(*old(self), *final(self), event, effect),
    {
        if let Event::Resize(_, _) = event {
            return self.resize_in_prompt(event);
        }
        let (yes, no) = match event {
            Event::Key(key) => match key.code {
                KeyCode::Char(c) => (
                    c == 'y' && key.modifiers.only_control(),
                    c == 'n' && key.modifiers.only_control(),
                ),
                _ => (false, false),
            },
            _ => (false, false),
        };
        if yes {
            self.should_quit = true;
            self.mode = Mode::Normal;
            Editor::draw(Redraw::Screen, Action::Farewell)
        } else if no {
            if self.view.buffer.filename.is_some() {
                self.should_quit = true;
                self.mode = Mode::Normal;
                Editor::draw(Redraw::Nothing, Action::Save)
            } else {
                self.file_name = FileNamePrompt::new();
                self.quit_after_name = true;
                self.mode = Mode::FileName;
                Editor::draw(Redraw::Screen, Action::Nothing)
            }
        } else {
            Editor::quiet()
        }
    }

    /// The mode a request of the engine leads to.
    pub open spec fn mode_for(request: Request, named: bool) -> Mode {
        match request {
            Request::Save => if named {
                Mode::Normal
            } else {
                Mode::FileName
            },
            Request::VimMode => Mode::Vim,
            Request::Highlight => Mode::Highlight,
            Request::Search => Mode::Search,
            Request::JumpLine => Mode::JumpLine,
            Request::Help => Mode::Help,
            _ => Mode::Normal,
        }
    }

    /// The action a request of the engine leaves to the front end.
    pub open spec fn action_for(request: Request, named: bool) -> Action {
        match request {
            Request::Save => if named {
                Action::Save
            } else {
                Action::Nothing
            },
            Request::Paste => Action::Paste,
            Request::Theme => Action::Theme,
            _ => Action::Nothing,
        }
    }

    /// Whether a request of the engine takes the whole screen to show what
    /// it leads to.
    pub open spec fn redraws_all(request: Request, named: bool) -> bool {
        match request {
            Request::Save => !named,
            Request::Theme | Request::VimMode | Request::Search | Request::Help => true,
            _ => false,
        }
    }

    /// What a command of the default mode other than Quit does: the engine
    /// edits and moves, and a request of it enters the mode asked for, with
    /// that mode's state as it is at its start.
    pub open spec fn commanded(
        before: Editor,
        after: Editor,
        command: EditorCommand,
        effect: Effect,
    ) -> bool {
        let named = before.view.buffer@.filename is Some;
        let request = request_of(command);
        let redraw = crate::view::redraw_of(
            command,
            crate::coordinate::displacement(
                after.view.cursor_position,
                before.view.screen_offset,
                before.view.size,
                RESERVED_ROWS,
            ),
            crate::view::edits(before.view.buffer@.lines, before.view.cursor_position, command),
        );
        &&& view_handled(
            before.view,
            after.view,
            command,
            Outcome { keep_running: true, redraw, request },
        )
        &&& after.should_quit == before.should_quit
        &&& after.mode == Editor::mode_for(request, named)
        &&& effect == (Effect {
            redraw: if Editor::redraws_all(request, named) {
                Redraw::Screen
            } else {
                redraw
            },
            action: Editor::action_for(request, named),
            message: VimMessage::Nothing,
        })
        &&& after.copied == before.copied
        &&& if after.mode == Mode::FileName {
            &&& !after.quit_after_name
            &&& after.file_name.filename_buffer@.len() == 0
            &&& after.file_name.curr_position == crate::prompt::FILENAME_COLUMN
        } else {
            &&& after.quit_after_name == before.quit_after_name
            &&& after.file_name == before.file_name
        }
        &&& if after.mode == Mode::Search {
            &&& after.search.string@.len() == 0
            &&& after.search.stack@.len() == 0
            &&& after.search.line_indicies@ == Set::<usize>::empty()
            &&& after.search.search_index == 0
            &&& after.search.render_search
            &&& after.search.previous_position == after.view.cursor_position
            &&& after.search.previous_offset == after.view.screen_offset
        } else {
            after.search == before.search
        }
        &&& after.jump == if after.mode == Mode::JumpLine {
            JumpPrompt { line: 0 }
        } else {
            before.jump
        }
        &&& after.highlight == if after.mode == Mode::Highlight {
            Highlight { anchor: after.view.cursor_position, end: after.view.cursor_position }
        } else {
            before.highlight
        }
        &&& if after.mode == Mode::Vim {
            &&& after.vim.cursor_position == after.view.cursor_position
            &&& after.vim.screen_offset == after.view.screen_offset
            &&& after.vim.size == after.view.size
            &&& after.vim.pending == Pending::Nothing
            &&& after.vim.queue@.len() == 0
        } else {
            after.vim == before.vim
        }
    }

    /// Carries out a command of the default mode other than Quit: the
    /// engine edits and moves, and a request of it enters the mode asked
    /// for.
    pub fn normal_command(&mut self, command: EditorCommand) -> (effect: Effect)
        requires
            old(self).wf(),
            old(self).mode == Mode::Normal,
            command != EditorCommand::Quit,
        ensures
            final(self).wf(),
            Editor::commanded(*old(self), *final(self), command, effect),
    {
        let outcome = self.view.handle_event(command);
        let mut action = Action::Nothing;
        let mut redraw = outcome.redraw;
        match outcome.request {
            Request::Nothing => {},
            Request::Save => {
                if self.view.buffer.filename.is_some() {
                    action = Action::Save;
                } else {
                    self.file_name = FileNamePrompt::new();
                    self.quit_after_name = false;
                    self.mode = Mode::FileName;
                    redraw = Redraw::Screen;
                }
            },
            Request::Paste => {
                action = Action::Paste;
            },
            Request::Theme => {
                action = Action::Theme;
                redraw = Redraw::Screen;
            },
            Request::VimMode => {
                self.vim = VimMode::new(
                    self.view.cursor_position,
                    self.view.screen_offset,
                    self.view.size,
                );
                self.mode = Mode::Vim;
                redraw = Redraw::Screen;
            },
            Request::Highlight => {
                self.highlight = Highlight::new(self.view.cursor_position);
                self.mode = Mode::Highlight;
            },
            Request::Search => {
                self.search = Search::new(self.view.cursor_position, self.view.screen_offset);
                self.mode = Mode::Search;
                redraw = Redraw::Screen;
            },
            Request::JumpLine => {
                self.jump = JumpPrompt::new();
                self.mode = Mode::JumpLine;
            },
            Request::Help => {
                self.mode = Mode::Help;
                redraw = Redraw::Screen;
            },
        }
        Editor::draw(redraw, action)
    }

    /// What an event does at the file name prompt. An accepted name becomes
    /// the buffer's file name, and the buffer is to be saved; nothing else
    /// of the engine changes but that it is to be drawn again. A prompt
    /// that is left, and a key typed into it, leave the engine as it was;
    /// a resize is taken on.
    pub open spec fn name_typed(before: Editor, after: Editor, event: Event, effect: Effect) -> bool {
        &&& effect.message == VimMessage::Nothing
        &&& effect.redraw == if event is Resize || FileNameCommand::decoded(event)
            == FileNameCommand::SaveFileName || FileNameCommand::decoded(event)
            == FileNameCommand::Quit {
            Redraw::Screen
        } else {
            Redraw::Line
        }
        &&& Editor::modes_kept(before, after)
        &&& after.jump == before.jump
        &&& after.quit_after_name == before.quit_after_name
        &&& after.file_name.filename_buffer@ == crate::prompt::name_after(
            before.file_name.filename_buffer@,
            FileNameCommand::decoded(event),
        )
        &&& after.file_name.curr_position == crate::prompt::column_after(
            before.file_name.curr_position,
            FileNameCommand::decoded(event),
        )
        &&& match FileNameCommand::decoded(event) {
            FileNameCommand::SaveFileName => {
                &&& after.mode == Mode::Normal
                &&& effect.action == Action::Save
                &&& after.view.buffer@ == (BufferView {
                    filename: Some(before.file_name.filename_buffer@),
                    ..before.view.buffer@
                })
                &&& after.view.buffer.text == before.view.buffer.text
                &&& after.view.needs_redraw
                &&& after.view.size == before.view.size
                &&& after.view.cursor_position == before.view.cursor_position
                &&& after.view.screen_offset == before.view.screen_offset
                &&& after.should_quit == (before.should_quit || before.quit_after_name)
            },
            FileNameCommand::Quit => {
                &&& after.mode == Mode::Normal
                &&& effect.action == Action::Nothing
                &&& after.view == before.view
                &&& after.should_quit == (before.should_quit || before.quit_after_name)
            },
            _ => {
                &&& after.mode == Mode::FileName
                &&& effect.action == Action::Nothing
                &&& Editor::view_kept(before.view, after.view, event)
                &&& after.should_quit == before.should_quit
            },
        }
    }


    /// Carries out one event of the file name prompt. An accepted name
    /// becomes the buffer's file name and the buffer is to be saved; a
    /// prompt that is left changes nothing. Where the prompt was part of
    /// leaving the editor, the editor is left either way.
    pub fn file_name_event(&mut self, event: Event) -> (effect: Effect)
        requires
            old(self).wf(),
            old(self).mode == Mode::FileName,
        ensures
            final(self).wf(),
            Editor::name_typed(*old(self), *final(self), event, effect),
    {
        if let Event::Resize(_, _) = event {
            return self.resize_in_prompt(event);
        }
        let command = match FileNameCommand::try_from(event) {
            Ok(command) => command,
            Err(_) => FileNameCommand::NoAction,
        };
        match self.file_name.handle(command) {
            PromptStep::Continue => Editor::draw(Redraw::Line, Action::Nothing),
            PromptStep::Accept => {
                self.view.get_file_name(self.file_name.filename_buffer.clone());
                self.mode = Mode::Normal;
                if self.quit_after_name {
                    self.should_quit = true;
                }
                Editor::draw(Redraw::Screen, Action::Save)
            },
            PromptStep::Cancel => {
                self.mode = Mode::Normal;
                if self.quit_after_name {
                    self.should_quit = true;
                }
                Editor::draw(Redraw::Screen, Action::Nothing)
            },
        }
    }

    /// What an event does at the jump-to-line prompt. An accepted number
    /// moves the cursor to that line, and the view follows it; nothing
    /// else of the engine changes. A prompt that is left, and a key typed
    /// into it, leave the engine as it was; a resize is taken on.
    pub open spec fn jump_typed(before: Editor, after: Editor, event: Event, effect: Effect) -> bool {
        &&& effect.message == VimMessage::Nothing
        &&& effect.redraw == if event is Resize || JumpCommand::decoded(event) == JumpCommand::Move
            || JumpCommand::decoded(event) == JumpCommand::Exit {
            Redraw::Screen
        } else {
            Redraw::Line
        }
        &&& effect.action == Action::Nothing
        &&& after.should_quit == before.should_quit
        &&& Editor::modes_kept(before, after)
        &&& after.file_name == before.file_name
        &&& after.quit_after_name == before.quit_after_name
        &&& after.jump.line == crate::prompt::number_after(
            before.jump.line,
            JumpCommand::decoded(event),
        )
        &&& match JumpCommand::decoded(event) {
            JumpCommand::Move => {
                &&& after.mode == Mode::Normal
                &&& after.view.buffer == before.view.buffer
                &&& after.view.size == before.view.size
                &&& after.view.needs_redraw == before.view.needs_redraw
                &&& after.view.cursor_position == if before.view.buffer@.lines.len() == 0 {
                    before.view.cursor_position
                } else {
                    crate::editorcommands::settled_on_row(
                        before.view.cursor_position,
                        before.view.buffer@.lines,
                        if before.jump.line >= before.view.buffer@.lines.len() {
                            before.view.buffer@.lines.len() - 1
                        } else if before.jump.line >= 1 {
                            before.jump.line - 1
                        } else {
                            0
                        },
                    )
                }
                &&& after.view.screen_offset == crate::view::offset_after_check(
                    after.view.cursor_position,
                    before.view.screen_offset,
                    before.view.size,
                    before.view.buffer@.lines.len() as int,
                )
            },
            JumpCommand::Exit => {
                &&& after.mode == Mode::Normal
                &&& after.view == before.view
            },
            _ => {
                &&& after.mode == Mode::JumpLine
                &&& Editor::view_kept(before.view, after.view, event)
            },
        }
    }


    /// Carries out one event of the jump-to-line prompt. An accepted
    /// number moves the cursor to that line.
    pub fn jump_event(&mut self, event: Event) -> (effect: Effect)
        requires
            old(self).wf(),
            old(self).mode == Mode::JumpLine,
        ensures
            final(self).wf(),
            Editor::jump_typed(*old(self), *final(self), event, effect),
    {
        if let Event::Resize(_, _) = event {
            return self.resize_in_prompt(event);
        }
        let command = match JumpCommand::try_from(event) {
            Ok(command) => command,
            Err(_) => JumpCommand::NoAction,
        };
        match self.jump.handle(command) {
            PromptStep::Continue => Editor::draw(Redraw::Line, Action::Nothing),
            PromptStep::Accept => {
                self.view.jump_cursor(self.jump.line);
                let _ = self.view.check_offset();
                self.mode = Mode::Normal;
                Editor::draw(Redraw::Screen, Action::Nothing)
            },
            PromptStep::Cancel => {
                self.mode = Mode::Normal;
                Editor::draw(Redraw::Screen, Action::Nothing)
            },
        }
    }

    /// What an event does on a help screen. Escape or Control-h leaves it
    /// for the mode it was entered from. A resize is taken on by whoever
    /// owns the cursor in use: the engine, or the modal mode, whose view
    /// then follows its cursor. Nothing else changes.
    pub open spec fn help_shown(before: Editor, after: Editor, event: Event, effect: Effect) -> bool {
        &&& effect.message == VimMessage::Nothing
        &&& effect.redraw == if HelpCommand::decoded(event) == HelpCommand::NoAction {
            Redraw::Nothing
        } else {
            Redraw::Screen
        }
        &&& effect.action == Action::Nothing
        &&& after.should_quit == before.should_quit
        &&& after.mode == if HelpCommand::decoded(event) == HelpCommand::Exit {
            if before.mode == Mode::Help {
                Mode::Normal
            } else {
                Mode::Vim
            }
        } else {
            before.mode
        }
        &&& after.search == before.search
        &&& after.highlight == before.highlight
        &&& after.copied == before.copied
        &&& after.jump == before.jump
        &&& after.file_name == before.file_name
        &&& after.quit_after_name == before.quit_after_name
        &&& if before.mode == Mode::Help {
            &&& Editor::view_kept(before.view, after.view, event)
            &&& after.vim == before.vim
        } else {
            &&& after.view == before.view
            &&& match event {
                Event::Resize(width, height) => {
                    &&& after.vim.size == crate::editorcommands::resized(width, height)
                    &&& after.vim.screen_offset == crate::coordinate::offset_after_follow(
                        before.vim.cursor_position,
                        before.vim.screen_offset,
                        after.vim.size,
                        RESERVED_ROWS,
                        before.view.buffer@.lines.len() as int,
                    )
                    &&& after.vim.cursor_position == before.vim.cursor_position
                    &&& after.vim.pending == before.vim.pending
                    &&& after.vim.queue == before.vim.queue
                },
                _ => after.vim == before.vim,
            }
        }
    }


    /// Carries out one event of a help screen: it is left on Escape or
    /// Control-h, and follows a resize.
    pub fn help_event(&mut self, event: Event) -> (effect: Effect)
        requires
            old(self).wf(),
            old(self).mode == Mode::Help || old(self).mode == Mode::VimHelp,
        ensures
            final(self).wf(),
            Editor::help_shown(*old(self), *final(self), event, effect),
    {
        let command = match HelpCommand::try_from(event) {
            Ok(command) => command,
            Err(_) => HelpCommand::NoAction,
        };
        match command {
            HelpCommand::Exit => {
                self.mode = if self.mode == Mode::Help {
                    Mode::Normal
                } else {
                    Mode::Vim
                };
                Editor::draw(Redraw::Screen, Action::Nothing)
            },
            HelpCommand::Resize(size) => {
                if self.mode == Mode::Help {
                    self.view.resize(size);
                } else {
                    self.vim.resize(size);
                    let _ = self.vim.resolve_displacement(&self.view.buffer);
                }
                Editor::draw(Redraw::Screen, Action::Nothing)
            },
            HelpCommand::NoAction => Editor::quiet(),
        }
    }

    /// What an event does in the search: the search takes its command on the
    /// engine's own cursor, view and size, and when it is over the default
    /// mode is back. An event that is no command changes nothing.
    pub open spec fn searched(before: Editor, after: Editor, event: Event, effect: Effect) -> bool {
        match SearchCommand::decoded(event) {
            Some(command) => {
                let exits = command == SearchCommand::AssumeState || command
                    == SearchCommand::RevertState;
                &&& after.mode == if exits {
                    Mode::Normal
                } else {
                    Mode::Search
                }
                &&& crate::search::search_stepped(
                    before.search,
                    after.search,
                    command,
                    (before.view.cursor_position, after.view.cursor_position),
                    (before.view.screen_offset, after.view.screen_offset),
                    (before.view.size, after.view.size),
                    before.view.buffer@.lines,
                    if exits {
                        SearchStep::Exit
                    } else {
                        SearchStep::Continue
                    },
                )
                &&& after.view.buffer == before.view.buffer
                &&& after.view.needs_redraw == before.view.needs_redraw
                &&& after.should_quit == before.should_quit
                &&& after.vim == before.vim
                &&& after.highlight == before.highlight
                &&& after.copied == before.copied
                &&& Editor::prompts_kept(before, after)
                &&& effect == (Effect {
                    redraw: Redraw::Screen,
                    action: Action::Nothing,
                    message: VimMessage::Nothing,
                })
            },
            None => after == before && effect == (Effect {
                redraw: Redraw::Nothing,
                action: Action::Nothing,
                message: VimMessage::Nothing,
            }),
        }
    }

    /// Carries out one event of the search. The search works on the
    /// engine's own cursor and view; when it is over the default mode is
    /// back.
    pub fn search_event(&mut self, event: Event) -> (effect: Effect)
        requires
            old(self).wf(),
            old(self).mode == Mode::Search,
        ensures
            final(self).wf(),
            Editor::searched(*old(self), *final(self), event, effect),
    {
        match SearchCommand::try_from(event) {
            Ok(command) => {
                let step = self.search.handle(
                    command,
                    &mut self.view.cursor_position,
                    &mut self.view.screen_offset,
                    &mut self.view.size,
                    &self.view.buffer,
                );
                match step {
                    SearchStep::Continue => {},
                    SearchStep::Exit => {
                        self.mode = Mode::Normal;
                    },
                }
                Editor::draw(Redraw::Screen, Action::Nothing)
            },
            Err(_) => Editor::quiet(),
        }
    }

    /// Whether a command of the highlight mode ends the mode.
    pub open spec fn ends_highlight(command: HighlightCommand) -> bool {
        command == HighlightCommand::Copy || command == HighlightCommand::Delete || command
            == HighlightCommand::RevertState
    }

    /// Whether the editor and the effect after a command of the highlight
    /// mode are what the command calls for: the selection takes the command
    /// on the cursor, the view and the size in use, a copied text is left
    /// in `copied`, and when the mode is over the mode it was entered from
    /// is back.
    pub open spec fn highlighted(
        before: Editor,
        after: Editor,
        command: HighlightCommand,
        effect: Effect,
    ) -> bool {
        &&& after.mode == if !Editor::ends_highlight(command) {
            before.mode
        } else if before.mode == Mode::Highlight {
            Mode::Normal
        } else {
            Mode::Vim
        }
        &&& crate::highlight::highlight_stepped(
            before.highlight,
            after.highlight,
            command,
            (before.cursor(), after.cursor()),
            (before.offset(), after.offset()),
            (before.size(), after.size()),
            (before.view.buffer, after.view.buffer),
            if effect.action == Action::Copy {
                HighlightStep::Copy(after.copied)
            } else if Editor::ends_highlight(command) {
                HighlightStep::Exit
            } else {
                HighlightStep::Continue
            },
        )
        &&& effect.redraw == Redraw::Screen
        &&& effect.message == VimMessage::Nothing
        &&& effect.action == Action::Copy || effect.action == Action::Nothing
        &&& effect.action != Action::Copy ==> after.copied == before.copied
        &&& after.should_quit == before.should_quit
        &&& after.view.needs_redraw == before.view.needs_redraw
        &&& after.search == before.search
        &&& Editor::prompts_kept(before, after)
        &&& if before.mode == Mode::VimHighlight {
            &&& after.view.cursor_position == after.vim.cursor_position
            &&& after.view.screen_offset == before.view.screen_offset
            &&& after.view.size == before.view.size
            &&& after.vim.pending == before.vim.pending
            &&& after.vim.queue == before.vim.queue
        } else {
            after.vim == before.vim
        }
    }

    fn highlight_normal(&mut self, command: HighlightCommand) -> (effect: Effect)
        requires
            old(self).wf(),
            old(self).mode == Mode::Highlight,
        ensures
            final(self).wf(),
            Editor::highlighted(*old(self), *final(self), command, effect),
    {
        let step = self.highlight.handle(
            command,
            &mut self.view.cursor_position,
            &mut self.view.screen_offset,
            &mut self.view.size,
            &mut self.view.buffer,
        );
        match step {
            HighlightStep::Continue => Editor::draw(Redraw::Screen, Action::Nothing),
            HighlightStep::Copy(text) => {
                self.copied = text;
                self.leave_highlight(false);
                Editor::draw(Redraw::Screen, Action::Copy)
            },
            HighlightStep::Exit => {
                self.leave_highlight(false);
                Editor::draw(Redraw::Screen, Action::Nothing)
            },
        }
    }

    fn highlight_vim(&mut self, command: HighlightCommand) -> (effect: Effect)
        requires
            old(self).wf(),
            old(self).mode == Mode::VimHighlight,
        ensures
            final(self).wf(),
            Editor::highlighted(*old(self), *final(self), command, effect),
    {
        let step = self.highlight.handle(
            command,
            &mut self.vim.cursor_position,
            &mut self.vim.screen_offset,
            &mut self.vim.size,
            &mut self.view.buffer,
        );
        self.view.cursor_position = self.vim.cursor_position;
        match step {
            HighlightStep::Continue => Editor::draw(Redraw::Screen, Action::Nothing),
            HighlightStep::Copy(text) => {
                self.copied = text;
                self.leave_highlight(true);
                Editor::draw(Redraw::Screen, Action::Copy)
            },
            HighlightStep::Exit => {
                self.leave_highlight(true);
                Editor::draw(Redraw::Screen, Action::Nothing)
            },
        }
    }

    /// What an event does in the highlight mode. An event that is no
    /// command changes nothing.
    pub open spec fn selected(before: Editor, after: Editor, event: Event, effect: Effect) -> bool {
        match HighlightCommand::decoded(event, before.mode == Mode::VimHighlight) {
            Some(command) => Editor::highlighted(before, after, command, effect),
            None => after == before && effect == (Effect {
                redraw: Redraw::Nothing,
                action: Action::Nothing,
                message: VimMessage::Nothing,
            }),
        }
    }

    /// Carries out one event of the highlight mode, on the cursor in use.
    /// Copy leaves the selected text in `copied` for the clipboard. When
    /// the mode is over, the mode it was entered from is back.
    pub fn highlight_event(&mut self, event: Event) -> (effect: Effect)
        requires
            old(self).wf(),
            old(self).mode == Mode::Highlight || old(self).mode == Mode::VimHighlight,
        ensures
            final(self).wf(),
            Editor::selected(*old(self), *final(self), event, effect),
    {
        if self.mode == Mode::VimHighlight {
            match parse_highlight_vim_mode(event) {
                Ok(command) => self.highlight_vim(command),
                Err(_) => Editor::quiet(),
            }
        } else {
            match parse_highlight_normal_mode(event) {
                Ok(command) => self.highlight_normal(command),
                Err(_) => Editor::quiet(),
            }
        }
    }

    fn leave_highlight(&mut self, vim: bool)
        ensures
            final(self).mode == if vim {
                Mode::Vim
            } else {
                Mode::Normal
            },
            final(self).view == old(self).view,
            final(self).vim == old(self).vim,
            final(self).highlight == old(self).highlight,
            final(self).search == old(self).search,
            final(self).should_quit == old(self).should_quit,
            final(self).copied == old(self).copied,
            Editor::prompts_kept(*old(self), *final(self)),
    {
        self.mode = if vim {
            Mode::Vim
        } else {
            Mode::Normal
        };
    }

    /// Whether an event of the modal mode ends the editor session: a colon
    /// command that is carried out and says so.
    pub open spec fn vim_quits(&self, event: Event) -> bool {
        &&& self.vim.pending == Pending::Colon
        &&& VimColonQueue::decoded(event) == VimColonQueue::Execute
        &&& all_actions(self.vim.queue@)
        &&& colon_outcome(
            actions_of(self.vim.queue@),
            self.view.buffer@.filename is Some,
            self.view.buffer@.is_saved,
        ).state == ContinueState::ExitSession
    }

    /// Whether an event of the modal mode asks for the buffer to be
    /// written: a colon command that is carried out and says so.
    pub open spec fn vim_saves(&self, event: Event) -> bool {
        &&& self.vim.pending == Pending::Colon
        &&& VimColonQueue::decoded(event) == VimColonQueue::Execute
        &&& all_actions(self.vim.queue@)
        &&& colon_outcome(
            actions_of(self.vim.queue@),
            self.view.buffer@.filename is Some,
            self.view.buffer@.is_saved,
        ).save
    }

    /// The mode after an event of the modal mode.
    pub open spec fn mode_after_vim(&self, event: Event) -> Mode {
        match self.vim.pending {
            Pending::Nothing => match VimModeCommands::decoded(event) {
                VimModeCommands::Highlight => Mode::VimHighlight,
                VimModeCommands::NoAction => Mode::VimHelp,
                VimModeCommands::Exit => Mode::Normal,
                _ => Mode::Vim,
            },
            Pending::Colon => Mode::Vim,
            _ => if completes(self.vim.pending, event) || event is Resize {
                Mode::Vim
            } else {
                Mode::VimHelp
            },
        }
    }

    /// What an event does in the modal mode, given what the mode itself
    /// made of it. The mode takes the event on its own cursor, view and
    /// size. Its requests enter the highlight mode or its help, hand its
    /// cursor, view and size back to the engine, or end the session; the
    /// buffer is to be written where it says so.
    pub open spec fn vim_carried(
        before: Editor,
        after: Editor,
        event: Event,
        effect: Effect,
        step: VimStep,
    ) -> bool {
        &&& vim_handled(before.vim, after.vim, event, before.view.buffer@, step)
        &&& after.mode == match step.request {
            VimRequest::Highlight => Mode::VimHighlight,
            VimRequest::Help => Mode::VimHelp,
            VimRequest::HandBack => Mode::Normal,
            _ => Mode::Vim,
        }
        &&& after.should_quit == (before.should_quit || step.request == VimRequest::Quit)
        &&& effect == (Effect {
            redraw: if step.needs_render || step.request == VimRequest::Help || step.request
                == VimRequest::HandBack {
                Redraw::Screen
            } else {
                Redraw::Cursor
            },
            action: if step.save {
                Action::Save
            } else if step.request == VimRequest::Paste {
                Action::Paste
            } else {
                Action::Nothing
            },
            message: step.message,
        })
        &&& after.view.buffer == before.view.buffer
        &&& after.view.needs_redraw == before.view.needs_redraw
        &&& after.search == before.search
        &&& after.copied == before.copied
        &&& Editor::prompts_kept(before, after)
        &&& if step.request == VimRequest::HandBack {
            &&& after.view.cursor_position == after.vim.cursor_position
            &&& after.view.screen_offset == after.vim.screen_offset
            &&& after.view.size == after.vim.size
        } else {
            after.view == before.view
        }
        &&& after.highlight == if step.request == VimRequest::Highlight {
            Highlight { anchor: after.vim.cursor_position, end: after.vim.cursor_position }
        } else {
            before.highlight
        }
    }

    /// What an event does in the modal mode.
    pub open spec fn vim_stepped(before: Editor, after: Editor, event: Event, effect: Effect) -> bool {
        &&& exists|step: VimStep| #[trigger] Editor::vim_carried(before, after, event, effect, step)
        &&& after.mode == before.mode_after_vim(event)
        &&& after.should_quit == (before.should_quit || before.vim_quits(event))
        &&& effect.action == if before.vim_saves(event) {
            Action::Save
        } else if before.vim.pending == Pending::Nothing && VimModeCommands::decoded(event)
            == VimModeCommands::Paste {
            Action::Paste
        } else {
            Action::Nothing
        }
    }

    /// Carries out one event of the modal mode. The mode moves its own
    /// cursor and view; they become the engine's when the mode is left.
    pub fn vim_event(&mut self, event: Event) -> (effect: Effect)
        requires
            old(self).wf(),
            old(self).mode == Mode::Vim,
        ensures
            final(self).wf(),
            Editor::vim_stepped(*old(self), *final(self), event, effect),
    {
        let step = self.vim.handle(event, &self.view.buffer);
        let mut action = if step.save {
            Action::Save
        } else {
            Action::Nothing
        };
        let mut redraw = if step.needs_render {
            Redraw::Screen
        } else {
            Redraw::Cursor
        };
        match step.request {
            VimRequest::Nothing => {},
            VimRequest::Paste => {
                action = Action::Paste;
            },
            VimRequest::Highlight => {
                self.highlight = Highlight::new(self.vim.cursor_position);
                self.mode = Mode::VimHighlight;
            },
            VimRequest::Help => {
                self.mode = Mode::VimHelp;
                redraw = Redraw::Screen;
            },
            VimRequest::HandBack => {
                self.vim.hand_back_state(
                    &mut self.view.cursor_position,
                    &mut self.view.screen_offset,
                    &mut self.view.size,
                );
                self.mode = Mode::Normal;
                redraw = Redraw::Screen;
            },
            VimRequest::Quit => {
                self.should_quit = true;
            },
        }
        let effect = Effect { redraw, action, message: step.message };
        assert(Editor::vim_carried(*old(self), *self, event, effect, step));
        effect
    }

    /// Pastes the text the front end read from the clipboard, at the
    /// cursor in use. Outside the default and the modal mode nothing is
    /// pasted.
    pub fn paste(&mut self, paste_text: &str) -> (redraw: Redraw)
        requires
            old(self).wf(),
        ensures
            final(self).wf(),
            final(self).mode == old(self).mode,
            final(self).should_quit == old(self).should_quit,
            if old(self).mode == Mode::Normal || old(self).mode == Mode::Vim {
                &&& (final(self).view.buffer@.lines, final(self).cursor()) == after_paste(
                    old(self).view.buffer@.lines,
                    old(self).cursor(),
                    lines_of(paste_text@),
                )
                &&& final(self).view.buffer@.filename == old(self).view.buffer@.filename
                &&& final(self).view.buffer@.is_saved == (old(self).view.buffer@.is_saved
                    && lines_of(paste_text@).len() == 0)
            } else {
                final(self).view == old(self).view && redraw == Redraw::Nothing
            },
            old(self).mode == Mode::Normal ==> final(self).view.screen_offset
                == crate::view::offset_after_check(
                final(self).view.cursor_position,
                old(self).view.screen_offset,
                old(self).view.size,
                final(self).view.buffer@.lines.len() as int,
            ) && redraw == if lines_of(paste_text@).len() == 0 && crate::coordinate::displacement(
                final(self).view.cursor_position,
                old(self).view.screen_offset,
                old(self).view.size,
                RESERVED_ROWS,
            ) == 0 {
                Redraw::Nothing
            } else {
                Redraw::Screen
            },
            old(self).mode == Mode::Vim ==> final(self).vim.screen_offset
                == crate::coordinate::offset_after_follow(
                final(self).vim.cursor_position,
                old(self).vim.screen_offset,
                old(self).vim.size,
                RESERVED_ROWS,
                final(self).view.buffer@.lines.len() as int,
            ) && final(self).view.cursor_position == final(self).vim.cursor_position && redraw
                == Redraw::Screen,
            final(self).size() == old(self).size(),
            final(self).view.needs_redraw == old(self).view.needs_redraw,
            final(self).search == old(self).search,
            final(self).highlight == old(self).highlight,
            final(self).copied == old(self).copied,
            Editor::prompts_kept(*old(self), *final(self)),
            if old(self).mode == Mode::Vim {
                &&& final(self).view.screen_offset == old(self).view.screen_offset
                &&& final(self).view.size == old(self).view.size
                &&& final(self).vim.pending == old(self).vim.pending
                &&& final(self).vim.queue == old(self).vim.queue
            } else {
                final(self).vim == old(self).vim
            },
    {
        match self.mode {
            Mode::Normal => self.view.paste(paste_text),
            Mode::Vim => {
                self.vim.add_to_clipboard(paste_text, &mut self.view.buffer);
                self.view.cursor_position = self.vim.cursor_position;
                Redraw::Screen
            },
            _ => Redraw::Nothing,
        }
    }

    /// The mode after an event.
    pub open spec fn next_mode(&self, event: Event) -> Mode {
        if !event.is_actionable() {
            self.mode
        } else {
            match self.mode {
                Mode::Normal => match EditorCommand::decoded(event) {
                    None => Mode::Normal,
                    Some(EditorCommand::Quit) => if !self.view.buffer@.is_saved
                        && self.view.buffer@.lines.len() > 0 {
                        Mode::ConfirmQuit
                    } else {
                        Mode::Normal
                    },
                    Some(command) => Editor::mode_for(
                        request_of(command),
                        self.view.buffer@.filename is Some,
                    ),
                },
                Mode::ConfirmQuit => if is_control_key(event, 'n') && !is_control_key(event, 'y')
                    && self.view.buffer@.filename is None {
                    Mode::FileName
                } else if is_control_key(event, 'n') || is_control_key(event, 'y') {
                    Mode::Normal
                } else {
                    Mode::ConfirmQuit
                },
                Mode::FileName => match FileNameCommand::decoded(event) {
                    FileNameCommand::SaveFileName | FileNameCommand::Quit => Mode::Normal,
                    _ => Mode::FileName,
                },
                Mode::JumpLine => match JumpCommand::decoded(event) {
                    JumpCommand::Move | JumpCommand::Exit => Mode::Normal,
                    _ => Mode::JumpLine,
                },
                Mode::Help => if HelpCommand::decoded(event) == HelpCommand::Exit {
                    Mode::Normal
                } else {
                    Mode::Help
                },
                Mode::VimHelp => if HelpCommand::decoded(event) == HelpCommand::Exit {
                    Mode::Vim
                } else {
                    Mode::VimHelp
                },
                Mode::Search => match SearchCommand::decoded(event) {
                    Some(SearchCommand::AssumeState) | Some(SearchCommand::RevertState) => {
                        Mode::Normal
                    },
                    _ => Mode::Search,
                },
                Mode::Highlight => match HighlightCommand::decoded(event, false) {
                    Some(command) => if Editor::ends_highlight(command) {
                        Mode::Normal
                    } else {
                        Mode::Highlight
                    },
                    None => Mode::Highlight,
                },
                Mode::VimHighlight => match HighlightCommand::decoded(event, true) {
                    Some(command) => if Editor::ends_highlight(command) {
                        Mode::Vim
                    } else {
                        Mode::VimHighlight
                    },
                    None => Mode::VimHighlight,
                },
                Mode::Vim => self.mode_after_vim(event),
            }
        }
    }

    /// Whether an event ends the session.
    pub open spec fn quits(&self, event: Event) -> bool {
        event.is_actionable() && match self.mode {
            Mode::Normal => EditorCommand::decoded(event) == Some(EditorCommand::Quit) && (
            self.view.buffer@.is_saved || self.view.buffer@.lines.len() == 0),
            Mode::ConfirmQuit => is_control_key(event, 'y') || (is_control_key(event, 'n')
                && self.view.buffer@.filename is Some),
            Mode::FileName => self.quit_after_name && (FileNameCommand::decoded(event)
                == FileNameCommand::SaveFileName || FileNameCommand::decoded(event)
                == FileNameCommand::Quit),
            Mode::Vim => self.vim_quits(event),
            _ => false,
        }
    }

    /// What an event does. Events that are neither key presses nor resizes,
    /// and events the default mode cannot decode, change nothing. Every
    /// other event does what the mode the editor is in makes of it.
    pub open spec fn handled(before: Editor, after: Editor, event: Event, effect: Effect) -> bool {
        let nothing = Effect {
            redraw: Redraw::Nothing,
            action: Action::Nothing,
            message: VimMessage::Nothing,
        };
        if !event.is_actionable() {
            after == before && effect == nothing
        } else {
            match before.mode {
                Mode::Normal => match EditorCommand::decoded(event) {
                    None => after == before && effect == nothing,
                    Some(EditorCommand::Quit) => Editor::quit_asked(before, after, effect),
                    Some(command) => Editor::commanded(before, after, command, effect),
                },
                Mode::ConfirmQuit => Editor::quit_answered(before, after, event, effect),
                Mode::FileName => Editor::name_typed(before, after, event, effect),
                Mode::JumpLine => Editor::jump_typed(before, after, event, effect),
                Mode::Help | Mode::VimHelp => Editor::help_shown(before, after, event, effect),
                Mode::Search => Editor::searched(before, after, event, effect),
                Mode::Highlight | Mode::VimHighlight => Editor::selected(
                    before,
                    after,
                    event,
                    effect,
                ),
                Mode::Vim => Editor::vim_stepped(before, after, event, effect),
            }
        }
    }

    /// Takes one input event. Events that are neither key presses nor
    /// resizes change nothing. Every other event goes to the handler of
    /// the mode the editor is in.
    ///
    /// Whatever the event, the cursor in use stays a place in the buffer
    /// and within the text area of the view in use. The buffer is asked
    /// to be written only where it has a file name. Leaving a buffer that
    /// is neither saved nor empty is not done at once: the editor asks,
    /// and until it is answered the buffer is neither written nor changed.
    pub fn evaluate_event(&mut self, event: Event) -> (effect: Effect)
        requires
            old(self).wf(),
        ensures
            final(self).wf(),
            Editor::handled(*old(self), *final(self), event, effect),
            final(self).mode == old(self).next_mode(event),
            final(self).should_quit == (old(self).should_quit || old(self).quits(event)),
            effect.action == Action::Save ==> final(self).view.buffer@.filename is Some,
            final(self).mode == Mode::ConfirmQuit ==> effect.action == Action::Nothing && final(self).view.buffer == old(self).view.buffer && final(self).should_quit == old(
                self,
            ).should_quit,
    {
        if !event.should_process() {
            return Editor::quiet();
        }
        match self.mode {
            Mode::Normal => {
                match EditorCommand::try_from(event) {
                    Ok(command) => {
                        if command == EditorCommand::Quit {
                            self.request_quit()
                        } else {
                            self.normal_command(command)
                        }
                    },
                    Err(_) => Editor::quiet(),
                }
            },
            Mode::ConfirmQuit => self.exit_without_saving(event),
            Mode::FileName => self.file_name_event(event),
            Mode::JumpLine => self.jump_event(event),
            Mode::Help | Mode::VimHelp => self.help_event(event),
            Mode::Search => self.search_event(event),
            Mode::Highlight | Mode::VimHighlight => self.highlight_event(event),
            Mode::Vim => self.vim_event(event),
        }
    }
}

} // verus!
