//! The state of one interactive session and its reaction to keys.

use crate::config::Config;
use crate::error::{ConfigError, DecodeError, ExportError, ExportErrorView};
use crate::export::{
    export_name_of, export_of, plan_export, plan_of, resolve_export_name, ExportPlan,
    ExportPlanView,
};
use crate::input::{
    command_for, command_of, digit_position, is_position_digit, Command, KeyCode, KeyEvent,
    KeyKind,
};
use crate::magnet::{magnet_prefix, MagnetDescriptor, MagnetView};
use crate::render::{info_decodes, render, screen_of, stops_info, Screen};
pub use crate::selection::Instance;
use crate::selection::{
    cursor_after_index, cursor_after_next, cursor_after_previous, cursor_valid, SelectionModel,
};
use crate::style::StyleConfig;
use vstd::prelude::*;

verus! {

/// The session: the destinations with their highlight, the link, the name
/// to export it under, whether the user asked to leave, and what went wrong
/// with the last export.
pub struct App {
    should_exit: bool,
    selection: SelectionModel,
    magnet: MagnetDescriptor,
    export_name: String,
    status: Option<ExportError>,
}

/// What an [`App`] holds, as mathematical values.
pub struct AppView {
    pub should_exit: bool,
    pub entries: Seq<Instance>,
    pub cursor: Option<usize>,
    pub magnet: MagnetView,
    pub export_name: Seq<char>,
    pub status: Option<ExportErrorView>,
}

impl AppView {
    /// The cursor, if set, points at one of the destinations.
    pub open spec fn valid(self) -> bool {
        cursor_valid(self.cursor, self.entries.len())
    }
}

/// The session as it starts: nothing highlighted, nothing wrong, not
/// leaving.
pub open spec fn initial(
    entries: Seq<Instance>,
    magnet: MagnetView,
    export_name: Seq<char>,
) -> AppView {
    AppView {
        should_exit: false,
        entries,
        cursor: None,
        magnet,
        export_name,
        status: None,
    }
}

/// The session after a command. Quitting raises the exit flag; moving and
/// picking change the cursor; confirming with nothing highlighted records
/// that as the last failure; everything else leaves the session as it is.
pub open spec fn after_command(state: AppView, command: Command) -> AppView {
    match command {
        Command::Quit => AppView { should_exit: true, ..state },
        Command::SelectNext => AppView {
            cursor: cursor_after_next(state.cursor, state.entries.len()),
            ..state
        },
        Command::SelectPrevious => AppView {
            cursor: cursor_after_previous(state.cursor, state.entries.len()),
            ..state
        },
        Command::SelectIndex(index) => AppView {
            cursor: cursor_after_index(state.cursor, state.entries.len(), index),
            ..state
        },
        Command::Confirm => match state.cursor {
            Some(_) => state,
            None => AppView { status: Some(ExportErrorView::NoSelection), ..state },
        },
        Command::Ignore => state,
    }
}

/// The file that a command asks the caller to write: the export, for a
/// confirmation with a destination highlighted; none otherwise.
pub open spec fn write_for(state: AppView, command: Command) -> Option<ExportPlanView> {
    if command == Command::Confirm {
        export_of(state.entries, state.cursor, state.magnet, state.export_name)
    } else {
        None
    }
}

/// The session after the caller reports how a write went: a success clears
/// the last failure, a failure becomes it.
pub open spec fn after_write(state: AppView, outcome: Result<(), Seq<char>>) -> AppView {
    AppView {
        status: match outcome {
            Ok(_) => None,
            Err(reason) => Some(ExportErrorView::IoError(reason)),
        },
        ..state
    }
}

impl View for App {
    type V = AppView;

    closed spec fn view(&self) -> AppView {
        AppView {
            should_exit: self.should_exit,
            entries: self.selection.entries(),
            cursor: self.selection.cursor(),
            magnet: self.magnet@,
            export_name: self.export_name@,
            status: self.status.deep_view(),
        }
    }
}

impl App {
    /// Starts a session over the configured destinations. The export name
    /// is settled here, once: `output_name` if given, else the link's
    /// decoded display name. One of the two has to be there.
    pub fn new(
        cfg: Config,
        magnet: MagnetDescriptor,
        output_name: Option<String>,
    ) -> (app: Self)
        requires
            export_name_of(output_name.deep_view(), magnet@) is Some,
        ensures
            app@ == initial(
                cfg.instance@,
                magnet@,
                export_name_of(output_name.deep_view(), magnet@).unwrap(),
            ),
            app@.valid(),
    {
        let export_name = match resolve_export_name(&output_name, &magnet) {
            Ok(name) => name,
            Err(_) => {
                proof {
                    assert(false);
                }
                unreached()
            },
        };
        App {
            should_exit: false,
            selection: SelectionModel::new(cfg.instance),
            magnet,
            export_name,
            status: None,
        }
    }

    /// Starts a session if an export name can be settled, and says why not
    /// otherwise: no output name and no display name, or a display name that
    /// does not decode.
    pub fn try_new(
        cfg: Config,
        magnet: MagnetDescriptor,
        output_name: Option<String>,
    ) -> (outcome: Result<Self, ConfigError>)
        ensures
            match outcome {
                Ok(app) => {
                    &&& export_name_of(output_name.deep_view(), magnet@) is Some
                    &&& app@ == initial(
                        cfg.instance@,
                        magnet@,
                        export_name_of(output_name.deep_view(), magnet@).unwrap(),
                    )
                    &&& app@.valid()
                },
                Err(error) => {
                    &&& export_name_of(output_name.deep_view(), magnet@) is None
                    &&& error == ConfigError::MissingName <==> magnet@.display_name is None
                },
            },
            output_name is Some ==> outcome is Ok,
    {
        match resolve_export_name(&output_name, &magnet) {
            Ok(_) => Ok(App::new(cfg, magnet, output_name)),
            Err(error) => Err(error),
        }
    }

    /// Whether the user asked to leave.
    pub fn should_exit(&self) -> (leaving: bool)
        ensures
            leaving == self@.should_exit,
    {
        self.should_exit
    }

    /// The destinations and their highlight.
    pub fn selection(&self) -> (model: &SelectionModel)
        ensures
            model.entries() == self@.entries,
            model.cursor() == self@.cursor,
    {
        &self.selection
    }

    /// The highlighted index, always within the list.
    pub fn selected(&self) -> (cursor: Option<usize>)
        ensures
            cursor == self@.cursor,
            self@.valid(),
    {
        self.selection.selected()
    }

    /// The link.
    pub fn magnet(&self) -> (magnet: &MagnetDescriptor)
        ensures
            magnet@ == self@.magnet,
    {
        &self.magnet
    }

    /// The name the link is exported under.
    pub fn export_name(&self) -> (name: &String)
        ensures
            name@ == self@.export_name,
    {
        &self.export_name
    }

    /// What went wrong with the last export, if anything did.
    pub fn status(&self) -> (status: &Option<ExportError>)
        ensures
            status.deep_view() == self@.status,
    {
        &self.status
    }

    /// Plans the export into the highlighted destination; `NoSelection` if
    /// there is none. Nothing is written and the session does not change.
    pub fn export(&self) -> (outcome: Result<ExportPlan, ExportError>)
        ensures
            match outcome {
                Ok(plan) => {
                    &&& write_for(self@, Command::Confirm) == Some(plan.deep_view())
                    &&& plan.contents@.len() >= magnet_prefix().len()
                    &&& plan.contents@.subrange(0, magnet_prefix().len() as int)
                        == magnet_prefix()
                },
                Err(error) => self@.cursor is None && error.deep_view()
                    == ExportErrorView::NoSelection,
            },
            self@.cursor is None <==> outcome is Err,
    {
        plan_export(&self.selection, &self.magnet, self.export_name.as_str())
    }

    /// Carries out a command and says which file, if any, the caller has to
    /// write now.
    pub fn apply(&mut self, command: Command) -> (write: Option<ExportPlan>)
        ensures
            final(self)@ == after_command(old(self)@, command),
            final(self)@.valid(),
            write.deep_view() == write_for(old(self)@, command),
    {
        let _ = self.selected();
        match command {
            Command::Quit => {
                self.should_exit = true;
                None
            },
            Command::SelectNext => {
                self.selection.select_next();
                None
            },
            Command::SelectPrevious => {
                self.selection.select_previous();
                None
            },
            Command::SelectIndex(index) => {
                self.selection.select_index(index);
                None
            },
            Command::Confirm => match self.export() {
                Ok(plan) => Some(plan),
                Err(error) => {
                    self.status = Some(error);
                    None
                },
            },
            Command::Ignore => None,
        }
    }

    /// Reacts to one key event: works out the command it stands for and
    /// carries it out. Returns the file to write if the key confirmed an
    /// export with a destination highlighted.
    pub fn handle_key(&mut self, key: KeyEvent) -> (write: Option<ExportPlan>)
        ensures
            final(self)@ == after_command(old(self)@, command_of(key)),
            final(self)@.valid(),
            write.deep_view() == write_for(old(self)@, command_of(key)),
    {
        self.apply(command_for(key))
    }

    /// Takes note of how the write that a key asked for went.
    pub fn record_write(&mut self, outcome: Result<(), String>)
        ensures
            final(self)@ == after_write(
                old(self)@,
                match outcome {
                    Ok(_) => Ok(()),
                    Err(reason) => Err(reason@),
                },
            ),
            final(self)@.valid(),
    {
        let _ = self.selected();
        self.status = match outcome {
            Ok(_) => None,
            Err(reason) => Some(ExportError::IoError(reason)),
        };
    }

    /// Lays out the frame for the session as it stands.
    pub fn render(&self, style: &StyleConfig) -> (outcome: Result<Screen, DecodeError>)
        ensures
            match outcome {
                Ok(screen) => info_decodes(self@.magnet) && screen.deep_view() == screen_of(
                    self@.entries,
                    self@.cursor,
                    self@.magnet,
                    self@.status,
                    style.deep_view(),
                ),
                Err(error) => stops_info(self@.magnet, error),
            },
    {
        render(&self.selection, &self.magnet, &self.status, style)
    }
}

/// No command moves the cursor out of the list.
pub proof fn lemma_commands_keep_cursor_in_list(state: AppView, command: Command)
    requires
        state.valid(),
        state.entries.len() <= usize::MAX,
    ensures
        after_command(state, command).valid(),
        after_command(state, command).entries == state.entries,
        after_command(state, command).magnet == state.magnet,
        after_command(state, command).export_name == state.export_name,
{
}

/// Only presses are acted on: a repeat or a release of any key changes
/// nothing and asks for no write.
pub proof fn lemma_only_presses_count(state: AppView, key: KeyEvent)
    requires
        key.kind != KeyKind::Press,
    ensures
        after_command(state, command_of(key)) == state,
        write_for(state, command_of(key)) is None,
{
}

/// Confirming with nothing highlighted asks for no write: it records
/// `NoSelection` as the last failure and changes nothing else.
pub proof fn lemma_confirm_without_selection(state: AppView)
    requires
        state.cursor is None,
    ensures
        write_for(state, Command::Confirm) is None,
        after_command(state, Command::Confirm) == (AppView {
            status: Some(ExportErrorView::NoSelection),
            ..state
        }),
{
}

/// Confirming with a destination highlighted asks for one write, into that
/// destination, and leaves the session as it was. So a second confirmation
/// right after the first, whatever became of the first write, asks for the
/// same file with the same contents.
pub proof fn lemma_confirm_is_repeatable(state: AppView, outcome: Result<(), Seq<char>>)
    requires
        state.valid(),
        state.cursor is Some,
    ensures
        write_for(state, Command::Confirm) == Some(
            plan_of(state.entries[state.cursor.unwrap() as int], state.magnet, state.export_name),
        ),
        after_command(state, Command::Confirm) == state,
        write_for(after_command(state, Command::Confirm), Command::Confirm) == write_for(
            state,
            Command::Confirm,
        ),
        write_for(
            after_write(after_command(state, Command::Confirm), outcome),
            Command::Confirm,
        ) == write_for(state, Command::Confirm),
{
}

/// A digit that stands for a position beyond the end of the list changes
/// nothing: the cursor stays, no failure is recorded, no write is asked for.
pub proof fn lemma_digit_beyond_list_is_ignored(state: AppView, digit: char)
    requires
        is_position_digit(digit),
        digit_position(digit) >= state.entries.len(),
    ensures
        after_command(
            state,
            command_of(KeyEvent { code: KeyCode::Char(digit), kind: KeyKind::Press }),
        ) == state,
        write_for(
            state,
            command_of(KeyEvent { code: KeyCode::Char(digit), kind: KeyKind::Press }),
        ) is None,
{
}

/// Only quitting raises the exit flag, and nothing lowers it.
pub proof fn lemma_exit_only_on_quit(state: AppView, command: Command)
    ensures
        after_command(state, command).should_exit == (state.should_exit || command
            == Command::Quit),
{
}

} // verus!
