//! The session: the navigation state machine over sections, focus, the
//! content pane and the record store.
//!
//! The session never touches a file or the screen. Where a transition
//! calls for outside work, it returns an [`Action`]; the caller does the
//! work and hands the outcome of an export or of persisting back.

use crate::data::manager::{DataManager, DataManagerView};
use crate::tui::components::content_pane::{
    count_entries, entry_count, export_pending_status, lemma_slot_after, slot_after,
    ContentPane, ContentPaneView,
};
use crate::tui::menu::lemma_advance_cycles;
use crate::tui::components::content_view::content_border;
use crate::tui::components::sidebar::{sidebar_border, sidebar_lines, sidebar_title, Sidebar};
use crate::tui::style::{line_views, LineStyle, LineView, StyledLine};
use vstd::prelude::*;
use vstd::string::StringExecFns;

pub use crate::tui::menu::{Focus, MenuItem};

verus! {

/// Outside work that a transition asks its caller to do.
#[derive(Debug)]
pub enum Action {
    /// Nothing to do.
    Nothing,
    /// Export the record, then report the outcome with
    /// [`AppState::finish_export`].
    Export,
    /// Write the record to durable storage, then report the outcome with
    /// [`AppState::finish_persist`].
    Persist,
    /// Show the message to the user: a commit was refused by the store, or
    /// the record could not be persisted.
    Report(String),
}

/// What an [`Action`] holds.
pub enum ActionView {
    Nothing,
    Export,
    Persist,
    Report(Seq<char>),
}

impl View for Action {
    type V = ActionView;

    open spec fn view(&self) -> ActionView {
        match self {
            Action::Nothing => ActionView::Nothing,
            Action::Export => ActionView::Export,
            Action::Persist => ActionView::Persist,
            Action::Report(message) => ActionView::Report(message@),
        }
    }
}

/// The share of the width of the screen that the sidebar takes, in percent.
pub const SIDEBAR_PERCENT: u16 = 25;

/// The share of the width of the screen that the content pane takes, in
/// percent.
pub const CONTENT_PERCENT: u16 = 75;

/// One frame: the sidebar on the left and the content pane on the right,
/// each a titled box of lines.
#[derive(Debug)]
pub struct Screen {
    pub sidebar_title: String,
    pub sidebar: Vec<StyledLine>,
    pub sidebar_border: LineStyle,
    pub content_title: String,
    pub content: Vec<StyledLine>,
    pub content_border: LineStyle,
}

/// What a [`Screen`] holds.
pub struct ScreenView {
    pub sidebar_title: Seq<char>,
    pub sidebar: Seq<LineView>,
    pub sidebar_border: LineStyle,
    pub content_title: Seq<char>,
    pub content: Seq<LineView>,
    pub content_border: LineStyle,
}

impl View for Screen {
    type V = ScreenView;

    open spec fn view(&self) -> ScreenView {
        ScreenView {
            sidebar_title: self.sidebar_title@,
            sidebar: line_views(self.sidebar@),
            sidebar_border: self.sidebar_border,
            content_title: self.content_title@,
            content: line_views(self.content@),
            content_border: self.content_border,
        }
    }
}

/// The session.
#[derive(Debug)]
pub struct AppState {
    pub current_menu: MenuItem,
    pub focus: Focus,
    pub sidebar: Sidebar,
    pub content_pane: ContentPane,
    pub data_manager: DataManager,
    pub should_exit: bool,
}

/// What an [`AppState`] holds.
pub struct AppView {
    /// The active section.
    pub current_menu: MenuItem,
    /// The region that receives input.
    pub focus: Focus,
    /// The sections listed in the sidebar.
    pub sidebar: Seq<MenuItem>,
    /// The content pane.
    pub pane: ContentPaneView,
    /// The record store.
    pub data: DataManagerView,
    /// Whether the session is over.
    pub should_exit: bool,
}

impl View for AppState {
    type V = AppView;

    open spec fn view(&self) -> AppView {
        AppView {
            current_menu: self.current_menu,
            focus: self.focus,
            sidebar: self.sidebar@,
            pane: self.content_pane@,
            data: self.data_manager@,
            should_exit: self.should_exit,
        }
    }
}

/// The message reported when the store refuses a commit with `error`.
pub open spec fn commit_failure_message(error: Seq<char>) -> Seq<char> {
    "Error saving data: "@ + error
}

/// The message reported when persisting the record failed with `error`.
pub open spec fn persist_failure_message(error: Seq<char>) -> Seq<char> {
    "Error saving to file: "@ + error
}

/// The outside work that the outcome of persisting asks for: nothing after
/// a success, and after a failure showing its message.
pub open spec fn persist_outcome_action(outcome: Result<(), String>) -> ActionView {
    match outcome {
        Ok(_) => ActionView::Nothing,
        Err(error) => ActionView::Report(persist_failure_message(error@)),
    }
}

/// The export status shown when an export failed with `error`.
pub open spec fn export_failure_message(error: Seq<char>) -> Seq<char> {
    "Export failed: "@ + error
}

/// The export status for an outcome: the message of a success, or the
/// failure message of an error.
pub open spec fn export_outcome_text(outcome: Result<String, String>) -> Seq<char> {
    match outcome {
        Ok(message) => message@,
        Err(error) => export_failure_message(error@),
    }
}

impl AppView {
    /// The invariant of the session: that of its content pane.
    pub open spec fn wf(self) -> bool {
        self.pane.wf()
    }

    /// Whether a list entry is selected that exists in the store.
    pub open spec fn selects_existing(self) -> bool {
        self.pane.selected_entry is Some && self.pane.selected_entry->0 < entry_count(
            self.data,
            self.current_menu,
        )
    }

    /// The session after "move next". In the sidebar the next section
    /// becomes active, the first following the last. In the content pane an
    /// open buffer moves to its next field, and otherwise the selection
    /// moves to the next slot of the list.
    pub open spec fn next_menu(self) -> AppView {
        if self.focus == Focus::Sidebar {
            AppView { current_menu: self.current_menu.next(), ..self }
        } else if self.pane.is_editing {
            AppView { pane: self.pane.next_field(), ..self }
        } else {
            AppView { pane: self.pane.next_entry(self.data, self.current_menu), ..self }
        }
    }

    /// The session after "move next" was given `k` times.
    pub open spec fn next_menu_times(self, k: nat) -> AppView
        decreases k,
    {
        if k == 0 {
            self
        } else {
            self.next_menu_times((k - 1) as nat).next_menu()
        }
    }

    /// The session after "move previous", the mirror image of
    /// [`AppView::next_menu`].
    pub open spec fn previous_menu(self) -> AppView {
        if self.focus == Focus::Sidebar {
            AppView { current_menu: self.current_menu.previous(), ..self }
        } else if self.pane.is_editing {
            AppView { pane: self.pane.previous_field(), ..self }
        } else {
            AppView { pane: self.pane.previous_entry(self.data, self.current_menu), ..self }
        }
    }

    /// The session after the focus moved into the content pane: the first
    /// entry of the active section is selected if there is one.
    pub open spec fn enter_section(self) -> AppView {
        AppView {
            focus: Focus::Content,
            pane: self.pane.select_first_entry(self.data, self.current_menu),
            ..self
        }
    }

    /// The session after "activate".
    ///
    /// In the sidebar: on Exit the session ends; on Export an export is
    /// asked for and the focus stays; on any other section the focus moves
    /// into the content pane.
    ///
    /// In the content pane with an open buffer: on the last field the
    /// buffer is committed into the store and closed, otherwise the next
    /// field becomes current.
    ///
    /// In the content pane without an open buffer: on a list-bearing
    /// section a buffer is opened, on the selected entry if it exists and
    /// for a new entry otherwise; on any other section nothing changes.
    pub open spec fn select_current_menu(self) -> AppView {
        if self.focus == Focus::Sidebar {
            match self.current_menu {
                MenuItem::Exit => AppView { should_exit: true, ..self },
                MenuItem::Export => AppView {
                    pane: ContentPaneView {
                        export_status: Some(export_pending_status()),
                        ..self.pane
                    },
                    ..self
                },
                _ => self.enter_section(),
            }
        } else if self.pane.is_editing {
            if self.pane.on_last_field() {
                AppView {
                    data: self.pane.committed(self.data),
                    pane: self.pane.close_edit(),
                    ..self
                }
            } else {
                AppView { pane: self.pane.next_field(), ..self }
            }
        } else if self.current_menu.is_list() {
            if self.selects_existing() {
                AppView {
                    pane: self.pane.enter_entry_edit_mode(
                        self.current_menu,
                        self.pane.selected_entry->0 as usize,
                        self.data,
                    ),
                    ..self
                }
            } else {
                AppView {
                    pane: (ContentPaneView {
                        parent_menu: Some(self.current_menu),
                        ..self.pane
                    }).enter_edit_mode(self.current_menu),
                    ..self
                }
            }
        } else {
            self
        }
    }

    /// The outside work that "activate" asks for: an export on the Export
    /// section, unless a buffer is open in the content pane; after a
    /// commit, persisting the record, or reporting the error if the store
    /// refused the commit; nothing otherwise.
    pub open spec fn select_action(self) -> ActionView {
        if self.focus == Focus::Sidebar {
            if self.current_menu == MenuItem::Export {
                ActionView::Export
            } else {
                ActionView::Nothing
            }
        } else if self.pane.is_editing {
            if self.pane.on_last_field() {
                match self.pane.commit_error(self.data) {
                    Some(error) => ActionView::Report(commit_failure_message(error)),
                    None => ActionView::Persist,
                }
            } else {
                ActionView::Nothing
            }
        } else if self.current_menu == MenuItem::Export {
            ActionView::Export
        } else {
            ActionView::Nothing
        }
    }

    /// The session with an open buffer abandoned, before it is decided
    /// where to go from there.
    pub open spec fn abandon(self) -> AppView {
        AppView { pane: self.pane.close_edit(), ..self }
    }

    /// The session after "cancel". In the sidebar nothing changes. In the
    /// content pane without an open buffer the focus returns to the
    /// sidebar. An open buffer is abandoned without a commit; the session
    /// then returns to the recorded parent section, or, if none was
    /// recorded, goes on as if "activate" had been given.
    pub open spec fn cancel(self) -> AppView {
        if self.focus == Focus::Sidebar {
            self
        } else if self.pane.is_editing {
            match self.pane.parent_menu {
                Some(parent) => AppView { current_menu: parent, ..self.abandon() },
                None => self.abandon().select_current_menu(),
            }
        } else {
            AppView { focus: Focus::Sidebar, ..self }
        }
    }

    /// The outside work that "cancel" asks for: none, unless it goes on as
    /// "activate" does.
    pub open spec fn cancel_action(self) -> ActionView {
        if self.focus == Focus::Content && self.pane.is_editing && self.pane.parent_menu is None {
            self.abandon().select_action()
        } else {
            ActionView::Nothing
        }
    }

    /// The session after the focus moved to the other region. A move into
    /// the content pane is never a move of the focus alone: it enters the
    /// active section as "activate" in the sidebar does, so the first entry
    /// of its list is selected if there is one and nothing is selected
    /// otherwise. A move back to the sidebar changes the focus only.
    pub open spec fn switch_focus(self) -> AppView {
        match self.focus {
            Focus::Sidebar => self.enter_section(),
            Focus::Content => AppView { focus: Focus::Sidebar, ..self },
        }
    }

    /// The session after a character was typed with the focus in the
    /// content pane; in the sidebar nothing changes.
    pub open spec fn handle_text_input(self, c: char) -> AppView {
        if self.focus == Focus::Content {
            AppView { pane: self.pane.handle_text_input(c), ..self }
        } else {
            self
        }
    }

    /// The session after backspace with the focus in the content pane; in
    /// the sidebar nothing changes.
    pub open spec fn handle_backspace(self) -> AppView {
        if self.focus == Focus::Content {
            AppView { pane: self.pane.handle_backspace(), ..self }
        } else {
            self
        }
    }

    /// The session after section number `num` was given: in the sidebar
    /// the numbers 1 to 7 make their section active; any other number, and
    /// any number given in the content pane, is ignored.
    pub open spec fn handle_number_input(self, num: u8) -> AppView {
        if self.focus == Focus::Sidebar {
            match MenuItem::of_number(num as int) {
                Some(item) => AppView { current_menu: item, ..self },
                None => self,
            }
        } else {
            self
        }
    }

    /// The frame that shows the session: the sidebar with the active
    /// section marked, and the content pane under the title of the active
    /// section.
    pub open spec fn screen(self) -> ScreenView {
        ScreenView {
            sidebar_title: sidebar_title(),
            sidebar: sidebar_lines(self.sidebar, self.current_menu, self.focus),
            sidebar_border: sidebar_border(self.focus),
            content_title: self.current_menu.title_text(),
            content: self.pane.lines(self.current_menu, self.focus, self.data),
            content_border: content_border(self.focus),
        }
    }

    /// The session with the outcome of an export recorded as the export
    /// status.
    pub open spec fn finish_export(self, status: Seq<char>) -> AppView {
        AppView { pane: ContentPaneView { export_status: Some(status), ..self.pane }, ..self }
    }
}

impl AppState {
    /// Whether the invariant of the session holds.
    pub open spec fn wf(&self) -> bool {
        self@.wf()
    }

    /// A session on the record held by `data_manager`: the first section is
    /// active, the focus is in the sidebar, nothing is selected and no
    /// buffer is open.
    pub fn new(data_manager: DataManager) -> (app: AppState)
        ensures
            app.wf(),
            app@ == (AppView {
                current_menu: MenuItem::PersonalInfo,
                focus: Focus::Sidebar,
                sidebar: crate::tui::menu::sections(),
                pane: ContentPaneView::initial(),
                data: data_manager@,
                should_exit: false,
            }),
    {
        AppState {
            current_menu: MenuItem::PersonalInfo,
            focus: Focus::Sidebar,
            sidebar: Sidebar::new(),
            content_pane: ContentPane::new(),
            data_manager,
            should_exit: false,
        }
    }

    /// Whether the invariant of the session holds.
    pub fn is_well_formed(&self) -> (b: bool)
        ensures
            b == self.wf(),
    {
        self.content_pane.is_well_formed()
    }

    /// The frame that shows the session as it is now.
    pub fn render(&self) -> (screen: Screen)
        ensures
            screen@ == self@.screen(),
    {
        Screen {
            sidebar_title: String::from_str(self.sidebar.title()),
            sidebar: self.sidebar.render(&self.current_menu, &self.focus),
            sidebar_border: self.sidebar.border_style(&self.focus),
            content_title: String::from_str(self.current_menu.title()),
            content: self.content_pane.render(&self.current_menu, &self.focus, &self.data_manager),
            content_border: self.content_pane.border_style(&self.focus),
        }
    }

    /// Handles "move next".
    pub fn next_menu(&mut self)
        requires
            old(self).wf(),
        ensures
            final(self).wf(),
            final(self)@ == old(self)@.next_menu(),
    {
        if self.focus == Focus::Sidebar {
            self.current_menu = self.current_menu.following();
        } else if self.content_pane.is_editing() {
            self.content_pane.next_field();
        } else {
            let menu = self.current_menu;
            self.content_pane.next_entry(&self.data_manager, &menu);
        }
    }

    /// Handles "move previous".
    pub fn previous_menu(&mut self)
        requires
            old(self).wf(),
        ensures
            final(self).wf(),
            final(self)@ == old(self)@.previous_menu(),
    {
        if self.focus == Focus::Sidebar {
            self.current_menu = self.current_menu.preceding();
        } else if self.content_pane.is_editing() {
            self.content_pane.previous_field();
        } else {
            let menu = self.current_menu;
            self.content_pane.previous_entry(&self.data_manager, &menu);
        }
    }

    /// Handles "activate" and says what outside work it asks for.
    pub fn select_current_menu(&mut self) -> (action: Action)
        requires
            old(self).wf(),
        ensures
            final(self).wf(),
            final(self)@ == old(self)@.select_current_menu(),
            action@ == old(self)@.select_action(),
    {
        let menu = self.current_menu;
        if self.focus == Focus::Sidebar {
            match menu {
                MenuItem::Exit => {
                    self.exit();
                    Action::Nothing
                },
                MenuItem::Export => {
                    self.content_pane.trigger_export();
                    Action::Export
                },
                _ => {
                    self.focus = Focus::Content;
                    self.content_pane.select_first_entry(&self.data_manager, &menu);
                    Action::Nothing
                },
            }
        } else if self.content_pane.is_editing() {
            if self.content_pane.on_last_field() {
                let saved = self.content_pane.save_edited_data(&mut self.data_manager);
                self.content_pane.handle_enter();
                match saved {
                    Ok(_) => Action::Persist,
                    Err(error) => {
                        let mut message = String::from_str("Error saving data: ");
                        message.append(error.as_str());
                        Action::Report(message)
                    },
                }
            } else {
                self.content_pane.handle_enter();
                Action::Nothing
            }
        } else {
            match menu {
                MenuItem::Export => Action::Export,
                MenuItem::Education | MenuItem::Experience | MenuItem::Projects => {
                    let count = count_entries(&self.data_manager, &menu);
                    match self.content_pane.selected_entry() {
                        Some(selected) if selected < count => {
                            self.content_pane.enter_entry_edit_mode(
                                &menu,
                                selected,
                                &self.data_manager,
                            );
                        },
                        _ => {
                            self.content_pane.set_parent_menu(Some(menu));
                            self.content_pane.enter_edit_mode(&menu);
                        },
                    }
                    Action::Nothing
                },
                _ => Action::Nothing,
            }
        }
    }

    /// Handles "cancel" and says what outside work it asks for.
    pub fn cancel(&mut self) -> (action: Action)
        requires
            old(self).wf(),
        ensures
            final(self).wf(),
            final(self)@ == old(self)@.cancel(),
            action@ == old(self)@.cancel_action(),
    {
        if self.focus == Focus::Sidebar {
            Action::Nothing
        } else if self.content_pane.is_editing() {
            let parent = self.content_pane.parent_menu();
            self.content_pane.cancel_edit();
            match parent {
                Some(parent) => {
                    self.current_menu = parent;
                    Action::Nothing
                },
                None => self.select_current_menu(),
            }
        } else {
            self.focus = Focus::Sidebar;
            Action::Nothing
        }
    }

    /// Moves the focus to the other region and changes nothing else.
    fn flip_focus(&mut self)
        ensures
            final(self)@ == (AppView {
                focus: if old(self)@.focus == Focus::Sidebar {
                    Focus::Content
                } else {
                    Focus::Sidebar
                },
                ..old(self)@
            }),
    {
        self.focus = match self.focus {
            Focus::Sidebar => Focus::Content,
            Focus::Content => Focus::Sidebar,
        };
    }

    /// Handles the focus key: the focus moves to the other region, and a
    /// move into the content pane enters the active section.
    pub fn switch_focus(&mut self)
        requires
            old(self).wf(),
        ensures
            final(self).wf(),
            final(self)@ == old(self)@.switch_focus(),
    {
        self.flip_focus();
        if self.focus == Focus::Content {
            let menu = self.current_menu;
            self.content_pane.select_first_entry(&self.data_manager, &menu);
        }
    }

    /// Handles a typed character.
    pub fn handle_text_input(&mut self, c: char)
        requires
            old(self).wf(),
        ensures
            final(self).wf(),
            final(self)@ == old(self)@.handle_text_input(c),
    {
        if self.focus == Focus::Content {
            self.content_pane.handle_text_input(c);
        }
    }

    /// Handles backspace.
    pub fn handle_backspace(&mut self)
        requires
            old(self).wf(),
        ensures
            final(self).wf(),
            final(self)@ == old(self)@.handle_backspace(),
    {
        if self.focus == Focus::Content {
            self.content_pane.handle_backspace();
        }
    }

    /// Handles a section number.
    pub fn handle_number_input(&mut self, num: u8)
        ensures
            final(self)@ == old(self)@.handle_number_input(num),
    {
        if self.focus == Focus::Sidebar {
            if let Some(menu_item) = MenuItem::from_number(num) {
                self.current_menu = menu_item;
            }
        }
    }

    /// Ends the session.
    pub fn exit(&mut self)
        ensures
            final(self)@ == (AppView { should_exit: true, ..old(self)@ }),
    {
        self.should_exit = true;
    }

    /// Records the outcome of an export that [`Action::Export`] asked for:
    /// the message of a success as it is, the error of a failure behind
    /// "Export failed: ".
    pub fn finish_export(&mut self, outcome: Result<String, String>)
        ensures
            final(self)@ == old(self)@.finish_export(export_outcome_text(outcome)),
    {
        match outcome {
            Ok(message) => {
                self.content_pane.set_export_status(message);
            },
            Err(error) => {
                let mut message = String::from_str("Export failed: ");
                message.append(error.as_str());
                self.content_pane.set_export_status(message);
            },
        }
    }

    /// Takes the outcome of persisting that [`Action::Persist`] asked for.
    /// The session stays as it is whatever the outcome: what was committed
    /// is kept in memory although it could not be written out. After a
    /// failure the caller is asked to show the error behind
    /// "Error saving to file: ".
    pub fn finish_persist(&mut self, outcome: Result<(), String>) -> (action: Action)
        ensures
            final(self)@ == old(self)@,
            action@ == persist_outcome_action(outcome),
    {
        match outcome {
            Ok(_) => Action::Nothing,
            Err(error) => {
                let mut message = String::from_str("Error saving to file: ");
                message.append(error.as_str());
                Action::Report(message)
            },
        }
    }
}

/// In the sidebar, "move next" given `k` times leads to the same session
/// as "move next" given `k mod 7` times: the active section has moved on
/// `k` times around the cycle of the seven sections and nothing else has
/// changed.
pub proof fn lemma_sidebar_moves_cycle(app: AppView, k: nat)
    requires
        app.focus == Focus::Sidebar,
    ensures
        app.next_menu_times(k) == (AppView {
            current_menu: app.current_menu.advance(k),
            ..app
        }),
        app.next_menu_times(k) == app.next_menu_times(k % 7),
    decreases k,
{
    lemma_sidebar_moves(app, k);
    lemma_sidebar_moves(app, k % 7);
    lemma_advance_cycles(app.current_menu, k);
}

/// In the sidebar, "move next" given `k` times moves the active section on
/// `k` times and changes nothing else.
proof fn lemma_sidebar_moves(app: AppView, k: nat)
    requires
        app.focus == Focus::Sidebar,
    ensures
        app.next_menu_times(k) == (AppView {
            current_menu: app.current_menu.advance(k),
            ..app
        }),
    decreases k,
{
    if k > 0 {
        lemma_sidebar_moves(app, (k - 1) as nat);
    }
}

/// While browsing a list of `n` entries with the first slot selected,
/// "move next" given `k` times selects slot `k mod (n + 1)` and changes
/// nothing else: the selection passes through the `n + 1` slots
/// `0, 1, ..., n`, the last of them the slot "add a new entry", and then
/// wraps to slot 0.
pub proof fn lemma_selection_moves_cycle(app: AppView, k: nat)
    requires
        app.focus == Focus::Content,
        !app.pane.is_editing,
        app.current_menu.is_list(),
        app.pane.selected_entry == Some(0nat),
    ensures
        app.next_menu_times(k) == (AppView {
            pane: ContentPaneView {
                selected_entry: Some(slot_after(k, entry_count(app.data, app.current_menu))),
                ..app.pane
            },
            ..app
        }),
        slot_after(k, entry_count(app.data, app.current_menu)) == k % (entry_count(
            app.data,
            app.current_menu,
        ) + 1),
    decreases k,
{
    lemma_slot_after(k, entry_count(app.data, app.current_menu));
    if k > 0 {
        lemma_selection_moves_cycle(app, (k - 1) as nat);
    }
}

} // verus!
