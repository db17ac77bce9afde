//! The content pane: which list entry is selected, and the edit buffer that
//! is open while an entry is being written.
//!
//! The edit buffer is a sequence of text fields with one current field and
//! a cursor in it. The cursor is an offset in characters. What the buffer
//! will be committed into is its edit target: a new entry of a section, or
//! the existing entry at some index.

use crate::data::manager::{
    education_bounds_message, experience_bounds_message, optional_text, project_bounds_message,
    DataManager,
    DataManagerView, Education, EducationView, Experience, ExperienceView, Project, ProjectView,
};
use crate::text::{
    bullet_points, bullet_text, char_count, insert_char, join_points, remove_char, split_points,
    texts,
};
use crate::tui::menu::MenuItem;
use vstd::arithmetic::div_mod::{
    lemma_add_mod_noop, lemma_mod_bound, lemma_mod_self_0, lemma_small_mod,
};
use vstd::prelude::*;
use vstd::string::StringExecFns;

verus! {

/// The existing entry that an open edit buffer was seeded from.
#[derive(Debug, Clone, Copy, PartialEq, Eq, Structural)]
pub enum EntryType {
    Education(usize),
    Experience(usize),
    Project(usize),
}

/// What an edit buffer will be committed into.
#[derive(Debug, Clone, Copy, PartialEq, Eq, Structural)]
pub enum EditTarget {
    /// No buffer is open.
    Closed,
    /// A new entry of the section.
    NewEntry(MenuItem),
    /// The entry of the section at the index.
    ExistingEntry(MenuItem, usize),
}

impl EntryType {
    /// The section whose list the entry belongs to.
    pub open spec fn section(self) -> MenuItem {
        match self {
            EntryType::Education(_) => MenuItem::Education,
            EntryType::Experience(_) => MenuItem::Experience,
            EntryType::Project(_) => MenuItem::Projects,
        }
    }

    /// The index of the entry in its list.
    pub open spec fn index(self) -> usize {
        match self {
            EntryType::Education(i) => i,
            EntryType::Experience(i) => i,
            EntryType::Project(i) => i,
        }
    }
}

/// The content pane.
#[derive(Debug)]
pub struct ContentPane {
    content: String,
    current_field: usize,
    fields: Vec<String>,
    is_editing: bool,
    cursor_position: usize,
    selected_entry: Option<usize>,
    entry_type: Option<EntryType>,
    parent_menu: Option<MenuItem>,
    current_menu: Option<MenuItem>,
    export_status: Option<String>,
}

/// What a [`ContentPane`] holds.
pub struct ContentPaneView {
    /// The message of the pane.
    pub content: Seq<char>,
    /// The index of the field that receives input.
    pub current_field: nat,
    /// The text of each field of the edit buffer.
    pub fields: Seq<Seq<char>>,
    /// Whether the edit buffer is open.
    pub is_editing: bool,
    /// The cursor, as an offset in characters into the current field.
    pub cursor_position: nat,
    /// The selected slot of the list, if any. With `n` entries the slots are
    /// `0..=n`, slot `n` standing for "add a new entry".
    pub selected_entry: Option<nat>,
    /// The existing entry being edited, if the buffer was seeded from one.
    pub entry_type: Option<EntryType>,
    /// The section to return to when editing is abandoned.
    pub parent_menu: Option<MenuItem>,
    /// The section that the fields of the buffer belong to.
    pub current_menu: Option<MenuItem>,
    /// The outcome of the last export, if one was asked for.
    pub export_status: Option<Seq<char>>,
}

/// The most characters a field can hold.
pub open spec fn field_capacity() -> nat {
    usize::MAX as nat
}

/// The number of fields in the edit buffer of a section.
pub open spec fn field_count(menu: MenuItem) -> nat {
    match menu {
        MenuItem::PersonalInfo => 6,
        MenuItem::Education => 4,
        MenuItem::Experience => 4,
        MenuItem::Projects => 3,
        MenuItem::Skills => 5,
        _ => 1,
    }
}

/// The fields of a fresh edit buffer of a section: all empty.
pub open spec fn default_fields(menu: MenuItem) -> Seq<Seq<char>> {
    Seq::new(field_count(menu), |i: int| Seq::<char>::empty())
}

/// The labels of the fields of a section, in order.
pub open spec fn field_labels(menu: MenuItem) -> Seq<Seq<char>> {
    match menu {
        MenuItem::PersonalInfo => seq![
            "Name"@,
            "Email"@,
            "Phone"@,
            "Location"@,
            "LinkedIn"@,
            "GitHub"@,
        ],
        MenuItem::Education => seq![
            "Institution"@,
            "Degree"@,
            "Years"@,
            "Points (semicolon separated)"@,
        ],
        MenuItem::Experience => seq![
            "Company"@,
            "Position"@,
            "Duration"@,
            "Points (semicolon separated)"@,
        ],
        MenuItem::Projects => seq!["Project Name"@, "Link"@, "Points (semicolon separated)"@],
        MenuItem::Skills => seq![
            "Programming Languages"@,
            "Frameworks"@,
            "Tools"@,
            "Databases"@,
            "Other"@,
        ],
        _ => seq!["Field"@],
    }
}

/// The one-line description of a section.
pub open spec fn menu_description(menu: MenuItem) -> Seq<char> {
    match menu {
        MenuItem::PersonalInfo => "Enter your personal information"@,
        MenuItem::Education => "Add your educational background"@,
        MenuItem::Experience => "List your work experience"@,
        MenuItem::Projects => "Showcase your projects"@,
        MenuItem::Skills => "Highlight your skills"@,
        MenuItem::Export => "Export your resume"@,
        MenuItem::Exit => "Exit the application"@,
    }
}

/// The texts held by a sequence of string slices.
pub open spec fn label_texts(labels: Seq<&'static str>) -> Seq<Seq<char>> {
    labels.map_values(|s: &'static str| s@)
}

/// A selection as a mathematical index.
pub open spec fn selection(selected: Option<usize>) -> Option<nat> {
    match selected {
        Some(i) => Some(i as nat),
        None => None,
    }
}

/// The number of entries in the list of a section; sections without a list
/// have none.
pub open spec fn entry_count(data: DataManagerView, menu: MenuItem) -> nat {
    match menu {
        MenuItem::Education => data.resume.education.len(),
        MenuItem::Experience => data.resume.experience.len(),
        MenuItem::Projects => data.resume.projects.len(),
        _ => 0,
    }
}

/// The fields that show the existing entry `index` of a section, if the
/// section has a list and the list has such an entry.
pub open spec fn seed_fields(data: DataManagerView, menu: MenuItem, index: int) -> Option<
    Seq<Seq<char>>,
> {
    if 0 <= index < entry_count(data, menu) {
        match menu {
            MenuItem::Education => {
                let e = data.resume.education[index];
                Some(seq![e.name, e.degree, e.years, bullet_text(e.points)])
            },
            MenuItem::Experience => {
                let e = data.resume.experience[index];
                Some(seq![e.company, e.position, e.years, bullet_text(e.points)])
            },
            MenuItem::Projects => {
                let p = data.resume.projects[index];
                Some(
                    seq![
                        p.name,
                        match p.link {
                            Some(link) => link,
                            None => Seq::empty(),
                        },
                        bullet_text(p.points),
                    ],
                )
            },
            _ => None,
        }
    } else {
        None
    }
}

/// The entry type of entry `index` of a list-bearing section.
pub open spec fn entry_type_of(menu: MenuItem, index: usize) -> Option<EntryType> {
    match menu {
        MenuItem::Education => Some(EntryType::Education(index)),
        MenuItem::Experience => Some(EntryType::Experience(index)),
        MenuItem::Projects => Some(EntryType::Project(index)),
        _ => None,
    }
}

/// The education entry written in the four fields of an edit buffer.
pub open spec fn education_of(fields: Seq<Seq<char>>) -> EducationView
    recommends
        fields.len() >= 4,
{
    EducationView {
        name: fields[0],
        degree: fields[1],
        years: fields[2],
        points: bullet_points(fields[3]),
    }
}

/// The experience entry written in the four fields of an edit buffer.
pub open spec fn experience_of(fields: Seq<Seq<char>>) -> ExperienceView
    recommends
        fields.len() >= 4,
{
    ExperienceView {
        company: fields[0],
        position: fields[1],
        years: fields[2],
        points: bullet_points(fields[3]),
    }
}

/// The project entry written in the three fields of an edit buffer. An
/// empty link field means that the project has no link.
pub open spec fn project_of(fields: Seq<Seq<char>>) -> ProjectView
    recommends
        fields.len() >= 3,
{
    ProjectView {
        name: fields[0],
        link: if fields[1].len() == 0 {
            None
        } else {
            Some(fields[1])
        },
        points: bullet_points(fields[2]),
    }
}

impl ContentPaneView {
    /// The invariant of the pane: the fields are those of the section they
    /// belong to, the current field exists whenever there are fields, the
    /// cursor lies within the current field, and an existing entry is
    /// recorded only while its section is being edited.
    pub open spec fn wf(self) -> bool {
        &&& self.fields.len() == match self.current_menu {
            Some(m) => field_count(m),
            None => 0,
        }
        &&& self.is_editing ==> self.current_menu is Some
        &&& self.fields.len() == 0 ==> self.current_field == 0 && self.cursor_position == 0
        &&& self.fields.len() > 0 ==> self.current_field < self.fields.len()
            && self.cursor_position <= self.fields[self.current_field as int].len()
        &&& self.entry_type is Some ==> self.is_editing && self.current_menu == Some(
            self.entry_type->0.section(),
        )
    }

    /// What the open edit buffer will be committed into.
    pub open spec fn edit_target(self) -> EditTarget {
        if !self.is_editing {
            EditTarget::Closed
        } else {
            match self.entry_type {
                Some(t) => EditTarget::ExistingEntry(t.section(), t.index()),
                None => match self.current_menu {
                    Some(m) => EditTarget::NewEntry(m),
                    None => EditTarget::Closed,
                },
            }
        }
    }

    /// Whether the current field is the last one.
    pub open spec fn on_last_field(self) -> bool {
        self.current_field + 1 >= self.fields.len()
    }

    /// Opens an empty buffer for a new entry of `menu`.
    pub open spec fn enter_edit_mode(self, menu: MenuItem) -> ContentPaneView {
        ContentPaneView {
            is_editing: true,
            current_field: 0,
            cursor_position: 0,
            fields: default_fields(menu),
            selected_entry: None,
            entry_type: None,
            current_menu: Some(menu),
            ..self
        }
    }

    /// Opens a buffer on entry `index` of `menu`, seeded with the entry. If
    /// there is no such entry the buffer is empty and stands for a new
    /// entry. The cursor is at the end of the first field.
    pub open spec fn enter_entry_edit_mode(
        self,
        menu: MenuItem,
        index: usize,
        data: DataManagerView,
    ) -> ContentPaneView {
        match seed_fields(data, menu, index as int) {
            Some(fields) => ContentPaneView {
                is_editing: true,
                current_field: 0,
                cursor_position: fields[0].len(),
                fields,
                selected_entry: Some(index as nat),
                entry_type: entry_type_of(menu, index),
                current_menu: Some(menu),
                ..self
            },
            None => ContentPaneView {
                is_editing: true,
                current_field: 0,
                cursor_position: 0,
                fields: default_fields(menu),
                selected_entry: Some(index as nat),
                entry_type: None,
                current_menu: Some(menu),
                ..self
            },
        }
    }

    /// Moves to the field after the current one, if the buffer is open and
    /// there is one; the cursor goes to the end of that field.
    pub open spec fn next_field(self) -> ContentPaneView {
        if self.is_editing && self.current_field + 1 < self.fields.len() {
            ContentPaneView {
                current_field: self.current_field + 1,
                cursor_position: self.fields[self.current_field as int + 1].len(),
                ..self
            }
        } else {
            self
        }
    }

    /// Moves to the field before the current one, if the buffer is open and
    /// there is one; the cursor goes to the end of that field.
    pub open spec fn previous_field(self) -> ContentPaneView {
        if self.is_editing && 0 < self.current_field <= self.fields.len() {
            ContentPaneView {
                current_field: (self.current_field - 1) as nat,
                cursor_position: self.fields[self.current_field as int - 1].len(),
                ..self
            }
        } else {
            self
        }
    }

    /// Selects the first entry of the list of `menu`, or nothing if the
    /// list is empty or the section has no list.
    pub open spec fn select_first_entry(self, data: DataManagerView, menu: MenuItem) -> ContentPaneView {
        ContentPaneView {
            selected_entry: if entry_count(data, menu) > 0 {
                Some(0nat)
            } else {
                None
            },
            ..self
        }
    }

    /// Moves the selection to the next slot of the list of `menu`, wrapping
    /// from the slot "add a new entry" to the first entry. Sections without
    /// a list keep the selection they have.
    pub open spec fn next_entry(self, data: DataManagerView, menu: MenuItem) -> ContentPaneView {
        if menu.is_list() {
            ContentPaneView {
                selected_entry: Some(next_slot(self.selected_entry, entry_count(data, menu))),
                ..self
            }
        } else {
            self
        }
    }

    /// Moves the selection to the previous slot of the list of `menu`,
    /// wrapping from the first entry to the slot "add a new entry".
    /// Sections without a list keep the selection they have.
    pub open spec fn previous_entry(self, data: DataManagerView, menu: MenuItem) -> ContentPaneView {
        if menu.is_list() {
            ContentPaneView {
                selected_entry: Some(previous_slot(self.selected_entry, entry_count(data, menu))),
                ..self
            }
        } else {
            self
        }
    }

    /// Closes the edit buffer: nothing is being edited and nothing is
    /// selected.
    pub open spec fn close_edit(self) -> ContentPaneView {
        ContentPaneView { is_editing: false, selected_entry: None, entry_type: None, ..self }
    }

    /// The pane after the enter key: an open buffer moves to its next field
    /// or, on the last field, is closed.
    pub open spec fn handle_enter(self) -> ContentPaneView {
        if self.is_editing {
            if self.on_last_field() {
                self.close_edit()
            } else {
                self.next_field()
            }
        } else {
            self
        }
    }

    /// Whether the enter key asks for a commit: the buffer is open and on
    /// its last field.
    pub open spec fn enter_commits(self) -> bool {
        self.is_editing && self.on_last_field()
    }

    /// Whether a typed character goes into the buffer: the buffer is open,
    /// the current field exists and is not full.
    pub open spec fn accepts_input(self) -> bool {
        &&& self.is_editing
        &&& self.current_field < self.fields.len()
        &&& self.fields[self.current_field as int].len() < field_capacity()
    }

    /// Inserts `c` at the cursor of the current field and moves the cursor
    /// past it.
    pub open spec fn handle_text_input(self, c: char) -> ContentPaneView {
        if self.accepts_input() {
            let i = self.current_field as int;
            ContentPaneView {
                fields: self.fields.update(i, self.fields[i].insert(self.cursor_position as int, c)),
                cursor_position: self.cursor_position + 1,
                ..self
            }
        } else {
            self
        }
    }

    /// Removes the character before the cursor of the current field and
    /// moves the cursor back by one; nothing happens at offset zero.
    pub open spec fn handle_backspace(self) -> ContentPaneView {
        if self.is_editing && self.current_field < self.fields.len() && self.cursor_position > 0 {
            let i = self.current_field as int;
            ContentPaneView {
                fields: self.fields.update(i, self.fields[i].remove(self.cursor_position as int - 1)),
                cursor_position: (self.cursor_position - 1) as nat,
                ..self
            }
        } else {
            self
        }
    }

    /// The store after the buffer is committed into `data`: a new entry is
    /// appended to the list of its section, an existing entry is replaced
    /// if its index is within the list. In every other case the store is
    /// as it was.
    pub open spec fn committed(self, data: DataManagerView) -> DataManagerView {
        match self.edit_target() {
            EditTarget::NewEntry(MenuItem::Education) => data.add_education(education_of(self.fields)),
            EditTarget::NewEntry(MenuItem::Experience) => data.add_experience(
                experience_of(self.fields),
            ),
            EditTarget::NewEntry(MenuItem::Projects) => data.add_project(project_of(self.fields)),
            EditTarget::ExistingEntry(MenuItem::Education, i) => if i
                < data.resume.education.len() {
                data.update_education(i as int, education_of(self.fields))
            } else {
                data
            },
            EditTarget::ExistingEntry(MenuItem::Experience, i) => if i
                < data.resume.experience.len() {
                data.update_experience(i as int, experience_of(self.fields))
            } else {
                data
            },
            EditTarget::ExistingEntry(MenuItem::Projects, i) => if i < data.resume.projects.len() {
                data.update_project(i as int, project_of(self.fields))
            } else {
                data
            },
            _ => data,
        }
    }

    /// The error of committing the buffer into `data`, if there is one: the
    /// buffer stands for an existing entry whose index is no longer within
    /// its list.
    pub open spec fn commit_error(self, data: DataManagerView) -> Option<Seq<char>> {
        match self.edit_target() {
            EditTarget::ExistingEntry(MenuItem::Education, i) => if i
                >= data.resume.education.len() {
                Some(education_bounds_message())
            } else {
                None
            },
            EditTarget::ExistingEntry(MenuItem::Experience, i) => if i
                >= data.resume.experience.len() {
                Some(experience_bounds_message())
            } else {
                None
            },
            EditTarget::ExistingEntry(MenuItem::Projects, i) => if i >= data.resume.projects.len() {
                Some(project_bounds_message())
            } else {
                None
            },
            _ => None,
        }
    }
}

/// The slot after `selected` in a list of `count` entries. The slots are
/// `0..=count`; after the last comes the first, and with nothing selected
/// the first slot is taken.
pub open spec fn next_slot(selected: Option<nat>, count: nat) -> nat {
    match selected {
        Some(i) => (i + 1) % (count + 1),
        None => 0,
    }
}

/// The slot before `selected` in a list of `count` entries; before the
/// first comes the last, and with nothing selected the last slot is taken.
pub open spec fn previous_slot(selected: Option<nat>, count: nat) -> nat {
    match selected {
        Some(i) => if i == 0 {
            count
        } else {
            (i - 1) as nat
        },
        None => count,
    }
}

/// The slot reached from the first one by `k` moves to the next slot.
pub open spec fn slot_after(k: nat, count: nat) -> nat
    decreases k,
{
    if k == 0 {
        0
    } else {
        next_slot(Some(slot_after((k - 1) as nat, count)), count)
    }
}

/// The message of a pane on which nothing has happened yet.
pub open spec fn welcome_message() -> Seq<char> {
    "Welcome to Resume Builder! Use arrow keys or j/k to navigate, Enter to select."@
}

/// The message shown while an export runs.
pub open spec fn exporting_message() -> Seq<char> {
    "Exporting resume..."@
}

/// The export status set when an export is asked for from the sidebar.
pub open spec fn export_pending_status() -> Seq<char> {
    "Exporting..."@
}

/// The message shown while the form of a section is edited.
pub open spec fn form_message(menu: MenuItem) -> Seq<char> {
    "Editing "@ + menu.title_text() + " form..."@
}

impl ContentPaneView {
    /// The pane at the start of a session.
    pub open spec fn initial() -> ContentPaneView {
        ContentPaneView {
            content: welcome_message(),
            current_field: 0,
            fields: Seq::empty(),
            is_editing: false,
            cursor_position: 0,
            selected_entry: None,
            entry_type: None,
            parent_menu: None,
            current_menu: None,
            export_status: None,
        }
    }
}

impl View for ContentPane {
    type V = ContentPaneView;

    closed spec fn view(&self) -> ContentPaneView {
        ContentPaneView {
            content: self.content@,
            current_field: self.current_field as nat,
            fields: texts(self.fields@),
            is_editing: self.is_editing,
            cursor_position: self.cursor_position as nat,
            selected_entry: selection(self.selected_entry),
            entry_type: self.entry_type,
            parent_menu: self.parent_menu,
            current_menu: self.current_menu,
            export_status: optional_text(self.export_status),
        }
    }
}

/// The number of fields in the edit buffer of a section.
fn field_total(menu: &MenuItem) -> (n: usize)
    ensures
        n == field_count(*menu),
{
    match menu {
        MenuItem::PersonalInfo => 6,
        MenuItem::Education => 4,
        MenuItem::Experience => 4,
        MenuItem::Projects => 3,
        MenuItem::Skills => 5,
        _ => 1,
    }
}

/// The number of entries in the list of a section; sections without a list
/// have none.
pub fn count_entries(data_manager: &DataManager, menu: &MenuItem) -> (n: usize)
    ensures
        n == entry_count(data_manager@, *menu),
{
    match menu {
        MenuItem::Education => data_manager.resume.education.len(),
        MenuItem::Experience => data_manager.resume.experience.len(),
        MenuItem::Projects => data_manager.resume.projects.len(),
        _ => 0,
    }
}

/// The education entry written in `fields`.
fn build_education(fields: &Vec<String>) -> (entry: Education)
    requires
        fields.len() >= 4,
    ensures
        entry@ == education_of(texts(fields@)),
{
    Education {
        name: fields[0].clone(),
        degree: fields[1].clone(),
        years: fields[2].clone(),
        points: split_points(fields[3].as_str()),
    }
}

/// The experience entry written in `fields`.
fn build_experience(fields: &Vec<String>) -> (entry: Experience)
    requires
        fields.len() >= 4,
    ensures
        entry@ == experience_of(texts(fields@)),
{
    Experience {
        company: fields[0].clone(),
        position: fields[1].clone(),
        years: fields[2].clone(),
        points: split_points(fields[3].as_str()),
    }
}

/// The project entry written in `fields`.
fn build_project(fields: &Vec<String>) -> (entry: Project)
    requires
        fields.len() >= 3,
    ensures
        entry@ == project_of(texts(fields@)),
{
    let link = if fields[1].as_str().is_empty() {
        None
    } else {
        Some(fields[1].clone())
    };
    Project { name: fields[0].clone(), link, points: split_points(fields[2].as_str()) }
}

impl ContentPane {
    /// Whether the invariant of the pane holds.
    pub open spec fn wf(&self) -> bool {
        self@.wf()
    }

    /// A pane on which nothing is selected and no buffer is open.
    pub fn new() -> (pane: ContentPane)
        ensures
            pane.wf(),
            pane@ == ContentPaneView::initial(),
    {
        let pane = ContentPane {
            content: String::from_str(
                "Welcome to Resume Builder! Use arrow keys or j/k to navigate, Enter to select.",
            ),
            current_field: 0,
            fields: Vec::new(),
            is_editing: false,
            cursor_position: 0,
            selected_entry: None,
            entry_type: None,
            parent_menu: None,
            current_menu: None,
            export_status: None,
        };
        assert(pane@.fields =~= Seq::<Seq<char>>::empty());
        pane
    }

    /// The one-line description of a section.
    pub fn get_menu_description(&self, menu: &MenuItem) -> (text: &'static str)
        ensures
            text@ == menu_description(*menu),
    {
        match menu {
            MenuItem::PersonalInfo => "Enter your personal information",
            MenuItem::Education => "Add your educational background",
            MenuItem::Experience => "List your work experience",
            MenuItem::Projects => "Showcase your projects",
            MenuItem::Skills => "Highlight your skills",
            MenuItem::Export => "Export your resume",
            MenuItem::Exit => "Exit the application",
        }
    }

    /// The fields of a fresh edit buffer of a section.
    pub fn get_default_fields(&self, menu: &MenuItem) -> (fields: Vec<String>)
        ensures
            texts(fields@) == default_fields(*menu),
    {
        let n = field_total(menu);
        let mut fields: Vec<String> = Vec::new();
        while fields.len() < n
            invariant
                fields.len() <= n,
                forall|i: int| 0 <= i < fields.len() ==> (#[trigger] fields@[i])@ == Seq::<char>::empty(),
            decreases n - fields.len(),
        {
            fields.push(String::new());
        }
        fields
    }

    /// The labels of the fields of a section, in order.
    pub fn get_field_labels(&self, menu: &MenuItem) -> (labels: Vec<&'static str>)
        ensures
            label_texts(labels@) == field_labels(*menu),
    {
        let mut labels: Vec<&'static str> = Vec::new();
        match menu {
            MenuItem::PersonalInfo => {
                labels.push("Name");
                labels.push("Email");
                labels.push("Phone");
                labels.push("Location");
                labels.push("LinkedIn");
                labels.push("GitHub");
            },
            MenuItem::Education => {
                labels.push("Institution");
                labels.push("Degree");
                labels.push("Years");
                labels.push("Points (semicolon separated)");
            },
            MenuItem::Experience => {
                labels.push("Company");
                labels.push("Position");
                labels.push("Duration");
                labels.push("Points (semicolon separated)");
            },
            MenuItem::Projects => {
                labels.push("Project Name");
                labels.push("Link");
                labels.push("Points (semicolon separated)");
            },
            MenuItem::Skills => {
                labels.push("Programming Languages");
                labels.push("Frameworks");
                labels.push("Tools");
                labels.push("Databases");
                labels.push("Other");
            },
            _ => {
                labels.push("Field");
            },
        }
        labels
    }

    /// Opens an empty edit buffer for a new entry of `menu`: the first
    /// field is current, the cursor is at offset zero and nothing is
    /// selected.
    pub fn enter_edit_mode(&mut self, menu: &MenuItem)
        ensures
            final(self).wf(),
            final(self)@ == old(self)@.enter_edit_mode(*menu),
    {
        self.is_editing = true;
        self.current_field = 0;
        self.cursor_position = 0;
        self.fields = self.get_default_fields(menu);
        self.selected_entry = None;
        self.entry_type = None;
        self.current_menu = Some(*menu);
    }

    /// Commits the open edit buffer into the store and leaves the pane as
    /// it is. A buffer for a new entry of a list-bearing section appends
    /// the entry written in its fields; a buffer for an existing entry
    /// replaces that entry, or fails with the store's bounds error if the
    /// index is no longer within the list. The last field of such a buffer
    /// is read as bullet points, and an empty link field of a project as
    /// "no link". Without an open buffer, and for sections without a list,
    /// nothing is stored.
    pub fn save_edited_data(&mut self, data_manager: &mut DataManager) -> (r: Result<(), String>)
        requires
            old(self).wf(),
        ensures
            *final(self) == *old(self),
            final(data_manager)@ == old(self)@.committed(old(data_manager)@),
            match r {
                Ok(_) => old(self)@.commit_error(old(data_manager)@) is None,
                Err(e) => old(self)@.commit_error(old(data_manager)@) == Some(e@),
            },
    {
        if !self.is_editing {
            return Ok(());
        }
        match self.entry_type {
            Some(EntryType::Education(idx)) => {
                let education = build_education(&self.fields);
                data_manager.update_education(idx, education)
            },
            Some(EntryType::Experience(idx)) => {
                let experience = build_experience(&self.fields);
                data_manager.update_experience(idx, experience)
            },
            Some(EntryType::Project(idx)) => {
                let project = build_project(&self.fields);
                data_manager.update_project(idx, project)
            },
            None => {
                match self.current_menu {
                    Some(MenuItem::Education) => {
                        let education = build_education(&self.fields);
                        data_manager.add_education(education);
                    },
                    Some(MenuItem::Experience) => {
                        let experience = build_experience(&self.fields);
                        data_manager.add_experience(experience);
                    },
                    Some(MenuItem::Projects) => {
                        let project = build_project(&self.fields);
                        data_manager.add_project(project);
                    },
                    _ => {},
                }
                Ok(())
            },
        }
    }

    /// Opens an edit buffer on entry `entry_idx` of the list of `menu`,
    /// seeded with what the entry holds: its bullet points are written
    /// into the last field, separated by "; ", and a project without a link
    /// gets an empty link field. Where the list has no such entry, or the
    /// section no list, the buffer is empty and stands for a new entry. The
    /// first field is current and the cursor is at its end.
    pub fn enter_entry_edit_mode(
        &mut self,
        menu: &MenuItem,
        entry_idx: usize,
        data_manager: &DataManager,
    )
        ensures
            final(self).wf(),
            final(self)@ == old(self)@.enter_entry_edit_mode(*menu, entry_idx, data_manager@),
    {
        let mut fields: Vec<String> = Vec::new();
        let mut entry_type: Option<EntryType> = None;
        match menu {
            MenuItem::Education => {
                if entry_idx < data_manager.resume.education.len() {
                    let education = &data_manager.resume.education[entry_idx];
                    entry_type = Some(EntryType::Education(entry_idx));
                    fields.push(education.name.clone());
                    fields.push(education.degree.clone());
                    fields.push(education.years.clone());
                    fields.push(join_points(&education.points));
                }
            },
            MenuItem::Experience => {
                if entry_idx < data_manager.resume.experience.len() {
                    let experience = &data_manager.resume.experience[entry_idx];
                    entry_type = Some(EntryType::Experience(entry_idx));
                    fields.push(experience.company.clone());
                    fields.push(experience.position.clone());
                    fields.push(experience.years.clone());
                    fields.push(join_points(&experience.points));
                }
            },
            MenuItem::Projects => {
                if entry_idx < data_manager.resume.projects.len() {
                    let project = &data_manager.resume.projects[entry_idx];
                    entry_type = Some(EntryType::Project(entry_idx));
                    fields.push(project.name.clone());
                    match &project.link {
                        Some(link) => fields.push(link.clone()),
                        None => fields.push(String::new()),
                    }
                    fields.push(join_points(&project.points));
                }
            },
            _ => {},
        }
        let mut cursor: usize = 0;
        if entry_type.is_some() {
            cursor = char_count(fields[0].as_str());
            assert(Some(texts(fields@)) =~= seed_fields(data_manager@, *menu, entry_idx as int));
        } else {
            fields = self.get_default_fields(menu);
        }
        self.is_editing = true;
        self.current_field = 0;
        self.cursor_position = cursor;
        self.selected_entry = Some(entry_idx);
        self.current_menu = Some(*menu);
        self.entry_type = entry_type;
        self.fields = fields;
    }

    /// Moves to the next field of the open buffer, if there is one, and
    /// puts the cursor at the end of its text. On the last field, and when
    /// no buffer is open, nothing changes.
    pub fn next_field(&mut self)
        requires
            old(self).wf(),
        ensures
            final(self).wf(),
            final(self)@ == old(self)@.next_field(),
    {
        if self.is_editing && self.current_field + 1 < self.fields.len() {
            self.current_field = self.current_field + 1;
            self.cursor_position = char_count(self.fields[self.current_field].as_str());
        }
    }

    /// Moves to the previous field of the open buffer, if there is one, and
    /// puts the cursor at the end of its text. On the first field, and when
    /// no buffer is open, nothing changes.
    pub fn previous_field(&mut self)
        requires
            old(self).wf(),
        ensures
            final(self).wf(),
            final(self)@ == old(self)@.previous_field(),
    {
        if self.is_editing && self.current_field > 0 {
            self.current_field = self.current_field - 1;
            self.cursor_position = char_count(self.fields[self.current_field].as_str());
        }
    }

    /// Selects the first entry of the list of `menu` if the list has one;
    /// otherwise nothing is selected.
    pub fn select_first_entry(&mut self, data_manager: &DataManager, menu: &MenuItem)
        requires
            old(self).wf(),
        ensures
            final(self).wf(),
            final(self)@ == old(self)@.select_first_entry(data_manager@, *menu),
    {
        if count_entries(data_manager, menu) > 0 {
            self.selected_entry = Some(0);
        } else {
            self.selected_entry = None;
        }
    }

    /// Moves the selection to the next slot of the list of `menu`. With `n`
    /// entries the slots are `0..=n`, the last standing for "add a new
    /// entry"; after it the selection wraps to the first.
    pub fn next_entry(&mut self, data_manager: &DataManager, menu: &MenuItem)
        requires
            old(self).wf(),
        ensures
            final(self).wf(),
            final(self)@ == old(self)@.next_entry(data_manager@, *menu),
    {
        if menu.has_entries() {
            let count: usize = count_entries(data_manager, menu);
            let next: usize = match self.selected_entry {
                Some(idx) => slot_following(idx, count),
                None => 0,
            };
            self.selected_entry = Some(next);
        }
    }

    /// Moves the selection to the previous slot of the list of `menu`;
    /// before the first entry the selection wraps to the slot "add a new
    /// entry".
    pub fn previous_entry(&mut self, data_manager: &DataManager, menu: &MenuItem)
        requires
            old(self).wf(),
        ensures
            final(self).wf(),
            final(self)@ == old(self)@.previous_entry(data_manager@, *menu),
    {
        if menu.has_entries() {
            let count: usize = count_entries(data_manager, menu);
            let previous: usize = match self.selected_entry {
                Some(idx) => if idx == 0 {
                    count
                } else {
                    idx - 1
                },
                None => count,
            };
            self.selected_entry = Some(previous);
        }
    }

    /// Closes the edit buffer without storing anything: nothing is being
    /// edited and nothing is selected any more.
    pub fn cancel_edit(&mut self)
        requires
            old(self).wf(),
        ensures
            final(self).wf(),
            final(self)@ == old(self)@.close_edit(),
    {
        self.is_editing = false;
        self.selected_entry = None;
        self.entry_type = None;
    }

    /// Handles the enter key. An open buffer moves to its next field; on
    /// the last field it is closed and `true` is returned, which tells the
    /// caller that the buffer asked to be committed.
    pub fn handle_enter(&mut self) -> (needs_save: bool)
        requires
            old(self).wf(),
        ensures
            final(self).wf(),
            final(self)@ == old(self)@.handle_enter(),
            needs_save == old(self)@.enter_commits(),
    {
        if self.is_editing {
            if self.current_field + 1 < self.fields.len() {
                self.next_field();
                false
            } else {
                self.cancel_edit();
                true
            }
        } else {
            false
        }
    }

    /// The section that the fields of the buffer belong to.
    pub fn get_current_menu_type(&self) -> (menu: Option<MenuItem>)
        ensures
            menu == self@.current_menu,
    {
        self.current_menu
    }

    /// Inserts `c` at the cursor of the current field and moves the cursor
    /// past it. Nothing happens when no buffer is open or the field is
    /// full.
    pub fn handle_text_input(&mut self, c: char)
        requires
            old(self).wf(),
        ensures
            final(self).wf(),
            final(self)@ == old(self)@.handle_text_input(c),
    {
        if self.is_editing && self.current_field < self.fields.len() {
            let field = self.fields[self.current_field].as_str();
            if char_count(field) < usize::MAX {
                let edited = insert_char(field, self.cursor_position, c);
                self.fields.set(self.current_field, edited);
                self.cursor_position = self.cursor_position + 1;
                assert(self@.fields =~= old(self)@.handle_text_input(c).fields);
            }
        }
    }

    /// Removes the character before the cursor of the current field and
    /// moves the cursor back by one. Nothing happens when no buffer is
    /// open or the cursor is at offset zero.
    pub fn handle_backspace(&mut self)
        requires
            old(self).wf(),
        ensures
            final(self).wf(),
            final(self)@ == old(self)@.handle_backspace(),
    {
        if self.is_editing && self.current_field < self.fields.len() && self.cursor_position > 0 {
            let edited = remove_char(
                self.fields[self.current_field].as_str(),
                self.cursor_position - 1,
            );
            self.fields.set(self.current_field, edited);
            self.cursor_position = self.cursor_position - 1;
            assert(self@.fields =~= old(self)@.handle_backspace().fields);
        }
    }

    /// Sets the message of the pane to the one shown while an export runs.
    pub fn show_export(&mut self)
        ensures
            final(self)@ == (ContentPaneView { content: exporting_message(), ..old(self)@ }),
    {
        self.content = String::from_str("Exporting resume...");
    }

    /// Sets the message of the pane to the one shown while the form of
    /// `menu` is edited.
    pub fn show_form(&mut self, menu: &MenuItem)
        ensures
            final(self)@ == (ContentPaneView { content: form_message(*menu), ..old(self)@ }),
    {
        let mut content = String::from_str("Editing ");
        content.append(menu.title());
        content.append(" form...");
        self.content = content;
    }

    /// Records that an export was asked for.
    pub fn trigger_export(&mut self)
        ensures
            final(self)@ == (ContentPaneView {
                export_status: Some(export_pending_status()),
                ..old(self)@
            }),
    {
        self.export_status = Some(String::from_str("Exporting..."));
    }

    /// Records the outcome of an export.
    pub fn set_export_status(&mut self, status: String)
        ensures
            final(self)@ == (ContentPaneView { export_status: Some(status@), ..old(self)@ }),
    {
        self.export_status = Some(status);
    }

    /// Forgets the outcome of the last export.
    pub fn clear_export_status(&mut self)
        ensures
            final(self)@ == (ContentPaneView { export_status: None, ..old(self)@ }),
    {
        self.export_status = None;
    }

    /// Records the section to return to when editing is abandoned.
    pub fn set_parent_menu(&mut self, menu: Option<MenuItem>)
        ensures
            final(self)@ == (ContentPaneView { parent_menu: menu, ..old(self)@ }),
    {
        self.parent_menu = menu;
    }

    /// Whether the edit buffer is open.
    pub fn is_editing(&self) -> (b: bool)
        ensures
            b == self@.is_editing,
    {
        self.is_editing
    }

    /// The selected slot of the list, if any.
    pub fn selected_entry(&self) -> (selected: Option<usize>)
        ensures
            selection(selected) == self@.selected_entry,
    {
        self.selected_entry
    }

    /// The existing entry being edited, if the buffer was seeded from one.
    pub fn entry_type(&self) -> (entry: Option<EntryType>)
        ensures
            entry == self@.entry_type,
    {
        self.entry_type
    }

    /// The section to return to when editing is abandoned.
    pub fn parent_menu(&self) -> (menu: Option<MenuItem>)
        ensures
            menu == self@.parent_menu,
    {
        self.parent_menu
    }

    /// The outcome of the last export, if one was asked for.
    pub fn export_status(&self) -> (status: &Option<String>)
        ensures
            optional_text(*status) == self@.export_status,
    {
        &self.export_status
    }

    /// The message of the pane.
    pub fn content(&self) -> (text: &str)
        ensures
            text@ == self@.content,
    {
        self.content.as_str()
    }

    /// The fields of the edit buffer.
    pub fn fields(&self) -> (fields: &Vec<String>)
        ensures
            texts(fields@) == self@.fields,
    {
        &self.fields
    }

    /// The index of the field that receives input.
    pub fn current_field(&self) -> (index: usize)
        ensures
            index == self@.current_field,
    {
        self.current_field
    }

    /// The cursor, as an offset in characters into the current field.
    pub fn cursor_position(&self) -> (offset: usize)
        ensures
            offset == self@.cursor_position,
    {
        self.cursor_position
    }

    /// Whether the invariant of the pane holds. It does for every pane that
    /// was made by [`ContentPane::new`] and changed by the functions of
    /// this type only.
    pub fn is_well_formed(&self) -> (b: bool)
        ensures
            b == self.wf(),
    {
        let expected: usize = match &self.current_menu {
            Some(menu) => field_total(menu),
            None => 0,
        };
        let within = if self.fields.len() == 0 {
            self.current_field == 0 && self.cursor_position == 0
        } else {
            self.current_field < self.fields.len() && self.cursor_position <= char_count(
                self.fields[self.current_field].as_str(),
            )
        };
        let target = match self.entry_type {
            Some(EntryType::Education(_)) => self.is_editing && self.current_menu == Some(
                MenuItem::Education,
            ),
            Some(EntryType::Experience(_)) => self.is_editing && self.current_menu == Some(
                MenuItem::Experience,
            ),
            Some(EntryType::Project(_)) => self.is_editing && self.current_menu == Some(
                MenuItem::Projects,
            ),
            None => true,
        };
        self.fields.len() == expected && (!self.is_editing || self.current_menu.is_some())
            && within && target
    }

    /// Whether the current field is the last one of the buffer.
    pub fn on_last_field(&self) -> (b: bool)
        ensures
            b == self@.on_last_field(),
    {
        self.fields.len() == 0 || self.current_field >= self.fields.len() - 1
    }

    /// What the open edit buffer will be committed into.
    pub fn edit_target(&self) -> (target: EditTarget)
        ensures
            target == self@.edit_target(),
    {
        if !self.is_editing {
            EditTarget::Closed
        } else {
            match self.entry_type {
                Some(EntryType::Education(i)) => EditTarget::ExistingEntry(MenuItem::Education, i),
                Some(EntryType::Experience(i)) => EditTarget::ExistingEntry(
                    MenuItem::Experience,
                    i,
                ),
                Some(EntryType::Project(i)) => EditTarget::ExistingEntry(MenuItem::Projects, i),
                None => match self.current_menu {
                    Some(m) => EditTarget::NewEntry(m),
                    None => EditTarget::Closed,
                },
            }
        }
    }
}

/// The slot after slot `idx` in a list of `count` entries.
fn slot_following(idx: usize, count: usize) -> (next: usize)
    ensures
        next == next_slot(Some(idx as nat), count as nat),
{
    let wide: u128 = (idx as u128 + 1) % (count as u128 + 1);
    proof {
        lemma_mod_bound(idx + 1, count + 1);
    }
    wide as usize
}

/// In a list of `count` entries, `k` moves to the next slot lead from the
/// first slot to slot `k mod (count + 1)`.
pub proof fn lemma_slot_after(k: nat, count: nat)
    ensures
        slot_after(k, count) == k % (count + 1),
    decreases k,
{
    let m = (count + 1) as int;
    if k == 0 {
        lemma_small_mod(0, m as nat);
    } else {
        let before = slot_after((k - 1) as nat, count) as int;
        lemma_slot_after((k - 1) as nat, count);
        lemma_add_mod_noop(k - 1, 1, m);
        lemma_mod_bound(k - 1, m);
        lemma_mod_bound(k as int, m);
        lemma_mod_bound(before + 1, m);
        if m > 1 {
            lemma_small_mod(1, m as nat);
        }
    }
}

/// With `count` existing entries, repeated moves to the next slot take the
/// selection through exactly `count + 1` distinct slots, `0, 1, ..., count`
/// in this order, the last of them the slot "add a new entry"; the move
/// after that wraps to slot 0.
pub proof fn lemma_slots_cycle(count: nat)
    ensures
        forall|k: nat| k <= count ==> #[trigger] slot_after(k, count) == k,
        forall|j: nat, k: nat|
            #![trigger slot_after(j, count), slot_after(k, count)]
            j < k <= count ==> slot_after(j, count) != slot_after(k, count),
        slot_after(count + 1, count) == 0,
        forall|k: nat| #[trigger] slot_after(k, count) <= count,
{
    assert forall|k: nat| k <= count implies #[trigger] slot_after(k, count) == k by {
        lemma_slot_after(k, count);
        lemma_small_mod(k, count + 1);
    }
    assert forall|k: nat| #[trigger] slot_after(k, count) <= count by {
        lemma_slot_after(k, count);
        lemma_mod_bound(k as int, (count + 1) as int);
    }
    lemma_slot_after(count + 1, count);
    lemma_mod_self_0((count + 1) as int);
}

/// Within the slots of a list, moving to the next slot and moving to the
/// previous slot undo each other.
pub proof fn lemma_slot_moves_undo(slot: nat, count: nat)
    requires
        slot <= count,
    ensures
        previous_slot(Some(next_slot(Some(slot), count)), count) == slot,
        next_slot(Some(previous_slot(Some(slot), count)), count) == slot,
{
    if slot < count {
        lemma_small_mod(slot + 1, count + 1);
    } else {
        lemma_mod_self_0((count + 1) as int);
    }
    if slot == 0 {
        lemma_mod_self_0((count + 1) as int);
    } else {
        lemma_small_mod(slot, count + 1);
    }
}

/// Backspace undoes a typed character: after a character went into the
/// buffer, backspace gives back the buffer as it was.
pub proof fn lemma_backspace_undoes_input(pane: ContentPaneView, c: char)
    requires
        pane.wf(),
        pane.accepts_input(),
    ensures
        pane.handle_text_input(c).handle_backspace() == pane,
{
    let i = pane.current_field as int;
    let k = pane.cursor_position as int;
    let typed = pane.handle_text_input(c);
    assert(pane.fields[i].insert(k, c).remove(k) =~= pane.fields[i]);
    assert(typed.handle_backspace().fields =~= pane.fields);
}

/// Moving to the next field and back returns to the field one came from.
pub proof fn lemma_field_moves_undo(pane: ContentPaneView)
    requires
        pane.wf(),
        pane.is_editing,
        !pane.on_last_field(),
    ensures
        pane.next_field().previous_field().current_field == pane.current_field,
        pane.next_field().previous_field().fields == pane.fields,
{
}

} // verus!
