//! What the content pane shows: the lines of its frame, computed from the
//! pane, the focus and the record. Nothing is drawn here.

use crate::data::manager::{DataManager, DataManagerView};
use crate::text::{char_count, decimal, format_number, texts};
use crate::tui::components::content_pane::{
    count_entries, entry_count, field_labels, label_texts, selection, ContentPane,
    ContentPaneView,
};
use crate::tui::menu::{Focus, MenuItem};
use crate::tui::style::{
    blank_line, line_views, strong, text_line, tinted, tinted_line, Color, LineStyle, LineView,
    StyledLine,
};
use vstd::prelude::*;
use vstd::string::StringExecFns;

verus! {

/// The word for an entry of a list-bearing section.
pub open spec fn noun(menu: MenuItem) -> Seq<char> {
    match menu {
        MenuItem::Education => "education"@,
        MenuItem::Experience => "experience"@,
        _ => "project"@,
    }
}

/// One line for each bullet point.
pub open spec fn point_lines(points: Seq<Seq<char>>) -> Seq<LineView> {
    points.map_values(|p: Seq<char>| text_line("   • "@ + p))
}

/// The numbered title of entry `i` of a list-bearing section.
pub open spec fn entry_title(data: DataManagerView, menu: MenuItem, i: int) -> Seq<char> {
    let number = decimal((i + 1) as nat);
    match menu {
        MenuItem::Education => number + ". "@ + data.resume.education[i].name,
        MenuItem::Experience => number + ". "@ + data.resume.experience[i].position + " at "@
            + data.resume.experience[i].company,
        _ => number + ". "@ + data.resume.projects[i].name,
    }
}

/// The lines that show what entry `i` of a list-bearing section holds.
pub open spec fn entry_details(data: DataManagerView, menu: MenuItem, i: int) -> Seq<LineView> {
    match menu {
        MenuItem::Education => {
            let e = data.resume.education[i];
            seq![text_line("   Degree: "@ + e.degree), text_line("   Years: "@ + e.years)]
                + point_lines(e.points) + seq![blank_line()]
        },
        MenuItem::Experience => {
            let e = data.resume.experience[i];
            seq![
                text_line("   Company: "@ + e.company),
                text_line("   Position: "@ + e.position),
                text_line("   Duration: "@ + e.years),
            ] + point_lines(e.points) + seq![blank_line()]
        },
        _ => {
            let p = data.resume.projects[i];
            (match p.link {
                Some(link) => seq![text_line("   Link: "@ + link)],
                None => Seq::empty(),
            }) + point_lines(p.points) + seq![blank_line()]
        },
    }
}

/// Whether entry `i` is shown with its details: it is selected and the
/// focus is in the content pane.
pub open spec fn entry_is_open(selected: Option<nat>, focus: Focus, i: int) -> bool {
    selected == Some(i as nat) && focus == Focus::Content
}

/// The lines of entry `i`: its title, and its details if it is open.
pub open spec fn entry_block(
    data: DataManagerView,
    menu: MenuItem,
    selected: Option<nat>,
    focus: Focus,
    i: int,
) -> Seq<LineView> {
    if entry_is_open(selected, focus, i) {
        seq![LineView { text: entry_title(data, menu, i), style: strong(Color::Yellow) }]
            + entry_details(data, menu, i)
    } else {
        seq![LineView { text: entry_title(data, menu, i), style: tinted(Color::DarkGray) }]
    }
}

/// The lines of the first `n` entries, in order.
pub open spec fn entry_blocks(
    data: DataManagerView,
    menu: MenuItem,
    selected: Option<nat>,
    focus: Focus,
    n: nat,
) -> Seq<LineView>
    decreases n,
{
    if n == 0 {
        Seq::empty()
    } else {
        entry_blocks(data, menu, selected, focus, (n - 1) as nat) + entry_block(
            data,
            menu,
            selected,
            focus,
            n - 1,
        )
    }
}

/// The line of the slot "add a new entry" of a list of `n` entries.
pub open spec fn add_line(menu: MenuItem, selected: Option<nat>, n: nat) -> LineView {
    LineView {
        text: decimal(n + 1) + ". + Add new "@ + noun(menu),
        style: if selected == Some(n) {
            strong(Color::Green)
        } else {
            tinted(Color::Green)
        },
    }
}

/// The lines of a list-bearing section. An empty list shows an invitation
/// to add an entry. Otherwise every entry is listed, the selected one with
/// its details, and with the focus in the content pane the slot "add a new
/// entry" and a hint follow.
pub open spec fn list_lines(
    data: DataManagerView,
    menu: MenuItem,
    selected: Option<nat>,
    focus: Focus,
) -> Seq<LineView> {
    let n = entry_count(data, menu);
    if n == 0 {
        seq![
            blank_line(),
            text_line("No "@ + noun(menu) + " entries found."@),
            blank_line(),
            tinted_line("Press Enter to add "@ + noun(menu), Color::Yellow),
        ]
    } else {
        seq![blank_line()] + entry_blocks(data, menu, selected, focus, n) + (if focus
            == Focus::Content {
            seq![
                add_line(menu, selected, n),
                blank_line(),
                tinted_line("Use ↑/↓ to select, Enter to edit"@, Color::Cyan),
            ]
        } else {
            Seq::empty()
        })
    }
}

/// The lines of the section Personal Info.
pub open spec fn personal_info_lines(data: DataManagerView, focus: Focus) -> Seq<LineView> {
    seq![
        blank_line(),
        text_line("Name: "@ + data.resume.name),
        text_line("Contact: "@ + data.resume.contact),
    ] + (match data.resume.website {
        Some(website) => seq![text_line("Website: "@ + website)],
        None => Seq::empty(),
    }) + seq![blank_line()] + (if focus == Focus::Content {
        seq![tinted_line("Press Enter to edit"@, Color::Magenta)]
    } else {
        Seq::empty()
    })
}

/// The lines of the section Skills.
pub open spec fn skills_lines(focus: Focus) -> Seq<LineView> {
    seq![
        blank_line(),
        text_line("List your technical skills:"@),
        text_line("• Programming Languages: [List languages]"@),
        text_line("• Frameworks: [Web frameworks, libraries]"@),
        text_line("• Tools: [Development tools, IDEs]"@),
        text_line("• Databases: [Database technologies]"@),
        text_line("• Other: [Certifications, soft skills]"@),
        blank_line(),
        if focus == Focus::Content {
            tinted_line("Press Enter to add/edit skills"@, Color::Yellow)
        } else {
            blank_line()
        },
    ]
}

/// The lines of the section Export: where the export goes and, once an
/// export was asked for, its status.
pub open spec fn export_lines(status: Option<Seq<char>>, focus: Focus) -> Seq<LineView> {
    seq![
        blank_line(),
        text_line("Export your resume to LaTeX format"@),
        blank_line(),
        text_line("Export location: ./output/resume.tex"@),
        blank_line(),
    ] + (match status {
        Some(status) => seq![blank_line(), tinted_line("Status: "@ + status, Color::Green)],
        None => if focus == Focus::Content {
            seq![tinted_line("Press Enter to export resume"@, Color::Yellow)]
        } else {
            Seq::empty()
        },
    })
}

/// The lines of the section Exit.
pub open spec fn exit_lines() -> Seq<LineView> {
    seq![blank_line(), tinted_line("Press Enter to exit"@, Color::Red)]
}

/// The line of one field of the edit form: its label, its text or a
/// placeholder if it is empty, and a cursor mark if it is the current
/// field: `|` with the cursor inside the text, `_` with the cursor at its
/// end.
pub open spec fn field_line(label: Seq<char>, value: Seq<char>, current: bool, cursor: nat) -> LineView {
    let shown = if value.len() == 0 {
        "[Enter "@ + label + "]"@
    } else {
        value
    };
    let mark = if current && cursor < value.len() {
        "|"@
    } else if current {
        "_"@
    } else {
        " "@
    };
    LineView {
        text: label + ": "@ + shown + mark,
        style: if current {
            strong(Color::Yellow)
        } else {
            tinted(Color::White)
        },
    }
}

/// The smaller of two numbers.
pub open spec fn smaller(a: nat, b: nat) -> nat {
    if a <= b {
        a
    } else {
        b
    }
}

impl ContentPaneView {
    /// The lines of the first `n` fields of the edit form under the labels
    /// of `menu`.
    pub open spec fn field_lines(self, menu: MenuItem, n: nat) -> Seq<LineView> {
        Seq::new(
            n,
            |i: int|
                field_line(
                    field_labels(menu)[i],
                    self.fields[i],
                    i == self.current_field,
                    self.cursor_position,
                ),
        )
    }

    /// The lines of the edit form under the labels of `menu`: one line for
    /// each field that has a label.
    pub open spec fn form_lines(self, menu: MenuItem) -> Seq<LineView> {
        seq![
            text_line("Edit Mode - Use ↑/↓ to navigate fields, type to edit, Enter to save"@),
            blank_line(),
        ] + self.field_lines(menu, smaller(field_labels(menu).len(), self.fields.len())) + seq![
            blank_line(),
            tinted_line("Press Tab to switch back to sidebar, Enter to save"@, Color::Cyan),
        ]
    }

    /// The lines of the pane: the edit form while a buffer is open, and
    /// the lines of the active section otherwise.
    pub open spec fn lines(self, menu: MenuItem, focus: Focus, data: DataManagerView) -> Seq<
        LineView,
    > {
        if self.is_editing {
            self.form_lines(menu)
        } else {
            match menu {
                MenuItem::PersonalInfo => personal_info_lines(data, focus),
                MenuItem::Skills => skills_lines(focus),
                MenuItem::Export => export_lines(self.export_status, focus),
                MenuItem::Exit => exit_lines(),
                _ => list_lines(data, menu, self.selected_entry, focus),
            }
        }
    }
}

/// The style of the border of the content pane.
pub open spec fn content_border(focus: Focus) -> LineStyle {
    if focus == Focus::Content {
        tinted(Color::Magenta)
    } else {
        tinted(Color::DarkGray)
    }
}

/// Appends `line` to `lines`.
fn push_line(lines: &mut Vec<StyledLine>, line: StyledLine)
    ensures
        line_views(final(lines)@) == line_views(old(lines)@).push(line@),
{
    lines.push(line);
}

/// Appends `more` to `lines`.
fn push_lines(lines: &mut Vec<StyledLine>, more: Vec<StyledLine>)
    ensures
        line_views(final(lines)@) == line_views(old(lines)@) + line_views(more@),
{
    let ghost added = more@;
    let mut more = more;
    lines.append(&mut more);
}

/// One line for each bullet point.
fn render_points(points: &Vec<String>) -> (lines: Vec<StyledLine>)
    ensures
        line_views(lines@) == point_lines(texts(points@)),
{
    let mut lines: Vec<StyledLine> = Vec::new();
    let mut i: usize = 0;
    while i < points.len()
        invariant
            i <= points.len(),
            lines.len() == i,
            forall|k: int| 0 <= k < i ==> (#[trigger] lines@[k])@ == text_line("   • "@ + points@[k]@),
        decreases points.len() - i,
    {
        lines.push(StyledLine::labelled("   • ", points[i].as_str()));
        i += 1;
    }
    lines
}

/// The numbered title of entry `i`.
fn render_title(data_manager: &DataManager, menu: &MenuItem, i: usize) -> (title: String)
    requires
        menu.is_list(),
        i < entry_count(data_manager@, *menu),
    ensures
        title@ == entry_title(data_manager@, *menu, i as int),
{
    let mut title = format_number(i as u128 + 1);
    title.append(". ");
    match menu {
        MenuItem::Education => {
            title.append(data_manager.resume.education[i].name.as_str());
        },
        MenuItem::Experience => {
            title.append(data_manager.resume.experience[i].position.as_str());
            title.append(" at ");
            title.append(data_manager.resume.experience[i].company.as_str());
        },
        _ => {
            title.append(data_manager.resume.projects[i].name.as_str());
        },
    }
    title
}

/// The lines that show what entry `i` holds.
fn render_details(data_manager: &DataManager, menu: &MenuItem, i: usize) -> (lines: Vec<
    StyledLine,
>)
    requires
        menu.is_list(),
        i < entry_count(data_manager@, *menu),
    ensures
        line_views(lines@) == entry_details(data_manager@, *menu, i as int),
{
    let mut lines: Vec<StyledLine> = Vec::new();
    match menu {
        MenuItem::Education => {
            let e = &data_manager.resume.education[i];
            push_line(&mut lines, StyledLine::labelled("   Degree: ", e.degree.as_str()));
            push_line(&mut lines, StyledLine::labelled("   Years: ", e.years.as_str()));
            push_lines(&mut lines, render_points(&e.points));
        },
        MenuItem::Experience => {
            let e = &data_manager.resume.experience[i];
            push_line(&mut lines, StyledLine::labelled("   Company: ", e.company.as_str()));
            push_line(&mut lines, StyledLine::labelled("   Position: ", e.position.as_str()));
            push_line(&mut lines, StyledLine::labelled("   Duration: ", e.years.as_str()));
            push_lines(&mut lines, render_points(&e.points));
        },
        _ => {
            let p = &data_manager.resume.projects[i];
            if let Some(link) = &p.link {
                push_line(&mut lines, StyledLine::labelled("   Link: ", link.as_str()));
            }
            push_lines(&mut lines, render_points(&p.points));
        },
    }
    push_line(&mut lines, StyledLine::plain(""));
    lines
}

/// The word for an entry of a list-bearing section.
fn noun_of(menu: &MenuItem) -> (word: &'static str)
    ensures
        word@ == noun(*menu),
{
    match menu {
        MenuItem::Education => "education",
        MenuItem::Experience => "experience",
        _ => "project",
    }
}

impl ContentPane {
    /// The lines of a list-bearing section.
    fn render_list(&self, data_manager: &DataManager, menu: &MenuItem, focus: &Focus) -> (lines:
        Vec<StyledLine>)
        requires
            menu.is_list(),
        ensures
            line_views(lines@) == list_lines(
                data_manager@,
                *menu,
                self@.selected_entry,
                *focus,
            ),
    {
        let n: usize = count_entries(data_manager, menu);
        let selected = self.selected_entry();
        let ghost chosen = self@.selected_entry;
        let mut lines: Vec<StyledLine> = Vec::new();
        push_line(&mut lines, StyledLine::plain(""));
        if n == 0 {
            let mut none = String::from_str("No ");
            none.append(noun_of(menu));
            none.append(" entries found.");
            push_line(&mut lines, StyledLine::new(none, LineStyle::plain()));
            push_line(&mut lines, StyledLine::plain(""));
            let mut invite = String::from_str("Press Enter to add ");
            invite.append(noun_of(menu));
            push_line(&mut lines, StyledLine::new(invite, LineStyle::fg(Color::Yellow)));
            return lines;
        }
        let mut i: usize = 0;
        while i < n
            invariant
                menu.is_list(),
                n == entry_count(data_manager@, *menu),
                i <= n,
                selection(selected) == chosen,
                line_views(lines@) == seq![blank_line()] + entry_blocks(
                    data_manager@,
                    *menu,
                    chosen,
                    *focus,
                    i as nat,
                ),
            decreases n - i,
        {
            let title = render_title(data_manager, menu, i);
            let open = selected == Some(i) && *focus == Focus::Content;
            if open {
                push_line(&mut lines, StyledLine::new(title, LineStyle::bold(Color::Yellow)));
                push_lines(&mut lines, render_details(data_manager, menu, i));
            } else {
                push_line(&mut lines, StyledLine::new(title, LineStyle::fg(Color::DarkGray)));
            }
            i += 1;
        }
        if *focus == Focus::Content {
            let mut add = format_number(n as u128 + 1);
            add.append(". + Add new ");
            add.append(noun_of(menu));
            let style = if selected == Some(n) {
                LineStyle::bold(Color::Green)
            } else {
                LineStyle::fg(Color::Green)
            };
            push_line(&mut lines, StyledLine::new(add, style));
            push_line(&mut lines, StyledLine::plain(""));
            push_line(
                &mut lines,
                StyledLine::colored("Use ↑/↓ to select, Enter to edit", Color::Cyan),
            );
        }
        lines
    }

    /// The lines of the section Personal Info: name, contact and, if there
    /// is one, the website.
    pub fn render_personal_info(&self, data_manager: &DataManager, focus: &Focus) -> (lines: Vec<
        StyledLine,
    >)
        ensures
            line_views(lines@) == personal_info_lines(data_manager@, *focus),
    {
        let mut lines: Vec<StyledLine> = Vec::new();
        push_line(&mut lines, StyledLine::plain(""));
        push_line(&mut lines, StyledLine::labelled("Name: ", data_manager.resume.name.as_str()));
        push_line(
            &mut lines,
            StyledLine::labelled("Contact: ", data_manager.resume.contact.as_str()),
        );
        if let Some(website) = &data_manager.resume.website {
            push_line(&mut lines, StyledLine::labelled("Website: ", website.as_str()));
        }
        push_line(&mut lines, StyledLine::plain(""));
        if *focus == Focus::Content {
            push_line(&mut lines, StyledLine::colored("Press Enter to edit", Color::Magenta));
        }
        lines
    }

    /// The lines of the section Education.
    pub fn render_education(&self, data_manager: &DataManager, focus: &Focus) -> (lines: Vec<
        StyledLine,
    >)
        ensures
            line_views(lines@) == list_lines(
                data_manager@,
                MenuItem::Education,
                self@.selected_entry,
                *focus,
            ),
    {
        self.render_list(data_manager, &MenuItem::Education, focus)
    }

    /// The lines of the section Experience.
    pub fn render_experience(&self, data_manager: &DataManager, focus: &Focus) -> (lines: Vec<
        StyledLine,
    >)
        ensures
            line_views(lines@) == list_lines(
                data_manager@,
                MenuItem::Experience,
                self@.selected_entry,
                *focus,
            ),
    {
        self.render_list(data_manager, &MenuItem::Experience, focus)
    }

    /// The lines of the section Projects.
    pub fn render_projects(&self, data_manager: &DataManager, focus: &Focus) -> (lines: Vec<
        StyledLine,
    >)
        ensures
            line_views(lines@) == list_lines(
                data_manager@,
                MenuItem::Projects,
                self@.selected_entry,
                *focus,
            ),
    {
        self.render_list(data_manager, &MenuItem::Projects, focus)
    }

    /// The lines of the section Skills.
    pub fn render_skills(&self, focus: &Focus) -> (lines: Vec<StyledLine>)
        ensures
            line_views(lines@) == skills_lines(*focus),
    {
        let mut lines: Vec<StyledLine> = Vec::new();
        push_line(&mut lines, StyledLine::plain(""));
        push_line(&mut lines, StyledLine::plain("List your technical skills:"));
        push_line(&mut lines, StyledLine::plain("• Programming Languages: [List languages]"));
        push_line(&mut lines, StyledLine::plain("• Frameworks: [Web frameworks, libraries]"));
        push_line(&mut lines, StyledLine::plain("• Tools: [Development tools, IDEs]"));
        push_line(&mut lines, StyledLine::plain("• Databases: [Database technologies]"));
        push_line(&mut lines, StyledLine::plain("• Other: [Certifications, soft skills]"));
        push_line(&mut lines, StyledLine::plain(""));
        if *focus == Focus::Content {
            push_line(
                &mut lines,
                StyledLine::colored("Press Enter to add/edit skills", Color::Yellow),
            );
        } else {
            push_line(&mut lines, StyledLine::plain(""));
        }
        lines
    }

    /// The lines of the section Export.
    pub fn render_export(&self, focus: &Focus) -> (lines: Vec<StyledLine>)
        ensures
            line_views(lines@) == export_lines(self@.export_status, *focus),
    {
        let mut lines: Vec<StyledLine> = Vec::new();
        push_line(&mut lines, StyledLine::plain(""));
        push_line(&mut lines, StyledLine::plain("Export your resume to LaTeX format"));
        push_line(&mut lines, StyledLine::plain(""));
        push_line(&mut lines, StyledLine::plain("Export location: ./output/resume.tex"));
        push_line(&mut lines, StyledLine::plain(""));
        match self.export_status() {
            Some(status) => {
                push_line(&mut lines, StyledLine::plain(""));
                let mut text = String::from_str("Status: ");
                text.append(status.as_str());
                push_line(&mut lines, StyledLine::new(text, LineStyle::fg(Color::Green)));
            },
            None => {
                if *focus == Focus::Content {
                    push_line(
                        &mut lines,
                        StyledLine::colored("Press Enter to export resume", Color::Yellow),
                    );
                }
            },
        }
        lines
    }

    /// The lines of the section Exit.
    pub fn render_exit(&self) -> (lines: Vec<StyledLine>)
        ensures
            line_views(lines@) == exit_lines(),
    {
        let mut lines: Vec<StyledLine> = Vec::new();
        push_line(&mut lines, StyledLine::plain(""));
        push_line(&mut lines, StyledLine::colored("Press Enter to exit", Color::Red));
        lines
    }

    /// The line of field `i` of the edit form under `label`.
    fn render_field(&self, label: &str, i: usize) -> (line: StyledLine)
        requires
            i < self@.fields.len(),
        ensures
            line@ == field_line(
                label@,
                self@.fields[i as int],
                i == self@.current_field,
                self@.cursor_position,
            ),
    {
        let value = self.fields()[i].as_str();
        let current = i == self.current_field();
        let length = char_count(value);
        let mut text = String::from_str(label);
        text.append(": ");
        if length == 0 {
            text.append("[Enter ");
            text.append(label);
            text.append("]");
        } else {
            text.append(value);
        }
        if current && self.cursor_position() < length {
            text.append("|");
        } else if current {
            text.append("_");
        } else {
            text.append(" ");
        }
        let style = if current {
            LineStyle::bold(Color::Yellow)
        } else {
            LineStyle::fg(Color::White)
        };
        let line = StyledLine::new(text, style);
        assert(line@.text =~= field_line(
            label@,
            self@.fields[i as int],
            i == self@.current_field,
            self@.cursor_position,
        ).text);
        line
    }

    /// The lines of the edit form under the labels of `menu`.
    pub fn render_editing_form(&self, menu: &MenuItem) -> (lines: Vec<StyledLine>)
        ensures
            line_views(lines@) == self@.form_lines(*menu),
    {
        let labels = self.get_field_labels(menu);
        let label_count: usize = labels.len();
        let field_count: usize = self.fields().len();
        let count: usize = if label_count <= field_count {
            label_count
        } else {
            field_count
        };
        let mut lines: Vec<StyledLine> = Vec::new();
        push_line(
            &mut lines,
            StyledLine::plain(
                "Edit Mode - Use ↑/↓ to navigate fields, type to edit, Enter to save",
            ),
        );
        push_line(&mut lines, StyledLine::plain(""));
        let ghost head = line_views(lines@);
        let mut i: usize = 0;
        while i < count
            invariant
                i <= count,
                count <= labels.len(),
                count <= self@.fields.len(),
                label_texts(labels@) == field_labels(*menu),
                line_views(lines@) == head + self@.field_lines(*menu, i as nat),
            decreases count - i,
        {
            let line = self.render_field(labels[i], i);
            push_line(&mut lines, line);
            i += 1;
        }
        push_line(&mut lines, StyledLine::plain(""));
        push_line(
            &mut lines,
            StyledLine::colored(
                "Press Tab to switch back to sidebar, Enter to save",
                Color::Cyan,
            ),
        );
        lines
    }

    /// The lines of the pane for the active section `current_menu`.
    pub fn render(&self, current_menu: &MenuItem, focus: &Focus, data_manager: &DataManager) -> (lines:
        Vec<StyledLine>)
        ensures
            line_views(lines@) == self@.lines(*current_menu, *focus, data_manager@),
    {
        if self.is_editing() {
            self.render_editing_form(current_menu)
        } else {
            match current_menu {
                MenuItem::PersonalInfo => self.render_personal_info(data_manager, focus),
                MenuItem::Education => self.render_education(data_manager, focus),
                MenuItem::Experience => self.render_experience(data_manager, focus),
                MenuItem::Projects => self.render_projects(data_manager, focus),
                MenuItem::Skills => self.render_skills(focus),
                MenuItem::Export => self.render_export(focus),
                MenuItem::Exit => self.render_exit(),
            }
        }
    }

    /// The style of the border of the pane: highlighted while the pane has
    /// the focus.
    pub fn border_style(&self, focus: &Focus) -> (style: LineStyle)
        ensures
            style == content_border(*focus),
    {
        if *focus == Focus::Content {
            LineStyle::fg(Color::Magenta)
        } else {
            LineStyle::fg(Color::DarkGray)
        }
    }
}

} // verus!
