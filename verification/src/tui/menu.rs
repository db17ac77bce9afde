//! The sections of the editor and the two regions that can hold input focus.
//!
//! The sections form a cycle: moving on from the last one reaches the first.

use vstd::arithmetic::div_mod::{lemma_add_mod_noop_right, lemma_mul_mod_noop_right};
use vstd::prelude::*;

verus! {

/// One of the seven top-level sections, in sidebar order.
#[derive(Debug, Clone, Copy, PartialEq, Eq, Structural)]
pub enum MenuItem {
    PersonalInfo,
    Education,
    Experience,
    Projects,
    Skills,
    Export,
    Exit,
}

/// The region that receives keyboard input.
#[derive(Debug, Clone, Copy, PartialEq, Eq, Structural)]
pub enum Focus {
    Sidebar,
    Content,
}

/// The number of sections.
pub open spec fn section_count() -> nat {
    7
}

/// All sections in sidebar order.
pub open spec fn sections() -> Seq<MenuItem> {
    seq![
        MenuItem::PersonalInfo,
        MenuItem::Education,
        MenuItem::Experience,
        MenuItem::Projects,
        MenuItem::Skills,
        MenuItem::Export,
        MenuItem::Exit,
    ]
}

impl MenuItem {
    /// Position of the section in sidebar order, starting at zero.
    pub open spec fn index(self) -> nat {
        match self {
            MenuItem::PersonalInfo => 0,
            MenuItem::Education => 1,
            MenuItem::Experience => 2,
            MenuItem::Projects => 3,
            MenuItem::Skills => 4,
            MenuItem::Export => 5,
            MenuItem::Exit => 6,
        }
    }

    /// The section at position `i` of the cycle; positions are taken modulo
    /// the number of sections.
    pub open spec fn at(i: nat) -> MenuItem {
        sections()[(i % 7) as int]
    }

    /// The section after this one; the last is followed by the first.
    pub open spec fn next(self) -> MenuItem {
        MenuItem::at(self.index() + 1)
    }

    /// The section before this one; the first is preceded by the last.
    pub open spec fn previous(self) -> MenuItem {
        MenuItem::at(self.index() + 6)
    }

    /// The section reached by moving on `k` times.
    pub open spec fn advance(self, k: nat) -> MenuItem
        decreases k,
    {
        if k == 0 {
            self
        } else {
            self.advance((k - 1) as nat).next()
        }
    }

    /// The section reached by moving back `k` times.
    pub open spec fn retreat(self, k: nat) -> MenuItem
        decreases k,
    {
        if k == 0 {
            self
        } else {
            self.retreat((k - 1) as nat).previous()
        }
    }

    /// Whether the section shows a list of entries.
    pub open spec fn is_list(self) -> bool {
        self == MenuItem::Education || self == MenuItem::Experience || self == MenuItem::Projects
    }

    /// The name shown for the section.
    pub open spec fn title_text(self) -> Seq<char> {
        match self {
            MenuItem::PersonalInfo => "Personal Info"@,
            MenuItem::Education => "Education"@,
            MenuItem::Experience => "Experience"@,
            MenuItem::Projects => "Projects"@,
            MenuItem::Skills => "Skills"@,
            MenuItem::Export => "Export"@,
            MenuItem::Exit => "Exit Application"@,
        }
    }

    /// The section that the digit `num` selects, counting from one.
    pub open spec fn of_number(num: int) -> Option<MenuItem> {
        if 1 <= num <= 7 {
            Some(sections()[num - 1])
        } else {
            None
        }
    }

    /// The name shown for the section.
    pub fn title(&self) -> (name: &'static str)
        ensures
            name@ == self.title_text(),
    {
        match self {
            MenuItem::PersonalInfo => "Personal Info",
            MenuItem::Education => "Education",
            MenuItem::Experience => "Experience",
            MenuItem::Projects => "Projects",
            MenuItem::Skills => "Skills",
            MenuItem::Export => "Export",
            MenuItem::Exit => "Exit Application",
        }
    }

    /// All sections in sidebar order.
    pub fn all() -> (items: Vec<MenuItem>)
        ensures
            items@ == sections(),
    {
        let mut items: Vec<MenuItem> = Vec::new();
        items.push(MenuItem::PersonalInfo);
        items.push(MenuItem::Education);
        items.push(MenuItem::Experience);
        items.push(MenuItem::Projects);
        items.push(MenuItem::Skills);
        items.push(MenuItem::Export);
        items.push(MenuItem::Exit);
        items
    }

    /// The section that the digit `num` selects: 1 is the first section, 7
    /// the last, and no other number selects anything.
    pub fn from_number(num: u8) -> (item: Option<MenuItem>)
        ensures
            item == MenuItem::of_number(num as int),
    {
        match num {
            1 => Some(MenuItem::PersonalInfo),
            2 => Some(MenuItem::Education),
            3 => Some(MenuItem::Experience),
            4 => Some(MenuItem::Projects),
            5 => Some(MenuItem::Skills),
            6 => Some(MenuItem::Export),
            7 => Some(MenuItem::Exit),
            _ => None,
        }
    }

    /// The section after this one in the cycle.
    pub fn following(&self) -> (item: MenuItem)
        ensures
            item == self.next(),
    {
        match self {
            MenuItem::PersonalInfo => MenuItem::Education,
            MenuItem::Education => MenuItem::Experience,
            MenuItem::Experience => MenuItem::Projects,
            MenuItem::Projects => MenuItem::Skills,
            MenuItem::Skills => MenuItem::Export,
            MenuItem::Export => MenuItem::Exit,
            MenuItem::Exit => MenuItem::PersonalInfo,
        }
    }

    /// The section before this one in the cycle.
    pub fn preceding(&self) -> (item: MenuItem)
        ensures
            item == self.previous(),
    {
        match self {
            MenuItem::PersonalInfo => MenuItem::Exit,
            MenuItem::Education => MenuItem::PersonalInfo,
            MenuItem::Experience => MenuItem::Education,
            MenuItem::Projects => MenuItem::Experience,
            MenuItem::Skills => MenuItem::Projects,
            MenuItem::Export => MenuItem::Skills,
            MenuItem::Exit => MenuItem::Export,
        }
    }

    /// Whether the section shows a list of entries.
    pub fn has_entries(&self) -> (b: bool)
        ensures
            b == self.is_list(),
    {
        match self {
            MenuItem::Education | MenuItem::Experience | MenuItem::Projects => true,
            _ => false,
        }
    }
}

/// Every section sits at its own position of the cycle.
pub proof fn lemma_at_index(section: MenuItem)
    ensures
        section.index() < 7,
        MenuItem::at(section.index()) == section,
{
}

/// Moving on `k` times adds `k` to the position, modulo seven.
pub proof fn lemma_advance_position(section: MenuItem, k: nat)
    ensures
        section.advance(k) == MenuItem::at(section.index() + k),
        section.advance(k).index() == (section.index() + k) % 7,
    decreases k,
{
    if k > 0 {
        lemma_advance_position(section, (k - 1) as nat);
    }
}

/// Moving back `k` times subtracts `k` from the position, modulo seven.
pub proof fn lemma_retreat_position(section: MenuItem, k: nat)
    ensures
        section.retreat(k) == MenuItem::at(section.index() + 6 * k),
        section.retreat(k).index() == (section.index() + 6 * k) % 7,
    decreases k,
{
    if k > 0 {
        lemma_retreat_position(section, (k - 1) as nat);
    }
}

/// Moving on `k` times from any section ends where moving on `k mod 7`
/// times ends: the seven sections form a cycle.
pub proof fn lemma_advance_cycles(section: MenuItem, k: nat)
    ensures
        section.advance(k) == section.advance(k % 7),
        section.advance(7) == section,
{
    lemma_advance_position(section, k);
    lemma_advance_position(section, k % 7);
    lemma_advance_position(section, 7);
    lemma_add_mod_noop_right(section.index() as int, k as int, 7);
}

/// Moving back `k` times from any section ends where moving back `k mod 7`
/// times ends.
pub proof fn lemma_retreat_cycles(section: MenuItem, k: nat)
    ensures
        section.retreat(k) == section.retreat(k % 7),
        section.retreat(7) == section,
{
    lemma_retreat_position(section, k);
    lemma_retreat_position(section, k % 7);
    lemma_retreat_position(section, 7);
    let i = section.index() as int;
    lemma_mul_mod_noop_right(6, k as int, 7);
    lemma_add_mod_noop_right(i, 6 * (k as int), 7);
    lemma_add_mod_noop_right(i, 6 * ((k % 7) as int), 7);
}

/// Moving on and then back, or back and then on, returns to the start.
pub proof fn lemma_next_previous(section: MenuItem)
    ensures
        section.next().previous() == section,
        section.previous().next() == section,
{
}

} // verus!
