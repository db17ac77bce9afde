//! The record store: the résumé held in memory and the operations that add,
//! replace and remove list entries. Entries have no identity but their index.

use crate::text::texts;
use vstd::prelude::*;
use vstd::string::StringExecFns;

verus! {

/// One education entry.
#[derive(Debug, Clone)]
pub struct Education {
    pub name: String,
    pub degree: String,
    pub years: String,
    pub points: Vec<String>,
}

/// One project entry. A project without a link has `None`, never an empty
/// link.
#[derive(Debug, Clone)]
pub struct Project {
    pub name: String,
    pub link: Option<String>,
    pub points: Vec<String>,
}

/// One experience entry.
#[derive(Debug, Clone)]
pub struct Experience {
    pub company: String,
    pub position: String,
    pub years: String,
    pub points: Vec<String>,
}

/// The whole record. The three lists keep insertion order.
#[derive(Debug, Clone)]
pub struct Resume {
    pub name: String,
    pub contact: String,
    pub website: Option<String>,
    pub education: Vec<Education>,
    pub projects: Vec<Project>,
    pub experience: Vec<Experience>,
}

/// The record together with the place it is stored at.
#[derive(Debug)]
pub struct DataManager {
    pub resume: Resume,
    pub file_path: String,
}

/// What an [`Education`] holds.
pub struct EducationView {
    pub name: Seq<char>,
    pub degree: Seq<char>,
    pub years: Seq<char>,
    pub points: Seq<Seq<char>>,
}

/// What a [`Project`] holds.
pub struct ProjectView {
    pub name: Seq<char>,
    pub link: Option<Seq<char>>,
    pub points: Seq<Seq<char>>,
}

/// What an [`Experience`] holds.
pub struct ExperienceView {
    pub company: Seq<char>,
    pub position: Seq<char>,
    pub years: Seq<char>,
    pub points: Seq<Seq<char>>,
}

/// What a [`Resume`] holds.
pub struct ResumeView {
    pub name: Seq<char>,
    pub contact: Seq<char>,
    pub website: Option<Seq<char>>,
    pub education: Seq<EducationView>,
    pub projects: Seq<ProjectView>,
    pub experience: Seq<ExperienceView>,
}

/// What a [`DataManager`] holds.
pub struct DataManagerView {
    pub resume: ResumeView,
    pub file_path: Seq<char>,
}

/// The text of an optional string.
pub open spec fn optional_text(s: Option<String>) -> Option<Seq<char>> {
    match s {
        Some(s) => Some(s@),
        None => None,
    }
}

impl View for Education {
    type V = EducationView;

    open spec fn view(&self) -> EducationView {
        EducationView {
            name: self.name@,
            degree: self.degree@,
            years: self.years@,
            points: texts(self.points@),
        }
    }
}

impl View for Project {
    type V = ProjectView;

    open spec fn view(&self) -> ProjectView {
        ProjectView {
            name: self.name@,
            link: optional_text(self.link),
            points: texts(self.points@),
        }
    }
}

impl View for Experience {
    type V = ExperienceView;

    open spec fn view(&self) -> ExperienceView {
        ExperienceView {
            company: self.company@,
            position: self.position@,
            years: self.years@,
            points: texts(self.points@),
        }
    }
}

impl View for Resume {
    type V = ResumeView;

    open spec fn view(&self) -> ResumeView {
        ResumeView {
            name: self.name@,
            contact: self.contact@,
            website: optional_text(self.website),
            education: self.education@.map_values(|e: Education| e@),
            projects: self.projects@.map_values(|p: Project| p@),
            experience: self.experience@.map_values(|e: Experience| e@),
        }
    }
}

impl View for DataManager {
    type V = DataManagerView;

    open spec fn view(&self) -> DataManagerView {
        DataManagerView { resume: self.resume@, file_path: self.file_path@ }
    }
}

impl DataManagerView {
    /// The store with `entry` appended to the education list.
    pub open spec fn add_education(self, entry: EducationView) -> DataManagerView {
        DataManagerView {
            resume: ResumeView { education: self.resume.education.push(entry), ..self.resume },
            ..self
        }
    }

    /// The store with `entry` appended to the experience list.
    pub open spec fn add_experience(self, entry: ExperienceView) -> DataManagerView {
        DataManagerView {
            resume: ResumeView { experience: self.resume.experience.push(entry), ..self.resume },
            ..self
        }
    }

    /// The store with `entry` appended to the project list.
    pub open spec fn add_project(self, entry: ProjectView) -> DataManagerView {
        DataManagerView {
            resume: ResumeView { projects: self.resume.projects.push(entry), ..self.resume },
            ..self
        }
    }

    /// The store with education entry `index` replaced by `entry`.
    pub open spec fn update_education(self, index: int, entry: EducationView) -> DataManagerView
        recommends
            0 <= index < self.resume.education.len(),
    {
        DataManagerView {
            resume: ResumeView {
                education: self.resume.education.update(index, entry),
                ..self.resume
            },
            ..self
        }
    }

    /// The store with experience entry `index` replaced by `entry`.
    pub open spec fn update_experience(self, index: int, entry: ExperienceView) -> DataManagerView
        recommends
            0 <= index < self.resume.experience.len(),
    {
        DataManagerView {
            resume: ResumeView {
                experience: self.resume.experience.update(index, entry),
                ..self.resume
            },
            ..self
        }
    }

    /// The store with project entry `index` replaced by `entry`.
    pub open spec fn update_project(self, index: int, entry: ProjectView) -> DataManagerView
        recommends
            0 <= index < self.resume.projects.len(),
    {
        DataManagerView {
            resume: ResumeView {
                projects: self.resume.projects.update(index, entry),
                ..self.resume
            },
            ..self
        }
    }

    /// The store without education entry `index`; later entries move down by
    /// one.
    pub open spec fn delete_education(self, index: int) -> DataManagerView
        recommends
            0 <= index < self.resume.education.len(),
    {
        DataManagerView {
            resume: ResumeView { education: self.resume.education.remove(index), ..self.resume },
            ..self
        }
    }

    /// The store without experience entry `index`; later entries move down by
    /// one.
    pub open spec fn delete_experience(self, index: int) -> DataManagerView
        recommends
            0 <= index < self.resume.experience.len(),
    {
        DataManagerView {
            resume: ResumeView { experience: self.resume.experience.remove(index), ..self.resume },
            ..self
        }
    }

    /// The store without project entry `index`; later entries move down by
    /// one.
    pub open spec fn delete_project(self, index: int) -> DataManagerView
        recommends
            0 <= index < self.resume.projects.len(),
    {
        DataManagerView {
            resume: ResumeView { projects: self.resume.projects.remove(index), ..self.resume },
            ..self
        }
    }
}

/// The error text for an education index past the end of the list.
pub open spec fn education_bounds_message() -> Seq<char> {
    "Education index out of bounds"@
}

/// The error text for an experience index past the end of the list.
pub open spec fn experience_bounds_message() -> Seq<char> {
    "Experience index out of bounds"@
}

/// The error text for a project index past the end of the list.
pub open spec fn project_bounds_message() -> Seq<char> {
    "Project index out of bounds"@
}

impl DataManager {
    /// A store that holds `resume` and belongs to the file at `file_path`.
    pub fn new(file_path: &str, resume: Resume) -> (manager: DataManager)
        ensures
            manager.resume == resume,
            manager@.resume == resume@,
            manager@.file_path == file_path@,
    {
        DataManager { resume, file_path: String::from_str(file_path) }
    }

    /// Appends an education entry.
    pub fn add_education(&mut self, education: Education)
        ensures
            final(self)@ == old(self)@.add_education(education@),
    {
        self.resume.education.push(education);
        assert(self@.resume.education =~= old(self)@.resume.education.push(education@));
    }

    /// Appends an experience entry.
    pub fn add_experience(&mut self, experience: Experience)
        ensures
            final(self)@ == old(self)@.add_experience(experience@),
    {
        self.resume.experience.push(experience);
        assert(self@.resume.experience =~= old(self)@.resume.experience.push(experience@));
    }

    /// Appends a project entry.
    pub fn add_project(&mut self, project: Project)
        ensures
            final(self)@ == old(self)@.add_project(project@),
    {
        self.resume.projects.push(project);
        assert(self@.resume.projects =~= old(self)@.resume.projects.push(project@));
    }

    /// Replaces education entry `index`. An index at or past the end of the
    /// list is refused and leaves the store as it was.
    pub fn update_education(&mut self, index: usize, education: Education) -> (r: Result<
        (),
        String,
    >)
        ensures
            index < old(self)@.resume.education.len() ==> r is Ok && final(self)@ == old(
                self,
            )@.update_education(index as int, education@),
            index >= old(self)@.resume.education.len() ==> r is Err && r->Err_0@
                == education_bounds_message() && *final(self) == *old(self),
    {
        if index < self.resume.education.len() {
            self.resume.education.set(index, education);
            assert(self@.resume.education =~= old(self)@.resume.education.update(
                index as int,
                education@,
            ));
            Ok(())
        } else {
            Err(String::from_str("Education index out of bounds"))
        }
    }

    /// Replaces experience entry `index`. An index at or past the end of the
    /// list is refused and leaves the store as it was.
    pub fn update_experience(&mut self, index: usize, experience: Experience) -> (r: Result<
        (),
        String,
    >)
        ensures
            index < old(self)@.resume.experience.len() ==> r is Ok && final(self)@ == old(
                self,
            )@.update_experience(index as int, experience@),
            index >= old(self)@.resume.experience.len() ==> r is Err && r->Err_0@
                == experience_bounds_message() && *final(self) == *old(self),
    {
        if index < self.resume.experience.len() {
            self.resume.experience.set(index, experience);
            assert(self@.resume.experience =~= old(self)@.resume.experience.update(
                index as int,
                experience@,
            ));
            Ok(())
        } else {
            Err(String::from_str("Experience index out of bounds"))
        }
    }

    /// Replaces project entry `index`. An index at or past the end of the
    /// list is refused and leaves the store as it was.
    pub fn update_project(&mut self, index: usize, project: Project) -> (r: Result<(), String>)
        ensures
            index < old(self)@.resume.projects.len() ==> r is Ok && final(self)@ == old(
                self,
            )@.update_project(index as int, project@),
            index >= old(self)@.resume.projects.len() ==> r is Err && r->Err_0@
                == project_bounds_message() && *final(self) == *old(self),
    {
        if index < self.resume.projects.len() {
            self.resume.projects.set(index, project);
            assert(self@.resume.projects =~= old(self)@.resume.projects.update(
                index as int,
                project@,
            ));
            Ok(())
        } else {
            Err(String::from_str("Project index out of bounds"))
        }
    }

    /// Removes education entry `index`; the entries after it move down by
    /// one. An index at or past the end of the list is refused and leaves the
    /// store as it was.
    pub fn delete_education(&mut self, index: usize) -> (r: Result<(), String>)
        ensures
            index < old(self)@.resume.education.len() ==> r is Ok && final(self)@ == old(
                self,
            )@.delete_education(index as int),
            index >= old(self)@.resume.education.len() ==> r is Err && r->Err_0@
                == education_bounds_message() && *final(self) == *old(self),
    {
        if index < self.resume.education.len() {
            self.resume.education.remove(index);
            assert(self@.resume.education =~= old(self)@.resume.education.remove(index as int));
            Ok(())
        } else {
            Err(String::from_str("Education index out of bounds"))
        }
    }

    /// Removes experience entry `index`; the entries after it move down by
    /// one. An index at or past the end of the list is refused and leaves the
    /// store as it was.
    pub fn delete_experience(&mut self, index: usize) -> (r: Result<(), String>)
        ensures
            index < old(self)@.resume.experience.len() ==> r is Ok && final(self)@ == old(
                self,
            )@.delete_experience(index as int),
            index >= old(self)@.resume.experience.len() ==> r is Err && r->Err_0@
                == experience_bounds_message() && *final(self) == *old(self),
    {
        if index < self.resume.experience.len() {
            self.resume.experience.remove(index);
            assert(self@.resume.experience =~= old(self)@.resume.experience.remove(index as int));
            Ok(())
        } else {
            Err(String::from_str("Experience index out of bounds"))
        }
    }

    /// Removes project entry `index`; the entries after it move down by one.
    /// An index at or past the end of the list is refused and leaves the
    /// store as it was.
    pub fn delete_project(&mut self, index: usize) -> (r: Result<(), String>)
        ensures
            index < old(self)@.resume.projects.len() ==> r is Ok && final(self)@ == old(
                self,
            )@.delete_project(index as int),
            index >= old(self)@.resume.projects.len() ==> r is Err && r->Err_0@
                == project_bounds_message() && *final(self) == *old(self),
    {
        if index < self.resume.projects.len() {
            self.resume.projects.remove(index);
            assert(self@.resume.projects =~= old(self)@.resume.projects.remove(index as int));
            Ok(())
        } else {
            Err(String::from_str("Project index out of bounds"))
        }
    }
}

/// Removing education entry `index` makes the list one shorter, leaves the
/// entries before `index` in place, moves every later entry down by one,
/// and touches nothing else in the store.
pub proof fn lemma_delete_education_shifts(data: DataManagerView, index: int)
    requires
        0 <= index < data.resume.education.len(),
    ensures
        data.delete_education(index).resume.education.len() == data.resume.education.len() - 1,
        forall|j: int|
            0 <= j < index ==> #[trigger] data.delete_education(index).resume.education[j]
                == data.resume.education[j],
        forall|j: int|
            index <= j < data.resume.education.len() - 1 ==> #[trigger] data.delete_education(
                index,
            ).resume.education[j] == data.resume.education[j + 1],
        data.delete_education(index).resume.experience == data.resume.experience,
        data.delete_education(index).resume.projects == data.resume.projects,
{
}

/// Removing experience entry `index` makes the list one shorter, leaves
/// the entries before `index` in place, moves every later entry down by
/// one, and touches nothing else in the store.
pub proof fn lemma_delete_experience_shifts(data: DataManagerView, index: int)
    requires
        0 <= index < data.resume.experience.len(),
    ensures
        data.delete_experience(index).resume.experience.len() == data.resume.experience.len()
            - 1,
        forall|j: int|
            0 <= j < index ==> #[trigger] data.delete_experience(index).resume.experience[j]
                == data.resume.experience[j],
        forall|j: int|
            index <= j < data.resume.experience.len() - 1 ==> #[trigger] data.delete_experience(
                index,
            ).resume.experience[j] == data.resume.experience[j + 1],
        data.delete_experience(index).resume.education == data.resume.education,
        data.delete_experience(index).resume.projects == data.resume.projects,
{
}

/// Removing project entry `index` makes the list one shorter, leaves the
/// entries before `index` in place, moves every later entry down by one,
/// and touches nothing else in the store.
pub proof fn lemma_delete_project_shifts(data: DataManagerView, index: int)
    requires
        0 <= index < data.resume.projects.len(),
    ensures
        data.delete_project(index).resume.projects.len() == data.resume.projects.len() - 1,
        forall|j: int|
            0 <= j < index ==> #[trigger] data.delete_project(index).resume.projects[j]
                == data.resume.projects[j],
        forall|j: int|
            index <= j < data.resume.projects.len() - 1 ==> #[trigger] data.delete_project(
                index,
            ).resume.projects[j] == data.resume.projects[j + 1],
        data.delete_project(index).resume.education == data.resume.education,
        data.delete_project(index).resume.experience == data.resume.experience,
{
}

} // verus!
