use resume_builder::data::manager::{DataManager, Education, Experience, Project, Resume};
use resume_builder::data::DataManager as ReexportedManager;

fn education(name: &str) -> Education {
    Education {
        name: name.to_string(),
        degree: "BSc".to_string(),
        years: "2010-2014".to_string(),
        points: vec!["graduated".to_string()],
    }
}

fn experience(company: &str) -> Experience {
    Experience {
        company: company.to_string(),
        position: "Engineer".to_string(),
        years: "2015-2020".to_string(),
        points: vec![],
    }
}

fn project(name: &str) -> Project {
    Project { name: name.to_string(), link: None, points: vec!["done".to_string()] }
}

fn empty_resume() -> Resume {
    Resume {
        name: "Ada".to_string(),
        contact: "ada@example.org".to_string(),
        website: Some("https://example.org".to_string()),
        education: vec![],
        projects: vec![],
        experience: vec![],
    }
}

fn manager() -> DataManager {
    DataManager::new("data/resume.json", empty_resume())
}

fn education_names(m: &DataManager) -> Vec<String> {
    m.resume.education.iter().map(|e| e.name.clone()).collect()
}

fn experience_names(m: &DataManager) -> Vec<String> {
    m.resume.experience.iter().map(|e| e.company.clone()).collect()
}

fn project_names(m: &DataManager) -> Vec<String> {
    m.resume.projects.iter().map(|p| p.name.clone()).collect()
}

#[test]
fn new_keeps_the_record_and_the_path() {
    let m: ReexportedManager = manager();
    assert_eq!(m.file_path, "data/resume.json");
    assert_eq!(m.resume.name, "Ada");
    assert_eq!(m.resume.contact, "ada@example.org");
    assert_eq!(m.resume.website.as_deref(), Some("https://example.org"));
    assert!(m.resume.education.is_empty());
}

#[test]
fn added_entries_keep_insertion_order() {
    let mut m = manager();
    m.add_education(education("A"));
    m.add_education(education("B"));
    m.add_experience(experience("X"));
    m.add_experience(experience("Y"));
    m.add_project(project("P"));
    m.add_project(project("Q"));
    assert_eq!(education_names(&m), vec!["A", "B"]);
    assert_eq!(experience_names(&m), vec!["X", "Y"]);
    assert_eq!(project_names(&m), vec!["P", "Q"]);
}

#[test]
fn update_replaces_in_place() {
    let mut m = manager();
    m.add_education(education("A"));
    m.add_education(education("B"));
    m.add_experience(experience("X"));
    m.add_project(project("P"));
    assert_eq!(m.update_education(1, education("C")), Ok(()));
    assert_eq!(m.update_experience(0, experience("Z")), Ok(()));
    assert_eq!(m.update_project(0, project("R")), Ok(()));
    assert_eq!(education_names(&m), vec!["A", "C"]);
    assert_eq!(experience_names(&m), vec!["Z"]);
    assert_eq!(project_names(&m), vec!["R"]);
}

#[test]
fn update_at_the_length_is_refused_and_changes_nothing() {
    let mut m = manager();
    m.add_education(education("A"));
    m.add_education(education("B"));
    let r = m.update_education(2, education("C"));
    assert_eq!(r, Err("Education index out of bounds".to_string()));
    assert_eq!(education_names(&m), vec!["A", "B"]);
}

#[test]
fn update_on_an_empty_list_is_refused() {
    let mut m = manager();
    assert_eq!(
        m.update_experience(0, experience("X")),
        Err("Experience index out of bounds".to_string())
    );
    assert_eq!(m.update_project(0, project("P")), Err("Project index out of bounds".to_string()));
    assert!(m.resume.experience.is_empty());
    assert!(m.resume.projects.is_empty());
}

#[test]
fn delete_shifts_later_entries_down() {
    let mut m = manager();
    for name in ["A", "B", "C", "D"] {
        m.add_education(education(name));
        m.add_experience(experience(name));
        m.add_project(project(name));
    }
    assert_eq!(m.delete_education(1), Ok(()));
    assert_eq!(m.delete_experience(0), Ok(()));
    assert_eq!(m.delete_project(3), Ok(()));
    assert_eq!(education_names(&m), vec!["A", "C", "D"]);
    assert_eq!(experience_names(&m), vec!["B", "C", "D"]);
    assert_eq!(project_names(&m), vec!["A", "B", "C"]);
}

#[test]
fn delete_out_of_range_is_refused_and_changes_nothing() {
    let mut m = manager();
    m.add_education(education("A"));
    m.add_experience(experience("X"));
    m.add_project(project("P"));
    assert_eq!(m.delete_education(1), Err("Education index out of bounds".to_string()));
    assert_eq!(m.delete_experience(7), Err("Experience index out of bounds".to_string()));
    assert_eq!(
        m.delete_project(usize::MAX),
        Err("Project index out of bounds".to_string())
    );
    assert_eq!(education_names(&m), vec!["A"]);
    assert_eq!(experience_names(&m), vec!["X"]);
    assert_eq!(project_names(&m), vec!["P"]);
}
