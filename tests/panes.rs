use resume_tui::{
    compose, experience_rows, render_experience, render_projects, AppState, Area, Body, Detail,
    Error, Event, Experience, Key, MenuItem, Project, SelectionState, Timestamp,
};

fn project(id: usize, name: &str) -> Project {
    Project {
        id,
        name: name.to_string(),
        category: "cli".to_string(),
        age: 2,
        created_at: Timestamp { secs: 1_600_000_000, nanos: 0 },
    }
}

fn experience(position: &str, company: &str) -> Experience {
    Experience {
        id: 1,
        position: position.to_string(),
        company: company.to_string(),
        duration: "2 years".to_string(),
        description: vec!["built things".to_string(), "fixed things".to_string()],
    }
}

fn at(i: usize) -> SelectionState {
    let mut s = SelectionState::new();
    s.select(Some(i));
    s
}

#[test]
fn projects_pane_lists_names_and_selected_fields() {
    let store = Ok(vec![project(1, "alpha"), project(2, "beta"), project(3, "gamma")]);
    let pane = render_projects(&at(1), &store);
    assert_eq!(pane.items, vec!["alpha".to_string(), "beta".to_string(), "gamma".to_string()]);
    assert_eq!(pane.highlight, Some(1));
    match pane.detail {
        Detail::Project(p) => {
            assert_eq!(p.id, 2);
            assert_eq!(p.name, "beta");
        },
        _ => panic!("expected the selected project"),
    }
}

#[test]
fn projects_pane_out_of_range_selection_shows_empty_detail() {
    let store = Ok(vec![project(1, "alpha")]);
    let pane = render_projects(&at(4), &store);
    assert_eq!(pane.highlight, None);
    assert!(matches!(pane.detail, Detail::Empty));
}

#[test]
fn empty_experience_list_then_down_shows_empty_state() {
    let mut state = AppState::new();
    state.handle_event(Event::Input(Key::Char('e')), Some(0), Some(0));
    state.handle_event(Event::Input(Key::Down), Some(0), Some(0));
    assert_eq!(state.tabs.active, MenuItem::Experience);
    assert_eq!(state.experience.selected(), None);
    let store: Result<Vec<Experience>, Error> = Ok(vec![]);
    let pane = render_experience(&state.experience, &store);
    assert!(pane.items.is_empty());
    assert_eq!(pane.highlight, None);
    assert!(matches!(pane.detail, Detail::Empty));
}

#[test]
fn malformed_store_gives_error_pane() {
    let store: Result<Vec<Project>, Error> =
        Err(Error::ParseDBError("expected value at line 1 column 1".to_string()));
    let pane = render_projects(&at(0), &store);
    assert!(pane.items.is_empty());
    assert_eq!(pane.highlight, None);
    match pane.detail {
        Detail::Failed(m) => {
            assert_eq!(m, "error parsing the DB file: expected value at line 1 column 1")
        },
        _ => panic!("expected an error detail"),
    }
}

#[test]
fn error_messages() {
    assert_eq!(
        Error::ReadDBError("No such file".to_string()).message(),
        "error reading the DB file: No such file"
    );
    assert_eq!(Error::ParseDBError("eof".to_string()).message(), "error parsing the DB file: eof");
}

#[test]
fn experience_pane_lists_positions_and_attribute_rows() {
    let store = Ok(vec![experience("Engineer", "Acme"), experience("Lead", "Initech")]);
    let pane = render_experience(&at(1), &store);
    assert_eq!(pane.items, vec!["Engineer".to_string(), "Lead".to_string()]);
    assert_eq!(pane.highlight, Some(1));
    match pane.detail {
        Detail::Attributes(rows) => assert_eq!(
            rows,
            vec![
                "# Company", "Initech", "", "# Duration", "2 years", "", "# Descrption",
                "built things", "fixed things",
            ]
        ),
        _ => panic!("expected attribute rows"),
    }
}

#[test]
fn attribute_rows_without_description() {
    let mut e = experience("Intern", "Globex");
    e.description.clear();
    assert_eq!(
        experience_rows(&e),
        vec!["# Company", "Globex", "", "# Duration", "2 years", "", "# Descrption"]
    );
}

#[test]
fn compose_cuts_the_screen_into_bands() {
    let state = AppState::new();
    let size = Area { x: 0, y: 0, width: 100, height: 30 };
    let screen = compose(&state, size, &Ok(vec![]), &Ok(vec![]));
    assert_eq!(screen.tab, 0);
    assert!(matches!(screen.content, Body::Home));
    assert_eq!(screen.menu, Area { x: 2, y: 2, width: 96, height: 3 });
    assert_eq!(screen.body, Area { x: 2, y: 5, width: 96, height: 20 });
    assert_eq!(screen.footer, Area { x: 2, y: 25, width: 96, height: 3 });
}

#[test]
fn compose_splits_a_list_section_into_columns() {
    let mut state = AppState::new();
    state.tabs.active = MenuItem::Projects;
    let size = Area { x: 0, y: 0, width: 104, height: 30 };
    let store = Ok(vec![project(1, "alpha")]);
    let screen = compose(&state, size, &store, &Ok(vec![]));
    assert_eq!(screen.tab, 1);
    match screen.content {
        Body::Projects { pane, list, detail } => {
            assert_eq!(pane.highlight, Some(0));
            assert_eq!(list.x, screen.body.x);
            assert_eq!(list.width, 20);
            assert_eq!(detail.x, list.x + list.width);
            assert_eq!(detail.width, 80);
        },
        _ => panic!("expected the projects pane"),
    }
}

#[test]
fn compose_contact_section() {
    let mut state = AppState::new();
    state.tabs.active = MenuItem::Contact;
    let size = Area { x: 0, y: 0, width: 80, height: 24 };
    let screen = compose(&state, size, &Ok(vec![]), &Ok(vec![]));
    assert_eq!(screen.tab, 3);
    assert!(matches!(screen.content, Body::Contact));
}

#[test]
fn parse_failure_from_json_reaches_the_pane() {
    let parsed: Result<Vec<serde_json::Value>, serde_json::Error> = serde_json::from_str("{not json");
    let cause = parsed.unwrap_err().to_string();
    let store: Result<Vec<Project>, Error> = Err(Error::ParseDBError(cause.clone()));
    let pane = render_projects(&at(0), &store);
    match pane.detail {
        Detail::Failed(m) => {
            assert!(m.starts_with("error parsing the DB file: "));
            assert!(m.ends_with(&cause));
        },
        _ => panic!("expected an error detail"),
    }
}

#[test]
fn compose_experience_section_with_store_error() {
    let mut state = AppState::new();
    state.tabs.active = MenuItem::Experience;
    let size = Area { x: 0, y: 0, width: 2000, height: 50 };
    let store: Result<Vec<Experience>, Error> = Err(Error::ReadDBError("gone".to_string()));
    let screen = compose(&state, size, &Ok(vec![]), &store);
    assert_eq!(screen.tab, 2);
    assert_eq!(screen.body.width, 1996);
    match screen.content {
        Body::Experience { pane, list, detail } => {
            assert!(matches!(pane.detail, Detail::Failed(_)));
            assert_eq!(list.x, screen.body.x);
            assert_eq!(detail.x + detail.width, screen.body.x + screen.body.width);
            assert!(detail.width > list.width);
        },
        _ => panic!("expected the experience pane"),
    }
}
