use upman::lifecycle::{
    add_project_to_db, delete_project, init_project, load_projects_db, save_projects_db,
    set_main_path, CommandError,
};
use upman::paths::{clean_path, db_path, is_within, join_entry, Platform};
use upman::registry::{ProjectEntry, ProjectInfo, ProjectsDb};
use upman::resolver::text_precedes;

fn sample_db() -> ProjectsDb {
    let mut db = ProjectsDb::new();
    add_project_to_db(&mut db, "foo", "/home/u/foo", "python", "./src/main.py");
    add_project_to_db(&mut db, "inner", "/home/u/foo/inner", "rust", "./src/main.rs");
    add_project_to_db(&mut db, "bar2", "/home/u/bar2", "go", "./main.go");
    db
}

fn name_at(db: &ProjectsDb, i: usize) -> String {
    db.entry(i).name.clone()
}

#[test]
fn resolves_root_itself() {
    let db = sample_db();
    let i = db.resolve("/home/u/foo", Platform::Unix).unwrap();
    assert_eq!(name_at(&db, i), "foo");
}

#[test]
fn resolves_descendant_to_deepest_root() {
    let db = sample_db();
    let i = db.resolve("/home/u/foo/src/util", Platform::Unix).unwrap();
    assert_eq!(name_at(&db, i), "foo");
    let j = db.resolve("/home/u/foo/inner/src", Platform::Unix).unwrap();
    assert_eq!(name_at(&db, j), "inner");
}

#[test]
fn resolution_respects_component_boundaries() {
    let mut db = ProjectsDb::new();
    add_project_to_db(&mut db, "bar", "/foo/bar", "python", "./src/main.py");
    assert!(db.resolve("/foo/bar2", Platform::Unix).is_none());
    assert!(db.resolve("/foo/bar2/src", Platform::Unix).is_none());
    assert!(db.resolve("/foo/ba", Platform::Unix).is_none());
    assert!(db.resolve("/foo/bar/x", Platform::Unix).is_some());
}

#[test]
fn outsider_is_not_found() {
    let db = sample_db();
    assert!(db.resolve("/home/u", Platform::Unix).is_none());
    assert!(db.resolve("/tmp", Platform::Unix).is_none());
    assert!(db.resolve("", Platform::Unix).is_none());
    assert!(ProjectsDb::new().resolve("/home/u/foo", Platform::Unix).is_none());
}

#[test]
fn equal_roots_prefer_first_name() {
    let mut db = ProjectsDb::new();
    add_project_to_db(&mut db, "zeta", "/w/p", "python", "./a.py");
    add_project_to_db(&mut db, "alpha", "/w/p", "python", "./b.py");
    let i = db.resolve("/w/p/src", Platform::Unix).unwrap();
    assert_eq!(name_at(&db, i), "alpha");
}

#[test]
fn root_with_trailing_separator_contains_children() {
    let mut db = ProjectsDb::new();
    add_project_to_db(&mut db, "all", "/", "shell", "./main.sh");
    assert!(db.resolve("/anything/below", Platform::Unix).is_some());
}

#[test]
fn upsert_replaces_in_place() {
    let mut db = sample_db();
    add_project_to_db(&mut db, "foo", "/elsewhere/foo", "ruby", "./src/main.rb");
    assert_eq!(db.len(), 3);
    let info = db.get("foo").unwrap();
    assert_eq!(info.project_path, "/elsewhere/foo");
    assert_eq!(info.project_language, "ruby");
}

#[test]
fn save_then_load_keeps_entries() {
    let db = sample_db();
    let saved = save_projects_db(&db);
    let again = load_projects_db(Some(saved));
    let resaved = save_projects_db(&again);
    let first = save_projects_db(&db);
    assert_eq!(resaved.len(), first.len());
    for (a, b) in resaved.iter().zip(first.iter()) {
        assert_eq!(a.name, b.name);
        assert_eq!(a.info.project_path, b.info.project_path);
        assert_eq!(a.info.project_language, b.info.project_language);
        assert_eq!(a.info.project_main, b.info.project_main);
    }
}

#[test]
fn load_with_duplicate_names_keeps_last() {
    let entries = vec![
        ProjectEntry { name: "a".to_string(), info: ProjectInfo::new("/x", "python", "m.py") },
        ProjectEntry { name: "a".to_string(), info: ProjectInfo::new("/y", "go", "m.go") },
    ];
    let db = load_projects_db(Some(entries));
    assert_eq!(db.len(), 1);
    assert_eq!(db.get("a").unwrap().project_path, "/y");
}

#[test]
fn missing_registry_loads_empty() {
    let db = load_projects_db(None);
    assert_eq!(db.len(), 0);
    assert!(db.resolve("/home/u/foo", Platform::Unix).is_none());
}

#[test]
fn delete_removes_from_registry() {
    let mut db = sample_db();
    let info = delete_project(&mut db, "foo").unwrap();
    assert_eq!(info.project_path, "/home/u/foo");
    let reloaded = load_projects_db(Some(save_projects_db(&db)));
    assert!(reloaded.get("foo").is_none());
    assert!(reloaded.get("inner").is_some());
    assert_eq!(reloaded.len(), 2);
}

#[test]
fn delete_unknown_project_fails() {
    let mut db = sample_db();
    assert!(matches!(delete_project(&mut db, "nope"), Err(CommandError::UnknownProject)));
    assert_eq!(db.len(), 3);
}

#[test]
fn init_refuses_tracked_directory() {
    let mut db = sample_db();
    let r = init_project(&mut db, "/home/u/foo/src", "src", "python", "main.py", Platform::Unix);
    assert_eq!(r, Err(CommandError::AlreadyTracked));
    assert_eq!(db.len(), 3);
    let r = init_project(&mut db, "/home/u/new", "new", "python", "main.py", Platform::Unix);
    assert_eq!(r, Ok(()));
    assert_eq!(db.get("new").unwrap().project_path, "/home/u/new");
}

#[test]
fn config_main_updates_owner() {
    let mut db = sample_db();
    assert_eq!(set_main_path(&mut db, "/home/u/foo/inner/x", "./src/bin.rs", Platform::Unix), Ok(()));
    assert_eq!(db.get("inner").unwrap().project_main, "./src/bin.rs");
    assert_eq!(db.get("foo").unwrap().project_main, "./src/main.py");
    assert_eq!(set_main_path(&mut db, "/nowhere", "x", Platform::Unix), Err(CommandError::NotAProject));
}

#[test]
fn clean_path_strips_verbatim_prefix_on_windows() {
    assert_eq!(clean_path("\\\\?\\C:\\work\\demo", Platform::Windows), "C:\\work\\demo");
    assert_eq!(clean_path("\\\\?\\C:\\work", Platform::Unix), "\\\\?\\C:\\work");
    assert_eq!(clean_path("/home/u", Platform::Windows), "/home/u");
}

#[test]
fn path_helpers() {
    assert!(is_within("/a/b/c", "/a/b", Platform::Unix));
    assert!(!is_within("/a/bc", "/a/b", Platform::Unix));
    assert!(is_within("C:\\a\\b", "C:\\a", Platform::Windows));
    assert!(!is_within("/a/b\\c", "/a/b", Platform::Unix));
    assert!(!is_within("/a/b\\c", "/a/b", Platform::MacOs));
    assert!(is_within("/a/b\\c", "/a/b", Platform::Windows));
    assert_eq!(join_entry("/p", "./src/main.py", Platform::Unix), "/p/./src/main.py");
    assert_eq!(join_entry("/p/", "main.py", Platform::Unix), "/p/main.py");
    assert_eq!(join_entry("/p", "/abs/main.py", Platform::Unix), "/abs/main.py");
    assert_eq!(join_entry("/p", "\\x", Platform::Unix), "/p/\\x");
    assert_eq!(join_entry("C:\\p", "\\x", Platform::Windows), "\\x");
    assert_eq!(db_path("/opt/Upman"), "/opt/Upman/upm_projects.json");
}

#[test]
fn name_order() {
    assert!(text_precedes("alpha", "beta"));
    assert!(text_precedes("ab", "abc"));
    assert!(!text_precedes("abc", "abc"));
    assert!(!text_precedes("b", "a"));
}

#[test]
fn backslash_is_a_name_character_off_windows() {
    let mut db = ProjectsDb::new();
    add_project_to_db(&mut db, "bar", "/foo/bar", "python", "./src/main.py");
    assert!(db.resolve("/foo/bar\\x", Platform::Unix).is_none());
    assert!(db.resolve("/foo/bar\\x", Platform::Windows).is_some());
    let r = init_project(&mut db, "/foo/bar\\x", "bar\\x", "python", "m.py", Platform::Unix);
    assert_eq!(r, Ok(()));
    assert_eq!(set_main_path(&mut db, "/foo/bar\\y", "x", Platform::Unix), Err(CommandError::NotAProject));
}

#[test]
fn backslash_does_not_reach_the_nested_root() {
    let mut db = ProjectsDb::new();
    add_project_to_db(&mut db, "w", "/w", "python", "./src/main.py");
    add_project_to_db(&mut db, "a", "/w/a", "python", "./src/main.py");
    let i = db.resolve("/w/a\\b", Platform::Unix).unwrap();
    assert_eq!(name_at(&db, i), "w");
    assert_eq!(set_main_path(&mut db, "/w/a\\b", "./other.py", Platform::Unix), Ok(()));
    assert_eq!(db.get("w").unwrap().project_main, "./other.py");
    assert_eq!(db.get("a").unwrap().project_main, "./src/main.py");
}
