use upman::config::{Config, DefaultFlags, Preferences, Warnings};
use upman::lifecycle::{
    add_project_to_db, create_project, open_project, secrets_manager, CommandError, SecretOutcome,
};
use upman::paths::Platform;
use upman::registry::ProjectsDb;
use upman::scaffold::{initialize_documents, scaffold_project, FsOp};
use upman::language::Language;
use upman::secrets::{parse_env_line, Secrets};

fn config() -> Config {
    Config {
        default_flags: DefaultFlags {
            git: false,
            ignore: false,
            venv: false,
            license: false,
            readme: false,
            tests: false,
            docs: false,
            docker: false,
        },
        preferences: Preferences { editor: "vim".to_string(), license: "MIT".to_string() },
        warnings: Warnings { creation: true, init: true, run: true, add: true },
    }
}

#[test]
fn license_argument_selects_identifier() {
    let mut c = config();
    assert!(c.set_license("apache"));
    assert_eq!(c.preferences.license, "Apache-2.0");
    assert!(c.set_license("GPLv3"));
    assert_eq!(c.preferences.license, "GPL-3.0");
    assert!(c.set_license("bsd-3"));
    assert_eq!(c.preferences.license, "BSD-3-Clause");
    assert!(!c.set_license("proprietary"));
    assert_eq!(c.preferences.license, "BSD-3-Clause");
    assert_eq!(c.preferences.editor, "vim");
}

#[test]
fn editor_argument_selects_name_or_itself() {
    let mut c = config();
    c.set_editor("VS Code");
    assert_eq!(c.preferences.editor, "vscode");
    c.set_editor("Notepad++");
    assert_eq!(c.preferences.editor, "notepad++");
    c.set_editor("emacs");
    assert_eq!(c.preferences.editor, "emacs");
}

#[test]
fn defaults_toggle_git_and_ignore_only() {
    let mut c = config();
    assert!(c.set_defaults("git"));
    assert!(c.default_flags.git);
    assert!(c.set_defaults("ignore"));
    assert!(c.default_flags.ignore);
    assert!(c.set_defaults("git"));
    assert!(!c.default_flags.git);
    assert!(!c.set_defaults("venv"));
    assert!(!c.default_flags.venv);
}

#[test]
fn env_lines_split_at_first_equals_and_trim() {
    assert_eq!(
        parse_env_line("  API_KEY = a=b  "),
        Some(("API_KEY".to_string(), "a=b".to_string()))
    );
    assert_eq!(parse_env_line("NOVALUE"), None);
    assert_eq!(parse_env_line("K="), Some(("K".to_string(), String::new())));
}

#[test]
fn secrets_file_round_trip() {
    let lines = vec!["A=1".to_string(), "junk".to_string(), "B = 2".to_string(), "A=3".to_string()];
    let s = Secrets::from_lines(&lines);
    assert_eq!(s.get("A"), Some(&"3".to_string()));
    assert_eq!(s.to_text(), "A=3\nB=2\n");
}

#[test]
fn secrets_actions() {
    let mut db = ProjectsDb::new();
    add_project_to_db(&mut db, "p", "/p", "python", "./src/main.py");
    let mut s = Secrets::new();
    assert_eq!(secrets_manager(&db, "/p", "add", "K", "v", &mut s, Platform::Unix), SecretOutcome::Saved);
    assert_eq!(s.to_text(), "K=v\n");
    assert_eq!(secrets_manager(&db, "/p", "show", "K", "", &mut s, Platform::Unix), SecretOutcome::Found);
    assert_eq!(secrets_manager(&db, "/p", "remove", "K", "", &mut s, Platform::Unix), SecretOutcome::Removed);
    assert_eq!(secrets_manager(&db, "/p", "delete", "K", "", &mut s, Platform::Unix), SecretOutcome::Missing);
    assert_eq!(secrets_manager(&db, "/p", "list", "K", "", &mut s, Platform::Unix), SecretOutcome::Unsupported);
    assert_eq!(secrets_manager(&db, "/q", "add", "K", "v", &mut s, Platform::Unix), SecretOutcome::NotAProject);
    assert_eq!(s.to_text(), "");
}

#[test]
fn documents_in_order() {
    let ops = initialize_documents("demo", true, true, false, true, false);
    assert_eq!(ops.len(), 4);
    assert!(matches!(&ops[0], FsOp::CopyLicense(p) if p == "demo/LICENSE"));
    assert!(matches!(&ops[1], FsOp::WriteFile(p, _) if p == "demo/README.md"));
    assert!(matches!(&ops[2], FsOp::CreateDir(p) if p == "demo/docs"));
    assert!(matches!(&ops[3], FsOp::WriteFile(p, _) if p == "demo/docs/index.md"));
    assert!(initialize_documents("demo", false, false, false, false, false).is_empty());
}

#[test]
fn python_scaffold_layout() {
    let mut flags = config().default_flags;
    flags.git = true;
    flags.ignore = true;
    let ops = scaffold_project("demo", Language::Python, flags, false, Platform::Unix).unwrap();
    assert!(matches!(&ops[0], FsOp::CreateDir(p) if p == "demo/src"));
    assert!(matches!(&ops[1], FsOp::WriteFile(p, t) if p == "demo/./src/main.py" && t.contains("Hello, world!")));
    assert!(matches!(&ops[2], FsOp::WriteFile(p, t) if p == "demo/requirements.txt" && t.is_empty()));
    assert!(matches!(&ops[3], FsOp::Run(i) if i.program == "git"));
    assert!(matches!(&ops[4], FsOp::WriteFile(p, _) if p == "demo/.gitignore"));
    assert_eq!(ops.len(), 5);
}

#[test]
fn scaffold_refuses_existing_directory_and_unknown_language() {
    let flags = config().default_flags;
    assert!(matches!(
        scaffold_project("demo", Language::Python, flags, true, Platform::Unix),
        Err(CommandError::AlreadyExists)
    ));
    assert!(matches!(
        scaffold_project("demo", Language::Other, flags, false, Platform::Unix),
        Err(CommandError::UnsupportedLanguage)
    ));
}

#[test]
fn html_scaffold_titles_page_with_name() {
    let flags = config().default_flags;
    let ops = scaffold_project("site", Language::Html, flags, false, Platform::Unix).unwrap();
    assert!(matches!(&ops[1], FsOp::WriteFile(p, t) if p == "site/./src/index.html" && t.contains("<title>site</title>")));
}

#[test]
fn open_runs_helper_script_on_root() {
    let mut db = ProjectsDb::new();
    add_project_to_db(&mut db, "p", "/w/p", "python", "./src/main.py");
    let plan = open_project(&db, "p", "/opt/Upman", Platform::Unix).unwrap();
    assert_eq!(plan.script_path, "/opt/Upman/open_project.sh");
    assert_eq!(plan.launch.program, "sh");
    assert_eq!(plan.launch.args, vec!["-c".to_string(), "/opt/Upman/open_project.sh /w/p".to_string()]);
    assert!(matches!(open_project(&db, "q", "/opt/Upman", Platform::Unix), Err(CommandError::UnknownProject)));
}

#[test]
fn create_project_checks_then_plans() {
    let flags = config().default_flags;
    let (lang, ops) = create_project("demo", "CPP", flags, false, Platform::Unix).unwrap();
    assert_eq!(lang, Language::Cpp);
    assert!(matches!(&ops[1], FsOp::WriteFile(p, t) if p == "demo/./src/main.cpp" && t.contains("iostream")));
    assert!(matches!(
        create_project("demo", "python", flags, true, Platform::Unix),
        Err(CommandError::AlreadyExists)
    ));
    assert!(matches!(
        create_project("demo", "brainfuck", flags, true, Platform::Unix),
        Err(CommandError::UnsupportedLanguage)
    ));
    assert!(matches!(
        create_project("", "python", flags, false, Platform::Unix),
        Err(CommandError::InvalidName)
    ));
}

#[test]
fn scala_scaffold_with_tests() {
    let mut flags = config().default_flags;
    flags.tests = true;
    let ops = scaffold_project("app", Language::Scala, flags, false, Platform::Unix).unwrap();
    assert!(matches!(&ops[0], FsOp::CreateDir(p) if p == "app/src/main/scala"));
    assert!(matches!(&ops[1], FsOp::CreateDir(p) if p == "app/src/test/scala"));
    assert!(matches!(&ops[4], FsOp::WriteFile(p, t) if p == "app/build.sbt" && t.starts_with("name := \"app\"\n")));
    assert!(matches!(&ops[5], FsOp::CreateDir(p) if p == "app/tests"));
    assert_eq!(ops.len(), 6);
}

#[test]
fn shell_script_is_marked_executable_off_windows() {
    let flags = config().default_flags;
    let unix = scaffold_project("s", Language::Shell, flags, false, Platform::Unix).unwrap();
    assert!(matches!(&unix[2], FsOp::MakeExecutable(p) if p == "s/./main.sh"));
    let win = scaffold_project("s", Language::Shell, flags, false, Platform::Windows).unwrap();
    assert_eq!(win.len(), 2);
}

#[test]
fn initializer_languages_delegate() {
    let mut flags = config().default_flags;
    flags.git = true;
    flags.ignore = true;
    let rust = scaffold_project("r", Language::Rust, flags, false, Platform::Unix).unwrap();
    assert!(matches!(&rust[0], FsOp::Run(i) if i.program == "cargo" && i.args == vec!["new".to_string(), "r".to_string(), "--bin".to_string()]));
    assert!(matches!(&rust[1], FsOp::WriteFile(p, t) if p == "r/.gitignore" && t.starts_with("target/")));
    assert_eq!(rust.len(), 2);
    let react = scaffold_project("web", Language::React, flags, false, Platform::Unix).unwrap();
    assert_eq!(react.len(), 1);
    let mut venv = config().default_flags;
    venv.venv = true;
    let py = scaffold_project("v", Language::Python, venv, false, Platform::Unix).unwrap();
    assert!(matches!(&py[3], FsOp::Run(i) if i.program == "python3" && i.cwd == Some("v".to_string())));
}

#[test]
fn secrets_need_a_component_boundary() {
    let mut db = ProjectsDb::new();
    add_project_to_db(&mut db, "p", "/p", "python", "./src/main.py");
    let mut s = Secrets::new();
    assert_eq!(
        secrets_manager(&db, "/p\\q", "add", "K", "v", &mut s, Platform::Unix),
        SecretOutcome::NotAProject
    );
    assert_eq!(
        secrets_manager(&db, "/p\\q", "add", "K", "v", &mut s, Platform::Windows),
        SecretOutcome::Saved
    );
}

#[test]
fn trim_removes_unicode_whitespace() {
    assert_eq!(
        parse_env_line("\u{3000}KEY\u{a0}=\tvalue\u{2028}"),
        Some(("KEY".to_string(), "value".to_string()))
    );
}

#[test]
fn entry_file_is_written_where_registered() {
    let flags = config().default_flags;
    let swift = scaffold_project("app", Language::Swift, flags, false, Platform::MacOs).unwrap();
    assert_eq!(Language::Swift.main_entry("app"), "./Sources/app/main.swift");
    assert!(matches!(&swift[3], FsOp::WriteFile(p, _) if p == "app/./Sources/app/main.swift"));
    assert!(matches!(&swift[2], FsOp::CreateDir(p) if p == "app/Sources/app"));
    assert_eq!(Language::CSharp.main_entry("app"), "./Program.cs");
    let py = scaffold_project("demo", Language::Python, flags, false, Platform::Unix).unwrap();
    assert!(matches!(&py[1], FsOp::WriteFile(p, _) if p == "demo/./src/main.py"));
}
