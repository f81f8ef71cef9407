use upman::dispatch::{plan_add, plan_run, DispatchError, ExitOutcome, Plan, Step};
use upman::language::Language;
use upman::lifecycle::{
    add_package, prepare_new, register_new, run_project, CommandError,
};
use upman::paths::Platform;
use upman::registry::ProjectsDb;

fn programs(plan: &Plan) -> Vec<String> {
    plan.stages.iter().map(|s| s.program.clone()).collect()
}

#[test]
fn python_demo_runs_interpreter_on_entry_from_subdirectory() {
    let mut db = ProjectsDb::new();
    let lang = prepare_new("demo", "python").unwrap();
    register_new(&mut db, "demo", lang, "/home/u/demo");
    let plan = run_project(&db, "/home/u/demo/src", Platform::Unix).unwrap();
    assert_eq!(plan.stages.len(), 1);
    assert_eq!(plan.stages[0].program, "python3");
    assert_eq!(plan.stages[0].args, vec!["/home/u/demo/./src/main.py".to_string()]);
    let info = db.get("demo").unwrap();
    assert_eq!(info.project_language, "python");
    assert_eq!(info.project_main, "./src/main.py");
}

#[test]
fn cpp_demo_with_failed_build_never_starts_binary() {
    let mut db = ProjectsDb::new();
    let lang = prepare_new("demo", "cpp").unwrap();
    register_new(&mut db, "demo", lang, "/home/u/demo");
    let plan = run_project(&db, "/home/u/demo", Platform::Unix).unwrap();
    assert_eq!(programs(&plan), vec!["g++".to_string(), "./a.out".to_string()]);
    assert_eq!(
        plan.stages[0].args,
        vec!["./src/main.cpp".to_string(), "-o".to_string(), "a.out".to_string()]
    );
    assert_eq!(plan.next_step(&vec![]), Step::Spawn(0));
    assert_eq!(plan.next_step(&vec![ExitOutcome::Code(1)]), Step::Failed(0));
    assert_eq!(plan.next_step(&vec![ExitOutcome::NoCode]), Step::Failed(0));
    assert_eq!(plan.next_step(&vec![ExitOutcome::NotStarted]), Step::Failed(0));
    assert_eq!(plan.next_step(&vec![ExitOutcome::Code(0)]), Step::Spawn(1));
    assert_eq!(
        plan.next_step(&vec![ExitOutcome::Code(0), ExitOutcome::Code(0)]),
        Step::Finished
    );
    assert_eq!(
        plan.next_step(&vec![ExitOutcome::Code(0), ExitOutcome::Code(3)]),
        Step::Failed(1)
    );
}

#[test]
fn first_failure_is_reported() {
    let plan = plan_run(Language::Java, "/p", "./src/Main.java", Platform::Unix).unwrap();
    assert_eq!(
        plan.next_step(&vec![ExitOutcome::Code(2), ExitOutcome::Code(0)]),
        Step::Failed(0)
    );
}

#[test]
fn compiled_binary_name_follows_platform() {
    let plan = plan_run(Language::C, "C:/p", "./src/main.c", Platform::Windows).unwrap();
    assert_eq!(programs(&plan), vec!["gcc".to_string(), "./a.exe".to_string()]);
    assert_eq!(plan.stages[1].cwd, Some("C:/p".to_string()));
}

#[test]
fn java_runs_main_class_from_src() {
    let plan = plan_run(Language::Java, "/p", "./src/Main.java", Platform::Unix).unwrap();
    assert_eq!(programs(&plan), vec!["javac".to_string(), "java".to_string()]);
    assert_eq!(
        plan.stages[1].args,
        vec!["-cp".to_string(), "/p/src".to_string(), "Main".to_string()]
    );
}

#[test]
fn html_opener_depends_on_platform() {
    let u = plan_run(Language::Html, "/p", "./src/index.html", Platform::Unix).unwrap();
    let m = plan_run(Language::Html, "/p", "./src/index.html", Platform::MacOs).unwrap();
    let w = plan_run(Language::Html, "/p", "./src/index.html", Platform::Windows).unwrap();
    assert_eq!(programs(&u), vec!["xdg-open".to_string()]);
    assert_eq!(programs(&m), vec!["open".to_string()]);
    assert_eq!(programs(&w), vec!["cmd".to_string()]);
    assert_eq!(w.stages[0].args[0], "/c");
}

#[test]
fn shell_is_unsupported_on_windows() {
    assert_eq!(
        plan_run(Language::Shell, "/p", "./main.sh", Platform::Windows).err(),
        Some(DispatchError::Unsupported)
    );
    let plan = plan_run(Language::Shell, "/p", "./main.sh", Platform::Unix).unwrap();
    assert_eq!(programs(&plan), vec!["sh".to_string()]);
}

#[test]
fn r_and_scala_only_advise() {
    let plan = plan_run(Language::R, "/p", "./main.R", Platform::Unix).unwrap();
    assert!(plan.stages.is_empty());
    assert_eq!(
        plan.notice,
        Some("Open the R script in RStudio or R interpreter.".to_string())
    );
    assert_eq!(plan.next_step(&vec![]), Step::Finished);
}

#[test]
fn unknown_language_is_unsupported() {
    let mut db = ProjectsDb::new();
    upman::lifecycle::add_project_to_db(&mut db, "x", "/x", "cobol", "main.cob");
    assert_eq!(
        run_project(&db, "/x", Platform::Unix).err(),
        Some(CommandError::UnsupportedLanguage)
    );
    assert_eq!(
        add_package(&db, "/x", "lib", Platform::Unix).err(),
        Some(CommandError::UnsupportedLanguage)
    );
}

#[test]
fn run_outside_any_project_is_refused() {
    let db = ProjectsDb::new();
    assert_eq!(
        run_project(&db, "/x", Platform::Unix).err(),
        Some(CommandError::NotAProject)
    );
    assert_eq!(
        add_package(&db, "/x", "lib", Platform::Unix).err(),
        Some(CommandError::NotAProject)
    );
}

#[test]
fn python_package_goes_to_requirements_and_venv_pip() {
    let plan = plan_add(Language::Python, "/p", "requests", Platform::Unix).unwrap();
    assert_eq!(plan.requirement_file, Some("/p/requirements.txt".to_string()));
    assert_eq!(programs(&plan), vec!["/p/venv/bin/pip".to_string()]);
    assert_eq!(plan.stages[0].args, vec!["install".to_string(), "requests".to_string()]);
    let w = plan_add(Language::Python, "/p", "requests", Platform::Windows).unwrap();
    assert_eq!(programs(&w), vec!["/p/venv/Scripts/pip.exe".to_string()]);
}

#[test]
fn package_managers_by_language() {
    let cargo = plan_add(Language::Rust, "/p", "serde", Platform::Unix).unwrap();
    assert_eq!(programs(&cargo), vec!["cargo".to_string()]);
    assert_eq!(cargo.stages[0].cwd, Some("/p".to_string()));
    let npm = plan_add(Language::JavaScript, "/p", "left-pad", Platform::Unix).unwrap();
    assert_eq!(
        npm.stages[0].args,
        vec!["install".to_string(), "--save".to_string(), "left-pad".to_string()]
    );
    assert_eq!(
        plan_add(Language::Go, "/p", "x", Platform::Unix).err(),
        Some(DispatchError::Unsupported)
    );
}

#[test]
fn new_checks_name_and_language() {
    assert_eq!(prepare_new("demo", "PyThOn"), Ok(Language::Python));
    assert_eq!(prepare_new("demo", "C++"), Ok(Language::Cpp));
    assert_eq!(prepare_new("demo", "cobol"), Err(CommandError::UnsupportedLanguage));
    assert_eq!(prepare_new("", "python"), Err(CommandError::InvalidName));
    assert_eq!(prepare_new("a/b", "python"), Err(CommandError::InvalidName));
}

#[test]
fn tags_map_to_languages() {
    assert_eq!(Language::from_tag("c#"), Language::CSharp);
    assert_eq!(Language::from_tag("ts"), Language::TypeScript);
    assert_eq!(Language::from_tag("Python"), Language::Other);
    assert_eq!(Language::Rust.tag(), "rust");
    assert_eq!(Language::Shell.main_entry("x"), "./main.sh");
}

#[test]
fn typescript_compiles_then_runs_node() {
    let plan = plan_run(Language::TypeScript, "/p", "./src/main.ts", Platform::Unix).unwrap();
    assert_eq!(programs(&plan), vec!["npx".to_string(), "node".to_string()]);
    assert_eq!(plan.stages[0].args, vec!["tsc".to_string()]);
    assert_eq!(plan.stages[1].args, vec!["/p/./src/main.ts".to_string()]);
    let w = plan_run(Language::TypeScript, "/p", "./src/main.ts", Platform::Windows).unwrap();
    assert_eq!(w.stages[0].program, "npx.cmd");
}

#[test]
fn interpreted_languages_take_the_entry_path() {
    let go = plan_run(Language::Go, "/p", "./main.go", Platform::Unix).unwrap();
    assert_eq!(go.stages[0].args, vec!["run".to_string(), "/p/./main.go".to_string()]);
    let dart = plan_run(Language::Dart, "/p", "./lib/main.dart", Platform::Unix).unwrap();
    assert_eq!(dart.stages[0].args, vec!["run".to_string(), "/p/./lib/main.dart".to_string()]);
    let rb = plan_run(Language::Ruby, "/p", "./src/main.rb", Platform::Unix).unwrap();
    assert_eq!(programs(&rb), vec!["ruby".to_string()]);
    let pl = plan_run(Language::Perl, "/p", "./main.pl", Platform::Unix).unwrap();
    assert_eq!(programs(&pl), vec!["perl".to_string()]);
    let js = plan_run(Language::JavaScript, "/p", "./src/main.js", Platform::Unix).unwrap();
    assert_eq!(programs(&js), vec!["node".to_string()]);
    assert_eq!(js.stages[0].cwd, None);
}

#[test]
fn project_tools_run_in_the_root() {
    let cargo = plan_run(Language::Rust, "/p", "./src/main.rs", Platform::Unix).unwrap();
    assert_eq!(cargo.stages[0].args, vec!["run".to_string()]);
    assert_eq!(cargo.stages[0].cwd, Some("/p".to_string()));
    let dotnet = plan_run(Language::CSharp, "/p", "./src/Program.cs", Platform::Unix).unwrap();
    assert_eq!(programs(&dotnet), vec!["dotnet".to_string()]);
    let react = plan_run(Language::React, "/p", "./src/App.js", Platform::Windows).unwrap();
    assert_eq!(programs(&react), vec!["npm.cmd".to_string()]);
    assert_eq!(react.stages[0].args, vec!["start".to_string()]);
    let swift = plan_run(Language::Swift, "/p", "./Sources/main.swift", Platform::MacOs).unwrap();
    assert_eq!(programs(&swift), vec!["swift".to_string()]);
    let other = plan_run(Language::Other, "/p", "x", Platform::Unix);
    assert_eq!(other.err(), Some(DispatchError::Unsupported));
}

#[test]
fn remaining_package_managers() {
    let gem = plan_add(Language::Ruby, "/p", "rails", Platform::Unix).unwrap();
    assert_eq!(programs(&gem), vec!["gem".to_string()]);
    let gradle = plan_add(Language::Java, "/p", "junit", Platform::Unix).unwrap();
    assert_eq!(programs(&gradle), vec!["gradle".to_string()]);
    let nuget = plan_add(Language::CSharp, "/p", "Newtonsoft.Json", Platform::Unix).unwrap();
    assert_eq!(programs(&nuget), vec!["nuget".to_string()]);
    assert_eq!(nuget.stages[0].args, vec!["install".to_string(), "Newtonsoft.Json".to_string()]);
    assert_eq!(nuget.requirement_file, None);
}
