use vstd::prelude::*;
use crate::dispatch::{add_spec, plan_project_add, plan_project_run, run_spec, Plan, PlanView};
use crate::language::{canonical_tag, default_main, language_of, Language};
use crate::paths::Platform;
use crate::registry::{
    entries_view, has_name, index_of, lemma_upserted_unique, loaded, lookup, names_unique, removed,
    upserted, ProjectEntry, ProjectInfo, ProjectsDb,
    RecordView,
};
use crate::resolver::{lemma_owner_resolves, resolution};
use crate::paths::{descends_from, entry_path};
use crate::dispatch::stages_plan;
use crate::config::DefaultFlags;
use crate::scaffold::{ops_view, scaffold_project, scaffold_spec, FsOp};
use crate::secrets::{has_key, with_secret, without_secret, Secrets};
use crate::dispatch::{call, Invocation, InvocationView, args2};
use crate::paths::{child, child_path};
use crate::language::same_text;

verus! {

/// Why a command was abandoned before anything ran.
#[derive(Clone, Copy, Debug, PartialEq, Eq, Structural)]
pub enum CommandError {
    /// No registered project contains the current directory.
    NotAProject,
    /// The project's language has no mapping for the operation.
    UnsupportedLanguage,
    /// The directory already lies within a registered project.
    AlreadyTracked,
    /// A project name must be non-empty and hold no slash or backslash.
    InvalidName,
    /// No project is registered under the name.
    UnknownProject,
    /// The directory that `new` would create exists already.
    AlreadyExists,
}

/// Names the lower-case form that `str::to_lowercase` gives a string.
pub uninterp spec fn lower_of(s: Seq<char>) -> Seq<char>;

/// Relies on `str::to_lowercase`: the result depends on the characters alone.
#[verifier::external_body]
fn lowercase(s: &str) -> (r: String)
    ensures
        r@ == lower_of(s@),
{
    s.to_lowercase()
}

pub open spec fn valid_name(name: Seq<char>) -> bool {
    name.len() > 0 && forall|i: int| 0 <= i < name.len() ==> name[i] != '/' && name[i] != '\\'
}

fn check_name(name: &str) -> (r: bool)
    ensures
        r == valid_name(name@),
{
    let n = name.unicode_len();
    if n == 0 {
        return false;
    }
    let mut i: usize = 0;
    while i < n
        invariant
            n == name@.len(),
            i <= n,
            forall|j: int| 0 <= j < i ==> name@[j] != '/' && name@[j] != '\\',
        decreases n - i,
    {
        let c = name.get_char(i);
        if c == '/' || c == '\\' {
            return false;
        }
        i = i + 1;
    }
    true
}

/// The outcome of `new` before anything is created: the language a tag
/// names once lower-cased, for a valid project name.
pub open spec fn new_spec(name: Seq<char>, lowered_tag: Seq<char>) -> Result<Language, CommandError> {
    if !valid_name(name) {
        Err(CommandError::InvalidName)
    } else if language_of(lowered_tag) == Language::Other {
        Err(CommandError::UnsupportedLanguage)
    } else {
        Ok(language_of(lowered_tag))
    }
}

/// Checks the arguments of `new`: the name, and the language tag in any case.
pub fn prepare_new(name: &str, tag: &str) -> (r: Result<Language, CommandError>)
    ensures
        r == new_spec(name@, lower_of(tag@)),
{
    if !check_name(name) {
        return Err(CommandError::InvalidName);
    }
    let lowered = lowercase(tag);
    let lang = Language::from_tag(lowered.as_str());
    if lang == Language::Other {
        Err(CommandError::UnsupportedLanguage)
    } else {
        Ok(lang)
    }
}

/// `new`: checks the name and the language tag, then plans the project's
/// layout; refused where the directory `name` exists already. What it
/// plans is carried out before the project is registered with
/// `register_new`.
pub fn create_project(
    name: &str,
    tag: &str,
    options: DefaultFlags,
    root_exists: bool,
    p: Platform,
) -> (r: Result<(Language, Vec<FsOp>), CommandError>)
    ensures
        new_spec(name@, lower_of(tag@)) matches Err(e) ==> r == Err::<
            (Language, Vec<FsOp>),
            CommandError,
        >(e),
        new_spec(name@, lower_of(tag@)) is Ok && root_exists ==> r == Err::<
            (Language, Vec<FsOp>),
            CommandError,
        >(CommandError::AlreadyExists),
        new_spec(name@, lower_of(tag@)) is Ok && !root_exists ==> (r matches Ok(planned)
            && planned.0 == new_spec(name@, lower_of(tag@))->Ok_0 && ops_view(planned.1@)
            == scaffold_spec(name@, planned.0, options, p)),
{
    let lang = match prepare_new(name, tag) {
        Ok(lang) => lang,
        Err(e) => return Err(e),
    };
    match scaffold_project(name, lang, options, root_exists, p) {
        Ok(ops) => Ok((lang, ops)),
        Err(e) => Err(e),
    }
}

/// The record that `new` registers for a project named `name` scaffolded at
/// `root`.
pub open spec fn new_record(lang: Language, name: Seq<char>, root: Seq<char>) -> RecordView {
    RecordView { path: root, language: canonical_tag(lang), main: default_main(lang, name) }
}

/// Binds `project_name` to a record with the given root, language tag and
/// entry file.
pub fn add_project_to_db(
    db: &mut ProjectsDb,
    project_name: &str,
    project_path: &str,
    project_language: &str,
    project_main: &str,
)
    requires
        old(db).wf(),
    ensures
        final(db).wf(),
        final(db)@ == upserted(
            old(db)@,
            project_name@,
            RecordView { path: project_path@, language: project_language@, main: project_main@ },
        ),
{
    db.upsert(project_name, ProjectInfo::new(project_path, project_language, project_main));
}

/// Registers a project that `new` scaffolded, at its canonical root.
pub fn register_new(db: &mut ProjectsDb, name: &str, lang: Language, root: &str)
    requires
        old(db).wf(),
    ensures
        final(db).wf(),
        final(db)@ == upserted(old(db)@, name@, new_record(lang, name@, root@)),
{
    let main = lang.main_entry(name);
    add_project_to_db(db, name, root, lang.tag(), main.as_str());
}

/// Registers the directory `dir`, named `dir_name`, unless it already lies
/// within a registered project.
pub fn init_project(
    db: &mut ProjectsDb,
    dir: &str,
    dir_name: &str,
    language: &str,
    main: &str,
    p: Platform,
) -> (r: Result<(), CommandError>)
    requires
        old(db).wf(),
    ensures
        final(db).wf(),
        resolution(old(db)@, dir@, p) is Some ==> r == Err::<(), CommandError>(
            CommandError::AlreadyTracked,
        ) && final(db)@ == old(db)@,
        resolution(old(db)@, dir@, p) is None ==> r is Ok && final(db)@ == upserted(
            old(db)@,
            dir_name@,
            RecordView { path: dir@, language: language@, main: main@ },
        ),
{
    match db.resolve(dir, p) {
        Some(_) => Err(CommandError::AlreadyTracked),
        None => {
            add_project_to_db(db, dir_name, dir, language, main);
            Ok(())
        },
    }
}

/// What `run` does from `dir`: resolve the owning project, then plan its run.
pub open spec fn run_command_spec(s: Seq<(Seq<char>, RecordView)>, dir: Seq<char>, p: Platform) -> Result<
    PlanView,
    CommandError,
> {
    match resolution(s, dir, p) {
        None => Err(CommandError::NotAProject),
        Some(i) => match run_spec(language_of(s[i].1.language), s[i].1.path, s[i].1.main, p) {
            Some(plan) => Ok(plan),
            None => Err(CommandError::UnsupportedLanguage),
        },
    }
}

/// After `new NAME python` registers its project at `root`, `run` from any
/// directory within `root` that no other registered root contains as deeply
/// starts the interpreter once, on the registered entry file.
pub proof fn lemma_new_python_project_runs(
    s: Seq<(Seq<char>, RecordView)>,
    name: Seq<char>,
    root: Seq<char>,
    dir: Seq<char>,
    p: Platform,
)
    requires
        names_unique(s),
        descends_from(dir, root, p),
        forall|j: int|
            0 <= j < s.len() && s[j].0 != name && descends_from(dir, s[j].1.path, p)
                ==> s[j].1.path.len() < root.len(),
    ensures
        run_command_spec(upserted(s, name, new_record(Language::Python, name, root)), dir, p)
            == Ok::<PlanView, CommandError>(
            stages_plan(
                seq![
                    call(
                        "python3"@,
                        seq![entry_path(root, default_main(Language::Python, name), p)],
                        None,
                    ),
                ],
            ),
        ),
{
    let rec = new_record(Language::Python, name, root);
    let u = upserted(s, name, rec);
    lemma_upserted_unique(s, name, rec);
    let r = index_of(u, name);
    assert(u[r].0 == name && u[r].1 == rec);
    assert forall|j: int|
        0 <= j < u.len() && j != r && descends_from(dir, u[j].1.path, p) implies u[j].1.path.len()
        < u[r].1.path.len() by {
        assert(u[j].0 != u[r].0);
        if has_name(s, name) {
            let i = index_of(s, name);
            assert(u[i].0 == name);
            assert(j != i);
            assert(u[j] == s[j]);
        } else {
            assert(j < s.len());
            assert(u[j] == s[j]);
        }
    }
    lemma_owner_resolves(u, dir, r, p);
}

/// Plans `run` from the directory `dir`.
pub fn run_project(db: &ProjectsDb, dir: &str, p: Platform) -> (r: Result<Plan, CommandError>)
    requires
        db.wf(),
    ensures
        r matches Ok(plan) ==> run_command_spec(db@, dir@, p) == Ok::<PlanView, CommandError>(
            plan@,
        ),
        r matches Err(e) ==> run_command_spec(db@, dir@, p) == Err::<PlanView, CommandError>(
            e,
        ),
{
    match db.resolve(dir, p) {
        None => Err(CommandError::NotAProject),
        Some(i) => match plan_project_run(&db.entry(i).info, p) {
            Ok(plan) => Ok(plan),
            Err(_) => Err(CommandError::UnsupportedLanguage),
        },
    }
}

/// What `add` does from `dir`: resolve the owning project, then plan the
/// package manager's commands.
pub open spec fn add_command_spec(
    s: Seq<(Seq<char>, RecordView)>,
    dir: Seq<char>,
    package: Seq<char>,
    p: Platform,
) -> Result<PlanView, CommandError> {
    match resolution(s, dir, p) {
        None => Err(CommandError::NotAProject),
        Some(i) => match add_spec(language_of(s[i].1.language), s[i].1.path, package, p) {
            Some(plan) => Ok(plan),
            None => Err(CommandError::UnsupportedLanguage),
        },
    }
}

/// Plans `add` of `package` from the directory `dir`.
pub fn add_package(db: &ProjectsDb, dir: &str, package: &str, p: Platform) -> (r: Result<
    Plan,
    CommandError,
>)
    requires
        db.wf(),
    ensures
        r matches Ok(plan) ==> add_command_spec(db@, dir@, package@, p) == Ok::<
            PlanView,
            CommandError,
        >(plan@),
        r matches Err(e) ==> add_command_spec(db@, dir@, package@, p) == Err::<
            PlanView,
            CommandError,
        >(e),
{
    match db.resolve(dir, p) {
        None => Err(CommandError::NotAProject),
        Some(i) => match plan_project_add(&db.entry(i).info, package, p) {
            Ok(plan) => Ok(plan),
            Err(_) => Err(CommandError::UnsupportedLanguage),
        },
    }
}

/// `config main`: points the entry file of the project that owns `dir` to
/// `main`.
pub fn set_main_path(db: &mut ProjectsDb, dir: &str, main: &str, p: Platform) -> (r: Result<
    (),
    CommandError,
>)
    requires
        old(db).wf(),
    ensures
        final(db).wf(),
        resolution(old(db)@, dir@, p) is None ==> r == Err::<(), CommandError>(
            CommandError::NotAProject,
        ) && final(db)@ == old(db)@,
        resolution(old(db)@, dir@, p) matches Some(i) ==> r is Ok && final(db)@ == old(db)@.update(
            i,
            (old(db)@[i].0, RecordView { main: main@, ..old(db)@[i].1 }),
        ),
{
    match db.resolve(dir, p) {
        None => Err(CommandError::NotAProject),
        Some(i) => {
            db.set_main(i, main);
            Ok(())
        },
    }
}

/// `delete`: takes the project out of the registry, handing back its record
/// so that its root can be removed from disk.
pub fn delete_project(db: &mut ProjectsDb, project: &str) -> (r: Result<ProjectInfo, CommandError>)
    requires
        old(db).wf(),
    ensures
        final(db).wf(),
        final(db)@ == removed(old(db)@, project@),
        r matches Ok(info) ==> lookup(old(db)@, project@) == Some(info@),
        r is Err ==> lookup(old(db)@, project@) is None && r == Err::<ProjectInfo, CommandError>(
            CommandError::UnknownProject,
        ),
{
    match db.remove(project) {
        Some(info) => Ok(info),
        None => Err(CommandError::UnknownProject),
    }
}

/// The registry that a read of the backing file gives: the entries parsed
/// from it, or none where the file was missing or malformed.
pub fn load_projects_db(parsed: Option<Vec<ProjectEntry>>) -> (r: ProjectsDb)
    ensures
        r.wf(),
        parsed matches Some(v) ==> r@ == loaded(entries_view(v@)),
        parsed is None ==> r@ == Seq::<(Seq<char>, RecordView)>::empty(),
{
    match parsed {
        Some(v) => ProjectsDb::from_entries(&v),
        None => ProjectsDb::new(),
    }
}

/// The entries that are written to the backing file, whole.
pub fn save_projects_db(db: &ProjectsDb) -> (r: Vec<ProjectEntry>)
    ensures
        entries_view(r@) == db@,
{
    db.to_entries()
}

/// What `secrets` did.
#[derive(Clone, Copy, Debug, PartialEq, Eq, Structural)]
pub enum SecretOutcome {
    /// The secret was stored; the file is to be written.
    Saved,
    /// The secret was taken out; the file is to be written.
    Removed,
    /// The secret to remove or show is not there.
    Missing,
    /// The secret to show is there.
    Found,
    /// The action is none of save, add, delete, remove, show.
    Unsupported,
    /// No registered project contains the current directory.
    NotAProject,
}

pub open spec fn is_save_action(a: Seq<char>) -> bool {
    a == "save"@ || a == "add"@
}

pub open spec fn is_delete_action(a: Seq<char>) -> bool {
    a == "delete"@ || a == "remove"@
}

/// `secrets ACTION SECRET [VALUE]` from the directory `dir`, applied to the
/// secrets of the project's `.env` file.
pub fn secrets_manager(
    db: &ProjectsDb,
    dir: &str,
    action: &str,
    secret: &str,
    secret_value: &str,
    secrets: &mut Secrets,
    p: Platform,
) -> (r: SecretOutcome)
    requires
        db.wf(),
        old(secrets).wf(),
    ensures
        final(secrets).wf(),
        resolution(db@, dir@, p) is None ==> r == SecretOutcome::NotAProject && final(secrets)@ == old(
            secrets,
        )@,
        resolution(db@, dir@, p) is Some && is_save_action(action@) ==> r == SecretOutcome::Saved
            && final(secrets)@ == with_secret(old(secrets)@, secret@, secret_value@),
        resolution(db@, dir@, p) is Some && !is_save_action(action@) && is_delete_action(action@)
            ==> final(secrets)@ == without_secret(old(secrets)@, secret@) && r == (if has_key(
            old(secrets)@,
            secret@,
        ) {
            SecretOutcome::Removed
        } else {
            SecretOutcome::Missing
        }),
        resolution(db@, dir@, p) is Some && !is_save_action(action@) && !is_delete_action(action@)
            ==> final(secrets)@ == old(secrets)@ && r == (if action@ != "show"@ {
            SecretOutcome::Unsupported
        } else if has_key(old(secrets)@, secret@) {
            SecretOutcome::Found
        } else {
            SecretOutcome::Missing
        }),
{
    if db.resolve(dir, p).is_none() {
        return SecretOutcome::NotAProject;
    }
    if same_text(action, "save") || same_text(action, "add") {
        secrets.insert(secret, secret_value);
        SecretOutcome::Saved
    } else if same_text(action, "delete") || same_text(action, "remove") {
        if secrets.remove(secret) {
            SecretOutcome::Removed
        } else {
            SecretOutcome::Missing
        }
    } else if same_text(action, "show") {
        match secrets.get(secret) {
            Some(_) => SecretOutcome::Found,
            None => SecretOutcome::Missing,
        }
    } else {
        SecretOutcome::Unsupported
    }
}

pub const OPEN_SCRIPT_UNIX_TEXT: &'static str = "#!/bin/bash\n        cd $1";

pub const OPEN_SCRIPT_WINDOWS_TEXT: &'static str = "@echo off\n        start cmd /k cd /d %~1";

/// How `open` enters a project: the helper script to create where it is
/// missing, its text, and the command that runs it on the project root.
pub struct OpenPlan {
    pub script_path: String,
    pub script_text: String,
    pub launch: Invocation,
}

pub open spec fn open_script_name(p: Platform) -> Seq<char> {
    if p == Platform::Windows {
        "open_project.bat"@
    } else {
        "open_project.sh"@
    }
}

pub open spec fn open_script_text(p: Platform) -> Seq<char> {
    if p == Platform::Windows {
        OPEN_SCRIPT_WINDOWS_TEXT@
    } else {
        OPEN_SCRIPT_UNIX_TEXT@
    }
}

/// The command that runs the helper script `script` on the project root.
pub open spec fn open_launch(script: Seq<char>, root: Seq<char>, p: Platform) -> InvocationView {
    if p == Platform::Windows {
        call("cmd"@, seq!["/C"@, script, root], None)
    } else {
        call("sh"@, seq!["-c"@, script + seq![' '] + root], None)
    }
}

/// `open NAME`: the helper script under `install_dir` and its launch on the
/// root of the project registered as `project`.
pub fn open_project(db: &ProjectsDb, project: &str, install_dir: &str, p: Platform) -> (r: Result<
    OpenPlan,
    CommandError,
>)
    requires
        db.wf(),
    ensures
        lookup(db@, project@) is None ==> r == Err::<OpenPlan, CommandError>(
            CommandError::UnknownProject,
        ),
        lookup(db@, project@) matches Some(rec) ==> (r matches Ok(plan) && plan.script_path@
            == child_path(install_dir@, open_script_name(p)) && plan.script_text@
            == open_script_text(p) && plan.launch@ == open_launch(
            child_path(install_dir@, open_script_name(p)),
            rec.path,
            p,
        )),
{
    match db.get(project) {
        None => Err(CommandError::UnknownProject),
        Some(info) => {
            let root = info.project_path.as_str();
            if p == Platform::Windows {
                let script = child(install_dir, "open_project.bat");
                let mut args: Vec<String> = Vec::new();
                args.push("/C".to_owned());
                args.push(script.clone());
                args.push(root.to_owned());
                assert(crate::dispatch::texts_view(args@) =~= seq!["/C"@, script@, root@]);
                let launch = Invocation { program: "cmd".to_owned(), args, cwd: None };
                assert(launch@ == open_launch(script@, root@, p));
                Ok(
                    OpenPlan {
                        script_path: script,
                        script_text: OPEN_SCRIPT_WINDOWS_TEXT.to_owned(),
                        launch,
                    },
                )
            } else {
                let script = child(install_dir, "open_project.sh");
                let mut line = script.clone();
                line.append(" ");
                proof {
                    reveal_strlit(" ");
                }
                line.append(root);
                let args = args2("-c", line.as_str());
                let launch = Invocation { program: "sh".to_owned(), args, cwd: None };
                assert(line@ == script@ + seq![' '] + root@);
                assert(launch@ == open_launch(script@, root@, p));
                Ok(
                    OpenPlan {
                        script_path: script,
                        script_text: OPEN_SCRIPT_UNIX_TEXT.to_owned(),
                        launch,
                    },
                )
            }
        },
    }
}

} // verus!
