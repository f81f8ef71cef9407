use vstd::prelude::*;
use crate::language::{language_of, Language};
use crate::paths::{child, child_path, entry_path, join_entry, Platform};
use crate::registry::ProjectInfo;

verus! {

/// One external command: the program, its arguments, and the directory it
/// runs in (the caller's own where `cwd` is `None`).
pub struct Invocation {
    pub program: String,
    pub args: Vec<String>,
    pub cwd: Option<String>,
}

pub ghost struct InvocationView {
    pub program: Seq<char>,
    pub args: Seq<Seq<char>>,
    pub cwd: Option<Seq<char>>,
}

pub open spec fn texts_view(v: Seq<String>) -> Seq<Seq<char>> {
    v.map_values(|s: String| s@)
}

pub open spec fn opt_view(o: Option<String>) -> Option<Seq<char>> {
    match o {
        Some(s) => Some(s@),
        None => None,
    }
}

impl View for Invocation {
    type V = InvocationView;

    open spec fn view(&self) -> InvocationView {
        InvocationView {
            program: self.program@,
            args: texts_view(self.args@),
            cwd: opt_view(self.cwd),
        }
    }
}

pub open spec fn call(program: Seq<char>, args: Seq<Seq<char>>, cwd: Option<Seq<char>>) -> InvocationView {
    InvocationView { program, args, cwd }
}

/// What a command of the toolchain comes to: the commands to run in order,
/// a file to which a dependency line is appended before them, and a message
/// for the user where nothing is run.
pub struct Plan {
    pub requirement_file: Option<String>,
    pub stages: Vec<Invocation>,
    pub notice: Option<String>,
}

pub ghost struct PlanView {
    pub requirement_file: Option<Seq<char>>,
    pub stages: Seq<InvocationView>,
    pub notice: Option<Seq<char>>,
}

pub open spec fn invocations_view(v: Seq<Invocation>) -> Seq<InvocationView> {
    v.map_values(|i: Invocation| i@)
}

impl View for Plan {
    type V = PlanView;

    open spec fn view(&self) -> PlanView {
        PlanView {
            requirement_file: opt_view(self.requirement_file),
            stages: invocations_view(self.stages@),
            notice: opt_view(self.notice),
        }
    }
}

pub open spec fn stages_plan(stages: Seq<InvocationView>) -> PlanView {
    PlanView { requirement_file: None, stages, notice: None }
}

pub open spec fn notice_plan(notice: Seq<char>) -> PlanView {
    PlanView { requirement_file: None, stages: Seq::empty(), notice: Some(notice) }
}

/// The file a compiler writes its executable to.
pub open spec fn binary_name(p: Platform) -> Seq<char> {
    if p == Platform::Windows {
        "a.exe"@
    } else {
        "a.out"@
    }
}

/// The command that starts that executable from the project root.
pub open spec fn binary_command(p: Platform) -> Seq<char> {
    if p == Platform::Windows {
        "./a.exe"@
    } else {
        "./a.out"@
    }
}

pub open spec fn npm_program(p: Platform) -> Seq<char> {
    if p == Platform::Windows {
        "npm.cmd"@
    } else {
        "npm"@
    }
}

pub open spec fn npx_program(p: Platform) -> Seq<char> {
    if p == Platform::Windows {
        "npx.cmd"@
    } else {
        "npx"@
    }
}

/// Compile `main` in the root with `compiler`, then start the executable.
pub open spec fn compiled_run(compiler: Seq<char>, root: Seq<char>, main: Seq<char>, p: Platform) -> PlanView {
    stages_plan(
        seq![
            call(compiler, seq![main, "-o"@, binary_name(p)], Some(root)),
            call(binary_command(p), Seq::empty(), Some(root)),
        ],
    )
}

/// How a project of `lang` rooted at `root` with entry `main` is run, or
/// `None` where the language has no way to run it on the platform.
pub open spec fn run_spec(lang: Language, root: Seq<char>, main: Seq<char>, p: Platform) -> Option<
    PlanView,
> {
    let script = entry_path(root, main, p);
    match lang {
        Language::Python => Some(stages_plan(seq![call("python3"@, seq![script], None)])),
        Language::Rust => Some(stages_plan(seq![call("cargo"@, seq!["run"@], Some(root))])),
        Language::Cpp => Some(compiled_run("g++"@, root, main, p)),
        Language::C => Some(compiled_run("gcc"@, root, main, p)),
        Language::Swift => Some(stages_plan(seq![call("swift"@, seq!["run"@], Some(root))])),
        Language::Java => Some(
            stages_plan(
                seq![
                    call("javac"@, seq![main], Some(root)),
                    call("java"@, seq!["-cp"@, child_path(root, "src"@), "Main"@], Some(root)),
                ],
            ),
        ),
        Language::JavaScript => Some(stages_plan(seq![call("node"@, seq![script], None)])),
        Language::TypeScript => Some(
            stages_plan(
                seq![
                    call(npx_program(p), seq!["tsc"@], Some(root)),
                    call("node"@, seq![script], None),
                ],
            ),
        ),
        Language::Go => Some(stages_plan(seq![call("go"@, seq!["run"@, script], None)])),
        Language::CSharp => Some(stages_plan(seq![call("dotnet"@, seq!["run"@], Some(root))])),
        Language::React => Some(stages_plan(seq![call(npm_program(p), seq!["start"@], Some(root))])),
        Language::Ruby => Some(stages_plan(seq![call("ruby"@, seq![script], None)])),
        Language::Dart => Some(stages_plan(seq![call("dart"@, seq!["run"@, script], None)])),
        Language::Perl => Some(stages_plan(seq![call("perl"@, seq![script], None)])),
        Language::Shell => if p == Platform::Windows {
            None
        } else {
            Some(stages_plan(seq![call("sh"@, seq![script], None)]))
        },
        Language::R => Some(notice_plan("Open the R script in RStudio or R interpreter."@)),
        Language::Scala => Some(notice_plan("Open the Scala script in SBT."@)),
        Language::Html => Some(
            stages_plan(
                seq![
                    if p == Platform::Windows {
                        call("cmd"@, seq!["/c"@, "start"@, script], None)
                    } else if p == Platform::MacOs {
                        call("open"@, seq![script], None)
                    } else {
                        call("xdg-open"@, seq![script], None)
                    },
                ],
            ),
        ),
        Language::Other => None,
    }
}

/// The pip of the project's virtual environment.
pub open spec fn pip_path(root: Seq<char>, p: Platform) -> Seq<char> {
    if p == Platform::Windows {
        child_path(child_path(child_path(root, "venv"@), "Scripts"@), "pip.exe"@)
    } else {
        child_path(child_path(child_path(root, "venv"@), "bin"@), "pip"@)
    }
}

/// How `package` is added to a project of `lang` rooted at `root`, or `None`
/// where the language has no package manager.
pub open spec fn add_spec(lang: Language, root: Seq<char>, package: Seq<char>, p: Platform) -> Option<
    PlanView,
> {
    match lang {
        Language::Python => Some(
            PlanView {
                requirement_file: Some(child_path(root, "requirements.txt"@)),
                stages: seq![call(pip_path(root, p), seq!["install"@, package], None)],
                notice: None,
            },
        ),
        Language::Rust => Some(stages_plan(seq![call("cargo"@, seq!["add"@, package], Some(root))])),
        Language::JavaScript => Some(
            stages_plan(seq![call("npm"@, seq!["install"@, "--save"@, package], Some(root))]),
        ),
        Language::Ruby => Some(stages_plan(seq![call("gem"@, seq!["install"@, package], Some(root))])),
        Language::Java => Some(
            stages_plan(seq![call("gradle"@, seq!["install"@, package], Some(root))]),
        ),
        Language::CSharp => Some(
            stages_plan(seq![call("nuget"@, seq!["install"@, package], Some(root))]),
        ),
        _ => None,
    }
}

pub(crate) fn args0() -> (r: Vec<String>)
    ensures
        texts_view(r@) == Seq::<Seq<char>>::empty(),
{
    let r: Vec<String> = Vec::new();
    assert(texts_view(r@) =~= Seq::<Seq<char>>::empty());
    r
}

pub(crate) fn args1(a: &str) -> (r: Vec<String>)
    ensures
        texts_view(r@) == seq![a@],
{
    let mut r: Vec<String> = Vec::new();
    r.push(a.to_owned());
    assert(texts_view(r@) =~= seq![a@]);
    r
}

pub(crate) fn args2(a: &str, b: &str) -> (r: Vec<String>)
    ensures
        texts_view(r@) == seq![a@, b@],
{
    let mut r: Vec<String> = Vec::new();
    r.push(a.to_owned());
    r.push(b.to_owned());
    assert(texts_view(r@) =~= seq![a@, b@]);
    r
}

pub(crate) fn args3(a: &str, b: &str, c: &str) -> (r: Vec<String>)
    ensures
        texts_view(r@) == seq![a@, b@, c@],
{
    let mut r: Vec<String> = Vec::new();
    r.push(a.to_owned());
    r.push(b.to_owned());
    r.push(c.to_owned());
    assert(texts_view(r@) =~= seq![a@, b@, c@]);
    r
}

pub(crate) fn args4(a: &str, b: &str, c: &str, d: &str) -> (r: Vec<String>)
    ensures
        texts_view(r@) == seq![a@, b@, c@, d@],
{
    let mut r: Vec<String> = Vec::new();
    r.push(a.to_owned());
    r.push(b.to_owned());
    r.push(c.to_owned());
    r.push(d.to_owned());
    assert(texts_view(r@) =~= seq![a@, b@, c@, d@]);
    r
}

fn invoke(program: &str, args: Vec<String>, cwd: Option<&str>) -> (r: Invocation)
    ensures
        r@ == call(
            program@,
            texts_view(args@),
            match cwd {
                Some(c) => Some(c@),
                None => None,
            },
        ),
{
    let cwd = match cwd {
        Some(c) => Some(c.to_owned()),
        None => None,
    };
    Invocation { program: program.to_owned(), args, cwd }
}

fn single(i: Invocation) -> (r: Plan)
    ensures
        r@ == stages_plan(seq![i@]),
{
    let mut stages: Vec<Invocation> = Vec::new();
    stages.push(i);
    assert(invocations_view(stages@) =~= seq![i@]);
    Plan { requirement_file: None, stages, notice: None }
}

fn double(i: Invocation, j: Invocation) -> (r: Plan)
    ensures
        r@ == stages_plan(seq![i@, j@]),
{
    let mut stages: Vec<Invocation> = Vec::new();
    stages.push(i);
    stages.push(j);
    assert(invocations_view(stages@) =~= seq![i@, j@]);
    Plan { requirement_file: None, stages, notice: None }
}

fn notice(text: &str) -> (r: Plan)
    ensures
        r@ == notice_plan(text@),
{
    let stages: Vec<Invocation> = Vec::new();
    assert(invocations_view(stages@) =~= Seq::<InvocationView>::empty());
    Plan { requirement_file: None, stages, notice: Some(text.to_owned()) }
}

fn binary(p: Platform) -> (r: &'static str)
    ensures
        r@ == binary_name(p),
{
    if p == Platform::Windows {
        "a.exe"
    } else {
        "a.out"
    }
}

fn binary_start(p: Platform) -> (r: &'static str)
    ensures
        r@ == binary_command(p),
{
    if p == Platform::Windows {
        "./a.exe"
    } else {
        "./a.out"
    }
}

fn npm(p: Platform) -> (r: &'static str)
    ensures
        r@ == npm_program(p),
{
    if p == Platform::Windows {
        "npm.cmd"
    } else {
        "npm"
    }
}

pub(crate) fn npx(p: Platform) -> (r: &'static str)
    ensures
        r@ == npx_program(p),
{
    if p == Platform::Windows {
        "npx.cmd"
    } else {
        "npx"
    }
}

fn compiled(compiler: &str, root: &str, main: &str, p: Platform) -> (r: Plan)
    ensures
        r@ == compiled_run(compiler@, root@, main@, p),
{
    double(
        invoke(compiler, args3(main, "-o", binary(p)), Some(root)),
        invoke(binary_start(p), args0(), Some(root)),
    )
}

/// Why the dispatcher could not act on a project.
#[derive(Clone, Copy, Debug, PartialEq, Eq, Structural)]
pub enum DispatchError {
    /// The language has no mapping for the requested operation.
    Unsupported,
}

/// The commands that run a project of `lang` rooted at `root` with entry `main`.
pub fn plan_run(lang: Language, root: &str, main: &str, p: Platform) -> (r: Result<Plan, DispatchError>)
    ensures
        r matches Ok(plan) ==> run_spec(lang, root@, main@, p) == Some(plan@),
        r is Err ==> run_spec(lang, root@, main@, p) is None,
{
    let script = join_entry(root, main, p);
    let s = script.as_str();
    match lang {
        Language::Python => Ok(single(invoke("python3", args1(s), None))),
        Language::Rust => Ok(single(invoke("cargo", args1("run"), Some(root)))),
        Language::Cpp => Ok(compiled("g++", root, main, p)),
        Language::C => Ok(compiled("gcc", root, main, p)),
        Language::Swift => Ok(single(invoke("swift", args1("run"), Some(root)))),
        Language::Java => {
            let classes = child(root, "src");
            Ok(
                double(
                    invoke("javac", args1(main), Some(root)),
                    invoke("java", args3("-cp", classes.as_str(), "Main"), Some(root)),
                ),
            )
        },
        Language::JavaScript => Ok(single(invoke("node", args1(s), None))),
        Language::TypeScript => Ok(
            double(invoke(npx(p), args1("tsc"), Some(root)), invoke("node", args1(s), None)),
        ),
        Language::Go => Ok(single(invoke("go", args2("run", s), None))),
        Language::CSharp => Ok(single(invoke("dotnet", args1("run"), Some(root)))),
        Language::React => Ok(single(invoke(npm(p), args1("start"), Some(root)))),
        Language::Ruby => Ok(single(invoke("ruby", args1(s), None))),
        Language::Dart => Ok(single(invoke("dart", args2("run", s), None))),
        Language::Perl => Ok(single(invoke("perl", args1(s), None))),
        Language::Shell => {
            if p == Platform::Windows {
                Err(DispatchError::Unsupported)
            } else {
                Ok(single(invoke("sh", args1(s), None)))
            }
        },
        Language::R => Ok(notice("Open the R script in RStudio or R interpreter.")),
        Language::Scala => Ok(notice("Open the Scala script in SBT.")),
        Language::Html => {
            if p == Platform::Windows {
                Ok(single(invoke("cmd", args3("/c", "start", s), None)))
            } else if p == Platform::MacOs {
                Ok(single(invoke("open", args1(s), None)))
            } else {
                Ok(single(invoke("xdg-open", args1(s), None)))
            }
        },
        Language::Other => Err(DispatchError::Unsupported),
    }
}

fn pip(root: &str, p: Platform) -> (r: String)
    ensures
        r@ == pip_path(root@, p),
{
    let venv = child(root, "venv");
    if p == Platform::Windows {
        let scripts = child(venv.as_str(), "Scripts");
        child(scripts.as_str(), "pip.exe")
    } else {
        let bin = child(venv.as_str(), "bin");
        child(bin.as_str(), "pip")
    }
}

/// The commands that add `package` to a project of `lang` rooted at `root`.
pub fn plan_add(lang: Language, root: &str, package: &str, p: Platform) -> (r: Result<Plan, DispatchError>)
    ensures
        r matches Ok(plan) ==> add_spec(lang, root@, package@, p) == Some(plan@),
        r is Err ==> add_spec(lang, root@, package@, p) is None,
{
    match lang {
        Language::Python => {
            let pip = pip(root, p);
            let mut plan = single(invoke(pip.as_str(), args2("install", package), None));
            plan.requirement_file = Some(child(root, "requirements.txt"));
            Ok(plan)
        },
        Language::Rust => Ok(single(invoke("cargo", args2("add", package), Some(root)))),
        Language::JavaScript => Ok(
            single(invoke("npm", args3("install", "--save", package), Some(root))),
        ),
        Language::Ruby => Ok(single(invoke("gem", args2("install", package), Some(root)))),
        Language::Java => Ok(single(invoke("gradle", args2("install", package), Some(root)))),
        Language::CSharp => Ok(single(invoke("nuget", args2("install", package), Some(root)))),
        _ => Err(DispatchError::Unsupported),
    }
}

/// The commands that run the registered project `info`.
pub fn plan_project_run(info: &ProjectInfo, p: Platform) -> (r: Result<Plan, DispatchError>)
    ensures
        r matches Ok(plan) ==> run_spec(language_of(info@.language), info@.path, info@.main, p)
            == Some(plan@),
        r is Err ==> run_spec(language_of(info@.language), info@.path, info@.main, p) is None,
{
    let lang = Language::from_tag(info.project_language.as_str());
    plan_run(lang, info.project_path.as_str(), info.project_main.as_str(), p)
}

/// The commands that add `package` to the registered project `info`.
pub fn plan_project_add(info: &ProjectInfo, package: &str, p: Platform) -> (r: Result<
    Plan,
    DispatchError,
>)
    ensures
        r matches Ok(plan) ==> add_spec(language_of(info@.language), info@.path, package@, p)
            == Some(plan@),
        r is Err ==> add_spec(language_of(info@.language), info@.path, package@, p) is None,
{
    let lang = Language::from_tag(info.project_language.as_str());
    plan_add(lang, info.project_path.as_str(), package, p)
}

/// How one spawned command ended: with an exit code, without one (killed by
/// a signal), or not started at all.
#[derive(Clone, Copy, Debug, PartialEq, Eq, Structural)]
pub enum ExitOutcome {
    Code(i32),
    NoCode,
    NotStarted,
}

pub open spec fn succeeded(o: ExitOutcome) -> bool {
    o == ExitOutcome::Code(0)
}

pub open spec fn all_succeeded(o: Seq<ExitOutcome>) -> bool {
    forall|k: int| 0 <= k < o.len() ==> succeeded(o[k])
}

/// The stage at `k` is the first that did not succeed.
pub open spec fn first_failure(o: Seq<ExitOutcome>, k: int) -> bool {
    &&& 0 <= k < o.len()
    &&& !succeeded(o[k])
    &&& forall|j: int| 0 <= j < k ==> succeeded(o[j])
}

/// What the executor of a plan does next.
#[derive(Clone, Copy, Debug, PartialEq, Eq, Structural)]
pub enum Step {
    /// Start the stage with this index and report how it ended.
    Spawn(usize),
    /// Every stage succeeded.
    Finished,
    /// The stage with this index failed; nothing more is run.
    Failed(usize),
}

/// The next step of a plan of `n` stages, given how the stages run so far
/// ended, in order.
pub open spec fn next_step_spec(n: int, o: Seq<ExitOutcome>) -> Step {
    if all_succeeded(o) {
        if o.len() < n {
            Step::Spawn(o.len() as usize)
        } else {
            Step::Finished
        }
    } else {
        Step::Failed((choose|k: int| first_failure(o, k)) as usize)
    }
}

impl Plan {
    /// Decides what follows the outcomes reported so far: the next stage only
    /// when every earlier stage exited with status zero.
    pub fn next_step(&self, outcomes: &Vec<ExitOutcome>) -> (r: Step)
        ensures
            r == next_step_spec(self@.stages.len() as int, outcomes@),
    {
        let mut k: usize = 0;
        while k < outcomes.len()
            invariant
                k <= outcomes@.len(),
                forall|j: int| 0 <= j < k ==> succeeded(outcomes@[j]),
            decreases outcomes@.len() - k,
        {
            if outcomes[k] != ExitOutcome::Code(0) {
                proof {
                    let c = choose|c: int| first_failure(outcomes@, c);
                    assert(first_failure(outcomes@, k as int));
                    if c < k {
                        assert(succeeded(outcomes@[c]));
                    } else if c > k {
                        assert(succeeded(outcomes@[k as int]));
                    }
                }
                return Step::Failed(k);
            }
            k = k + 1;
        }
        assert(self@.stages.len() == self.stages@.len());
        if outcomes.len() < self.stages.len() {
            Step::Spawn(outcomes.len())
        } else {
            Step::Finished
        }
    }
}

/// Running a compiled project is a build stage and then a run stage, and a
/// build that did not succeed ends the run: the executable is never started.
pub proof fn lemma_failed_build_stops_run(
    lang: Language,
    root: Seq<char>,
    main: Seq<char>,
    p: Platform,
    o: Seq<ExitOutcome>,
)
    requires
        lang.is_compiled(),
        o.len() >= 1,
        !succeeded(o[0]),
    ensures
        run_spec(lang, root, main, p) is Some,
        run_spec(lang, root, main, p)->0.stages.len() == 2,
        next_step_spec(2, o) == Step::Failed(0),
{
    assert(first_failure(o, 0));
    let c = choose|c: int| first_failure(o, c);
    if c > 0 {
        assert(succeeded(o[0]));
    }
}

} // verus!
