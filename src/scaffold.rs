use vstd::prelude::*;
use crate::config::DefaultFlags;
use crate::dispatch::{
    args1, args2, args3, args4, call, npx, npx_program, texts_view, Invocation, InvocationView,
};
use crate::language::{default_main, Language};
use crate::lifecycle::CommandError;
use crate::paths::{child, child_path, Platform};

verus! {

pub const DOCS_INDEX_TEXT: &'static str =
    "# Documentation\n\nThis is the documentation for the project.\n";

pub const README_TEXT: &'static str = "# Project Title\n\nDescription of the project.";

pub const DOCKERFILE_TEXT: &'static str = "";

pub const GITIGNORE_TEXT: &'static str = "venv/\n__pycache__/\n*.pyc";

pub const RUST_GITIGNORE_TEXT: &'static str = "target/\n**/*.log\n.DS_Store";

pub const SWIFT_GITIGNORE_TEXT: &'static str =
    ".build/\n*.xcodeproj\n*.xcworkspace\n*.xcuserstate\n*.swiftpm/xcode\n";

pub const PYTHON_MAIN_TEXT: &'static str =
    "def main():\n    print('Hello, world!')\n\nif __name__ == '__main__':\n    main()\n";

pub const CPP_MAIN_TEXT: &'static str =
    "#include <iostream>\n\nint main() {\n    std::cout << \"Hello, World!\" << std::endl;\n    return 0;\n}\n";

pub const C_MAIN_TEXT: &'static str =
    "#include <stdio.h>\n\nint main() {\n    printf(\"Hello, World!\\n\");\n    return 0;\n}\n";

pub const SHELL_MAIN_TEXT: &'static str =
    "#!/bin/bash\n\n# Entry point\n\necho 'Hello, World!'\n";

pub const SCALA_MAIN_TEXT: &'static str =
    "object Main {\n  def main(args: Array[String]): Unit = {\n    println(\"Hello, World!\")\n  }\n}\n";

pub const SCALA_TEST_TEXT: &'static str =
    "import org.scalatest.funsuite.AnyFunSuite\n\nclass MainTest extends AnyFunSuite {\n  test('Hello World Test') {\n    assert(true)\n  }\n}\n";

pub const SBT_HEAD_TEXT: &'static str = "name := \"";

pub const SBT_TAIL_TEXT: &'static str =
    "\"\nversion := \"0.1\"\nscalaVersion := \"2.13.8\"\n\nlibraryDependencies ++= Seq(\n  \"org.scalatest\" %% \"scalatest\" % \"3.2.10\" % Test\n)\n";

pub const R_MAIN_TEXT: &'static str = "# This is the main R script\n\nprint('Hello, World!')\n";

pub const PERL_MAIN_TEXT: &'static str = "#!/usr/bin/perl\n\nprint 'Hello, World!';\n";

pub const GO_MAIN_TEXT: &'static str =
    "package main\n\nimport \"fmt\"\n\nfunc main() {\n    fmt.Println(\"Hello, World!\")\n}\n";

pub const SWIFT_MAIN_TEXT: &'static str = "import Foundation\n\nprint(\"Hello, World!\")\n";

pub const HTML_HEAD_TEXT: &'static str = "<!DOCTYPE html>\n<html>\n<head>\n    <title>";

pub const HTML_TAIL_TEXT: &'static str =
    "</title>\n</head>\n<body>\n    <h1>Hello, World!</h1>\n</body>\n</html>\n";

pub const JAVA_MAIN_TEXT: &'static str =
    "public class Main {\n    public static void main(String[] args) {\n        System.out.println(\"Hello, World!\");\n    }\n}\n";

pub const JS_MAIN_TEXT: &'static str = "console.log('Hello, World!');\n";

pub const DART_MAIN_TEXT: &'static str = "void main() {\n    print('Hello, World!');\n}\n";

pub const TS_MAIN_TEXT: &'static str = "console.log('Hello, TypeScript!');\n";

pub const TSCONFIG_TEXT: &'static str =
    "{\"compilerOptions\": {\"target\": \"es6\", \"module\": \"commonjs\"}}\n";

pub const RUBY_MAIN_TEXT: &'static str = "puts 'Hello, World!'\n";

/// One step of laying out a project on disk.
pub enum FsOp {
    CreateDir(String),
    WriteFile(String, String),
    /// Marks a script executable (where the platform has such a mark).
    MakeExecutable(String),
    /// Copies the preferred license text to the given file.
    CopyLicense(String),
    Run(Invocation),
}

pub ghost enum FsOpView {
    CreateDir(Seq<char>),
    WriteFile(Seq<char>, Seq<char>),
    MakeExecutable(Seq<char>),
    CopyLicense(Seq<char>),
    Run(InvocationView),
}

impl View for FsOp {
    type V = FsOpView;

    open spec fn view(&self) -> FsOpView {
        match self {
            FsOp::CreateDir(p) => FsOpView::CreateDir(p@),
            FsOp::WriteFile(p, c) => FsOpView::WriteFile(p@, c@),
            FsOp::MakeExecutable(p) => FsOpView::MakeExecutable(p@),
            FsOp::CopyLicense(p) => FsOpView::CopyLicense(p@),
            FsOp::Run(i) => FsOpView::Run(i@),
        }
    }
}

pub open spec fn ops_view(v: Seq<FsOp>) -> Seq<FsOpView> {
    v.map_values(|o: FsOp| o@)
}

pub open spec fn when(flag: bool, ops: Seq<FsOpView>) -> Seq<FsOpView> {
    if flag {
        ops
    } else {
        Seq::empty()
    }
}

/// The optional documents of a new project, in this order: license,
/// readme, tests directory, docs directory with an index, Dockerfile.
pub open spec fn documents_spec(
    root: Seq<char>,
    license: bool,
    readme: bool,
    tests: bool,
    docs: bool,
    docker: bool,
) -> Seq<FsOpView> {
    when(license, seq![FsOpView::CopyLicense(child_path(root, "LICENSE"@))]) + when(
        readme,
        seq![FsOpView::WriteFile(child_path(root, "README.md"@), README_TEXT@)],
    ) + when(tests, seq![FsOpView::CreateDir(child_path(root, "tests"@))]) + when(
        docs,
        seq![
            FsOpView::CreateDir(child_path(root, "docs"@)),
            FsOpView::WriteFile(child_path(child_path(root, "docs"@), "index.md"@), DOCS_INDEX_TEXT@),
        ],
    ) + when(docker, seq![FsOpView::WriteFile(child_path(root, "Dockerfile"@), DOCKERFILE_TEXT@)])
}

/// A git repository in the root, with a default ignore file on request.
pub open spec fn git_spec(root: Seq<char>, git: bool, ignore: bool) -> Seq<FsOpView> {
    when(
        git,
        seq![FsOpView::Run(call("git"@, seq!["init"@, root], None))] + when(
            ignore,
            seq![FsOpView::WriteFile(child_path(root, ".gitignore"@), GITIGNORE_TEXT@)],
        ),
    )
}

/// Version control for a new project: a language whose initializer makes the
/// repository itself only gets its own ignore file, React none at all.
pub open spec fn vcs_spec(lang: Language, root: Seq<char>, git: bool, ignore: bool) -> Seq<FsOpView> {
    match lang {
        Language::Rust => when(
            git && ignore,
            seq![FsOpView::WriteFile(child_path(root, ".gitignore"@), RUST_GITIGNORE_TEXT@)],
        ),
        Language::Swift => when(
            git && ignore,
            seq![FsOpView::WriteFile(child_path(root, ".gitignore"@), SWIFT_GITIGNORE_TEXT@)],
        ),
        Language::React => Seq::empty(),
        _ => git_spec(root, git, ignore),
    }
}

pub open spec fn write(dir: Seq<char>, file: Seq<char>, text: Seq<char>) -> FsOpView {
    FsOpView::WriteFile(child_path(dir, file), text)
}

/// The hello-world entry file of a new project: the file that is
/// registered as its entry.
pub open spec fn entry_file(lang: Language, root: Seq<char>, text: Seq<char>) -> FsOpView {
    FsOpView::WriteFile(child_path(root, default_main(lang, root)), text)
}

/// The directories, hello-world files and initializer commands of a new
/// project of `lang` rooted at `root`.
pub open spec fn layout_spec(lang: Language, root: Seq<char>, tests: bool, p: Platform) -> Seq<
    FsOpView,
> {
    let src = child_path(root, "src"@);
    match lang {
        Language::Python => seq![
            FsOpView::CreateDir(src),
            entry_file(lang, root, PYTHON_MAIN_TEXT@),
            write(root, "requirements.txt"@, ""@),
        ],
        Language::Cpp => seq![FsOpView::CreateDir(src), entry_file(lang, root, CPP_MAIN_TEXT@)],
        Language::C => seq![FsOpView::CreateDir(src), entry_file(lang, root, C_MAIN_TEXT@)],
        Language::Rust => seq![FsOpView::Run(call("cargo"@, seq!["new"@, root, "--bin"@], None))],
        Language::Scala => {
            let main_dir = child_path(root, "src/main/scala"@);
            let test_dir = child_path(root, "src/test/scala"@);
            seq![FsOpView::CreateDir(main_dir)] + when(tests, seq![FsOpView::CreateDir(test_dir)])
                + seq![entry_file(lang, root, SCALA_MAIN_TEXT@)] + when(
                tests,
                seq![write(test_dir, "MainTest.scala"@, SCALA_TEST_TEXT@)],
            ) + seq![write(root, "build.sbt"@, SBT_HEAD_TEXT@ + root + SBT_TAIL_TEXT@)]
        },
        Language::R => seq![FsOpView::CreateDir(root), entry_file(lang, root, R_MAIN_TEXT@)],
        Language::Perl => seq![FsOpView::CreateDir(root), entry_file(lang, root, PERL_MAIN_TEXT@)],
        Language::Go => seq![
            FsOpView::CreateDir(root),
            entry_file(lang, root, GO_MAIN_TEXT@),
            FsOpView::Run(call("go"@, seq!["mod"@, "init"@, root], Some(root))),
        ],
        Language::Swift => {
            let sources = child_path(child_path(root, "Sources"@), root);
            seq![
                FsOpView::CreateDir(root),
                FsOpView::Run(
                    call("swift"@, seq!["package"@, "init"@, "--type"@, "executable"@], Some(root)),
                ),
                FsOpView::CreateDir(sources),
                entry_file(lang, root, SWIFT_MAIN_TEXT@),
            ]
        },
        Language::Html => seq![
            FsOpView::CreateDir(src),
            entry_file(lang, root, HTML_HEAD_TEXT@ + root + HTML_TAIL_TEXT@),
        ],
        Language::React => seq![
            FsOpView::Run(call(npx_program(p), seq!["create-react-app"@, root], None)),
        ],
        Language::Java => seq![FsOpView::CreateDir(src), entry_file(lang, root, JAVA_MAIN_TEXT@)],
        Language::JavaScript => seq![
            FsOpView::CreateDir(root),
            FsOpView::CreateDir(src),
            entry_file(lang, root, JS_MAIN_TEXT@),
            FsOpView::Run(call("npm"@, seq!["init"@, "-y"@], Some(root))),
        ],
        Language::Dart => {
            let lib = child_path(root, "lib"@);
            seq![
                FsOpView::CreateDir(root),
                FsOpView::CreateDir(lib),
                entry_file(lang, root, DART_MAIN_TEXT@),
                FsOpView::Run(call("dart"@, seq!["create"@, "."@], Some(root))),
            ]
        },
        Language::TypeScript => seq![
            FsOpView::CreateDir(root),
            FsOpView::CreateDir(src),
            entry_file(lang, root, TS_MAIN_TEXT@),
            FsOpView::Run(call("npm"@, seq!["init"@, "-y"@], Some(root))),
            FsOpView::Run(
                call("npm"@, seq!["install"@, "typescript"@, "--save-dev"@], Some(root)),
            ),
            write(root, "tsconfig.json"@, TSCONFIG_TEXT@),
        ],
        Language::Ruby => seq![FsOpView::CreateDir(src), entry_file(lang, root, RUBY_MAIN_TEXT@)],
        Language::CSharp => seq![
            FsOpView::Run(call("dotnet"@, seq!["new"@, "console"@, "-n"@, root], None)),
        ],
        Language::Shell => {
            let script = child_path(root, default_main(lang, root));
            seq![FsOpView::CreateDir(root), FsOpView::WriteFile(script, SHELL_MAIN_TEXT@)] + when(
                p != Platform::Windows,
                seq![FsOpView::MakeExecutable(script)],
            )
        },
        Language::Other => Seq::empty(),
    }
}

/// Everything `new` does on disk for a project named `name` (its root
/// directory, relative to where the command runs).
pub open spec fn scaffold_spec(name: Seq<char>, lang: Language, o: DefaultFlags, p: Platform) -> Seq<
    FsOpView,
> {
    layout_spec(lang, name, o.tests, p) + vcs_spec(lang, name, o.git, o.ignore) + when(
        lang == Language::Python && o.venv,
        seq![FsOpView::Run(call("python3"@, seq!["-m"@, "venv"@, "venv"@], Some(name)))],
    ) + documents_spec(name, o.license, o.readme, o.tests, o.docs, o.docker)
}

/// The languages whose layout the library writes itself, rather than a
/// toolchain's own initializer.
pub open spec fn writes_own_layout(lang: Language) -> bool {
    lang != Language::Rust && lang != Language::React && lang != Language::CSharp && lang
        != Language::Other
}

/// Whether `ops` writes a file at `path`.
pub open spec fn writes_file(ops: Seq<FsOpView>, path: Seq<char>) -> bool {
    exists|k: int| 0 <= k < ops.len() && #[trigger] ops[k] is WriteFile && ops[k]->WriteFile_0 == path
}

/// A new project of a language whose layout is written out gets its
/// hello-world file exactly at the entry that `new` registers.
pub proof fn lemma_scaffold_writes_entry(name: Seq<char>, lang: Language, o: DefaultFlags, p: Platform)
    requires
        writes_own_layout(lang),
    ensures
        writes_file(scaffold_spec(name, lang, o, p), child_path(name, default_main(lang, name))),
{
    let l = layout_spec(lang, name, o.tests, p);
    let all = scaffold_spec(name, lang, o, p);
    let k: int = match lang {
        Language::Scala => if o.tests {
            2
        } else {
            1
        },
        Language::Swift => 3,
        Language::JavaScript => 2,
        Language::Dart => 2,
        Language::TypeScript => 2,
        _ => 1,
    };
    assert(0 <= k < l.len());
    assert(l[k] is WriteFile && l[k]->WriteFile_0 == child_path(name, default_main(lang, name)));
    assert(all[k] == l[k]);
}

fn push_op(ops: &mut Vec<FsOp>, op: FsOp)
    ensures
        ops_view(final(ops)@) == ops_view(old(ops)@).push(op@),
{
    ops.push(op);
    assert(ops_view(ops@) =~= ops_view(old(ops)@).push(op@));
}

fn push_dir(ops: &mut Vec<FsOp>, path: &str)
    ensures
        ops_view(final(ops)@) == ops_view(old(ops)@).push(FsOpView::CreateDir(path@)),
{
    push_op(ops, FsOp::CreateDir(path.to_owned()));
}

fn push_write(ops: &mut Vec<FsOp>, dir: &str, file: &str, text: &str)
    ensures
        ops_view(final(ops)@) == ops_view(old(ops)@).push(write(dir@, file@, text@)),
{
    push_op(ops, FsOp::WriteFile(child(dir, file), text.to_owned()));
}

fn push_entry(ops: &mut Vec<FsOp>, lang: Language, root: &str, text: &str)
    ensures
        ops_view(final(ops)@) == ops_view(old(ops)@).push(entry_file(lang, root@, text@)),
{
    let main = lang.main_entry(root);
    push_op(ops, FsOp::WriteFile(child(root, main.as_str()), text.to_owned()));
}

fn push_run(ops: &mut Vec<FsOp>, program: &str, args: Vec<String>, cwd: Option<&str>)
    ensures
        ops_view(final(ops)@) == ops_view(old(ops)@).push(
            FsOpView::Run(
                call(
                    program@,
                    texts_view(args@),
                    match cwd {
                        Some(c) => Some(c@),
                        None => None,
                    },
                ),
            ),
        ),
{
    let cwd = match cwd {
        Some(c) => Some(c.to_owned()),
        None => None,
    };
    push_op(ops, FsOp::Run(Invocation { program: program.to_owned(), args, cwd }));
}

fn append_when(ops: &mut Vec<FsOp>, flag: bool, part: Vec<FsOp>)
    ensures
        ops_view(final(ops)@) == ops_view(old(ops)@) + when(flag, ops_view(part@)),
{
    let ghost start = ops_view(ops@);
    if flag {
        let mut part = part;
        let ghost added = part@;
        ops.append(&mut part);
        assert(ops_view(ops@) =~= start + ops_view(added));
    }
    assert(ops_view(ops@) =~= start + when(flag, ops_view(part@)));
}

fn append_documents(
    ops: &mut Vec<FsOp>,
    root: &str,
    license: bool,
    readme: bool,
    tests: bool,
    docs: bool,
    docker: bool,
)
    ensures
        ops_view(final(ops)@) == ops_view(old(ops)@) + documents_spec(
            root@,
            license,
            readme,
            tests,
            docs,
            docker,
        ),
{
    let ghost start = ops_view(ops@);
    let mut license_ops: Vec<FsOp> = Vec::new();
    push_op(&mut license_ops, FsOp::CopyLicense(child(root, "LICENSE")));
    let mut readme_ops: Vec<FsOp> = Vec::new();
    push_write(&mut readme_ops, root, "README.md", README_TEXT);
    let mut tests_ops: Vec<FsOp> = Vec::new();
    let tests_dir = child(root, "tests");
    push_dir(&mut tests_ops, tests_dir.as_str());
    let mut docs_ops: Vec<FsOp> = Vec::new();
    let docs_dir = child(root, "docs");
    push_dir(&mut docs_ops, docs_dir.as_str());
    push_write(&mut docs_ops, docs_dir.as_str(), "index.md", DOCS_INDEX_TEXT);
    let mut docker_ops: Vec<FsOp> = Vec::new();
    push_write(&mut docker_ops, root, "Dockerfile", DOCKERFILE_TEXT);
    let ghost license_part = ops_view(license_ops@);
    let ghost readme_part = ops_view(readme_ops@);
    let ghost tests_part = ops_view(tests_ops@);
    let ghost docs_part = ops_view(docs_ops@);
    let ghost docker_part = ops_view(docker_ops@);
    assert(license_part =~= seq![FsOpView::CopyLicense(child_path(root@, "LICENSE"@))]);
    assert(readme_part =~= seq![write(root@, "README.md"@, README_TEXT@)]);
    assert(tests_part =~= seq![FsOpView::CreateDir(child_path(root@, "tests"@))]);
    assert(docs_part =~= seq![
        FsOpView::CreateDir(child_path(root@, "docs"@)),
        write(child_path(root@, "docs"@), "index.md"@, DOCS_INDEX_TEXT@),
    ]);
    assert(docker_part =~= seq![write(root@, "Dockerfile"@, DOCKERFILE_TEXT@)]);
    append_when(ops, license, license_ops);
    append_when(ops, readme, readme_ops);
    append_when(ops, tests, tests_ops);
    append_when(ops, docs, docs_ops);
    append_when(ops, docker, docker_ops);
    assert(ops_view(ops@) =~= start + (when(license, license_part) + when(readme, readme_part) + when(tests, tests_part)
        + when(docs, docs_part) + when(docker, docker_part)));
}

/// The optional documents of a new project rooted at `project_path`.
pub fn initialize_documents(
    project_path: &str,
    license: bool,
    readme: bool,
    tests: bool,
    docs: bool,
    docker: bool,
) -> (r: Vec<FsOp>)
    ensures
        ops_view(r@) == documents_spec(project_path@, license, readme, tests, docs, docker),
{
    let mut ops: Vec<FsOp> = Vec::new();
    assert(ops_view(ops@) =~= Seq::<FsOpView>::empty());
    append_documents(&mut ops, project_path, license, readme, tests, docs, docker);
    assert(ops_view(ops@) =~= documents_spec(project_path@, license, readme, tests, docs, docker));
    ops
}

fn append_git(ops: &mut Vec<FsOp>, root: &str, git: bool, ignore: bool)
    ensures
        ops_view(final(ops)@) == ops_view(old(ops)@) + git_spec(root@, git, ignore),
{
    let ghost start = ops_view(ops@);
    if git {
        push_run(ops, "git", args2("init", root), None);
        if ignore {
            push_write(ops, root, ".gitignore", GITIGNORE_TEXT);
        }
    }
    assert(ops_view(ops@) =~= start + git_spec(root@, git, ignore));
}

/// Version control for a new project, as `vcs_spec` describes.
pub fn initialize_vcs(ops: &mut Vec<FsOp>, lang: Language, root: &str, git: bool, ignore: bool)
    ensures
        ops_view(final(ops)@) == ops_view(old(ops)@) + vcs_spec(lang, root@, git, ignore),
{
    let ghost start = ops_view(ops@);
    match lang {
        Language::Rust => {
            if git && ignore {
                push_write(ops, root, ".gitignore", RUST_GITIGNORE_TEXT);
            }
        },
        Language::Swift => {
            if git && ignore {
                push_write(ops, root, ".gitignore", SWIFT_GITIGNORE_TEXT);
            }
        },
        Language::React => {},
        _ => {
            append_git(ops, root, git, ignore);
        },
    }
    assert(ops_view(ops@) =~= start + vcs_spec(lang, root@, git, ignore));
}

fn append_layout(ops: &mut Vec<FsOp>, lang: Language, root: &str, tests: bool, p: Platform)
    ensures
        ops_view(final(ops)@) == ops_view(old(ops)@) + layout_spec(lang, root@, tests, p),
{
    let ghost start = ops_view(ops@);
    let src = child(root, "src");
    let s = src.as_str();
    match lang {
        Language::Python => {
            push_dir(ops, s);
            push_entry(ops, lang, root, PYTHON_MAIN_TEXT);
            push_write(ops, root, "requirements.txt", "");
        },
        Language::Cpp => {
            push_dir(ops, s);
            push_entry(ops, lang, root, CPP_MAIN_TEXT);
        },
        Language::C => {
            push_dir(ops, s);
            push_entry(ops, lang, root, C_MAIN_TEXT);
        },
        Language::Rust => {
            push_run(ops, "cargo", args3("new", root, "--bin"), None);
        },
        Language::Scala => {
            let main_dir = child(root, "src/main/scala");
            let test_dir = child(root, "src/test/scala");
            push_dir(ops, main_dir.as_str());
            if tests {
                push_dir(ops, test_dir.as_str());
            }
            push_entry(ops, lang, root, SCALA_MAIN_TEXT);
            if tests {
                push_write(ops, test_dir.as_str(), "MainTest.scala", SCALA_TEST_TEXT);
            }
            let mut sbt = SBT_HEAD_TEXT.to_owned();
            sbt.append(root);
            sbt.append(SBT_TAIL_TEXT);
            push_write(ops, root, "build.sbt", sbt.as_str());
        },
        Language::R => {
            push_dir(ops, root);
            push_entry(ops, lang, root, R_MAIN_TEXT);
        },
        Language::Perl => {
            push_dir(ops, root);
            push_entry(ops, lang, root, PERL_MAIN_TEXT);
        },
        Language::Go => {
            push_dir(ops, root);
            push_entry(ops, lang, root, GO_MAIN_TEXT);
            push_run(ops, "go", args3("mod", "init", root), Some(root));
        },
        Language::Swift => {
            let parent = child(root, "Sources");
            let sources = child(parent.as_str(), root);
            push_dir(ops, root);
            push_run(ops, "swift", args4("package", "init", "--type", "executable"), Some(root));
            push_dir(ops, sources.as_str());
            push_entry(ops, lang, root, SWIFT_MAIN_TEXT);
        },
        Language::Html => {
            let mut page = HTML_HEAD_TEXT.to_owned();
            page.append(root);
            page.append(HTML_TAIL_TEXT);
            push_dir(ops, s);
            push_entry(ops, lang, root, page.as_str());
        },
        Language::React => {
            push_run(ops, npx(p), args2("create-react-app", root), None);
        },
        Language::Java => {
            push_dir(ops, s);
            push_entry(ops, lang, root, JAVA_MAIN_TEXT);
        },
        Language::JavaScript => {
            push_dir(ops, root);
            push_dir(ops, s);
            push_entry(ops, lang, root, JS_MAIN_TEXT);
            push_run(ops, "npm", args2("init", "-y"), Some(root));
        },
        Language::Dart => {
            let lib = child(root, "lib");
            push_dir(ops, root);
            push_dir(ops, lib.as_str());
            push_entry(ops, lang, root, DART_MAIN_TEXT);
            push_run(ops, "dart", args2("create", "."), Some(root));
        },
        Language::TypeScript => {
            push_dir(ops, root);
            push_dir(ops, s);
            push_entry(ops, lang, root, TS_MAIN_TEXT);
            push_run(ops, "npm", args2("init", "-y"), Some(root));
            push_run(ops, "npm", args3("install", "typescript", "--save-dev"), Some(root));
            push_write(ops, root, "tsconfig.json", TSCONFIG_TEXT);
        },
        Language::Ruby => {
            push_dir(ops, s);
            push_entry(ops, lang, root, RUBY_MAIN_TEXT);
        },
        Language::CSharp => {
            push_run(ops, "dotnet", args4("new", "console", "-n", root), None);
        },
        Language::Shell => {
            let main = lang.main_entry(root);
            let script = child(root, main.as_str());
            push_dir(ops, root);
            push_op(ops, FsOp::WriteFile(script.clone(), SHELL_MAIN_TEXT.to_owned()));
            if p != Platform::Windows {
                push_op(ops, FsOp::MakeExecutable(script));
            }
        },
        Language::Other => {},
    }
    assert(ops_view(ops@) =~= start + layout_spec(lang, root@, tests, p));
}

/// Plans `new` for a project named `name` of a known language: refused where
/// the directory exists already; otherwise the layout, version control, a
/// virtual environment for Python on request, and the optional documents.
pub fn scaffold_project(
    name: &str,
    lang: Language,
    options: DefaultFlags,
    root_exists: bool,
    p: Platform,
) -> (r: Result<Vec<FsOp>, CommandError>)
    ensures
        root_exists ==> r == Err::<Vec<FsOp>, CommandError>(CommandError::AlreadyExists),
        !root_exists && lang == Language::Other ==> r == Err::<Vec<FsOp>, CommandError>(
            CommandError::UnsupportedLanguage,
        ),
        !root_exists && lang != Language::Other ==> (r matches Ok(ops) && ops_view(ops@)
            == scaffold_spec(name@, lang, options, p)),
{
    if root_exists {
        return Err(CommandError::AlreadyExists);
    }
    if lang == Language::Other {
        return Err(CommandError::UnsupportedLanguage);
    }
    let mut ops: Vec<FsOp> = Vec::new();
    assert(ops_view(ops@) =~= Seq::<FsOpView>::empty());
    append_layout(&mut ops, lang, name, options.tests, p);
    initialize_vcs(&mut ops, lang, name, options.git, options.ignore);
    let ghost before_venv = ops_view(ops@);
    if lang == Language::Python && options.venv {
        push_run(&mut ops, "python3", args3("-m", "venv", "venv"), Some(name));
    }
    assert(ops_view(ops@) =~= before_venv + when(
        lang == Language::Python && options.venv,
        seq![FsOpView::Run(call("python3"@, seq!["-m"@, "venv"@, "venv"@], Some(name@)))],
    ));
    append_documents(
        &mut ops,
        name,
        options.license,
        options.readme,
        options.tests,
        options.docs,
        options.docker,
    );
    assert(ops_view(ops@) =~= scaffold_spec(name@, lang, options, p));
    Ok(ops)
}

} // verus!
