use vstd::prelude::*;

verus! {

/// The languages the dispatcher knows; any other tag is `Other`.
#[derive(Clone, Copy, Debug, PartialEq, Eq, Structural)]
pub enum Language {
    Python,
    Cpp,
    C,
    Rust,
    Java,
    JavaScript,
    TypeScript,
    Go,
    CSharp,
    Ruby,
    Html,
    Shell,
    R,
    Scala,
    Perl,
    Swift,
    Dart,
    React,
    Other,
}

/// The language a tag names; tags are matched exactly.
pub open spec fn language_of(tag: Seq<char>) -> Language {
    if tag == "python"@ {
        Language::Python
    } else if tag == "cpp"@ || tag == "c++"@ {
        Language::Cpp
    } else if tag == "c"@ {
        Language::C
    } else if tag == "rust"@ || tag == "rs"@ {
        Language::Rust
    } else if tag == "java"@ {
        Language::Java
    } else if tag == "javascript"@ || tag == "js"@ {
        Language::JavaScript
    } else if tag == "typescript"@ || tag == "ts"@ {
        Language::TypeScript
    } else if tag == "go"@ {
        Language::Go
    } else if tag == "cs"@ || tag == "c#"@ {
        Language::CSharp
    } else if tag == "ruby"@ {
        Language::Ruby
    } else if tag == "html"@ {
        Language::Html
    } else if tag == "shell"@ {
        Language::Shell
    } else if tag == "r"@ {
        Language::R
    } else if tag == "scala"@ {
        Language::Scala
    } else if tag == "perl"@ {
        Language::Perl
    } else if tag == "swift"@ {
        Language::Swift
    } else if tag == "dart"@ {
        Language::Dart
    } else if tag == "react"@ {
        Language::React
    } else {
        Language::Other
    }
}

/// Whether two strings hold the same characters.
pub fn same_text(a: &str, b: &str) -> (r: bool)
    ensures
        r == (a@ == b@),
{
    let n = a.unicode_len();
    if n != b.unicode_len() {
        return false;
    }
    let mut i: usize = 0;
    while i < n
        invariant
            n == a@.len() && n == b@.len(),
            i <= n,
            a@.take(i as int) == b@.take(i as int),
        decreases n - i,
    {
        if a.get_char(i) != b.get_char(i) {
            return false;
        }
        assert(a@.take(i + 1) =~= a@.take(i as int).push(a@[i as int]));
        assert(b@.take(i + 1) =~= b@.take(i as int).push(b@[i as int]));
        i = i + 1;
    }
    assert(a@.take(n as int) =~= a@ && b@.take(n as int) =~= b@);
    true
}

impl Language {
    /// The language that `tag` names, or `Other`.
    pub fn from_tag(tag: &str) -> (r: Language)
        ensures
            r == language_of(tag@),
    {
        if same_text(tag, "python") {
            Language::Python
        } else if same_text(tag, "cpp") || same_text(tag, "c++") {
            Language::Cpp
        } else if same_text(tag, "c") {
            Language::C
        } else if same_text(tag, "rust") || same_text(tag, "rs") {
            Language::Rust
        } else if same_text(tag, "java") {
            Language::Java
        } else if same_text(tag, "javascript") || same_text(tag, "js") {
            Language::JavaScript
        } else if same_text(tag, "typescript") || same_text(tag, "ts") {
            Language::TypeScript
        } else if same_text(tag, "go") {
            Language::Go
        } else if same_text(tag, "cs") || same_text(tag, "c#") {
            Language::CSharp
        } else if same_text(tag, "ruby") {
            Language::Ruby
        } else if same_text(tag, "html") {
            Language::Html
        } else if same_text(tag, "shell") {
            Language::Shell
        } else if same_text(tag, "r") {
            Language::R
        } else if same_text(tag, "scala") {
            Language::Scala
        } else if same_text(tag, "perl") {
            Language::Perl
        } else if same_text(tag, "swift") {
            Language::Swift
        } else if same_text(tag, "dart") {
            Language::Dart
        } else if same_text(tag, "react") {
            Language::React
        } else {
            Language::Other
        }
    }

    /// Whether running a project of this language compiles it first.
    pub open spec fn is_compiled(self) -> bool {
        self == Language::Cpp || self == Language::C || self == Language::Java || self
            == Language::TypeScript
    }
}

/// The tag under which a project of a known language is registered.
pub open spec fn canonical_tag(lang: Language) -> Seq<char> {
    match lang {
        Language::Python => "python"@,
        Language::Cpp => "cpp"@,
        Language::C => "c"@,
        Language::Rust => "rust"@,
        Language::Java => "java"@,
        Language::JavaScript => "javascript"@,
        Language::TypeScript => "typescript"@,
        Language::Go => "go"@,
        Language::CSharp => "cs"@,
        Language::Ruby => "ruby"@,
        Language::Html => "html"@,
        Language::Shell => "shell"@,
        Language::R => "r"@,
        Language::Scala => "scala"@,
        Language::Perl => "perl"@,
        Language::Swift => "swift"@,
        Language::Dart => "dart"@,
        Language::React => "react"@,
        Language::Other => ""@,
    }
}

/// The entry file that scaffolding writes for a project named `name`,
/// relative to the project root.
pub open spec fn default_main(lang: Language, name: Seq<char>) -> Seq<char> {
    match lang {
        Language::Python => "./src/main.py"@,
        Language::Cpp => "./src/main.cpp"@,
        Language::C => "./src/main.c"@,
        Language::Rust => "./src/main.rs"@,
        Language::Java => "./src/Main.java"@,
        Language::JavaScript => "./src/main.js"@,
        Language::TypeScript => "./src/main.ts"@,
        Language::Go => "./main.go"@,
        Language::CSharp => "./Program.cs"@,
        Language::Ruby => "./src/main.rb"@,
        Language::Html => "./src/index.html"@,
        Language::Shell => "./main.sh"@,
        Language::R => "./main.R"@,
        Language::Scala => "./src/main/scala/Main.scala"@,
        Language::Perl => "./main.pl"@,
        Language::Swift => "./Sources/"@ + name + "/main.swift"@,
        Language::Dart => "./lib/main.dart"@,
        Language::React => "./src/App.js"@,
        Language::Other => "./src/main.txt"@,
    }
}

impl Language {
    pub fn tag(self) -> (r: &'static str)
        ensures
            r@ == canonical_tag(self),
    {
        match self {
            Language::Python => "python",
            Language::Cpp => "cpp",
            Language::C => "c",
            Language::Rust => "rust",
            Language::Java => "java",
            Language::JavaScript => "javascript",
            Language::TypeScript => "typescript",
            Language::Go => "go",
            Language::CSharp => "cs",
            Language::Ruby => "ruby",
            Language::Html => "html",
            Language::Shell => "shell",
            Language::R => "r",
            Language::Scala => "scala",
            Language::Perl => "perl",
            Language::Swift => "swift",
            Language::Dart => "dart",
            Language::React => "react",
            Language::Other => "",
        }
    }

    /// The entry file of a new project named `name`.
    pub fn main_entry(self, name: &str) -> (r: String)
        ensures
            r@ == default_main(self, name@),
    {
        let fixed = match self {
            Language::Python => "./src/main.py",
            Language::Cpp => "./src/main.cpp",
            Language::C => "./src/main.c",
            Language::Rust => "./src/main.rs",
            Language::Java => "./src/Main.java",
            Language::JavaScript => "./src/main.js",
            Language::TypeScript => "./src/main.ts",
            Language::Go => "./main.go",
            Language::CSharp => "./Program.cs",
            Language::Ruby => "./src/main.rb",
            Language::Html => "./src/index.html",
            Language::Shell => "./main.sh",
            Language::R => "./main.R",
            Language::Scala => "./src/main/scala/Main.scala",
            Language::Perl => "./main.pl",
            Language::Swift => {
                let mut r = "./Sources/".to_owned();
                r.append(name);
                r.append("/main.swift");
                return r;
            },
            Language::Dart => "./lib/main.dart",
            Language::React => "./src/App.js",
            Language::Other => "./src/main.txt",
        };
        fixed.to_owned()
    }
}

} // verus!
