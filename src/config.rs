use vstd::prelude::*;
use crate::language::same_text;

verus! {

/// The flags that `new` applies when the command line does not give them.
#[derive(Clone, Copy, Debug, PartialEq, Eq, Structural)]
pub struct DefaultFlags {
    pub git: bool,
    pub ignore: bool,
    pub venv: bool,
    pub license: bool,
    pub readme: bool,
    pub tests: bool,
    pub docs: bool,
    pub docker: bool,
}

/// The user's editor and license of choice.
pub struct Preferences {
    pub editor: String,
    pub license: String,
}

/// Which commands print a reminder that the toolchain must be installed.
#[derive(Clone, Copy, Debug, PartialEq, Eq, Structural)]
pub struct Warnings {
    pub creation: bool,
    pub init: bool,
    pub run: bool,
    pub add: bool,
}

/// The user's configuration.
pub struct Config {
    pub default_flags: DefaultFlags,
    pub preferences: Preferences,
    pub warnings: Warnings,
}

/// Names what compiling `pattern` with the regex crate and testing `text`
/// against it gives: `None` where the pattern does not compile, else whether
/// the pattern matches anywhere in the text.
pub uninterp spec fn regex_match(pattern: Seq<char>, text: Seq<char>) -> Option<bool>;

/// Relies on `regex::Regex::new` (an error for a pattern it refuses) and
/// `regex::Regex::is_match` (a match anywhere in the haystack); both depend
/// on their arguments alone.
#[verifier::external_body]
fn pattern_matches(pattern: &str, text: &str) -> (r: Option<bool>)
    ensures
        r == regex_match(pattern@, text@),
{
    match regex::Regex::new(pattern) {
        Ok(re) => Some(re.is_match(text)),
        Err(_) => None,
    }
}

pub open spec fn hit(pattern: Seq<char>, text: Seq<char>) -> bool {
    regex_match(pattern, text) == Some(true)
}

/// The first index at which `hits` holds `true`.
pub open spec fn first_hit(hits: Seq<bool>) -> Option<int> {
    if exists|i: int| 0 <= i < hits.len() && hits[i] {
        Some(choose|i: int| 0 <= i < hits.len() && hits[i] && forall|j: int| 0 <= j < i ==> !hits[j])
    } else {
        None
    }
}

/// Finds the first pattern that matched, given whether each one did.
pub fn first_matching(hits: &Vec<bool>) -> (r: Option<usize>)
    ensures
        r matches Some(i) ==> first_hit(hits@) == Some(i as int),
        r is None ==> first_hit(hits@) is None,
{
    let mut i: usize = 0;
    while i < hits.len()
        invariant
            i <= hits@.len(),
            forall|j: int| 0 <= j < i ==> !hits@[j],
        decreases hits@.len() - i,
    {
        if hits[i] {
            proof {
                assert(0 <= i < hits@.len() && hits@[i as int] && forall|j: int|
                    0 <= j < i ==> !hits@[j]);
                let c = choose|c: int|
                    0 <= c < hits@.len() && hits@[c] && forall|j: int| 0 <= j < c ==> !hits@[j];
                if c < i {
                    assert(!hits@[c]);
                } else if c > i {
                    assert(!hits@[i as int]);
                }
            }
            return Some(i);
        }
        i = i + 1;
    }
    None
}

/// The license patterns, tried in this order.
pub open spec fn license_patterns() -> Seq<Seq<char>> {
    seq![
        "(?i)mit"@,
        "(?i)apache"@,
        "(?i)gpl-?v?3(\\.0)?"@,
        "(?i)bsd-?3(\\.0)?"@,
        "(?i)agpl-?v?3(\\.0)?"@,
        "(?i)mpl-?2(\\.0)?"@,
        "(?i)lgpl-?v?3(\\.0)?"@,
        "(?i)epl-?2(\\.0)?"@,
        "(?i)unlicense"@,
        "(?i)gpl-?v?2(\\.0)?"@,
    ]
}

/// The license identifier that each pattern stands for.
pub open spec fn license_names() -> Seq<Seq<char>> {
    seq![
        "MIT"@,
        "Apache-2.0"@,
        "GPL-3.0"@,
        "BSD-3-Clause"@,
        "AGPL-3.0"@,
        "MPL-2.0"@,
        "LGPL-3.0"@,
        "EPL-2.0"@,
        "Unlicense"@,
        "GPL-2.0"@,
    ]
}

/// The editor patterns, tried in this order.
pub open spec fn editor_patterns() -> Seq<Seq<char>> {
    seq![
        "(?i)vs\\s*code|visual\\s*studio\\s*code|visual[-\\s]*"@,
        "(?i)vim"@,
        "(?i)eclipse"@,
        "(?i)sublime"@,
        "(?i)atom"@,
        "(?i)notepad\\+\\+"@,
        "(?i)gs\\s*edit"@,
    ]
}

/// The editor name that each pattern stands for.
pub open spec fn editor_names() -> Seq<Seq<char>> {
    seq!["vscode"@, "vim"@, "eclipse"@, "sublime"@, "atom"@, "notepad++"@, "gsedit"@]
}

fn license_pattern(k: usize) -> (r: &'static str)
    requires
        k < 10,
    ensures
        r@ == license_patterns()[k as int],
{
    match k {
        0 => "(?i)mit",
        1 => "(?i)apache",
        2 => "(?i)gpl-?v?3(\\.0)?",
        3 => "(?i)bsd-?3(\\.0)?",
        4 => "(?i)agpl-?v?3(\\.0)?",
        5 => "(?i)mpl-?2(\\.0)?",
        6 => "(?i)lgpl-?v?3(\\.0)?",
        7 => "(?i)epl-?2(\\.0)?",
        8 => "(?i)unlicense",
        _ => "(?i)gpl-?v?2(\\.0)?",
    }
}

/// The license identifier of the pattern at `k`.
pub fn license_name(k: usize) -> (r: &'static str)
    requires
        k < 10,
    ensures
        r@ == license_names()[k as int],
{
    match k {
        0 => "MIT",
        1 => "Apache-2.0",
        2 => "GPL-3.0",
        3 => "BSD-3-Clause",
        4 => "AGPL-3.0",
        5 => "MPL-2.0",
        6 => "LGPL-3.0",
        7 => "EPL-2.0",
        8 => "Unlicense",
        _ => "GPL-2.0",
    }
}

fn editor_pattern(k: usize) -> (r: &'static str)
    requires
        k < 7,
    ensures
        r@ == editor_patterns()[k as int],
{
    match k {
        0 => "(?i)vs\\s*code|visual\\s*studio\\s*code|visual[-\\s]*",
        1 => "(?i)vim",
        2 => "(?i)eclipse",
        3 => "(?i)sublime",
        4 => "(?i)atom",
        5 => "(?i)notepad\\+\\+",
        _ => "(?i)gs\\s*edit",
    }
}

/// The editor name of the pattern at `k`.
pub fn editor_name(k: usize) -> (r: &'static str)
    requires
        k < 7,
    ensures
        r@ == editor_names()[k as int],
{
    match k {
        0 => "vscode",
        1 => "vim",
        2 => "eclipse",
        3 => "sublime",
        4 => "atom",
        5 => "notepad++",
        _ => "gsedit",
    }
}

/// Whether each license pattern matches `argument`.
pub open spec fn license_hits(argument: Seq<char>) -> Seq<bool> {
    Seq::new(10, |k: int| hit(license_patterns()[k], argument))
}

/// Whether each editor pattern matches `argument`.
pub open spec fn editor_hits(argument: Seq<char>) -> Seq<bool> {
    Seq::new(7, |k: int| hit(editor_patterns()[k], argument))
}

/// The license identifier that `argument` selects, given which license
/// patterns match it.
pub open spec fn license_choice(hits: Seq<bool>) -> Option<Seq<char>> {
    match first_hit(hits) {
        Some(k) => Some(license_names()[k]),
        None => None,
    }
}

/// The editor that `argument` selects, given which editor patterns match
/// it: the name of the first, or the argument itself where none does.
pub open spec fn editor_choice(hits: Seq<bool>, argument: Seq<char>) -> Seq<char> {
    match first_hit(hits) {
        Some(k) => editor_names()[k],
        None => argument,
    }
}

/// The license identifier for the first license pattern that matched.
pub fn license_from_hits(hits: &Vec<bool>) -> (r: Option<&'static str>)
    requires
        hits@.len() == 10,
    ensures
        r matches Some(n) ==> license_choice(hits@) == Some(n@),
        r is None ==> license_choice(hits@) is None,
{
    match first_matching(hits) {
        Some(k) => Some(license_name(k)),
        None => None,
    }
}

/// The editor name for the first editor pattern that matched, or `argument`.
pub fn editor_from_hits(hits: &Vec<bool>, argument: &str) -> (r: String)
    requires
        hits@.len() == 7,
    ensures
        r@ == editor_choice(hits@, argument@),
{
    match first_matching(hits) {
        Some(k) => editor_name(k).to_owned(),
        None => argument.to_owned(),
    }
}

fn license_hits_of(argument: &str) -> (r: Vec<bool>)
    ensures
        r@ == license_hits(argument@),
{
    let mut r: Vec<bool> = Vec::new();
    let mut k: usize = 0;
    while k < 10
        invariant
            k <= 10,
            r@ =~= license_hits(argument@).take(k as int),
        decreases 10 - k,
    {
        let m = pattern_matches(license_pattern(k), argument);
        r.push(m == Some(true));
        k = k + 1;
    }
    assert(r@ =~= license_hits(argument@));
    r
}

fn editor_hits_of(argument: &str) -> (r: Vec<bool>)
    ensures
        r@ == editor_hits(argument@),
{
    let mut r: Vec<bool> = Vec::new();
    let mut k: usize = 0;
    while k < 7
        invariant
            k <= 7,
            r@ =~= editor_hits(argument@).take(k as int),
        decreases 7 - k,
    {
        let m = pattern_matches(editor_pattern(k), argument);
        r.push(m == Some(true));
        k = k + 1;
    }
    assert(r@ =~= editor_hits(argument@));
    r
}

impl Config {
    /// `config license`: sets the preferred license to the one the argument
    /// names; an argument that names none leaves the configuration as it is
    /// and gives `false`.
    pub fn set_license(&mut self, argument: &str) -> (r: bool)
        ensures
            r == (license_choice(license_hits(argument@)) is Some),
            final(self).default_flags == old(self).default_flags,
            final(self).warnings == old(self).warnings,
            final(self).preferences.editor@ == old(self).preferences.editor@,
            final(self).preferences.license@ == match license_choice(license_hits(argument@)) {
                Some(n) => n,
                None => old(self).preferences.license@,
            },
    {
        let hits = license_hits_of(argument);
        match license_from_hits(&hits) {
            Some(name) => {
                self.preferences.license = name.to_owned();
                true
            },
            None => false,
        }
    }

    /// `config editor`: sets the preferred editor to the one the argument
    /// names, or to the argument itself.
    pub fn set_editor(&mut self, argument: &str)
        ensures
            final(self).default_flags == old(self).default_flags,
            final(self).warnings == old(self).warnings,
            final(self).preferences.license@ == old(self).preferences.license@,
            final(self).preferences.editor@ == editor_choice(editor_hits(argument@), argument@),
    {
        let hits = editor_hits_of(argument);
        self.preferences.editor = editor_from_hits(&hits, argument);
    }

    /// `config defaults`: toggles the default `git` or `ignore` flag; any
    /// other argument changes nothing and gives `false`.
    pub fn set_defaults(&mut self, argument: &str) -> (r: bool)
        ensures
            r == (argument@ == "git"@ || argument@ == "ignore"@),
            final(self).warnings == old(self).warnings,
            final(self).preferences.license@ == old(self).preferences.license@,
            final(self).preferences.editor@ == old(self).preferences.editor@,
            final(self).default_flags == (if argument@ == "git"@ {
                DefaultFlags { git: !old(self).default_flags.git, ..old(self).default_flags }
            } else if argument@ == "ignore"@ {
                DefaultFlags { ignore: !old(self).default_flags.ignore, ..old(self).default_flags }
            } else {
                old(self).default_flags
            }),
    {
        if same_text(argument, "git") {
            self.default_flags.git = !self.default_flags.git;
            true
        } else if same_text(argument, "ignore") {
            self.default_flags.ignore = !self.default_flags.ignore;
            true
        } else {
            false
        }
    }
}

} // verus!
