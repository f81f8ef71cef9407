use vstd::prelude::*;
use crate::language::same_text;

verus! {

/// The characters with the Unicode property White_Space.
pub open spec fn is_white_space(c: char) -> bool {
    ||| ('\u{9}' <= c && c <= '\u{d}')
    ||| c == ' '
    ||| c == '\u{85}'
    ||| c == '\u{a0}'
    ||| c == '\u{1680}'
    ||| ('\u{2000}' <= c && c <= '\u{200a}')
    ||| c == '\u{2028}'
    ||| c == '\u{2029}'
    ||| c == '\u{202f}'
    ||| c == '\u{205f}'
    ||| c == '\u{3000}'
}

/// `s` without its leading whitespace.
pub open spec fn trim_start(s: Seq<char>) -> Seq<char>
    decreases s.len(),
{
    if s.len() > 0 && is_white_space(s[0]) {
        trim_start(s.drop_first())
    } else {
        s
    }
}

/// `s` without its trailing whitespace.
pub open spec fn trim_end(s: Seq<char>) -> Seq<char>
    decreases s.len(),
{
    if s.len() > 0 && is_white_space(s.last()) {
        trim_end(s.drop_last())
    } else {
        s
    }
}

/// `s` without leading and trailing whitespace.
pub open spec fn trimmed(s: Seq<char>) -> Seq<char> {
    trim_end(trim_start(s))
}

/// Relies on `str::trim`: the slice with leading and trailing White_Space
/// characters removed.
#[verifier::external_body]
fn trim_text(s: &str) -> (r: &str)
    ensures
        r@ == trimmed(s@),
{
    s.trim()
}

/// `i` is the first place of `c` in `s`.
pub open spec fn first_at(s: Seq<char>, c: char, i: int) -> bool {
    0 <= i < s.len() && s[i] == c && forall|j: int| 0 <= j < i ==> s[j] != c
}

/// A `.env` line split at its first `=`, both sides trimmed; `None` for a
/// line without `=`.
pub open spec fn env_pair(line: Seq<char>) -> Option<(Seq<char>, Seq<char>)> {
    if exists|i: int| 0 <= i < line.len() && line[i] == '=' {
        let i = choose|i: int| first_at(line, '=', i);
        Some((trimmed(line.take(i)), trimmed(line.skip(i + 1))))
    } else {
        None
    }
}

/// Splits a `.env` line into its trimmed key and value.
pub fn parse_env_line(line: &str) -> (r: Option<(String, String)>)
    ensures
        r matches Some(kv) ==> env_pair(line@) == Some((kv.0@, kv.1@)),
        r is None ==> env_pair(line@) is None,
{
    let n = line.unicode_len();
    let mut i: usize = 0;
    while i < n
        invariant
            n == line@.len(),
            i <= n,
            forall|j: int| 0 <= j < i ==> line@[j] != '=',
        decreases n - i,
    {
        if line.get_char(i) == '=' {
            proof {
                assert(first_at(line@, '=', i as int));
                let c = choose|c: int| first_at(line@, '=', c);
                if c < i {
                    assert(line@[c] != '=');
                } else if c > i {
                    assert(line@[i as int] != '=');
                }
            }
            let key = trim_text(line.substring_char(0, i));
            let value = trim_text(line.substring_char(i + 1, n));
            assert(line@.subrange(0, i as int) =~= line@.take(i as int));
            assert(line@.subrange(i + 1, n as int) =~= line@.skip(i + 1));
            return Some((key.to_owned(), value.to_owned()));
        }
        i = i + 1;
    }
    None
}

/// One secret of a project's `.env` file.
pub struct Secret {
    pub key: String,
    pub value: String,
}

pub open spec fn keys_unique(s: Seq<(Seq<char>, Seq<char>)>) -> bool {
    forall|i: int, j: int| 0 <= i < j < s.len() ==> s[i].0 != s[j].0
}

pub open spec fn has_key(s: Seq<(Seq<char>, Seq<char>)>, key: Seq<char>) -> bool {
    exists|i: int| 0 <= i < s.len() && s[i].0 == key
}

pub open spec fn key_index(s: Seq<(Seq<char>, Seq<char>)>, key: Seq<char>) -> int {
    choose|i: int| 0 <= i < s.len() && s[i].0 == key
}

/// `s` with `key` bound to `value`, in place or at the end.
pub open spec fn with_secret(s: Seq<(Seq<char>, Seq<char>)>, key: Seq<char>, value: Seq<char>) -> Seq<
    (Seq<char>, Seq<char>),
> {
    if has_key(s, key) {
        s.update(key_index(s, key), (key, value))
    } else {
        s.push((key, value))
    }
}

/// `s` without `key`.
pub open spec fn without_secret(s: Seq<(Seq<char>, Seq<char>)>, key: Seq<char>) -> Seq<
    (Seq<char>, Seq<char>),
> {
    if has_key(s, key) {
        s.remove(key_index(s, key))
    } else {
        s
    }
}

/// The secrets that the lines of a `.env` file define, a later line
/// replacing an earlier one of the same key; lines without `=` are skipped.
pub open spec fn secrets_of(lines: Seq<Seq<char>>) -> Seq<(Seq<char>, Seq<char>)>
    decreases lines.len(),
{
    if lines.len() == 0 {
        Seq::empty()
    } else {
        let before = secrets_of(lines.drop_last());
        match env_pair(lines.last()) {
            Some(kv) => with_secret(before, kv.0, kv.1),
            None => before,
        }
    }
}

/// The `.env` line of one secret.
pub open spec fn env_line(kv: (Seq<char>, Seq<char>)) -> Seq<char> {
    kv.0 + seq!['='] + kv.1
}

/// The text of a `.env` file: one `key=value` line per secret.
pub open spec fn env_text(s: Seq<(Seq<char>, Seq<char>)>) -> Seq<char>
    decreases s.len(),
{
    if s.len() == 0 {
        Seq::empty()
    } else {
        env_text(s.drop_last()) + env_line(s.last()) + seq!['\n']
    }
}

/// `t` has no whitespace at either end, so trimming keeps it.
pub open spec fn trim_stable(t: Seq<char>) -> bool {
    t.len() == 0 || (!is_white_space(t[0]) && !is_white_space(t.last()))
}

/// A secret whose key holds no `=` and whose key and value have no
/// whitespace at either end reads back from its line unchanged.
pub open spec fn storable(kv: (Seq<char>, Seq<char>)) -> bool {
    &&& trim_stable(kv.0)
    &&& trim_stable(kv.1)
    &&& forall|i: int| 0 <= i < kv.0.len() ==> kv.0[i] != '='
}

/// Reading a secret's line gives the secret back.
pub proof fn lemma_env_line_round_trip(kv: (Seq<char>, Seq<char>))
    requires
        storable(kv),
    ensures
        env_pair(env_line(kv)) == Some(kv),
{
    let line = env_line(kv);
    let n = kv.0.len() as int;
    assert(line[n] == '=');
    assert(first_at(line, '=', n));
    let c = choose|c: int| first_at(line, '=', c);
    if c < n {
        assert(line[c] == kv.0[c]);
    } else if c > n {
        assert(line[n] != '=');
    }
    assert(line.take(n) =~= kv.0);
    assert(line.skip(n + 1) =~= kv.1);
}

/// Writing storable secrets with distinct keys to `.env` lines and reading
/// the lines back gives the same secrets in the same order.
pub proof fn lemma_env_lines_round_trip(s: Seq<(Seq<char>, Seq<char>)>)
    requires
        keys_unique(s),
        forall|i: int| 0 <= i < s.len() ==> storable(#[trigger] s[i]),
    ensures
        secrets_of(s.map_values(|kv: (Seq<char>, Seq<char>)| env_line(kv))) == s,
    decreases s.len(),
{
    if s.len() > 0 {
        let init = s.drop_last();
        let lines = s.map_values(|kv: (Seq<char>, Seq<char>)| env_line(kv));
        assert(lines.drop_last() =~= init.map_values(|kv: (Seq<char>, Seq<char>)| env_line(kv)));
        assert(storable(s[s.len() - 1]));
        lemma_env_lines_round_trip(init);
        lemma_env_line_round_trip(s.last());
        assert(!has_key(init, s.last().0)) by {
            if has_key(init, s.last().0) {
                let i = key_index(init, s.last().0);
                assert(s[i].0 == s[s.len() - 1].0);
            }
        }
        assert(init.push(s.last()) =~= s);
    }
}

/// Binding a key keeps keys distinct.
proof fn lemma_with_secret_unique(s: Seq<(Seq<char>, Seq<char>)>, key: Seq<char>, value: Seq<char>)
    requires
        keys_unique(s),
    ensures
        keys_unique(with_secret(s, key, value)),
{
    if has_key(s, key) {
        let i = key_index(s, key);
        assert(s[i].0 == key);
    }
}

/// Removing a key keeps keys distinct.
proof fn lemma_without_secret_unique(s: Seq<(Seq<char>, Seq<char>)>, key: Seq<char>)
    requires
        keys_unique(s),
    ensures
        keys_unique(without_secret(s, key)),
{
    let r = without_secret(s, key);
    if has_key(s, key) {
        let i = key_index(s, key);
        assert forall|a: int, b: int| 0 <= a < b < r.len() implies r[a].0 != r[b].0 by {
            let sa = if a < i { a } else { a + 1 };
            let sb = if b < i { b } else { b + 1 };
            assert(r[a] == s[sa] && r[b] == s[sb]);
        }
    }
}

/// The secrets of one project, each key once.
pub struct Secrets {
    entries: Vec<Secret>,
}

impl View for Secrets {
    type V = Seq<(Seq<char>, Seq<char>)>;

    closed spec fn view(&self) -> Seq<(Seq<char>, Seq<char>)> {
        self.entries@.map_values(|e: Secret| (e.key@, e.value@))
    }
}

impl Secrets {
    pub open spec fn wf(&self) -> bool {
        keys_unique(self@)
    }

    pub fn new() -> (r: Self)
        ensures
            r.wf(),
            r@ == Seq::<(Seq<char>, Seq<char>)>::empty(),
    {
        let r = Secrets { entries: Vec::new() };
        assert(r@ =~= Seq::<(Seq<char>, Seq<char>)>::empty());
        r
    }

    /// Where `key` stands among the secrets.
    pub fn position(&self, key: &str) -> (r: Option<usize>)
        requires
            self.wf(),
        ensures
            r is None <==> !has_key(self@, key@),
            r matches Some(i) ==> i < self@.len() && i == key_index(self@, key@),
    {
        let mut i: usize = 0;
        while i < self.entries.len()
            invariant
                i <= self.entries@.len(),
                self.wf(),
                forall|j: int| 0 <= j < i ==> self@[j].0 != key@,
            decreases self.entries@.len() - i,
        {
            if same_text(self.entries[i].key.as_str(), key) {
                proof {
                    assert(self@[i as int].0 == key@);
                    assert(has_key(self@, key@));
                    let j = key_index(self@, key@);
                    assert(self@[j].0 == key@);
                    assert(j == i);
                }
                return Some(i);
            }
            i = i + 1;
        }
        None
    }

    /// The value of `key`.
    pub fn get(&self, key: &str) -> (r: Option<&String>)
        requires
            self.wf(),
        ensures
            r matches Some(v) ==> has_key(self@, key@) && self@[key_index(self@, key@)].1 == v@,
            r is None ==> !has_key(self@, key@),
    {
        match self.position(key) {
            Some(i) => Some(&self.entries[i].value),
            None => None,
        }
    }

    /// Binds `key` to `value`.
    pub fn insert(&mut self, key: &str, value: &str)
        requires
            old(self).wf(),
        ensures
            final(self).wf(),
            final(self)@ == with_secret(old(self)@, key@, value@),
    {
        proof {
            lemma_with_secret_unique(self@, key@, value@);
        }
        let e = Secret { key: key.to_owned(), value: value.to_owned() };
        match self.position(key) {
            Some(i) => {
                self.entries.set(i, e);
                assert(self@ =~= with_secret(old(self)@, key@, value@));
            },
            None => {
                self.entries.push(e);
                assert(self@ =~= with_secret(old(self)@, key@, value@));
            },
        }
    }

    /// Takes `key` out; `false` where it was not there.
    pub fn remove(&mut self, key: &str) -> (r: bool)
        requires
            old(self).wf(),
        ensures
            final(self).wf(),
            final(self)@ == without_secret(old(self)@, key@),
            r == has_key(old(self)@, key@),
    {
        proof {
            lemma_without_secret_unique(self@, key@);
        }
        match self.position(key) {
            Some(i) => {
                self.entries.remove(i);
                assert(self@ =~= without_secret(old(self)@, key@));
                true
            },
            None => false,
        }
    }

    /// The secrets that the lines of a `.env` file define.
    pub fn from_lines(lines: &Vec<String>) -> (r: Self)
        ensures
            r.wf(),
            r@ == secrets_of(lines@.map_values(|l: String| l@)),
    {
        let ghost all = lines@.map_values(|l: String| l@);
        let mut s = Secrets::new();
        let mut i: usize = 0;
        while i < lines.len()
            invariant
                i <= lines@.len(),
                all == lines@.map_values(|l: String| l@),
                s.wf(),
                s@ == secrets_of(all.take(i as int)),
            decreases lines@.len() - i,
        {
            assert(all.take(i + 1).drop_last() =~= all.take(i as int));
            assert(all.take(i + 1).last() == lines@[i as int]@);
            match parse_env_line(lines[i].as_str()) {
                Some(kv) => s.insert(kv.0.as_str(), kv.1.as_str()),
                None => {},
            }
            i = i + 1;
        }
        assert(all.take(lines@.len() as int) =~= all);
        s
    }

    /// The text of the `.env` file holding these secrets.
    pub fn to_text(&self) -> (r: String)
        ensures
            r@ == env_text(self@),
    {
        let mut r = String::new();
        let mut i: usize = 0;
        proof {
            reveal_strlit("=");
            reveal_strlit("\n");
        }
        while i < self.entries.len()
            invariant
                i <= self.entries@.len(),
                r@ == env_text(self@.take(i as int)),
                "="@ == seq!['='],
                "\n"@ == seq!['\n'],
            decreases self.entries@.len() - i,
        {
            assert(self@.take(i + 1).drop_last() =~= self@.take(i as int));
            let e = &self.entries[i];
            r.append(e.key.as_str());
            r.append("=");
            r.append(e.value.as_str());
            r.append("\n");
            i = i + 1;
        }
        assert(self@.take(self@.len() as int) =~= self@);
        r
    }
}

} // verus!
