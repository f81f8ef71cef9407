use vstd::prelude::*;

verus! {

/// What the registry knows of one project, as plain character sequences.
pub ghost struct RecordView {
    pub path: Seq<char>,
    pub language: Seq<char>,
    pub main: Seq<char>,
}

/// One registered project: its root directory, its language tag and its
/// entry file relative to the root.
pub struct ProjectInfo {
    pub project_path: String,
    pub project_language: String,
    pub project_main: String,
}

impl View for ProjectInfo {
    type V = RecordView;

    open spec fn view(&self) -> RecordView {
        RecordView {
            path: self.project_path@,
            language: self.project_language@,
            main: self.project_main@,
        }
    }
}

impl ProjectInfo {
    pub fn new(path: &str, language: &str, main: &str) -> (r: Self)
        ensures
            r@ == (RecordView { path: path@, language: language@, main: main@ }),
    {
        ProjectInfo {
            project_path: path.to_owned(),
            project_language: language.to_owned(),
            project_main: main.to_owned(),
        }
    }

    pub fn duplicate(&self) -> (r: Self)
        ensures
            r@ == self@,
    {
        ProjectInfo {
            project_path: self.project_path.clone(),
            project_language: self.project_language.clone(),
            project_main: self.project_main.clone(),
        }
    }
}

/// A project name together with its record.
pub struct ProjectEntry {
    pub name: String,
    pub info: ProjectInfo,
}

impl View for ProjectEntry {
    type V = (Seq<char>, RecordView);

    open spec fn view(&self) -> (Seq<char>, RecordView) {
        (self.name@, self.info@)
    }
}

impl ProjectEntry {
    pub fn duplicate(&self) -> (r: Self)
        ensures
            r@ == self@,
    {
        ProjectEntry { name: self.name.clone(), info: self.info.duplicate() }
    }
}

pub open spec fn names_unique(s: Seq<(Seq<char>, RecordView)>) -> bool {
    forall|i: int, j: int| 0 <= i < j < s.len() ==> s[i].0 != s[j].0
}

pub open spec fn has_name(s: Seq<(Seq<char>, RecordView)>, name: Seq<char>) -> bool {
    exists|i: int| 0 <= i < s.len() && s[i].0 == name
}

/// The place of `name` in `s`, where it occurs.
pub open spec fn index_of(s: Seq<(Seq<char>, RecordView)>, name: Seq<char>) -> int {
    choose|i: int| 0 <= i < s.len() && s[i].0 == name
}

/// The record registered under `name`, if any.
pub open spec fn lookup(s: Seq<(Seq<char>, RecordView)>, name: Seq<char>) -> Option<RecordView> {
    if has_name(s, name) {
        Some(s[index_of(s, name)].1)
    } else {
        None
    }
}

/// `s` with `name` bound to `rec`: replaced in place, or added at the end.
pub open spec fn upserted(s: Seq<(Seq<char>, RecordView)>, name: Seq<char>, rec: RecordView) -> Seq<
    (Seq<char>, RecordView),
> {
    if has_name(s, name) {
        s.update(index_of(s, name), (name, rec))
    } else {
        s.push((name, rec))
    }
}

/// `s` without the entry of `name`.
pub open spec fn removed(s: Seq<(Seq<char>, RecordView)>, name: Seq<char>) -> Seq<
    (Seq<char>, RecordView),
> {
    if has_name(s, name) {
        s.remove(index_of(s, name))
    } else {
        s
    }
}

/// The registry that results from binding the entries one after another,
/// a later entry replacing an earlier one of the same name.
pub open spec fn loaded(entries: Seq<(Seq<char>, RecordView)>) -> Seq<(Seq<char>, RecordView)>
    decreases entries.len(),
{
    if entries.len() == 0 {
        Seq::empty()
    } else {
        upserted(loaded(entries.drop_last()), entries.last().0, entries.last().1)
    }
}

pub open spec fn entries_view(v: Seq<ProjectEntry>) -> Seq<(Seq<char>, RecordView)> {
    v.map_values(|e: ProjectEntry| e@)
}

/// The registry: each project name bound to one record.
pub struct ProjectsDb {
    projects: Vec<ProjectEntry>,
}

impl View for ProjectsDb {
    type V = Seq<(Seq<char>, RecordView)>;

    closed spec fn view(&self) -> Seq<(Seq<char>, RecordView)> {
        entries_view(self.projects@)
    }
}

/// Binding a name keeps names distinct, gives that name the new record, and
/// leaves every other name's record as it was.
pub proof fn lemma_upserted_unique(s: Seq<(Seq<char>, RecordView)>, name: Seq<char>, rec: RecordView)
    requires
        names_unique(s),
    ensures
        names_unique(upserted(s, name, rec)),
        has_name(upserted(s, name, rec), name),
        lookup(upserted(s, name, rec), name) == Some(rec),
        forall|k: Seq<char>| k != name ==> lookup(upserted(s, name, rec), k) == lookup(s, k),
{
    let u = upserted(s, name, rec);
    if has_name(s, name) {
        let i = index_of(s, name);
        assert(u[i].0 == name);
    } else {
        assert(u[s.len() as int].0 == name);
    }
    assert forall|k: Seq<char>| k != name implies lookup(u, k) == lookup(s, k) by {
        if has_name(s, k) {
            let j = index_of(s, k);
            assert(u[j].0 == k);
        }
        if has_name(u, k) {
            let j = index_of(u, k);
            assert(s[j].0 == k);
        }
    }
}

/// Removing a name keeps names distinct, leaves that name absent, and leaves
/// every other name's record as it was.
pub proof fn lemma_removed_unique(s: Seq<(Seq<char>, RecordView)>, name: Seq<char>)
    requires
        names_unique(s),
    ensures
        names_unique(removed(s, name)),
        !has_name(removed(s, name), name),
        forall|k: Seq<char>| k != name ==> lookup(removed(s, name), k) == lookup(s, k),
{
    let r = removed(s, name);
    if has_name(s, name) {
        let i = index_of(s, name);
        assert forall|a: int, b: int| 0 <= a < b < r.len() implies r[a].0 != r[b].0 by {
            let sa = if a < i { a } else { a + 1 };
            let sb = if b < i { b } else { b + 1 };
            assert(r[a] == s[sa] && r[b] == s[sb]);
        }
        assert forall|j: int| 0 <= j < r.len() implies r[j].0 != name by {
            let sj = if j < i { j } else { j + 1 };
            assert(r[j] == s[sj]);
        }
        assert forall|k: Seq<char>| k != name implies lookup(r, k) == lookup(s, k) by {
            if has_name(s, k) {
                let j = index_of(s, k);
                let rj = if j < i { j } else { j - 1 };
                assert(r[rj] == s[j]);
            }
            if has_name(r, k) {
                let j = index_of(r, k);
                let sj = if j < i { j } else { j + 1 };
                assert(r[j] == s[sj]);
            }
        }
    }
}

/// Saving a well-formed registry and loading it again gives back the same
/// entries: loading a list of distinct names and listing it is the identity.
pub proof fn lemma_load_save_round_trip(entries: Seq<(Seq<char>, RecordView)>)
    requires
        names_unique(entries),
    ensures
        loaded(entries) == entries,
    decreases entries.len(),
{
    if entries.len() > 0 {
        let init = entries.drop_last();
        assert(names_unique(init));
        lemma_load_save_round_trip(init);
        assert(!has_name(init, entries.last().0)) by {
            if has_name(init, entries.last().0) {
                let i = index_of(init, entries.last().0);
                assert(entries[i].0 == entries[entries.len() - 1].0);
            }
        }
        assert(init.push(entries.last()) =~= entries);
    }
}

/// After a project is removed and the registry saved and loaded again, the
/// name is absent, and every other name keeps its record.
pub proof fn lemma_removed_stays_removed(s: Seq<(Seq<char>, RecordView)>, name: Seq<char>)
    requires
        names_unique(s),
    ensures
        lookup(loaded(removed(s, name)), name) is None,
        forall|k: Seq<char>| k != name ==> lookup(loaded(removed(s, name)), k) == lookup(s, k),
{
    lemma_removed_unique(s, name);
    lemma_load_save_round_trip(removed(s, name));
}

impl ProjectsDb {
    pub open spec fn wf(&self) -> bool {
        names_unique(self@)
    }

    /// A registry with no projects.
    pub fn new() -> (r: Self)
        ensures
            r@ == Seq::<(Seq<char>, RecordView)>::empty(),
            r.wf(),
    {
        let r = ProjectsDb { projects: Vec::new() };
        assert(r@ =~= Seq::<(Seq<char>, RecordView)>::empty());
        r
    }

    pub fn len(&self) -> (r: usize)
        ensures
            r == self@.len(),
    {
        self.projects.len()
    }

    pub fn entry(&self, i: usize) -> (r: &ProjectEntry)
        requires
            i < self@.len(),
        ensures
            r@ == self@[i as int],
    {
        &self.projects[i]
    }

    /// Where `name` stands among the entries.
    pub fn position(&self, name: &str) -> (r: Option<usize>)
        requires
            self.wf(),
        ensures
            r is None <==> !has_name(self@, name@),
            r matches Some(i) ==> i < self@.len() && i == index_of(self@, name@),
    {
        let key = name.to_owned();
        let mut i: usize = 0;
        while i < self.projects.len()
            invariant
                i <= self.projects@.len(),
                self.wf(),
                key@ == name@,
                forall|j: int| 0 <= j < i ==> self@[j].0 != name@,
            decreases self.projects@.len() - i,
        {
            if self.projects[i].name == key {
                assert(self@[i as int].0 == name@);
                proof {
                    assert(has_name(self@, name@));
                    let j = index_of(self@, name@);
                    assert(self@[j].0 == name@);
                    assert(j == i);
                }
                return Some(i);
            }
            i = i + 1;
        }
        None
    }

    /// The record registered under `name`.
    pub fn get(&self, name: &str) -> (r: Option<&ProjectInfo>)
        requires
            self.wf(),
        ensures
            r matches Some(info) ==> lookup(self@, name@) == Some(info@),
            r is None ==> lookup(self@, name@) is None,
    {
        match self.position(name) {
            Some(i) => Some(&self.projects[i].info),
            None => None,
        }
    }

    /// Binds `name` to `info`, replacing the record it had.
    pub fn upsert(&mut self, name: &str, info: ProjectInfo)
        requires
            old(self).wf(),
        ensures
            final(self).wf(),
            final(self)@ == upserted(old(self)@, name@, info@),
    {
        proof {
            lemma_upserted_unique(self@, name@, info@);
        }
        let entry = ProjectEntry { name: name.to_owned(), info };
        match self.position(name) {
            Some(i) => {
                self.projects.set(i, entry);
                assert(self@ =~= upserted(old(self)@, name@, info@));
            },
            None => {
                self.projects.push(entry);
                assert(self@ =~= upserted(old(self)@, name@, info@));
            },
        }
    }

    /// Takes `name` out of the registry, handing back its record.
    pub fn remove(&mut self, name: &str) -> (r: Option<ProjectInfo>)
        requires
            old(self).wf(),
        ensures
            final(self).wf(),
            final(self)@ == removed(old(self)@, name@),
            r matches Some(info) ==> lookup(old(self)@, name@) == Some(info@),
            r is None ==> lookup(old(self)@, name@) is None,
    {
        proof {
            lemma_removed_unique(self@, name@);
        }
        match self.position(name) {
            Some(i) => {
                let e = self.projects.remove(i);
                assert(self@ =~= removed(old(self)@, name@));
                Some(e.info)
            },
            None => None,
        }
    }

    /// The registry that the entries read from the backing file describe.
    pub fn from_entries(entries: &Vec<ProjectEntry>) -> (r: Self)
        ensures
            r.wf(),
            r@ == loaded(entries_view(entries@)),
    {
        let mut db = ProjectsDb::new();
        let mut i: usize = 0;
        while i < entries.len()
            invariant
                i <= entries@.len(),
                db.wf(),
                db@ == loaded(entries_view(entries@).take(i as int)),
            decreases entries@.len() - i,
        {
            let e = &entries[i];
            db.upsert(e.name.as_str(), e.info.duplicate());
            assert(entries_view(entries@).take(i + 1).drop_last() =~= entries_view(
                entries@,
            ).take(i as int));
            i = i + 1;
        }
        assert(entries_view(entries@).take(entries@.len() as int) =~= entries_view(entries@));
        db
    }

    /// The entries to write to the backing file.
    pub fn to_entries(&self) -> (r: Vec<ProjectEntry>)
        ensures
            entries_view(r@) == self@,
    {
        let mut r: Vec<ProjectEntry> = Vec::new();
        let mut i: usize = 0;
        while i < self.projects.len()
            invariant
                i <= self.projects@.len(),
                entries_view(r@) =~= self@.take(i as int),
            decreases self.projects@.len() - i,
        {
            let e = self.projects[i].duplicate();
            let ghost before = r@;
            r.push(e);
            assert(r@ == before.push(e));
            assert(e@ == self@[i as int]);
            assert(entries_view(r@) =~= entries_view(before).push(e@));
            assert(self@.take(i + 1) =~= self@.take(i as int).push(self@[i as int]));
            i = i + 1;
        }
        assert(self@.take(self@.len() as int) =~= self@);
        r
    }

    /// Points the entry file of the record at `i` to `main`.
    pub fn set_main(&mut self, i: usize, main: &str)
        requires
            old(self).wf(),
            i < old(self)@.len(),
        ensures
            final(self).wf(),
            final(self)@ == old(self)@.update(
                i as int,
                (old(self)@[i as int].0, RecordView { main: main@, ..old(self)@[i as int].1 }),
            ),
    {
        let mut e = self.projects.remove(i);
        e.info.project_main = main.to_owned();
        self.projects.insert(i, e);
        assert(self@ =~= old(self)@.update(
            i as int,
            (old(self)@[i as int].0, RecordView { main: main@, ..old(self)@[i as int].1 }),
        ));
    }
}

} // verus!
