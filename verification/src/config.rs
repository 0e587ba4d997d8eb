//! The repositories that the polling bridge connects.

use vstd::prelude::*;
use vstd::utf8::*;

use crate::compose::{views, views_push};
use crate::order::{comes_before, precedes, precedes_irreflexive, precedes_total,
    precedes_transitive, strictly_sorted};
use crate::pathname::{below, below_text, names_stand_behind_a_slash, PathName};

verus! {

broadcast use vstd::seq_lib::group_seq_properties;

/// One repository.
#[derive(Debug, PartialEq, Eq)]
pub struct RepoConfig {
    pub path: PathName,
}

/// Where a repository at `path` has its issue database.
pub open spec fn db_below(path: Seq<u8>) -> Seq<u8> {
    below_text(below_text(path, ".crosslink"@), "issues.db"@)
}

/// Where a repository at `path` has its issue database.
pub fn issues_db(path: &PathName) -> (r: PathName)
    ensures
        r@ == db_below(path@),
{
    path.join(".crosslink").join("issues.db")
}

impl RepoConfig {
    /// The repository's issue database.
    pub fn db_path(&self) -> (r: PathName)
        ensures
            r@ == db_below(self.path@),
    {
        issues_db(&self.path)
    }
}

/// A repository and the slug by which it is known.
#[derive(Debug, PartialEq, Eq)]
pub struct RepoEntry {
    pub slug: String,
    pub repo: RepoConfig,
}

/// The contents of [`RepoEntry`].
#[verifier::ext_equal]
pub struct RepoView {
    pub slug: Seq<char>,
    pub path: Seq<u8>,
}

impl View for RepoEntry {
    type V = RepoView;

    open spec fn view(&self) -> RepoView {
        RepoView { slug: self.slug@, path: self.repo.path@ }
    }
}

/// The repositories, in the alphabetical order of their slugs. No slug is there
/// twice.
#[derive(Debug)]
pub struct Config {
    repos: Vec<RepoEntry>,
}

/// The slugs of repositories.
pub open spec fn slugs_of(repos: Seq<RepoView>) -> Seq<Seq<char>> {
    Seq::new(repos.len(), |i: int| repos[i].slug)
}

/// The path of the repository that is known as `slug`.
pub open spec fn path_of(repos: Seq<RepoView>, slug: Seq<char>) -> Option<Seq<u8>>
    decreases repos.len(),
{
    if repos.len() == 0 {
        None
    } else if repos.last().slug == slug {
        Some(repos.last().path)
    } else {
        path_of(repos.drop_last(), slug)
    }
}

impl View for Config {
    type V = Seq<RepoView>;

    closed spec fn view(&self) -> Seq<RepoView> {
        views(self.repos@)
    }
}

/// What is amiss with a repository.
#[derive(Debug, PartialEq, Eq)]
pub enum Complaint {
    /// There is nothing at the repository's path.
    NoRepo { slug: String, path: PathName },
    /// The repository has no issue database.
    NoDatabase { slug: String, path: PathName },
}

/// The contents of [`Complaint`].
#[verifier::ext_equal]
pub enum ComplaintView {
    NoRepo { slug: Seq<char>, path: Seq<u8> },
    NoDatabase { slug: Seq<char>, path: Seq<u8> },
}

impl View for Complaint {
    type V = ComplaintView;

    open spec fn view(&self) -> ComplaintView {
        match self {
            Complaint::NoRepo { slug, path } => ComplaintView::NoRepo { slug: slug@, path: path@ },
            Complaint::NoDatabase { slug, path } => ComplaintView::NoDatabase {
                slug: slug@,
                path: path@,
            },
        }
    }
}

/// What is there of a repository: its path, and its issue database.
#[derive(Debug, Clone, Copy, PartialEq, Eq)]
pub struct Presence {
    pub path: bool,
    pub database: bool,
}

/// The complaints about repositories, given what is there of each.
pub open spec fn complaints(repos: Seq<RepoView>, found: Seq<Presence>) -> Seq<ComplaintView>
    decreases repos.len(),
{
    if repos.len() == 0 {
        Seq::empty()
    } else {
        let front = complaints(repos.drop_last(), found);
        let last = repos.last();
        let there = found[repos.len() - 1];
        if !there.path {
            front.push(ComplaintView::NoRepo { slug: last.slug, path: last.path })
        } else if !there.database {
            front.push(ComplaintView::NoDatabase { slug: last.slug, path: db_below(last.path) })
        } else {
            front
        }
    }
}

/// The failure of a configuration without repositories.
pub const NO_REPOS: &'static str = "config has no repos defined";

proof fn path_of_split(a: Seq<RepoView>, b: Seq<RepoView>, slug: Seq<char>)
    ensures
        path_of(a + b, slug) == (match path_of(b, slug) {
            Some(p) => Some(p),
            None => path_of(a, slug),
        }),
    decreases b.len(),
{
    if b.len() == 0 {
        assert(a + b == a);
    } else {
        assert((a + b).drop_last() == a + b.drop_last());
        path_of_split(a, b.drop_last(), slug);
    }
}

/// A slug has a path exactly when it is among the slugs.
pub proof fn path_of_known(repos: Seq<RepoView>, slug: Seq<char>)
    ensures
        path_of(repos, slug) is Some <==> slugs_of(repos).contains(slug),
    decreases repos.len(),
{
    let all = slugs_of(repos);
    if repos.len() > 0 {
        let front = slugs_of(repos.drop_last());
        path_of_known(repos.drop_last(), slug);
        assert(all.contains(slug) <==> (front.contains(slug) || repos.last().slug == slug)) by {
            assert(all[repos.len() - 1] == repos.last().slug);
            if front.contains(slug) {
                assert(all[front.index_of(slug)] == slug);
            }
            if all.contains(slug) && repos.last().slug != slug {
                assert(front[all.index_of(slug)] == slug);
            }
        }
    }
}

impl Config {
    #[verifier::type_invariant]
    spec fn ordered(self) -> bool {
        strictly_sorted(slugs_of(views(self.repos@)))
    }

    /// A configuration without repositories.
    fn empty() -> (r: Config)
        ensures
            r@ == Seq::<RepoView>::empty(),
    {
        let r: Config = Config { repos: Vec::new() };
        assert(views(r.repos@) =~= Seq::<RepoView>::empty());
        r
    }

    /// Adds a repository. A repository that has the slug is replaced.
    fn insert(self, slug: String, repo: RepoConfig) -> (r: Config)
        ensures
            forall|s: Seq<char>| #[trigger]
                path_of(r@, s) == (if s == slug@ {
                    Some(repo.path@)
                } else {
                    path_of(self@, s)
                }),
            r@.len() > 0,
    {
        proof {
            use_type_invariant(&self);
        }
        let mut repos: Vec<RepoEntry> = self.repos;
        let ghost was = views(repos@);
        let ghost new = RepoView { slug: slug@, path: repo.path@ };
        let mut i: usize = 0;
        while i < repos.len() && comes_before(repos[i].slug.as_str(), slug.as_str())
            invariant
                i <= repos.len(),
                was == views(repos@),
                forall|j: int| 0 <= j < i ==> precedes((#[trigger] was[j]).slug, slug@),
            decreases repos.len() - i,
        {
            i = i + 1;
        }
        let ghost k = i as int;
        if i < repos.len() && repos[i].slug == slug {
            assert(was[k].slug == slug@);
            let entry: RepoEntry = RepoEntry { slug, repo };
            repos.set(i, entry);
            proof {
                let now = views(repos@);
                assert(now =~= was.update(k, new));
                assert(slugs_of(now) =~= slugs_of(was));
                assert forall|s: Seq<char>| #[trigger] path_of(now, s) == (if s == new.slug {
                    Some(new.path)
                } else {
                    path_of(was, s)
                }) by {
                    replaced(was, k, new, s);
                }
            }
        } else {
            let entry: RepoEntry = RepoEntry { slug, repo };
            repos.insert(i, entry);
            proof {
                let now = views(repos@);
                assert(now =~= was.insert(k, new));
                if k < was.len() {
                    precedes_total(was[k].slug, new.slug);
                }
                inserted_in_order(was, k, new);
                assert forall|s: Seq<char>| #[trigger] path_of(now, s) == (if s == new.slug {
                    Some(new.path)
                } else {
                    path_of(was, s)
                }) by {
                    inserted_path(was, k, new, s);
                }
            }
        }
        Config { repos }
    }

    /// Makes a configuration of the repositories that were read, of which there
    /// has to be at least one. Of several with the same slug the last counts.
    pub fn load(entries: Vec<RepoEntry>) -> (r: Result<Config, String>)
        ensures
            match r {
                Ok(config) => entries@.len() > 0 && strictly_sorted(slugs_of(config@)) && forall|
                    s: Seq<char>,
                | #[trigger]
                    path_of(config@, s) == path_of(views(entries@), s),
                Err(e) => entries@.len() == 0 && e@ == NO_REPOS@,
            },
    {
        if entries.len() == 0 {
            return Err(NO_REPOS.to_owned());
        }
        let ghost all = views(entries@);
        let mut config: Config = Config::empty();
        let mut i: usize = 0;
        while i < entries.len()
            invariant
                i <= entries.len(),
                all == views(entries@),
                forall|s: Seq<char>| #[trigger]
                    path_of(config@, s) == path_of(all.take(i as int), s),
            decreases entries.len() - i,
        {
            let slug: String = entries[i].slug.clone();
            let repo: RepoConfig = RepoConfig { path: entries[i].repo.path.copy() };
            assert(all.take(i + 1).drop_last() == all.take(i as int));
            assert(all.take(i + 1).last() == all[i as int]);
            config = config.insert(slug, repo);
            i = i + 1;
        }
        assert(all.take(i as int) == all);
        proof {
            use_type_invariant(&config);
        }
        Ok(config)
    }

    /// The number of repositories.
    pub fn len(&self) -> (n: usize)
        ensures
            n == self@.len(),
    {
        self.repos.len()
    }

    /// The repository at position `i`.
    pub fn entry(&self, i: usize) -> (r: &RepoEntry)
        requires
            i < self@.len(),
        ensures
            r@ == self@[i as int],
    {
        &self.repos[i]
    }

    /// The repository that is known as `slug`.
    pub fn get(&self, slug: &str) -> (r: Option<&RepoConfig>)
        ensures
            match r {
                Some(repo) => path_of(self@, slug@) == Some(repo.path@),
                None => path_of(self@, slug@) is None,
            },
    {
        let mut i: usize = self.repos.len();
        let ghost all = self@;
        assert(all.take(i as int) == all);
        while i > 0
            invariant
                i <= self.repos.len(),
                all == self@,
                path_of(all, slug@) == path_of(all.take(i as int), slug@),
            decreases i,
        {
            assert(all.take(i as int).drop_last() == all.take(i - 1));
            assert(all.take(i as int).last() == self.repos@[i - 1]@);
            if crate::text::same_text(self.repos[i - 1].slug.as_str(), slug) {
                return Some(&self.repos[i - 1].repo);
            }
            i = i - 1;
        }
        None
    }

    /// The slugs, in alphabetical order.
    pub fn repo_slugs(&self) -> (r: Vec<String>)
        ensures
            views(r@) == slugs_of(self@),
            strictly_sorted(views(r@)),
    {
        proof {
            use_type_invariant(self);
        }
        let mut r: Vec<String> = Vec::new();
        let ghost all = slugs_of(self@);
        let mut i: usize = 0;
        while i < self.repos.len()
            invariant
                i <= self.repos.len(),
                all == slugs_of(self@),
                views(r@) == all.take(i as int),
            decreases self.repos.len() - i,
        {
            let s: String = self.repos[i].slug.clone();
            proof {
                views_push(r@, s);
            }
            r.push(s);
            assert(all.take(i as int).push(s@) == all.take(i + 1));
            i = i + 1;
        }
        assert(all.take(i as int) == all);
        r
    }

    /// What is amiss, given what is there of each repository in order: a path that
    /// does not exist, or else a missing issue database.
    pub fn validate(&self, found: &Vec<Presence>) -> (r: Vec<Complaint>)
        requires
            found@.len() == self@.len(),
        ensures
            views(r@) == complaints(self@, found@),
    {
        let mut r: Vec<Complaint> = Vec::new();
        let ghost all = self@;
        let mut i: usize = 0;
        assert(views(r@) =~= complaints(all.take(0), found@));
        while i < self.repos.len()
            invariant
                i <= self.repos.len(),
                found@.len() == self.repos.len(),
                all == self@,
                views(r@) == complaints(all.take(i as int), found@),
            decreases self.repos.len() - i,
        {
            assert(all.take(i + 1).drop_last() == all.take(i as int));
            assert(all.take(i + 1).last() == self.repos@[i as int]@);
            let there: Presence = found[i];
            if !there.path {
                let c: Complaint = Complaint::NoRepo {
                    slug: self.repos[i].slug.clone(),
                    path: self.repos[i].repo.path.copy(),
                };
                proof {
                    views_push(r@, c);
                }
                r.push(c);
            } else if !there.database {
                let c: Complaint = Complaint::NoDatabase {
                    slug: self.repos[i].slug.clone(),
                    path: self.repos[i].repo.db_path(),
                };
                proof {
                    views_push(r@, c);
                }
                r.push(c);
            }
            i = i + 1;
        }
        assert(all.take(i as int) == all);
        r
    }
}

/// A slug that is not in front of the list keeps its path when the list grows
/// elsewhere.
proof fn inserted_path(was: Seq<RepoView>, k: int, new: RepoView, s: Seq<char>)
    requires
        0 <= k <= was.len(),
        !slugs_of(was).contains(new.slug),
    ensures
        path_of(was.insert(k, new), s) == (if s == new.slug {
            Some(new.path)
        } else {
            path_of(was, s)
        }),
{
    let a = was.take(k);
    let b = was.skip(k);
    assert(was == a + b);
    assert(was.insert(k, new) == a + (seq![new] + b));
    path_of_split(a, b, s);
    path_of_split(a, seq![new] + b, s);
    path_of_split(seq![new], b, s);
    assert(seq![new].drop_last() == Seq::<RepoView>::empty());
    if s == new.slug {
        path_of_known(b, s);
        if slugs_of(b).contains(s) {
            let j = slugs_of(b).index_of(s);
            assert(slugs_of(was)[k + j] == s);
        }
    } else {
        assert(path_of(Seq::<RepoView>::empty(), s) is None);
        assert(path_of(seq![new], s) is None);
    }
}

proof fn replaced(was: Seq<RepoView>, k: int, new: RepoView, s: Seq<char>)
    requires
        0 <= k < was.len(),
        was[k].slug == new.slug,
        strictly_sorted(slugs_of(was)),
    ensures
        path_of(was.update(k, new), s) == (if s == new.slug {
            Some(new.path)
        } else {
            path_of(was, s)
        }),
{
    let a = was.take(k);
    let b = was.skip(k + 1);
    assert(was == a + (seq![was[k]] + b));
    assert(was.update(k, new) == a + (seq![new] + b));
    path_of_split(a, seq![was[k]] + b, s);
    path_of_split(a, seq![new] + b, s);
    path_of_split(seq![was[k]], b, s);
    path_of_split(seq![new], b, s);
    assert(seq![new].drop_last() == Seq::<RepoView>::empty());
    assert(seq![was[k]].drop_last() == Seq::<RepoView>::empty());
    assert(path_of(Seq::<RepoView>::empty(), s) is None);
    if s == new.slug {
        path_of_known(b, s);
        if slugs_of(b).contains(s) {
            let j = slugs_of(b).index_of(s);
            assert(slugs_of(was)[k + 1 + j] == s);
            assert(slugs_of(was)[k] == s);
            precedes_irreflexive(s);
        }
    }
}

/// Inserting where the order wants it keeps the order, and the slug was not there.
proof fn inserted_in_order(was: Seq<RepoView>, k: int, new: RepoView)
    requires
        0 <= k <= was.len(),
        strictly_sorted(slugs_of(was)),
        forall|j: int| 0 <= j < k ==> precedes((#[trigger] was[j]).slug, new.slug),
        k < was.len() ==> precedes(new.slug, was[k].slug),
    ensures
        strictly_sorted(slugs_of(was.insert(k, new))),
        !slugs_of(was).contains(new.slug),
{
    let names = slugs_of(was);
    let now = was.insert(k, new);
    let after = slugs_of(now);
    assert forall|j: int| k <= j < was.len() implies precedes(new.slug, #[trigger] names[j]) by {
        if j > k {
            assert(precedes(names[k], names[j]));
            precedes_transitive(new.slug, names[k], names[j]);
        }
    }
    assert forall|p: int, q: int| 0 <= p < q < after.len() implies precedes(
        #[trigger] after[p],
        #[trigger] after[q],
    ) by {
        if q == k {
            assert(now[p] == was[p]);
        } else if p == k {
            assert(after[q] == names[q - 1]);
        } else {
            let a = if p < k {
                p
            } else {
                p - 1
            };
            let b = if q < k {
                q
            } else {
                q - 1
            };
            assert(after[p] == names[a]);
            assert(after[q] == names[b]);
        }
    }
    if names.contains(new.slug) {
        let j = names.index_of(new.slug);
        precedes_irreflexive(new.slug);
        if j < k {
            assert(was[j].slug == new.slug);
        }
    }
}

// --- laws ----------------------------------------------------------------------

/// A slug leads to the path of the last repository that has it.
pub proof fn the_last_entry_counts(
    front: Seq<RepoView>,
    entry: RepoView,
    back: Seq<RepoView>,
)
    requires
        forall|i: int| 0 <= i < back.len() ==> (#[trigger] back[i]).slug != entry.slug,
    ensures
        path_of(front.push(entry) + back, entry.slug) == Some(entry.path),
        path_of(back, entry.slug) is None,
    decreases back.len(),
{
    let all = front.push(entry) + back;
    if back.len() == 0 {
        assert(all =~= front.push(entry));
    } else {
        let init = back.drop_last();
        assert(all.drop_last() =~= front.push(entry) + init);
        assert(all.last() == back[back.len() - 1]);
        assert forall|i: int| 0 <= i < init.len() implies (#[trigger] init[i]).slug
            != entry.slug by {
            assert(init[i] == back[i]);
        }
        the_last_entry_counts(front, entry, init);
    }
}

/// The database of a repository is `.crosslink/issues.db` below its path.
pub proof fn databases_lie_below_the_repository(path: Seq<u8>)
    ensures
        db_below(path) == below(
            path,
            encode_utf8(".crosslink"@) + seq![47u8] + encode_utf8("issues.db"@),
        ),
{
    reveal_strlit(".crosslink");
    reveal_strlit("issues.db");
    is_ascii_chars_encode_utf8(".crosslink"@);
    is_ascii_chars_encode_utf8("issues.db"@);
    let a = encode_utf8(".crosslink"@);
    let b = encode_utf8("issues.db"@);
    assert(a[0] == ".crosslink"@[0] as u8 && a[9] == ".crosslink"@[9] as u8);
    assert(b[0] == "issues.db"@[0] as u8);
    names_stand_behind_a_slash(path, a);
    let dir = below(path, a);
    assert(dir[dir.len() - 1] == a[9]);
    names_stand_behind_a_slash(dir, b);
    let name = a + seq![47u8] + b;
    assert(name[0] == a[0]);
    names_stand_behind_a_slash(path, name);
    assert(db_below(path) =~= below(path, name));
}

/// A repository is complained about exactly when something of it is missing: its
/// path, or else its database. The complaints come in the order of the repositories,
/// one for each at most.
pub proof fn what_is_missing_is_reported(repos: Seq<RepoView>, last: RepoView, found: Seq<Presence>)
    requires
        found.len() == repos.len() + 1,
    ensures
        ({
            let there = found[repos.len() as int];
            let before = complaints(repos, found.drop_last());
            let now = complaints(repos.push(last), found);
            if there.path && there.database {
                now == before
            } else if there.path {
                now == before.push(
                    ComplaintView::NoDatabase { slug: last.slug, path: db_below(last.path) },
                )
            } else {
                now == before.push(ComplaintView::NoRepo { slug: last.slug, path: last.path })
            }
        }),
        complaints(Seq::empty(), found).len() == 0,
{
    assert(repos.push(last).drop_last() =~= repos);
    complaints_look_back(repos, found, found.drop_last());
}

proof fn complaints_look_back(repos: Seq<RepoView>, a: Seq<Presence>, b: Seq<Presence>)
    requires
        repos.len() <= a.len(),
        repos.len() <= b.len(),
        forall|i: int| 0 <= i < repos.len() ==> a[i] == b[i],
    ensures
        complaints(repos, a) == complaints(repos, b),
    decreases repos.len(),
{
    if repos.len() > 0 {
        complaints_look_back(repos.drop_last(), a, b);
    }
}

} // verus!
