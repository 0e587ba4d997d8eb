//! What holds of slugs.

use vstd::prelude::*;
use vstd::utf8::*;

use crate::encoding::lossy;
use crate::pathname::below;
use crate::paths::own_slug_of;
use crate::slug::{
    client_line, client_start, flag_slug, listed_origin, nonempty, origin_slug, repo_slug,
    server_line, server_start, slug_action, slug_next, url_path, without_git, BLANK_FLAG, Role,
    SlugActionView, SlugPhaseView, SlugReplyView, SlugTaskView,
};
use crate::text::{
    after_last, after_marker, before_first, first_sep, last_sep_end, trimmed, trimmed_end_of,
    white_space,
};
use crate::text_laws::{
    blank, cutting_at_a_marker, cutting_at_the_first, cutting_at_the_last, free_of, snug,
    splitting_at_white_space, stands_at, stripping_takes_one_end, trimming_a_set,
    trimming_takes_the_ends, without_a_marker, without_a_separator,
};

verus! {

/// Where the part behind the last separator begins: behind a separator or at the
/// front, with no separator from there on.
proof fn last_sep_end_is(s: Seq<char>, seps: Seq<char>, k: int)
    ensures
        ({
            let e = last_sep_end(s, seps);
            &&& e <= s.len()
            &&& forall|j: int| e <= j < s.len() ==> !seps.contains(#[trigger] s[j])
            &&& e == 0 || seps.contains(s[e - 1])
        }),
        0 <= k <= s.len() && (forall|j: int| k <= j < s.len() ==> !seps.contains(#[trigger] s[j]))
            && (k == 0 || seps.contains(s[k - 1])) ==> k == last_sep_end(s, seps),
    decreases s.len(),
{
    if s.len() > 0 && !seps.contains(s.last()) {
        let t = s.drop_last();
        last_sep_end_is(t, seps, k);
        assert(forall|j: int| 0 <= j < t.len() ==> t[j] == s[j]);
        let e = last_sep_end(t, seps);
        assert forall|j: int| e <= j < s.len() implies !seps.contains(#[trigger] s[j]) by {
            if j < t.len() {
                assert(t[j] == s[j]);
            }
        }
        if 0 <= k <= s.len() && (forall|j: int| k <= j < s.len() ==> !seps.contains(#[trigger] s[j]))
            && (k == 0 || seps.contains(s[k - 1])) {
            assert(k != s.len());
            assert forall|j: int| k <= j < t.len() implies !seps.contains(#[trigger] t[j]) by {
                assert(t[j] == s[j]);
            }
        }
    } else if s.len() > 0 {
        if 0 <= k < s.len() {
            assert(seps.contains(s[s.len() - 1]));
        }
    }
}

proof fn first_sep_is(s: Seq<char>, seps: Seq<char>)
    ensures
        first_sep(s, seps) <= s.len(),
        first_sep(s, seps) < s.len() ==> seps.contains(s[first_sep(s, seps) as int]),
        (forall|j: int| 0 <= j < s.len() ==> !seps.contains(#[trigger] s[j])) ==> first_sep(s, seps)
            == s.len(),
    decreases s.len(),
{
    if s.len() > 0 && !seps.contains(s[0]) {
        let t = s.drop_first();
        first_sep_is(t, seps);
        assert(forall|j: int| 0 <= j < t.len() ==> t[j] == s[j + 1]);
    }
}

proof fn after_marker_is_a_tail(s: Seq<char>, marker: Seq<char>) -> (k: int)
    ensures
        after_marker(s, marker) matches Some(t) ==> 0 <= k <= s.len() && t == s.skip(k),
    decreases s.len(),
{
    if marker.is_prefix_of(s) {
        marker.len() as int
    } else if s.len() == 0 {
        0
    } else {
        let k = after_marker_is_a_tail(s.drop_first(), marker);
        if let Some(t) = after_marker(s.drop_first(), marker) {
            assert(s.drop_first().skip(k) == s.skip(k + 1));
        }
        k + 1
    }
}

/// What the separator sets hold.
proof fn sep_sets(c: char)
    ensures
        "/:"@.contains(c) <==> (c == '/' || c == ':'),
        "/"@.contains(c) <==> c == '/',
        ":"@.contains(c) <==> c == ':',
        "?#"@.contains(c) <==> (c == '?' || c == '#'),
{
    reveal_strlit("/:");
    reveal_strlit("/");
    reveal_strlit(":");
    reveal_strlit("?#");
    assert("/:"@[0] == '/' && "/:"@[1] == ':' && "/:"@.len() == 2);
    assert("/"@[0] == '/' && "/"@.len() == 1);
    assert(":"@[0] == ':' && ":"@.len() == 1);
    assert("?#"@[0] == '?' && "?#"@[1] == '#' && "?#"@.len() == 2);
}

/// The path in a URL is what follows one of its separators, or all of it.
proof fn url_path_is_a_tail(u: Seq<char>) -> (k: int)
    ensures
        url_path(u) matches Some(path) ==> 0 <= k <= u.len() && path == u.skip(k) && (k == 0
            || u[k - 1] == '/' || u[k - 1] == ':'),
{
    match after_marker(u, "://"@) {
        Some(rest) => {
            let m = after_marker_is_a_tail(u, "://"@);
            let f = first_sep(rest, "/"@) as int;
            first_sep_is(rest, "/"@);
            if f < rest.len() {
                assert(rest.skip(f + 1) =~= u.skip(m + f + 1));
                assert(u[m + f] == rest[f]);
                sep_sets(rest[f]);
            }
            m + f + 1
        },
        None => {
            let f = first_sep(u, ":"@) as int;
            first_sep_is(u, ":"@);
            if f < u.len() {
                sep_sets(u[f]);
                f + 1
            } else {
                assert(u.skip(0) =~= u);
                0
            }
        },
    }
}

proof fn trimmed_without_white(s: Seq<char>)
    requires
        forall|j: int| 0 <= j < s.len() ==> !white_space(#[trigger] s[j]),
    ensures
        trimmed(s) == s,
{
    if s.len() > 0 {
        assert(!white_space(s[0]));
        assert(!white_space(s[s.len() - 1]));
    }
}

/// A path without query, fragment and slash at its end is used as it is.
proof fn bare_path(path: Seq<char>)
    requires
        forall|j: int| 0 <= j < path.len() ==> #[trigger] path[j] != '?' && path[j] != '#',
        path.len() > 0 ==> path.last() != '/',
    ensures
        trimmed_end_of(before_first(path, "?#"@), "/"@) == path,
{
    assert forall|j: int| 0 <= j < path.len() implies !"?#"@.contains(#[trigger] path[j]) by {
        sep_sets(path[j]);
    }
    first_sep_is(path, "?#"@);
    assert(path.take(path.len() as int) =~= path);
    if path.len() > 0 {
        sep_sets(path.last());
    }
}

/// The last segment of a tail is the last segment of the whole.
proof fn same_segment(u: Seq<char>, k: int)
    requires
        0 <= k <= u.len(),
        k == 0 || u[k - 1] == '/' || u[k - 1] == ':',
        ({
            let segment = after_last(u.skip(k), "/"@);
            forall|j: int| 0 <= j < segment.len() ==> #[trigger] segment[j] != ':'
        }),
    ensures
        after_last(u, "/:"@) == after_last(u.skip(k), "/"@),
{
    let path = u.skip(k);
    let e = last_sep_end(path, "/"@) as int;
    last_sep_end_is(path, "/"@, 0);
    let segment = path.skip(e);
    let at = k + e;
    assert(u.skip(at) =~= segment);
    assert forall|j: int| at <= j < u.len() implies !"/:"@.contains(#[trigger] u[j]) by {
        assert(after_last(path, "/"@)[j - at] == u[j]);
        assert(path[j - k] == u[j]);
        assert(!"/"@.contains(path[j - k]));
        sep_sets(u[j]);
    }
    if e > 0 {
        sep_sets(path[e - 1]);
        assert(u[at - 1] == path[e - 1]);
    }
    if at > 0 {
        sep_sets(u[at - 1]);
    }
    last_sep_end_is(u, "/:"@, at);
}

/// A client and the server of its repository agree on the slug: for a URL that has
/// no path, and for one without query, fragment and slash at the end, whose last
/// path segment holds no colon and no white space.
pub proof fn client_and_server_agree(url: Seq<char>)
    requires
        ({
            let u = trimmed(url);
            url_path(u) matches Some(path) ==> {
                &&& forall|j: int| 0 <= j < u.len() ==> #[trigger] u[j] != '?' && u[j] != '#'
                &&& u.len() > 0 ==> u.last() != '/'
                &&& ({
                    let segment = after_last(path, "/"@);
                    forall|j: int|
                        0 <= j < segment.len() ==> #[trigger] segment[j] != ':' && !white_space(
                            segment[j],
                        )
                })
            }
        }),
    ensures
        origin_slug(url) == repo_slug(url),
{
    let u = trimmed(url);
    if let Some(path) = url_path(u) {
        let k = url_path_is_a_tail(u);
        assert forall|j: int| 0 <= j < path.len() implies #[trigger] path[j] != '?' && path[j]
            != '#' by {
            assert(path[j] == u[k + j]);
        }
        if path.len() > 0 {
            assert(path.last() == u[u.len() - 1]);
        }
        bare_path(path);
        same_segment(u, k);
        trimmed_without_white(after_last(path, "/"@));
    }
}

// --- URLs that are put together from known parts -------------------------------

/// In `scheme://host/path` the path is what follows the host's slash. Without that
/// slash there is no path.
pub proof fn path_behind_a_scheme(scheme: Seq<char>, host: Seq<char>, path: Seq<char>)
    requires
        free_of(host, "/"@),
    ensures
        ({
            let u = scheme + "://"@ + host;
            (forall|i: int| 0 <= i < scheme.len() ==> !#[trigger] stands_at(u, "://"@, i))
                ==> url_path(u) is None
        }),
        ({
            let u = scheme + "://"@ + host + "/"@ + path;
            (forall|i: int| 0 <= i < scheme.len() ==> !#[trigger] stands_at(u, "://"@, i))
                ==> url_path(u) == Some(path)
        }),
{
    reveal_strlit("://");
    reveal_strlit("/");
    let m = "://"@;
    let n = scheme.len() as int;
    let u = scheme + m + host;
    assert(u.subrange(n, n + 3) =~= m);
    assert(u.skip(n + 3) =~= host);
    if forall|i: int| 0 <= i < scheme.len() ==> !#[trigger] stands_at(u, m, i) {
        cutting_at_a_marker(u, m, n);
        without_a_separator(host, "/"@);
    }
    let v = scheme + m + host + "/"@ + path;
    assert(v.subrange(n, n + 3) =~= m);
    let rest = host.push('/') + path;
    assert(v.skip(n + 3) =~= rest);
    if forall|i: int| 0 <= i < scheme.len() ==> !#[trigger] stands_at(v, m, i) {
        cutting_at_a_marker(v, m, n);
        sep_sets('/');
        cutting_at_the_first(host, '/', path, "/"@);
    }
}

/// In `host:path` the path is what follows the first colon; a text without a colon
/// is a path itself.
pub proof fn path_without_a_scheme(host: Seq<char>, path: Seq<char>)
    requires
        free_of(host, ":"@),
    ensures
        (forall|i: int| !#[trigger] stands_at(host + ":"@ + path, "://"@, i)) ==> url_path(
            host + ":"@ + path,
        ) == Some(path),
        url_path(host) == Some(host),
{
    reveal_strlit("://");
    reveal_strlit(":");
    let u = host + ":"@ + path;
    if forall|i: int| !#[trigger] stands_at(u, "://"@, i) {
        without_a_marker(u, "://"@);
        assert(u =~= host.push(':') + path);
        sep_sets(':');
        cutting_at_the_first(host, ':', path, ":"@);
    }
    assert forall|i: int| !#[trigger] stands_at(host, "://"@, i) by {
        if stands_at(host, "://"@, i) {
            assert(host.subrange(i, i + 3)[0] == host[i]);
            sep_sets(host[i]);
        }
    }
    without_a_marker(host, "://"@);
    without_a_separator(host, ":"@);
}

/// True when a text that starts like this has a path: when there is a slash behind
/// some `://`, or no `://` at all.
pub open spec fn has_path(s: Seq<char>) -> bool {
    ||| forall|i: int| !#[trigger] stands_at(s, "://"@, i)
    ||| exists|i: int, j: int|
        #[trigger] stands_at(s, "://"@, i) && i + 3 <= j < s.len() && #[trigger] s[j] == '/'
}

/// The first place at which a text that holds `://` holds it.
proof fn first_marker(s: Seq<char>, bound: int) -> (at: int)
    requires
        stands_at(s, "://"@, bound),
    ensures
        0 <= at <= bound,
        stands_at(s, "://"@, at),
        forall|i: int| 0 <= i < at ==> !#[trigger] stands_at(s, "://"@, i),
    decreases bound,
{
    if exists|i: int| 0 <= i < bound && #[trigger] stands_at(s, "://"@, i) {
        let i = choose|i: int| 0 <= i < bound && #[trigger] stands_at(s, "://"@, i);
        first_marker(s, i)
    } else {
        bound
    }
}

/// A URL has a path exactly when it has a slash behind its `://`, or no `://`.
pub proof fn which_urls_have_a_path(u: Seq<char>)
    ensures
        url_path(u) is Some <==> has_path(u),
{
    reveal_strlit("://");
    let m = "://"@;
    if forall|i: int| !#[trigger] stands_at(u, m, i) {
        without_a_marker(u, m);
    } else {
        let some = choose|i: int| #[trigger] stands_at(u, m, i);
        let at = first_marker(u, some);
        cutting_at_a_marker(u, m, at);
        let rest = u.skip(at + 3);
        if exists|i: int, j: int|
            #[trigger] stands_at(u, m, i) && i + 3 <= j < u.len() && #[trigger] u[j] == '/' {
            let (i, j) = choose|i: int, j: int|
                #[trigger] stands_at(u, m, i) && i + 3 <= j < u.len() && #[trigger] u[j] == '/';
            assert(at <= i) by {
                if i < at {
                    assert(!stands_at(u, m, i));
                }
            }
            assert(rest[j - at - 3] == '/');
            if url_path(u) is None {
                first_sep_is(rest, "/"@);
                no_first_sep(rest, "/"@, j - at - 3);
                sep_sets('/');
            }
        } else {
            assert forall|k: int| 0 <= k < rest.len() implies !"/"@.contains(#[trigger] rest[k]) by {
                sep_sets(rest[k]);
                assert(rest[k] == u[at + 3 + k]);
            }
            without_a_separator(rest, "/"@);
        }
    }
}

proof fn no_first_sep(s: Seq<char>, seps: Seq<char>, k: int)
    requires
        first_sep(s, seps) >= s.len(),
        0 <= k < s.len(),
    ensures
        !seps.contains(s[k]),
    decreases s.len(),
{
    if k > 0 {
        first_sep_is(s.drop_first(), seps);
        no_first_sep(s.drop_first(), seps, k - 1);
    }
}

/// Whether a text has a path is settled in front of its last separator.
proof fn path_lies_in_front(front: Seq<char>, rest: Seq<char>)
    requires
        has_path(front),
        free_of(rest, "/:"@),
    ensures
        has_path(front + rest),
{
    reveal_strlit("://");
    let m = "://"@;
    let u = front + rest;
    if forall|i: int| !#[trigger] stands_at(front, m, i) {
        assert forall|i: int| !#[trigger] stands_at(u, m, i) by {
            if stands_at(u, m, i) {
                assert(u.subrange(i, i + 3)[2] == u[i + 2]);
                if i + 2 >= front.len() {
                    assert(u[i + 2] == rest[i + 2 - front.len()]);
                    sep_sets(u[i + 2]);
                } else {
                    assert(front.subrange(i, i + 3) =~= u.subrange(i, i + 3));
                    assert(stands_at(front, m, i));
                }
            }
        }
    } else {
        let (i, j) = choose|i: int, j: int|
            #[trigger] stands_at(front, m, i) && i + 3 <= j < front.len() && #[trigger] front[j]
                == '/';
        assert(u.subrange(i, i + 3) =~= front.subrange(i, i + 3));
        assert(stands_at(u, m, i) && u[j] == '/');
    }
}

/// What is left of a name when `.git` is taken off.
proof fn git_goes(name: Seq<char>)
    ensures
        without_git(name + ".git"@) == name,
        !".git"@.is_suffix_of(name) ==> without_git(name) == name,
{
    stripping_takes_one_end(name, ".git"@, name);
}

/// The slug that a client takes from a URL is what follows its last `/` or `:`, to
/// the letter, but for one `.git` at the very end and for white space round the
/// URL. Where nothing is left, there is no slug.
pub proof fn a_client_takes_the_last_name(
    lead: Seq<char>,
    front: Seq<char>,
    name: Seq<char>,
    trail: Seq<char>,
)
    requires
        blank(lead),
        blank(trail),
        front.len() > 0 ==> "/:"@.contains(front[front.len() - 1]) && !white_space(front[0]),
        front.len() == 0 && name.len() > 0 ==> !white_space(name[0]),
        free_of(name, "/:"@),
        has_path(front),
    ensures
        origin_slug(lead + (front + name + ".git"@) + trail) == (if name.len() > 0 {
            Some(name)
        } else {
            None
        }),
        !".git"@.is_suffix_of(name) && (name.len() > 0 ==> !white_space(name[name.len() - 1]))
            ==> origin_slug(lead + (front + name) + trail) == (if name.len() > 0 {
            Some(name)
        } else {
            None
        }),
{
    reveal_strlit(".git");
    let seps = "/:"@;
    let long = name + ".git"@;
    assert(front + name + ".git"@ =~= front + long);
    assert forall|i: int| 0 <= i < long.len() implies !seps.contains(#[trigger] long[i]) by {
        sep_sets(long[i]);
        if i < name.len() {
            assert(long[i] == name[i]);
        } else {
            assert(long[i] == ".git"@[i - name.len()]);
        }
    }
    if front.len() > 0 {
        sep_sets(front[front.len() - 1]);
    }
    let u = front + long;
    assert(u[u.len() - 1] == 't');
    assert(front.len() > 0 ==> u[0] == front[0]);
    assert(front.len() == 0 && name.len() > 0 ==> u[0] == name[0]);
    assert(front.len() == 0 && name.len() == 0 ==> u[0] == '.');
    trimming_takes_the_ends(lead, u, trail);
    path_lies_in_front(front, long);
    which_urls_have_a_path(u);
    cutting_at_the_last(front, long, seps);
    git_goes(name);
    if !".git"@.is_suffix_of(name) && (name.len() > 0 ==> !white_space(name[name.len() - 1])) {
        let v = front + name;
        if name.len() > 0 {
            assert(v[v.len() - 1] == name[name.len() - 1]);
            assert(front.len() == 0 ==> v[0] == name[0]);
        } else {
            assert(v =~= front);
        }
        assert(front.len() > 0 ==> v[0] == front[0]);
        trimming_takes_the_ends(lead, v, trail);
        path_lies_in_front(front, name);
        which_urls_have_a_path(v);
        cutting_at_the_last(front, name, seps);
    }
}

/// What a server takes from a path whose last segment is `core` between white space.
proof fn last_segment(
    path: Seq<char>,
    dirs: Seq<char>,
    lead: Seq<char>,
    core: Seq<char>,
    trail: Seq<char>,
    slashes: Seq<char>,
    query: Seq<char>,
)
    requires
        path == dirs + (lead + core + trail) + slashes + query,
        dirs.len() > 0 ==> dirs[dirs.len() - 1] == '/' && (lead + core + trail).len() > 0,
        free_of(dirs, "?#"@),
        blank(lead),
        snug(core),
        blank(trail),
        free_of(core, "/?#"@),
        forall|i: int| 0 <= i < slashes.len() ==> #[trigger] slashes[i] == '/',
        query.len() > 0 ==> query[0] == '?' || query[0] == '#',
    ensures
        trimmed(after_last(trimmed_end_of(before_first(path, "?#"@), "/"@), "/"@)) == core,
{
    let segment = lead + core + trail;
    let clean = dirs + segment;
    let bare = clean + slashes;
    assert forall|i: int| 0 <= i < segment.len() implies ({
        &&& #[trigger] segment[i] != '/'
        &&& segment[i] != '?'
        &&& segment[i] != '#'
    }) by {
        three_seps(segment[i]);
        white_space_excludes(segment[i]);
        if i < lead.len() {
            assert(segment[i] == lead[i]);
        } else if i < lead.len() + core.len() {
            assert(segment[i] == core[i - lead.len()]);
        } else {
            assert(segment[i] == trail[i - lead.len() - core.len()]);
        }
    }
    assert forall|i: int| 0 <= i < bare.len() implies !"?#"@.contains(#[trigger] bare[i]) by {
        sep_sets(bare[i]);
        if i < dirs.len() {
            assert(bare[i] == dirs[i]);
        } else if i < clean.len() {
            assert(bare[i] == segment[i - dirs.len()]);
        } else {
            assert(bare[i] == slashes[i - clean.len()]);
        }
    }
    if query.len() > 0 {
        sep_sets(query[0]);
        assert(path =~= bare.push(query[0]) + query.drop_first());
        cutting_at_the_first(bare, query[0], query.drop_first(), "?#"@);
    } else {
        assert(path =~= bare);
        without_a_separator(bare, "?#"@);
    }
    assert forall|i: int| 0 <= i < slashes.len() implies "/"@.contains(#[trigger] slashes[i]) by {
        sep_sets(slashes[i]);
    }
    if segment.len() > 0 {
        assert(clean[clean.len() - 1] == segment[segment.len() - 1]);
        sep_sets(clean[clean.len() - 1]);
    } else {
        assert(clean =~= Seq::<char>::empty());
    }
    trimming_a_set(clean, slashes, "/"@);
    sep_sets('/');
    assert forall|i: int| 0 <= i < segment.len() implies !"/"@.contains(#[trigger] segment[i]) by {
        sep_sets(segment[i]);
    }
    cutting_at_the_last(dirs, segment, "/"@);
    trimming_takes_the_ends(lead, core, trail);
}

proof fn three_seps(c: char)
    ensures
        "/?#"@.contains(c) <==> (c == '/' || c == '?' || c == '#'),
{
    reveal_strlit("/?#");
    let s = "/?#"@;
    assert(s[0] == '/' && s[1] == '?' && s[2] == '#' && s.len() == 3);
}

proof fn white_space_excludes(c: char)
    ensures
        white_space(c) ==> c != '/' && c != '?' && c != '#' && c != ':' && c != '.',
{
}

/// The slug that a server takes from a URL is the last segment of its path, to the
/// letter, but for one `.git` at its end, for white space round it, for the slashes
/// that follow it, and for a query or fragment. Where nothing is left, there is no
/// slug, and a URL without a path has none.
pub proof fn a_server_takes_the_last_segment(
    url: Seq<char>,
    dirs: Seq<char>,
    lead: Seq<char>,
    name: Seq<char>,
    trail: Seq<char>,
    slashes: Seq<char>,
    query: Seq<char>,
)
    requires
        dirs.len() > 0 ==> dirs[dirs.len() - 1] == '/',
        free_of(dirs, "?#"@),
        blank(lead),
        name.len() > 0 ==> !white_space(name[0]),
        blank(trail),
        free_of(name, "/?#"@),
        forall|i: int| 0 <= i < slashes.len() ==> #[trigger] slashes[i] == '/',
        query.len() > 0 ==> query[0] == '?' || query[0] == '#',
    ensures
        url_path(trimmed(url)) is None ==> repo_slug(url) is None,
        url_path(trimmed(url)) == Some(
            dirs + (lead + (name + ".git"@) + trail) + slashes + query,
        ) ==> repo_slug(url) == (if name.len() > 0 {
            Some(name)
        } else {
            None
        }),
        url_path(trimmed(url)) == Some(dirs + (lead + name + trail) + slashes + query)
            && !".git"@.is_suffix_of(name) && snug(name) && (dirs.len() > 0 ==> (lead + name
            + trail).len() > 0) ==> repo_slug(url) == (if name.len() > 0 {
            Some(name)
        } else {
            None
        }),
{
    reveal_strlit(".git");
    git_goes(name);
    let long = name + ".git"@;
    assert forall|i: int| 0 <= i < long.len() implies !"/?#"@.contains(#[trigger] long[i]) by {
        three_seps(long[i]);
        if i < name.len() {
            assert(long[i] == name[i]);
        } else {
            assert(long[i] == ".git"@[i - name.len()]);
        }
    }
    assert(long[long.len() - 1] == 't');
    assert(name.len() > 0 ==> long[0] == name[0]);
    assert(name.len() == 0 ==> long[0] == '.');
    let path = dirs + (lead + long + trail) + slashes + query;
    if url_path(trimmed(url)) == Some(path) {
        last_segment(path, dirs, lead, long, trail, slashes, query);
    }
    let short = dirs + (lead + name + trail) + slashes + query;
    if url_path(trimmed(url)) == Some(short) && snug(name) && (dirs.len() > 0 ==> (lead + name
        + trail).len() > 0) {
        last_segment(short, dirs, lead, name, trail, slashes, query);
    }
}

/// A client and a server give a repository the name that its URL ends with, dots and
/// all, without `.git`. The name is what follows the last slash, or the colon of
/// `host:name`, or the whole of a URL without either.
pub proof fn a_repository_goes_by_its_name(
    lead: Seq<char>,
    front: Seq<char>,
    name: Seq<char>,
    trail: Seq<char>,
)
    requires
        blank(lead),
        blank(trail),
        front.len() > 0 ==> !white_space(front[0]),
        front.len() > 0 ==> front[front.len() - 1] == '/' || (front[front.len() - 1] == ':'
            && free_of(front.drop_last(), ":"@)),
        free_of(front, "?#"@),
        has_path(front),
        name.len() > 0,
        snug(name),
        free_of(name, "/:?#"@),
    ensures
        origin_slug(lead + (front + name + ".git"@) + trail) == Some(name),
        repo_slug(lead + (front + name + ".git"@) + trail) == Some(name),
        !".git"@.is_suffix_of(name) ==> origin_slug(lead + (front + name) + trail) == Some(name),
        !".git"@.is_suffix_of(name) ==> repo_slug(lead + (front + name) + trail) == Some(name),
{
    reveal_strlit(".git");
    assert forall|i: int| 0 <= i < name.len() implies ({
        &&& #[trigger] name[i] != '/'
        &&& name[i] != ':'
        &&& name[i] != '?'
        &&& name[i] != '#'
    }) by {
        four_seps(name[i]);
    }
    if front.len() > 0 {
        sep_sets(front[front.len() - 1]);
    }
    assert forall|i: int| 0 <= i < name.len() implies !"/:"@.contains(#[trigger] name[i]) by {
        sep_sets(name[i]);
    }
    a_client_takes_the_last_name(lead, front, name, trail);
    let long = name + ".git"@;
    assert(front + name + ".git"@ =~= front + long);
    assert(long[0] == name[0] && long[long.len() - 1] == 't');
    assert forall|i: int| 0 <= i < long.len() implies ({
        &&& #[trigger] long[i] != '/'
        &&& long[i] != ':'
        &&& long[i] != '?'
        &&& long[i] != '#'
    }) by {
        if i < name.len() {
            assert(long[i] == name[i]);
        } else {
            assert(long[i] == ".git"@[i - name.len()]);
        }
    }
    git_goes(name);
    named_segment(lead, front, long, trail);
    if !".git"@.is_suffix_of(name) {
        named_segment(lead, front, name, trail);
    }
}

proof fn four_seps(c: char)
    ensures
        "/:?#"@.contains(c) <==> (c == '/' || c == ':' || c == '?' || c == '#'),
{
    reveal_strlit("/:?#");
    let s = "/:?#"@;
    assert(s[0] == '/' && s[1] == ':' && s[2] == '?' && s[3] == '#' && s.len() == 4);
}

proof fn named_segment(lead: Seq<char>, front: Seq<char>, core: Seq<char>, trail: Seq<char>)
    requires
        blank(lead),
        blank(trail),
        front.len() > 0 ==> !white_space(front[0]),
        front.len() > 0 ==> front[front.len() - 1] == '/' || (front[front.len() - 1] == ':'
            && free_of(front.drop_last(), ":"@)),
        free_of(front, "?#"@),
        has_path(front),
        core.len() > 0,
        snug(core),
        forall|i: int|
            0 <= i < core.len() ==> #[trigger] core[i] != '/' && core[i] != ':' && core[i] != '?'
                && core[i] != '#',
    ensures
        repo_slug(lead + (front + core) + trail) == nonempty(without_git(core)),
{
    reveal_strlit("://");
    let u = front + core;
    assert(u[u.len() - 1] == core[core.len() - 1]);
    assert(front.len() > 0 ==> u[0] == front[0]);
    assert(front.len() == 0 ==> u[0] == core[0]);
    trimming_takes_the_ends(lead, u, trail);
    assert forall|i: int| 0 <= i < core.len() implies !"/:"@.contains(#[trigger] core[i]) by {
        sep_sets(core[i]);
    }
    assert forall|i: int| 0 <= i < core.len() implies !"/?#"@.contains(#[trigger] core[i]) by {
        three_seps(core[i]);
    }
    path_lies_in_front(front, core);
    which_urls_have_a_path(u);
    let none = Seq::<char>::empty();
    if front.len() > 0 && front[front.len() - 1] == ':' {
        let host = front.drop_last();
        assert forall|i: int| !#[trigger] stands_at(u, "://"@, i) by {
            if stands_at(u, "://"@, i) {
                let w = u.subrange(i, i + 3);
                assert(w[0] == u[i] && w[1] == u[i + 1]);
                if i < host.len() {
                    assert(u[i] == host[i]);
                    sep_sets(host[i]);
                } else if i == host.len() {
                    assert(u[i + 1] == core[0]);
                } else {
                    assert(u[i] == core[i - front.len()]);
                }
            }
        }
        without_a_marker(u, "://"@);
        sep_sets(':');
        assert(u =~= host.push(':') + core);
        cutting_at_the_first(host, ':', core, ":"@);
        assert(core =~= none + (none + core + none) + none + none);
        last_segment(core, none, none, core, none, none, none);
    } else {
        let k = url_path_is_a_tail(u);
        assert(k <= front.len()) by {
            if k > front.len() {
                assert(u[k - 1] == core[k - 1 - front.len()]);
            }
        }
        let dirs = front.skip(k);
        assert(u.skip(k) =~= dirs + (none + core + none) + none + none);
        assert forall|i: int| 0 <= i < dirs.len() implies !"?#"@.contains(#[trigger] dirs[i]) by {
            assert(dirs[i] == front[k + i]);
        }
        last_segment(u.skip(k), dirs, none, core, none, none, none);
    }
}

// --- the steps -----------------------------------------------------------------

/// A client's search ends in a failure only when all three steps give no slug: a flag
/// that says something settles it, then a variable that does, and the repository is
/// asked in every other case.
pub proof fn a_client_fails_only_after_all_steps(
    flag: Option<Seq<char>>,
    raw: Option<Seq<u8>>,
)
    ensures
        client_start(flag, raw) == (match flag_slug(flag) {
            Some(s) => SlugPhaseView::Finished(Ok(s)),
            None => match own_slug_of(raw) {
                Some(s) => SlugPhaseView::Finished(Ok(s)),
                None => SlugPhaseView::ProbeJj,
            },
        }),
        !(client_start(flag, raw) matches SlugPhaseView::Finished(r) && r is Err),
{
}

// --- lists of remotes ----------------------------------------------------------

/// True when `s` is one word: not empty and free of white space.
pub open spec fn is_word(s: Seq<char>) -> bool {
    s.len() > 0 && forall|i: int| 0 <= i < s.len() ==> !white_space(#[trigger] s[i])
}

/// A client takes the second word of a line whose first word is `origin`, wherever
/// the line starts and whatever follows; a line with another name gives nothing,
/// nor does one that has no second word.
pub proof fn a_client_reads_the_second_word(
    lead: Seq<char>,
    name: Seq<char>,
    gap: Seq<char>,
    url: Seq<char>,
    rest: Seq<char>,
    trail: Seq<char>,
)
    requires
        blank(lead),
        is_word(name),
        blank(gap),
        gap.len() > 0,
        is_word(url),
        rest.len() > 0 ==> white_space(rest[0]) && !white_space(rest[rest.len() - 1]),
        blank(trail),
    ensures
        client_line(lead + (name + (gap + (url + rest))) + trail) == (if name == "origin"@ {
            Some(url)
        } else {
            None
        }),
        client_line(lead + name + trail) is None,
        client_line(lead) is None,
{
    let words = name + (gap + (url + rest));
    assert(words[0] == name[0]);
    assert(words[words.len() - 1] == (if rest.len() > 0 {
        rest[rest.len() - 1]
    } else {
        url[url.len() - 1]
    }));
    trimming_takes_the_ends(lead, words, trail);
    assert((gap + (url + rest))[0] == gap[0]);
    splitting_at_white_space(name, gap + (url + rest));
    let tail = url + rest;
    assert(tail[0] == url[0]);
    assert(tail[tail.len() - 1] == words[words.len() - 1]);
    let after = (gap + tail).drop_first();
    let none = Seq::<char>::empty();
    let less = gap.drop_first();
    assert(after =~= less + tail + none);
    assert forall|i: int| 0 <= i < less.len() implies white_space(#[trigger] less[i]) by {
        assert(less[i] == gap[i + 1]);
    }
    trimming_takes_the_ends(less, tail, none);
    splitting_at_white_space(url, rest);
    trimming_takes_the_ends(lead, name, trail);
    assert(name + none =~= name);
    splitting_at_white_space(name, none);
    trimming_takes_the_ends(none, none, none);
    assert(none + none + none =~= none);
    assert(lead + none + none =~= lead);
    trimming_takes_the_ends(lead, none, none);
    assert(none + none =~= none);
    splitting_at_white_space(none, none);
}

/// A server takes all that follows the name `origin` at the front of a line, without
/// the white space round it.
pub proof fn a_server_reads_the_rest_of_the_line(
    name: Seq<char>,
    gap: Seq<char>,
    url: Seq<char>,
    trail: Seq<char>,
)
    requires
        forall|i: int| 0 <= i < name.len() ==> !white_space(#[trigger] name[i]),
        blank(gap),
        gap.len() > 0,
        snug(url),
        blank(trail),
    ensures
        server_line(name + (gap + url + trail)) == (if name == "origin"@ && url.len() > 0 {
            Some(url)
        } else {
            None
        }),
        server_line(name) is None,
{
    let back = gap + url + trail;
    assert(back[0] == gap[0]);
    splitting_at_white_space(name, back);
    let less = gap.drop_first();
    assert(back.drop_first() =~= less + url + trail);
    assert forall|i: int| 0 <= i < less.len() implies white_space(#[trigger] less[i]) by {
        assert(less[i] == gap[i + 1]);
    }
    trimming_takes_the_ends(less, url, trail);
    trimmed_without_white(name);
    let none = Seq::<char>::empty();
    assert(name + none =~= name);
    splitting_at_white_space(name, none);
    trimming_takes_the_ends(none, none, none);
    assert(none + none + none =~= none);
}

/// What a line says of the remote `origin`, to a client or to a server.
pub open spec fn line_says(role: Role, line: Seq<char>) -> Option<Seq<char>> {
    match role {
        Role::Client => client_line(line),
        Role::Server => server_line(line),
    }
}

/// Of a list of remotes the first line that names `origin` counts.
pub proof fn the_first_origin_counts(role: Role, line: Seq<char>, rest: Seq<char>)
    requires
        free_of(line, "\n"@),
    ensures
        listed_origin(role, line) == line_says(role, line),
        listed_origin(role, line + "\n"@ + rest) == (match line_says(role, line) {
            Some(url) => Some(url),
            None => listed_origin(role, rest),
        }),
{
    reveal_strlit("\n");
    without_a_separator(line, "\n"@);
    let list = line.push('\n') + rest;
    assert(line + "\n"@ + rest =~= list);
    assert("\n"@[0] == '\n');
    cutting_at_the_first(line, '\n', rest, "\n"@);
}

// --- the search ----------------------------------------------------------------

/// A search asks first whether there is a `.jj` directory in the repository; then
/// `jj` for the list of remotes, or `git` for the one named `origin`.
pub proof fn what_is_asked(t: SlugTaskView, yes: bool)
    requires
        t.phase is ProbeJj,
    ensures
        slug_action(t) == SlugActionView::IsDir(below(t.repo, encode_utf8(".jj"@))),
        slug_action(SlugTaskView { phase: slug_next(t, SlugReplyView::Answer(yes)), ..t }) == (
        if yes {
            SlugActionView::Run {
                program: "jj"@,
                args: seq![
                    encode_utf8(
                        if t.role is Client {
                            "--repository"@
                        } else {
                            "-R"@
                        },
                    ),
                    t.repo,
                    encode_utf8("git"@),
                    encode_utf8("remote"@),
                    encode_utf8("list"@),
                ],
            }
        } else {
            SlugActionView::Run {
                program: "git"@,
                args: seq![
                    encode_utf8("-C"@),
                    t.repo,
                    encode_utf8("remote"@),
                    encode_utf8("get-url"@),
                    encode_utf8("origin"@),
                ],
            }
        }),
{
}

/// What `git` says settles the search: the slug is that of the URL that it printed,
/// by the rule of who looks for it. What `jj` says settles it too when it lists an
/// `origin`.
pub proof fn a_url_settles_the_search(
    t: SlugTaskView,
    stdout: Seq<u8>,
    lead: Seq<char>,
    url: Seq<char>,
    trail: Seq<char>,
    slug: Seq<char>,
)
    requires
        blank(lead),
        snug(url),
        url.len() > 0,
        blank(trail),
        match t.role {
            Role::Client => origin_slug(url) == Some(slug),
            Role::Server => repo_slug(url) == Some(slug),
        },
    ensures
        t.phase is AskGit && lossy(stdout) == lead + url + trail ==> slug_next(
            t,
            SlugReplyView::Ran { success: true, stdout },
        ) == SlugPhaseView::Finished(Ok(slug)),
        t.phase is AskJj && listed_origin(t.role, lossy(stdout)) == Some(url) ==> slug_next(
            t,
            SlugReplyView::Ran { success: true, stdout },
        ) == SlugPhaseView::Finished(Ok(slug)),
{
    trimming_takes_the_ends(lead, url, trail);
}

/// Without a URL there is no slug. A client that `jj` does not help asks `git`; every
/// other search ends in a failure: when the program failed, when it said nothing, and
/// when there is no slug in what it said.
pub proof fn no_url_no_slug(t: SlugTaskView, reply: SlugReplyView)
    requires
        t.phase is AskJj || t.phase is AskGit,
        match reply {
            SlugReplyView::Answer(_) => false,
            SlugReplyView::Failed(_) => true,
            SlugReplyView::Ran { success, stdout } => {
                let said = if t.phase is AskJj {
                    listed_origin(t.role, lossy(stdout))
                } else {
                    Some(trimmed(lossy(stdout)))
                };
                !success || (match said {
                    None => true,
                    Some(url) => url.len() == 0 || ((t.phase is AskGit || t.role is Server) && (
                    match t.role {
                        Role::Client => origin_slug(url) is None,
                        Role::Server => repo_slug(url) is None,
                    })),
                })
            },
        },
    ensures
        t.phase is AskJj && t.role is Client ==> slug_next(t, reply) is AskGit || (reply matches
            SlugReplyView::Ran { stdout, .. } && listed_origin(t.role, lossy(stdout)) is Some),
        !(t.phase is AskJj && t.role is Client) ==> (slug_next(t, reply) matches
            SlugPhaseView::Finished(Err(e)) && (t.blank ==> BLANK_FLAG@.is_prefix_of(e))),
{
    if let SlugPhaseView::Finished(Err(e)) = slug_next(t, reply) {
        if t.blank {
            let n = BLANK_FLAG@.len() as int;
            assert(e.subrange(0, n) =~= BLANK_FLAG@);
        }
    }
}

/// The order in which flag, variable and repository count. A flag that says something
/// is the slug, without the white space round it, whatever else there is; then a
/// variable that does; then the repository. A blank flag is passed over by a client,
/// and is a server's failure.
pub proof fn flag_then_variable_then_repository(
    lead: Seq<char>,
    slug: Seq<char>,
    trail: Seq<char>,
    raw: Option<Seq<u8>>,
)
    requires
        blank(lead),
        snug(slug),
        blank(trail),
    ensures
        ({
            let flag = Some(lead + slug + trail);
            let next = match own_slug_of(raw) {
                Some(s) => SlugPhaseView::Finished(Ok(s)),
                None => SlugPhaseView::ProbeJj,
            };
            &&& slug.len() > 0 ==> client_start(flag, raw) == SlugPhaseView::Finished(Ok(slug))
                && server_start(flag, raw) == SlugPhaseView::Finished(Ok(slug))
            &&& slug.len() == 0 ==> client_start(flag, raw) == next && server_start(flag, raw)
                == SlugPhaseView::Finished(Err("--slug must be a non-empty string"@))
            &&& client_start(None, raw) == next
            &&& server_start(None, raw) == next
        }),
{
    trimming_takes_the_ends(lead, slug, trail);
}

/// How a search fails. A client is told that there is no slug in the remote, and what
/// hindered `git`; a server is told how to help itself when there is no remote, which URL
/// could not be understood, or which program could not be run.
pub proof fn how_a_search_fails(t: SlugTaskView, stdout: Seq<u8>, e: Seq<char>)
    requires
        !t.blank,
        t.phase is AskGit,
    ensures
        t.role is Client ==> {
            &&& slug_next(t, SlugReplyView::Ran { success: false, stdout })
                == SlugPhaseView::Finished(Err("cannot determine repo slug from git remote"@))
            &&& slug_next(t, SlugReplyView::Failed(e)) == SlugPhaseView::Finished(
                Err("cannot determine repo slug from git remote"@ + ": "@ + e),
            )
        },
        t.role is Server ==> {
            &&& slug_next(t, SlugReplyView::Ran { success: false, stdout })
                == SlugPhaseView::Finished(
                Err(
                    "pass `--slug <NAME>` explicitly: cannot auto-derive repo slug for "@ + lossy(
                        t.repo,
                    )
                        + " (no `origin` remote configured)\n\nExample:\n    crossbridge-server --group <GROUP> --slug <NAME>"@,
                ),
            )
            &&& slug_next(t, SlugReplyView::Failed(e)) == SlugPhaseView::Finished(
                Err("running git in "@ + lossy(t.repo) + ": "@ + e),
            )
            &&& ({
                let url = trimmed(lossy(stdout));
                url.len() > 0 && repo_slug(url) is None ==> slug_next(
                    t,
                    SlugReplyView::Ran { success: true, stdout },
                ) == SlugPhaseView::Finished(
                    Err(
                        "could not parse repo slug from origin remote URL `"@ + url + "` for "@
                            + lossy(t.repo),
                    ),
                )
            })
        },
{
}

} // verus!
