//! Finding peers by the sockets in a repository's socket directory.

use vstd::prelude::*;
use vstd::utf8::*;

use crate::compose::{cat4, views, views_push};
use crate::encoding::{lossy, utf8_text};
use crate::order::{sort_names, sorted};
use crate::pathname::PathName;
use crate::paths::SOCKET_SUFFIX;
use crate::text::{strip_suffix, stripped_suffix};

verus! {

broadcast use vstd::seq_lib::group_seq_properties;

/// One entry of a directory.
#[derive(Debug, PartialEq, Eq)]
pub enum Entry {
    /// Its name.
    Name(Vec<u8>),
    /// It could not be read; the failure in words.
    Failed(String),
}

/// The contents of [`Entry`].
#[verifier::ext_equal]
pub enum EntryView {
    Name(Seq<u8>),
    Failed(Seq<char>),
}

impl View for Entry {
    type V = EntryView;

    open spec fn view(&self) -> EntryView {
        match self {
            Entry::Name(b) => EntryView::Name(b@),
            Entry::Failed(e) => EntryView::Failed(e@),
        }
    }
}

/// What came of reading a directory.
#[derive(Debug, PartialEq, Eq)]
pub enum Listing {
    /// The directory does not exist.
    NotFound,
    /// It could not be read; the failure in words.
    Failed(String),
    /// Its entries.
    Entries(Vec<Entry>),
}

/// The failure when there is no socket directory.
pub const NOT_REGISTERED: &'static str = "not registered with crossbridge (no socket dir)";

/// The peer that a file in the socket directory stands for: its name is UTF-8 and
/// is the slug, which is not empty, and `.socket`.
pub open spec fn peer_of(name: Seq<u8>) -> Option<Seq<char>> {
    if valid_utf8(name) {
        match stripped_suffix(decode_utf8(name), SOCKET_SUFFIX@) {
            Some(slug) => if slug.len() > 0 {
                Some(slug)
            } else {
                None
            },
            None => None,
        }
    } else {
        None
    }
}

/// The first failure among directory entries.
pub open spec fn first_failure(entries: Seq<EntryView>) -> Option<Seq<char>>
    decreases entries.len(),
{
    if entries.len() == 0 {
        None
    } else {
        match entries[0] {
            EntryView::Failed(e) => Some(e),
            EntryView::Name(_) => first_failure(entries.drop_first()),
        }
    }
}

/// The peers among directory entries, in the order of the entries.
pub open spec fn peers_among(entries: Seq<EntryView>) -> Seq<Seq<char>>
    decreases entries.len(),
{
    if entries.len() == 0 {
        Seq::empty()
    } else {
        let front = peers_among(entries.drop_last());
        match entries.last() {
            EntryView::Name(b) => match peer_of(b) {
                Some(slug) => front.push(slug),
                None => front,
            },
            EntryView::Failed(_) => front,
        }
    }
}

/// The peer that a file in the socket directory stands for.
fn peer_named(name: &Vec<u8>) -> (r: Option<String>)
    ensures
        match r {
            Some(s) => peer_of(name@) == Some(s@),
            None => peer_of(name@) is None,
        },
{
    match utf8_text(name) {
        Some(text) => match strip_suffix(text.as_str(), SOCKET_SUFFIX) {
            Some(slug) => if slug.is_empty() {
                None
            } else {
                Some(slug.to_owned())
            },
            None => None,
        },
        None => None,
    }
}

/// The slugs of the peers among directory entries, in alphabetical order.
fn collect_peers(entries: &Vec<Entry>) -> (r: Result<Vec<String>, String>)
    ensures
        match first_failure(views(entries@)) {
            Some(cause) => r matches Err(e) && e@ == cause,
            None => r matches Ok(peers) && sorted(views(peers@)) && views(peers@).to_multiset()
                == peers_among(views(entries@)).to_multiset(),
        },
{
    let ghost all = views(entries@);
    let mut peers: Vec<String> = Vec::new();
    let mut i: usize = 0;
    assert(all.skip(0) == all);
    assert(views(peers@) =~= peers_among(all.take(0)));
    while i < entries.len()
        invariant
            i <= entries.len(),
            all == views(entries@),
            first_failure(all) == first_failure(all.skip(i as int)),
            views(peers@) == peers_among(all.take(i as int)),
        decreases entries.len() - i,
    {
        assert(all.skip(i as int).drop_first() == all.skip(i + 1));
        assert(all.skip(i as int)[0] == entries@[i as int]@);
        assert(all.take(i + 1).drop_last() == all.take(i as int));
        assert(all.take(i + 1).last() == entries@[i as int]@);
        match &entries[i] {
            Entry::Failed(e) => {
                return Err(e.clone());
            },
            Entry::Name(b) => {
                if let Some(slug) = peer_named(b) {
                    proof {
                        views_push(peers@, slug);
                    }
                    peers.push(slug);
                }
            },
        }
        i = i + 1;
    }
    assert(all.skip(i as int).len() == 0);
    assert(all.take(i as int) == all);
    Ok(sort_names(peers))
}

/// The slugs of the registered peers, in alphabetical order, given what came of
/// reading the socket directory.
pub fn list_peers(socket_dir: &PathName, listing: Listing) -> (r: Result<Vec<String>, String>)
    ensures
        match listing {
            Listing::NotFound => r matches Err(e) && e@ == NOT_REGISTERED@,
            Listing::Failed(cause) => r matches Err(e) && e@ == "failed to read socket directory "@
                + lossy(socket_dir@) + ": "@ + cause@,
            Listing::Entries(entries) => match first_failure(views(entries@)) {
                Some(cause) => r matches Err(e) && e@ == cause,
                None => r matches Ok(peers) && sorted(views(peers@)) && views(
                    peers@,
                ).to_multiset() == peers_among(views(entries@)).to_multiset(),
            },
        },
{
    match listing {
        Listing::NotFound => Err(NOT_REGISTERED.to_owned()),
        Listing::Failed(cause) => {
            let place: String = socket_dir.display();
            Err(cat4("failed to read socket directory ", place.as_str(), ": ", cause.as_str()))
        },
        Listing::Entries(entries) => collect_peers(&entries),
    }
}

// --- laws ----------------------------------------------------------------------

/// The name of a socket stands for the server that listens there, and no other name
/// stands for it.
pub proof fn a_socket_stands_for_its_server(name: Seq<u8>, slug: Seq<char>)
    ensures
        peer_of(name) == Some(slug) <==> slug.len() > 0 && name == encode_utf8(
            slug + SOCKET_SUFFIX@,
        ),
{
    let full = slug + SOCKET_SUFFIX@;
    encode_utf8_valid_utf8(full);
    encode_utf8_decode_utf8(full);
    assert(full.subrange(full.len() - SOCKET_SUFFIX@.len(), full.len() as int) == SOCKET_SUFFIX@);
    assert(full.take(full.len() - SOCKET_SUFFIX@.len()) == slug);
    if peer_of(name) == Some(slug) {
        decode_utf8_encode_utf8(name);
        let text = decode_utf8(name);
        let n = text.len() - SOCKET_SUFFIX@.len();
        assert(text =~= text.take(n) + text.subrange(n, text.len() as int));
    }
}

/// A client's list of peers holds exactly the servers that listen in its directory.
pub proof fn exactly_the_listening_servers_are_listed(entries: Seq<EntryView>, slug: Seq<char>)
    ensures
        peers_among(entries).contains(slug) <==> slug.len() > 0 && entries.contains(
            EntryView::Name(encode_utf8(slug + SOCKET_SUFFIX@)),
        ),
    decreases entries.len(),
{
    let socket = EntryView::Name(encode_utf8(slug + SOCKET_SUFFIX@));
    if entries.len() > 0 {
        let front = entries.drop_last();
        let last = entries.last();
        exactly_the_listening_servers_are_listed(front, slug);
        if let EntryView::Name(b) = last {
            a_socket_stands_for_its_server(b, slug);
        }
        assert(entries =~= front.push(last));
        pushed_contains(front, last, socket);
        match last {
            EntryView::Name(b) => {
                if let Some(p) = peer_of(b) {
                    pushed_contains(peers_among(front), p, slug);
                }
            },
            EntryView::Failed(_) => {},
        }
    }
}

proof fn pushed_contains<T>(s: Seq<T>, x: T, y: T)
    ensures
        s.push(x).contains(y) <==> s.contains(y) || y == x,
{
    assert(s.push(x)[s.len() as int] == x);
    if s.contains(y) {
        assert(s.push(x)[s.index_of(y)] == y);
    }
}

} // verus!
