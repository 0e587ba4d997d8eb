//! Where the sockets are: the runtime root, the register socket and the sockets
//! between peers.
//!
//! The environment is read through a function that the caller supplies, by which
//! a variable has a value of bytes or none.

use vstd::prelude::*;
use vstd::utf8::*;

use crate::compose::cat2;
use crate::encoding::utf8_text;
use crate::pathname::{
    anchor, below, below_text, is_component, names_stand_behind_a_slash, parent_of,
    parent_of_below, tidy_end, PathName, SLASH,
};
use crate::text::{trim, trimmed};
use crate::text_laws::{blank, snug, trimming_takes_the_ends};

verus! {

/// The runtime root when the environment names none.
pub const DEFAULT_SOCKET_ROOT: &'static str = "/run/crossbridge";

/// The variable that names the runtime root.
pub const SOCKET_ROOT_ENV: &'static str = "CROSSBRIDGE_SOCKET_ROOT";

/// The variable that names the user's runtime directory.
pub const XDG_RUNTIME_DIR_ENV: &'static str = "XDG_RUNTIME_DIR";

/// The variable that names the repository's own slug.
pub const OWN_SLUG_ENV: &'static str = "CROSSBRIDGE_OWN_SLUG";

/// The name of the supervisor's register socket.
pub const REGISTER_SOCKET_NAME: &'static str = "register.socket";

/// The directory below the user's runtime directory.
pub const RUNTIME_DIR_NAME: &'static str = "crossbridge";

/// What the names of the sockets between peers end with.
pub const SOCKET_SUFFIX: &'static str = ".socket";

/// The value of an optional list of bytes.
pub open spec fn opt_bytes(o: Option<Vec<u8>>) -> Option<Seq<u8>> {
    match o {
        Some(b) => Some(b@),
        None => None,
    }
}

/// The runtime root, given the values of the two variables.
pub open spec fn root_from(socket_root: Option<Seq<u8>>, xdg: Option<Seq<u8>>) -> Seq<u8> {
    match (socket_root, xdg) {
        (Some(root), _) => root,
        (None, Some(dir)) => below_text(dir, RUNTIME_DIR_NAME@),
        (None, None) => encode_utf8(DEFAULT_SOCKET_ROOT@),
    }
}

/// True when `root` is the runtime root in an environment that `lookup` reads.
pub open spec fn is_default_root<F: Fn(&str) -> Option<Vec<u8>>>(lookup: F, root: Seq<u8>) -> bool {
    exists|a: Option<Vec<u8>>, b: Option<Vec<u8>>|
        #![trigger opt_bytes(a), opt_bytes(b)]
        lookup.ensures((SOCKET_ROOT_ENV,), a) && (a is None ==> lookup.ensures(
            (XDG_RUNTIME_DIR_ENV,),
            b,
        )) && root == root_from(opt_bytes(a), opt_bytes(b))
}

/// The runtime root: `$CROSSBRIDGE_SOCKET_ROOT`, else `crossbridge` below
/// `$XDG_RUNTIME_DIR`, else [`DEFAULT_SOCKET_ROOT`].
pub fn default_socket_root<F: Fn(&str) -> Option<Vec<u8>>>(env_lookup: F) -> (r: PathName)
    requires
        env_lookup.requires((SOCKET_ROOT_ENV,)),
        env_lookup.requires((XDG_RUNTIME_DIR_ENV,)),
    ensures
        is_default_root(env_lookup, r@),
{
    let ghost mut dir: Option<Vec<u8>> = None;
    let a: Option<Vec<u8>> = env_lookup(SOCKET_ROOT_ENV);
    let ghost av = a;
    let r: PathName = match a {
        Some(root) => PathName::from_bytes(root),
        None => {
            let b: Option<Vec<u8>> = env_lookup(XDG_RUNTIME_DIR_ENV);
            proof {
                dir = b;
            }
            match b {
                Some(xdg) => PathName::from_bytes(xdg).join(RUNTIME_DIR_NAME),
                None => PathName::from_text(DEFAULT_SOCKET_ROOT),
            }
        },
    };
    assert(r@ == root_from(opt_bytes(av), opt_bytes(dir)));
    r
}

/// The server's runtime root: what the flag says, else the default one.
pub fn resolve_runtime_root<F: Fn(&str) -> Option<Vec<u8>>>(
    flag: Option<&PathName>,
    env_lookup: F,
) -> (r: PathName)
    requires
        flag is None ==> env_lookup.requires((SOCKET_ROOT_ENV,)) && env_lookup.requires(
            (XDG_RUNTIME_DIR_ENV,),
        ),
    ensures
        match flag {
            Some(p) => r@ == p@,
            None => is_default_root(env_lookup, r@),
        },
{
    match flag {
        Some(p) => p.copy(),
        None => default_socket_root(env_lookup),
    }
}

/// The supervisor's register socket: what the flag says, else `register.socket`
/// below the default runtime root.
pub fn resolve_register_socket<F: Fn(&str) -> Option<Vec<u8>>>(
    flag: Option<&PathName>,
    env_lookup: F,
) -> (r: PathName)
    requires
        flag is None ==> env_lookup.requires((SOCKET_ROOT_ENV,)) && env_lookup.requires(
            (XDG_RUNTIME_DIR_ENV,),
        ),
    ensures
        match flag {
            Some(p) => r@ == p@,
            None => exists|root: Seq<u8>| #[trigger]
                is_default_root(env_lookup, root) && r@ == below_text(root, REGISTER_SOCKET_NAME@),
        },
{
    match flag {
        Some(p) => p.copy(),
        None => {
            let root: PathName = default_socket_root(env_lookup);
            assert(is_default_root(env_lookup, root@));
            root.join(REGISTER_SOCKET_NAME)
        },
    }
}

/// The client's socket root: the default runtime root.
pub fn socket_root<F: Fn(&str) -> Option<Vec<u8>>>(env_lookup: F) -> (r: PathName)
    requires
        env_lookup.requires((SOCKET_ROOT_ENV,)),
        env_lookup.requires((XDG_RUNTIME_DIR_ENV,)),
    ensures
        is_default_root(env_lookup, r@),
{
    default_socket_root(env_lookup)
}

/// The slug that the variable's value gives: its text without white space around
/// it, when it is UTF-8 and there is any.
pub open spec fn own_slug_of(raw: Option<Seq<u8>>) -> Option<Seq<char>> {
    match raw {
        Some(b) => if valid_utf8(b) && trimmed(decode_utf8(b)).len() > 0 {
            Some(trimmed(decode_utf8(b)))
        } else {
            None
        },
        None => None,
    }
}

/// The slug that the variable's value gives.
pub fn own_slug_value(raw: Option<Vec<u8>>) -> (r: Option<String>)
    ensures
        match r {
            Some(s) => own_slug_of(opt_bytes(raw)) == Some(s@),
            None => own_slug_of(opt_bytes(raw)) is None,
        },
{
    match raw {
        Some(b) => match utf8_text(&b) {
            Some(s) => {
                let t: &str = trim(s.as_str());
                if t.is_empty() {
                    None
                } else {
                    Some(t.to_owned())
                }
            },
            None => None,
        },
        None => None,
    }
}

/// The slug that `$CROSSBRIDGE_OWN_SLUG` gives. A variable that is unset, blank or
/// not UTF-8 gives none.
pub fn own_slug_from_env<F: Fn(&str) -> Option<Vec<u8>>>(env_lookup: F) -> (r: Option<String>)
    requires
        env_lookup.requires((OWN_SLUG_ENV,)),
    ensures
        exists|raw: Option<Vec<u8>>|
            #![trigger opt_bytes(raw)]
            env_lookup.ensures((OWN_SLUG_ENV,), raw) && (match r {
                Some(s) => own_slug_of(opt_bytes(raw)) == Some(s@),
                None => own_slug_of(opt_bytes(raw)) is None,
            }),
{
    let raw: Option<Vec<u8>> = env_lookup(OWN_SLUG_ENV);
    let ghost seen = opt_bytes(raw);
    own_slug_value(raw)
}

// --- the layout of the sockets -------------------------------------------------

/// The register socket below a root.
pub open spec fn register_below(root: Seq<u8>) -> Seq<u8> {
    below_text(root, REGISTER_SOCKET_NAME@)
}

/// The socket at which the server `own` listens for clients of the repository
/// `peer`: `<root>/<peer>/<own>.socket`.
pub open spec fn listener_below(root: Seq<u8>, peer: Seq<char>, own: Seq<char>) -> Seq<u8> {
    below_text(below_text(root, peer), own + SOCKET_SUFFIX@)
}

/// The sockets below a root.
#[derive(Debug, PartialEq, Eq)]
pub struct SocketLayout {
    root: PathName,
}

impl View for SocketLayout {
    type V = Seq<u8>;

    /// The root.
    closed spec fn view(&self) -> Seq<u8> {
        self.root@
    }
}

impl SocketLayout {
    /// The sockets below `root`.
    pub fn new(root: PathName) -> (r: SocketLayout)
        ensures
            r@ == root@,
    {
        SocketLayout { root }
    }

    /// The root.
    pub fn root(&self) -> (r: &PathName)
        ensures
            r@ == self@,
    {
        &self.root
    }

    /// The supervisor's register socket.
    pub fn register_socket(&self) -> (r: PathName)
        ensures
            r@ == register_below(self@),
    {
        self.root.join(REGISTER_SOCKET_NAME)
    }

    /// The directory of the sockets for clients of `peer_slug`: each server of its
    /// group has one there.
    pub fn peer_dir(&self, peer_slug: &str) -> (r: PathName)
        ensures
            r@ == below_text(self@, peer_slug@),
    {
        self.root.join(peer_slug)
    }

    /// The socket at which `own_slug` listens for clients of `peer_slug`.
    pub fn listener_socket(&self, peer_slug: &str, own_slug: &str) -> (r: PathName)
        ensures
            r@ == listener_below(self@, peer_slug@, own_slug@),
    {
        let name: String = cat2(own_slug, SOCKET_SUFFIX);
        self.peer_dir(peer_slug).join(name.as_str())
    }
}

/// The directory that holds a client's sockets: `<root>/<own>`.
pub fn socket_dir(root: &PathName, own_slug: &str) -> (r: PathName)
    ensures
        r@ == below_text(root@, own_slug@),
{
    root.join(own_slug)
}

/// The socket by which a client of `own_slug` reaches the server `target`:
/// `<root>/<own>/<target>.socket`.
pub fn target_socket(root: &PathName, own_slug: &str, target: &str) -> (r: PathName)
    ensures
        r@ == listener_below(root@, own_slug@, target@),
{
    let name: String = cat2(target, SOCKET_SUFFIX);
    socket_dir(root, own_slug).join(name.as_str())
}

/// The runtime root that a register socket belongs to: the directory that holds it,
/// or the default where there is none.
pub open spec fn root_of_socket(register_socket: Seq<u8>) -> Seq<u8> {
    match parent_of(register_socket) {
        Some(p) => p,
        None => encode_utf8(DEFAULT_SOCKET_ROOT@),
    }
}

/// The runtime root that a register socket belongs to.
pub fn runtime_root_from_socket(register_socket: &PathName) -> (r: PathName)
    ensures
        r@ == root_of_socket(register_socket@),
{
    match register_socket.parent() {
        Some(p) => p,
        None => PathName::from_text(DEFAULT_SOCKET_ROOT),
    }
}

/// The register socket of a layout leads back to the layout's root: to the root
/// itself when no void component, empty or `.`, stands at its end, and otherwise to
/// the root without those.
pub proof fn register_socket_names_its_root(root: Seq<u8>)
    ensures
        root_of_socket(register_below(root)) == tidy_end(root, anchor(root)),
        tidy_end(root, anchor(root)) == root ==> root_of_socket(register_below(root)) == root,
{
    let chars = REGISTER_SOCKET_NAME@;
    let name = encode_utf8(chars);
    reveal_strlit("register.socket");
    is_ascii_chars_encode_utf8(chars);
    assert forall|i: int| 0 <= i < name.len() implies name[i] != SLASH by {
        assert(name[i] == chars[i] as u8);
    }
    assert(name.len() == 15);
    assert(is_component(name));
    parent_of_below(root, name);
}

/// A path that no directory holds, the file-system root or the empty one, leads to
/// the default root.
pub proof fn no_directory_leads_to_the_default()
    ensures
        root_of_socket(seq![SLASH]) == encode_utf8(DEFAULT_SOCKET_ROOT@),
        root_of_socket(Seq::empty()) == encode_utf8(DEFAULT_SOCKET_ROOT@),
{
}

/// The runtime root is the first of these that there is: the value of
/// `CROSSBRIDGE_SOCKET_ROOT` as it stands, `crossbridge` below that of
/// `XDG_RUNTIME_DIR`, and `/run/crossbridge`.
pub proof fn the_first_variable_counts<F: Fn(&str) -> Option<Vec<u8>>>(
    lookup: F,
    root: Seq<u8>,
    value: Seq<u8>,
)
    requires
        is_default_root(lookup, root),
    ensures
        (forall|a: Option<Vec<u8>>| #[trigger]
            lookup.ensures(("CROSSBRIDGE_SOCKET_ROOT",), a) ==> opt_bytes(a) == Some(value))
            ==> root == value,
        (forall|a: Option<Vec<u8>>| #[trigger]
            lookup.ensures(("CROSSBRIDGE_SOCKET_ROOT",), a) ==> a is None) && (forall|
            b: Option<Vec<u8>>,
        | #[trigger]
            lookup.ensures(("XDG_RUNTIME_DIR",), b) ==> opt_bytes(b) == Some(value))
            ==> root == below(value, encode_utf8("crossbridge"@)),
        (forall|a: Option<Vec<u8>>| #[trigger]
            lookup.ensures(("CROSSBRIDGE_SOCKET_ROOT",), a) ==> a is None) && (forall|
            b: Option<Vec<u8>>,
        | #[trigger]
            lookup.ensures(("XDG_RUNTIME_DIR",), b) ==> b is None) ==> root == encode_utf8(
            "/run/crossbridge"@,
        ),
{
    let (a, b) = choose|a: Option<Vec<u8>>, b: Option<Vec<u8>>|
        #![trigger opt_bytes(a), opt_bytes(b)]
        lookup.ensures((SOCKET_ROOT_ENV,), a) && (a is None ==> lookup.ensures(
            (XDG_RUNTIME_DIR_ENV,),
            b,
        )) && root == root_from(opt_bytes(a), opt_bytes(b));
    assert(lookup.ensures(("CROSSBRIDGE_SOCKET_ROOT",), a));
    if a is None {
        assert(lookup.ensures(("XDG_RUNTIME_DIR",), b));
    }
}

/// The socket between two repositories is `<root>/<peer>/<own>.socket`: the peer's
/// directory, and in it the name of the server that listens.
pub proof fn sockets_lie_with_the_peer(root: Seq<u8>, peer: Seq<char>, own: Seq<char>)
    requires
        root.len() > 0,
        root[root.len() - 1] != 47,
        encode_utf8(peer).len() > 0,
        encode_utf8(peer)[0] != 47,
        encode_utf8(peer)[encode_utf8(peer).len() - 1] != 47,
        encode_utf8(own + ".socket"@).len() > 0,
        encode_utf8(own + ".socket"@)[0] != 47,
    ensures
        listener_below(root, peer, own) == root + seq![47u8] + encode_utf8(peer) + seq![47u8]
            + encode_utf8(own + ".socket"@),
        register_below(root) == root + seq![47u8] + encode_utf8("register.socket"@),
{
    names_stand_behind_a_slash(root, encode_utf8(peer));
    let dir = root + seq![47u8] + encode_utf8(peer);
    assert(dir[dir.len() - 1] == encode_utf8(peer)[encode_utf8(peer).len() - 1]);
    names_stand_behind_a_slash(dir, encode_utf8(own + ".socket"@));
    reveal_strlit("register.socket");
    let chars = "register.socket"@;
    is_ascii_chars_encode_utf8(chars);
    assert(encode_utf8(chars)[0] == chars[0] as u8);
    names_stand_behind_a_slash(root, encode_utf8(chars));
}

/// The slug that the variable gives is its text without the white space round it; a
/// blank value gives none, nor does one that is not UTF-8.
pub proof fn the_variable_gives_its_text(
    lead: Seq<char>,
    slug: Seq<char>,
    trail: Seq<char>,
    raw: Seq<u8>,
)
    requires
        blank(lead),
        snug(slug),
        blank(trail),
    ensures
        own_slug_of(Some(encode_utf8(lead + slug + trail))) == (if slug.len() > 0 {
            Some(slug)
        } else {
            None
        }),
        !valid_utf8(raw) ==> own_slug_of(Some(raw)) is None,
        own_slug_of(None) is None,
{
    let text = lead + slug + trail;
    encode_utf8_valid_utf8(text);
    encode_utf8_decode_utf8(text);
    trimming_takes_the_ends(lead, slug, trail);
}

} // verus!
