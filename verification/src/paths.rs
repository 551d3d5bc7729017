//! Where the shell keeps its files. A path is a list of bytes; what the
//! environment says is handed in.

use vstd::prelude::*;
use vstd::utf8::*;

verus! {

/// The bytes of a name.
pub open spec fn name_bytes(name: Seq<char>) -> Seq<u8> {
    encode_utf8(name)
}

/// A path with a name behind it. A slash stands between them, unless the path
/// is empty or ends in one.
pub open spec fn path_join(dir: Seq<u8>, name: Seq<char>) -> Seq<u8> {
    if dir.len() == 0 || dir.last() == 47 {
        dir + name_bytes(name)
    } else {
        dir.push(47) + name_bytes(name)
    }
}

/// What the environment says, unless it is empty.
pub open spec fn said(value: Option<Seq<u8>>) -> Option<Seq<u8>> {
    match value {
        Some(v) => if v.len() == 0 {
            None
        } else {
            Some(v)
        },
        None => None,
    }
}

/// An optional path.
pub open spec fn optional_bytes(value: Option<Vec<u8>>) -> Option<Seq<u8>> {
    match value {
        Some(v) => Some(v@),
        None => None,
    }
}

/// Puts a name behind a path.
fn join_path(dir: Vec<u8>, name: &str) -> (r: Vec<u8>)
    ensures
        r@ == path_join(dir@, name@),
{
    let mut path = dir;
    let length: usize = path.len();
    if length > 0 && path[length - 1] != 47 {
        path.push(47);
    }
    let mut bytes = name.as_bytes_vec();
    path.append(&mut bytes);
    path
}

/// A path from the name of it.
fn path_from(name: &str) -> (r: Vec<u8>)
    ensures
        r@ == name_bytes(name@),
{
    name.as_bytes_vec()
}

/// What the environment says, unless it is empty.
fn unless_empty(value: Option<Vec<u8>>) -> (r: Option<Vec<u8>>)
    ensures
        optional_bytes(r) == said(optional_bytes(value)),
{
    match value {
        Some(v) => if v.len() == 0 {
            None
        } else {
            Some(v)
        },
        None => None,
    }
}

// ---------------------------------------------------------------------------
// The socket

/// Where the socket is: where it is said to be, in the directory for the run,
/// or at a place of its own.
pub open spec fn socket_path(given: Option<Seq<u8>>, runtime_dir: Option<Seq<u8>>) -> Seq<u8> {
    match said(given) {
        Some(path) => path,
        None => match said(runtime_dir) {
            Some(dir) => path_join(path_join(dir, "cmux"@), "cmux.sock"@),
            None => name_bytes("/tmp/cmux.sock"@),
        },
    }
}

/// Where the socket is.
pub fn default_socket_path(given: Option<Vec<u8>>, runtime_dir: Option<Vec<u8>>) -> (r: Vec<u8>)
    ensures
        r@ == socket_path(optional_bytes(given), optional_bytes(runtime_dir)),
{
    match unless_empty(given) {
        Some(path) => path,
        None => match unless_empty(runtime_dir) {
            Some(dir) => join_path(join_path(dir, "cmux"), "cmux.sock"),
            None => path_from("/tmp/cmux.sock"),
        },
    }
}

/// Where it is written down which socket is in use, if there is a home.
pub open spec fn socket_note_path(home: Option<Seq<u8>>) -> Option<Seq<u8>> {
    match said(home) {
        Some(dir) => Some(path_join(path_join(dir, ".cmux"@), "socket_addr"@)),
        None => None,
    }
}

/// Where it is written down which socket is in use.
pub fn socket_addr_path(home: Option<Vec<u8>>) -> (r: Option<Vec<u8>>)
    ensures
        optional_bytes(r) == socket_note_path(optional_bytes(home)),
{
    match unless_empty(home) {
        Some(dir) => Some(join_path(join_path(dir, ".cmux"), "socket_addr")),
        None => None,
    }
}

// ---------------------------------------------------------------------------
// The session

/// Where the session is kept, if there is a place for it.
pub open spec fn session_path(
    given: Option<Seq<u8>>,
    state_home: Option<Seq<u8>>,
    home: Option<Seq<u8>>,
) -> Option<Seq<u8>> {
    match said(given) {
        Some(path) => Some(path),
        None => match said(state_home) {
            Some(dir) => Some(path_join(path_join(dir, "cmux"@), "session-linux.json"@)),
            None => match said(home) {
                Some(dir) => Some(
                    path_join(
                        path_join(path_join(path_join(dir, ".local"@), "state"@), "cmux"@),
                        "session-linux.json"@,
                    ),
                ),
                None => None,
            },
        },
    }
}

/// Where the session is kept.
pub fn session_state_path(
    given: Option<Vec<u8>>,
    state_home: Option<Vec<u8>>,
    home: Option<Vec<u8>>,
) -> (r: Option<Vec<u8>>)
    ensures
        optional_bytes(r) == session_path(
            optional_bytes(given),
            optional_bytes(state_home),
            optional_bytes(home),
        ),
{
    match unless_empty(given) {
        Some(path) => Some(path),
        None => match unless_empty(state_home) {
            Some(dir) => Some(join_path(join_path(dir, "cmux"), "session-linux.json")),
            None => match unless_empty(home) {
                Some(dir) => Some(
                    join_path(
                        join_path(join_path(join_path(dir, ".local"), "state"), "cmux"),
                        "session-linux.json",
                    ),
                ),
                None => None,
            },
        },
    }
}

// ---------------------------------------------------------------------------
// The settings

/// Where the settings are, if there is a place for them.
pub open spec fn settings_path(
    given: Option<Seq<u8>>,
    config_home: Option<Seq<u8>>,
    home: Option<Seq<u8>>,
) -> Option<Seq<u8>> {
    match said(given) {
        Some(path) => Some(path),
        None => match said(config_home) {
            Some(dir) => Some(path_join(path_join(dir, "cmux"@), "settings.json"@)),
            None => match said(home) {
                Some(dir) => Some(
                    path_join(
                        path_join(path_join(dir, ".config"@), "cmux"@),
                        "settings.json"@,
                    ),
                ),
                None => None,
            },
        },
    }
}

/// Where the settings are.
pub fn path(given: Option<Vec<u8>>, config_home: Option<Vec<u8>>, home: Option<Vec<u8>>) -> (r: Option<
    Vec<u8>,
>)
    ensures
        optional_bytes(r) == settings_path(
            optional_bytes(given),
            optional_bytes(config_home),
            optional_bytes(home),
        ),
{
    match unless_empty(given) {
        Some(path) => Some(path),
        None => match unless_empty(config_home) {
            Some(dir) => Some(join_path(join_path(dir, "cmux"), "settings.json")),
            None => match unless_empty(home) {
                Some(dir) => Some(
                    join_path(join_path(join_path(dir, ".config"), "cmux"), "settings.json"),
                ),
                None => None,
            },
        },
    }
}

// ---------------------------------------------------------------------------
// Downloads

/// Where downloads go. What the environment says counts here even where it is
/// empty.
pub open spec fn download_dir(
    given: Option<Seq<u8>>,
    cache_home: Option<Seq<u8>>,
    home: Option<Seq<u8>>,
) -> Seq<u8> {
    match given {
        Some(dir) => dir,
        None => match cache_home {
            Some(dir) => path_join(path_join(dir, "cmux"@), "downloads"@),
            None => match home {
                Some(dir) => path_join(
                    path_join(path_join(dir, ".cache"@), "cmux"@),
                    "downloads"@,
                ),
                None => path_join(name_bytes("/tmp"@), "cmux-downloads"@),
            },
        },
    }
}

/// Where downloads go.
pub fn download_directory(
    given: Option<Vec<u8>>,
    cache_home: Option<Vec<u8>>,
    home: Option<Vec<u8>>,
) -> (r: Vec<u8>)
    ensures
        r@ == download_dir(optional_bytes(given), optional_bytes(cache_home), optional_bytes(home)),
{
    match given {
        Some(dir) => dir,
        None => match cache_home {
            Some(dir) => join_path(join_path(dir, "cmux"), "downloads"),
            None => match home {
                Some(dir) => join_path(
                    join_path(join_path(dir, ".cache"), "cmux"),
                    "downloads",
                ),
                None => join_path(path_from("/tmp"), "cmux-downloads"),
            },
        },
    }
}

/// Where a download with a name goes.
pub fn download_file(dir: Vec<u8>, name: &str) -> (r: Vec<u8>)
    ensures
        r@ == path_join(dir@, name@),
{
    join_path(dir, name)
}

} // verus!
