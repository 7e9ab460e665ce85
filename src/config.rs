use vstd::prelude::*;
use vstd::string::*;

use crate::error::{Error, SbResult};

verus! {

/// Name of the session file inside the application's directory.
pub const SESSION_FILE: &'static str = "session.toml";

/// What a disk holds: the text of each file, by path.
pub type Disk = Map<Seq<char>, Seq<char>>;

/// `base` extended by one component, the way a path buffer is extended:
/// an absolute component replaces the base, and a separator is put between
/// the two unless the base is empty or already ends in one.
pub open spec fn joined(base: Seq<char>, part: Seq<char>) -> Seq<char> {
    if part.len() > 0 && part[0] == '/' {
        part
    } else if base.len() == 0 || base.last() == '/' {
        base + part
    } else {
        base + seq!['/'] + part
    }
}

/// Where the session of `app_name` is kept under `dir`.
pub open spec fn session_path_of(dir: Seq<char>, app_name: Seq<char>) -> Seq<char> {
    joined(joined(dir, app_name), SESSION_FILE@)
}

/// Extends `base` by the component `part`.
pub fn join_path(base: &str, part: &str) -> (r: String)
    ensures
        r@ == joined(base@, part@),
{
    let plen = part.unicode_len();
    if plen > 0 && part.get_char(0) == '/' {
        return String::from_str(part);
    }
    let blen = base.unicode_len();
    let mut r = String::from_str(base);
    if blen > 0 && base.get_char(blen - 1) != '/' {
        r.append("/");
        proof {
            reveal_strlit("/");
        }
    }
    r.append(part);
    r
}

/// Index of the last separator in `p`, or -1 where it has none.
pub open spec fn last_sep(p: Seq<char>) -> int
    decreases p.len(),
{
    if p.len() == 0 {
        -1
    } else if p.last() == '/' {
        p.len() - 1
    } else {
        last_sep(p.drop_last())
    }
}

/// The directory that holds the file at `p`: what precedes its last
/// separator (the root where that is the first character, the current
/// directory where there is none). The empty path and the root have none.
pub open spec fn parent_of(p: Seq<char>) -> Option<Seq<char>> {
    if p.len() == 0 || p == seq!['/'] {
        None
    } else if last_sep(p) < 0 {
        Some(Seq::empty())
    } else if last_sep(p) == 0 {
        Some(seq!['/'])
    } else {
        Some(p.subrange(0, last_sep(p)))
    }
}

/// Chooses between an exclusive first write and an overwrite of the session
/// file.
#[derive(Debug, Clone, Copy, PartialEq, Eq)]
pub enum PersistMode {
    /// The file is created; an existing file is an error.
    Exclusive,
    /// The file is written whether or not it exists.
    Overwrite,
}

/// Whether a write in `mode` may go ahead when the file's presence is `exists`.
pub open spec fn persist_allowed(mode: PersistMode, exists: bool) -> bool {
    mode == PersistMode::Overwrite || !exists
}

/// The disk after a write of `text` to `path` in `mode`.
pub open spec fn persist_on(disk: Disk, mode: PersistMode, path: Seq<char>, text: Seq<char>) -> Disk {
    if persist_allowed(mode, disk.contains_key(path)) {
        disk.insert(path, text)
    } else {
        disk
    }
}

/// What a load does first, depending on whether the session file exists.
#[derive(Debug, Clone, Copy, PartialEq, Eq)]
pub enum LoadAction {
    /// Start from the default state and write it exclusively.
    CreateDefault,
    /// Read and decode the file.
    ReadExisting,
}

pub open spec fn load_action_of(exists: bool) -> LoadAction {
    if exists {
        LoadAction::ReadExisting
    } else {
        LoadAction::CreateDefault
    }
}

/// The state a load yields on `disk`: the default where the file is absent,
/// else what `decode` makes of the file's text (`None`: the file is corrupt).
pub open spec fn loaded_state<S>(
    disk: Disk,
    path: Seq<char>,
    default: S,
    decode: spec_fn(Seq<char>) -> Option<S>,
) -> Option<S> {
    if disk.contains_key(path) {
        decode(disk[path])
    } else {
        Some(default)
    }
}

/// The disk after a load: a load that creates writes the encoded default.
pub open spec fn disk_after_load<S>(
    disk: Disk,
    path: Seq<char>,
    default: S,
    encode: spec_fn(S) -> Seq<char>,
) -> Disk {
    match load_action_of(disk.contains_key(path)) {
        LoadAction::CreateDefault => persist_on(disk, PersistMode::Exclusive, path, encode(default)),
        LoadAction::ReadExisting => disk,
    }
}

/// A session state together with the file that holds it.
#[derive(Debug, Clone)]
pub struct Config<T> {
    pub config: T,
    pub path: String,
}

impl<T> Config<T> {
    /// The session file of `app_name` under `dir`.
    pub fn session_path(app_name: &str, dir: &str) -> (r: String)
        ensures
            r@ == session_path_of(dir@, app_name@),
    {
        let app_dir = join_path(dir, app_name);
        join_path(app_dir.as_str(), SESSION_FILE)
    }

    /// A handle on `path` holding `config`.
    pub fn new(config: T, path: String) -> (r: Config<T>)
        ensures
            r.config == config,
            r.path == path,
    {
        Config { config, path }
    }

    /// The directory that must exist before this handle's file is written.
    pub fn parent_dir(&self) -> (r: SbResult<String>)
        ensures
            parent_of(self.path@) matches Some(d) ==> (r matches Ok(s) && s@ == d),
            parent_of(self.path@) is None ==> (r matches Err(Error::ConfigDoesNotExist(m))
                && m@ == "no parent"@),
    {
        let p = self.path.as_str();
        let n = p.unicode_len();
        if n == 0 || (n == 1 && p.get_char(0) == '/') {
            proof {
                if n == 1 {
                    assert(p@ =~= seq!['/']);
                }
            }
            return Err(Error::ConfigDoesNotExist(String::from_str("no parent")));
        }
        assert(p@ != seq!['/']) by {
            if p@ == seq!['/'] {
                assert(p@[0] == '/');
            }
        }
        assert(p@.subrange(0, n as int) =~= p@);
        let mut i: usize = n;
        while i > 0 && p.get_char(i - 1) != '/'
            invariant
                n == p@.len(),
                i <= n,
                last_sep(p@) == last_sep(p@.subrange(0, i as int)),
            decreases i,
        {
            assert(p@.subrange(0, i as int).drop_last() =~= p@.subrange(0, i - 1));
            i = i - 1;
        }
        if i > 0 {
            assert(last_sep(p@.subrange(0, i as int)) == i - 1);
        } else {
            assert(p@.subrange(0, 0) =~= Seq::<char>::empty());
        }
        if i == 0 {
            Ok(String::new())
        } else if i == 1 {
            proof {
                reveal_strlit("/");
            }
            Ok(String::from_str("/"))
        } else {
            Ok(String::from_str(p.substring_char(0, i - 1)))
        }
    }

    /// What a load of this session file does, given whether it exists.
    pub fn load_action(exists: bool) -> (r: LoadAction)
        ensures
            r == load_action_of(exists),
    {
        if exists {
            LoadAction::ReadExisting
        } else {
            LoadAction::CreateDefault
        }
    }

    /// Decides whether a write of this handle's file in `mode` may proceed,
    /// given whether the file exists; refuses to clobber in exclusive mode.
    pub fn check_persist(&self, mode: PersistMode, exists: bool) -> (r: SbResult<()>)
        ensures
            r is Ok <==> persist_allowed(mode, exists),
            !persist_allowed(mode, exists) ==> (r matches Err(Error::ConfigAlreadyExists(p))
                && p@ == self.path@),
    {
        match mode {
            PersistMode::Exclusive => {
                if exists {
                    Err(Error::ConfigAlreadyExists(self.path.clone()))
                } else {
                    Ok(())
                }
            },
            PersistMode::Overwrite => Ok(()),
        }
    }
}

/// A second exclusive write to a path refuses and keeps the first write:
/// after writing `first` exclusively to a path that was free, a write of
/// `second` in exclusive mode is not allowed and leaves the disk as it was.
pub proof fn lemma_exclusive_write_once(disk: Disk, path: Seq<char>, first: Seq<char>, second: Seq<char>)
    requires
        !disk.contains_key(path),
    ensures
        ({
            let d1 = persist_on(disk, PersistMode::Exclusive, path, first);
            &&& d1.contains_key(path) && d1[path] == first
            &&& !persist_allowed(PersistMode::Exclusive, d1.contains_key(path))
            &&& persist_on(d1, PersistMode::Exclusive, path, second) == d1
        }),
{
}

/// Loading twice from a disk without the session file yields, the second
/// time, the state the first load created and wrote, through the read path
/// and without a second write, provided decoding undoes encoding.
pub proof fn lemma_first_run_idempotent<S>(
    disk: Disk,
    path: Seq<char>,
    default: S,
    encode: spec_fn(S) -> Seq<char>,
    decode: spec_fn(Seq<char>) -> Option<S>,
)
    requires
        !disk.contains_key(path),
        decode(encode(default)) == Some(default),
    ensures
        ({
            let d1 = disk_after_load(disk, path, default, encode);
            &&& loaded_state(disk, path, default, decode) == Some(default)
            &&& d1 == disk.insert(path, encode(default))
            &&& load_action_of(d1.contains_key(path)) == LoadAction::ReadExisting
            &&& loaded_state(d1, path, default, decode) == Some(default)
            &&& disk_after_load(d1, path, default, encode) == d1
        }),
{
}

} // verus!
