//! Engine-level glue with verifiable content: the data-directory layout
//! and the shutdown decision. Directory creation, logging and the rest of
//! engine start-up are operating-system work and live in the host binary.

use vstd::prelude::*;

verus! {

/// The engine's per-user data directories.
#[derive(Clone, Copy, PartialEq, Eq, Structural, Debug)]
pub enum DataDir {
    Root,
    Logs,
    Saves,
}

/// Every data directory, in the order they are created at start-up.
pub fn all_data_dirs() -> (dirs: Vec<DataDir>)
    ensures
        dirs@ == seq![DataDir::Root, DataDir::Logs, DataDir::Saves],
{
    let dirs: Vec<DataDir> = vec![DataDir::Root, DataDir::Logs, DataDir::Saves];
    proof {
        assert(dirs@ =~= seq![DataDir::Root, DataDir::Logs, DataDir::Saves]);
    }
    dirs
}

/// Reports which window handle the video shutdown must destroy. The
/// destruction itself is an operating-system call performed by the host,
/// after the engine loop has exited.
pub fn shutdown(state: &crate::video::State) -> (handle: usize)
    ensures
        handle == state@.window,
{
    state.shutdown()
}

/// Path-separator normalization: every backslash becomes a forward
/// slash, everything else is kept.
pub open spec fn normalize_separators(s: Seq<char>) -> Seq<char> {
    s.map_values(|c: char| if c == '\\' { '/' } else { c })
}

/// The relative position of each data directory under the game's own
/// directory.
pub open spec fn subdir_suffix(subdir: DataDir) -> Seq<char> {
    match subdir {
        DataDir::Root => Seq::<char>::empty(),
        DataDir::Logs => "logs/"@,
        DataDir::Saves => "saves/"@,
    }
}

/// The full path of a data directory: the platform base directory, the
/// game name and the subdirectory suffix joined with slashes, with every
/// backslash the platform may have reported normalized away.
pub open spec fn data_dir_spec(base: Seq<char>, game_name: Seq<char>, subdir: DataDir) -> Seq<
    char,
> {
    normalize_separators(base + "/"@ + game_name + "/"@ + subdir_suffix(subdir))
}

/// Returns `s` with every backslash replaced by a forward slash.
fn replace_backslashes(s: &str) -> (r: String)
    ensures
        r@ == normalize_separators(s@),
{
    let mut out = String::new();
    let len = s.unicode_len();
    let mut i: usize = 0;
    while i < len
        invariant
            i <= len,
            len == s@.len(),
            out@ == normalize_separators(s@.take(i as int)),
        decreases len - i,
    {
        let c = s.get_char(i);
        if c == '\\' {
            proof {
                reveal_strlit("/");
            }
            out.append("/");
        } else {
            let piece = s.substring_char(i, i + 1);
            out.append(piece);
        }
        proof {
            assert(out@ =~= normalize_separators(s@.take(i + 1 as int)));
        }
        i = i + 1;
    }
    proof {
        assert(s@.take(len as int) =~= s@);
    }
    out
}

/// Builds the full path of the data directory `subdir` from a given
/// platform base directory.
pub fn data_dir_path(base: &str, game_name: &str, subdir: DataDir) -> (path: String)
    ensures
        path@ == data_dir_spec(base@, game_name@, subdir),
{
    let mut joined = String::new();
    joined.append(base);
    joined.append("/");
    joined.append(game_name);
    joined.append("/");
    match subdir {
        DataDir::Root => {},
        DataDir::Logs => joined.append("logs/"),
        DataDir::Saves => joined.append("saves/"),
    }
    proof {
        assert(joined@ =~= base@ + "/"@ + game_name@ + "/"@ + subdir_suffix(subdir));
    }
    replace_backslashes(joined.as_str())
}

/// Relies on directories::BaseDirs: `new` inspects the process
/// environment and returns the per-user base directories when a home
/// directory exists, and `data_dir` is the per-user data directory among
/// them. The result depends on the environment, so nothing is promised
/// of it.
#[verifier::external_body]
fn platform_data_dir() -> (r: Option<String>) {
    directories::BaseDirs::new().and_then(|dirs| dirs.data_dir().to_str().map(String::from))
}

/// The full path of the data directory `subdir`, built on the platform's
/// per-user data directory. `None` when the platform reports no usable
/// base directory; the host treats that as fatal at start-up, as any data
/// directory is then out of reach.
pub fn get_data_dir(game_name: &str, subdir: DataDir) -> (path: Option<String>)
    ensures
        path matches Some(p) ==> exists|base: Seq<char>|
            p@ == data_dir_spec(base, game_name@, subdir),
{
    match platform_data_dir() {
        Some(base) => {
            let p = data_dir_path(base.as_str(), game_name, subdir);
            proof {
                assert(p@ == data_dir_spec(base@, game_name@, subdir));
            }
            Some(p)
        },
        None => None,
    }
}

/// The name of the log file the engine writes for this run: the logs
/// directory, the executable name, a dash, the start-up timestamp and the
/// `.log` extension. The timestamp is formatted by the host, which reads
/// the clock.
pub fn log_file_name(logs_dir: &str, executable_name: &str, timestamp: &str) -> (name: String)
    ensures
        name@ == logs_dir@ + executable_name@ + "-"@ + timestamp@ + ".log"@,
{
    let mut name = String::new();
    name.append(logs_dir);
    name.append(executable_name);
    name.append("-");
    name.append(timestamp);
    name.append(".log");
    proof {
        assert(name@ =~= logs_dir@ + executable_name@ + "-"@ + timestamp@ + ".log"@);
    }
    name
}

} // verus!
