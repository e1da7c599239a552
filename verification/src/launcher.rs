//! Desktop start-up decisions: where the bundled `whisper-cli` is looked for,
//! which of the places is taken, and what the tray menu entries do.

use vstd::prelude::*;
use vstd::string::*;
use crate::paths::{join_path, joined, lemma_join_keeps_shape, lemma_plain_is_relative, plain_name, stays_unverbatim, verbatim};

verus! {

/// The name of the transcription binary.
pub const WHISPER_BIN: &'static str = "whisper-cli.exe";

/// The directory name the binary is bundled under.
pub const WHISPER_DIR: &'static str = "whisper";

/// The views of a vector of strings.
pub open spec fn string_views(v: Seq<String>) -> Seq<Seq<char>> {
    v.map_values(|x: String| x@)
}

/// Joins two plain names in turn onto a base.
fn join2(base: &str, a: &str, b: &str) -> (r: String)
    ensures
        plain_name(a@) && a@.len() >= 2 && plain_name(b@) && stays_unverbatim(base@) ==> exists|m: Seq<char>|
            joined(base@, a@, m) && joined(m, b@, r@),
{
    proof {
        if plain_name(a@) && plain_name(b@) {
            lemma_plain_is_relative(a@);
            lemma_plain_is_relative(b@);
        }
    }
    let m = join_path(base, a);
    proof {
        if plain_name(a@) && a@.len() >= 2 && plain_name(b@) && stays_unverbatim(base@) {
            lemma_join_keeps_shape(base@, a@, m@);
        }
    }
    let r = join_path(m.as_str(), b);
    proof {
        if plain_name(a@) && a@.len() >= 2 && plain_name(b@) && stays_unverbatim(base@) {
            assert(joined(base@, a@, m@) && joined(m@, b@, r@));
        }
    }
    r
}

/// The directories searched for the bundled binary when the desktop app
/// starts, in order: the updater layout (`_up_/whisper` beside the
/// executable), `whisper` beside the executable, the executable's own
/// directory, `whisper` in the resource directory, the resource directory,
/// `whisper` in the working directory and `whisper` beside it.
pub fn startup_whisper_dirs(exe_dir: &str, resource_dir: &str, cwd: &str) -> (r: Vec<String>)
    ensures
        r.len() == 7,
        stays_unverbatim(exe_dir@) ==> exists|m: Seq<char>|
            joined(exe_dir@, "_up_"@, m) && joined(m, WHISPER_DIR@, r@[0]@),
        !verbatim(exe_dir@) ==> joined(exe_dir@, WHISPER_DIR@, r@[1]@),
        r@[2]@ == exe_dir@,
        !verbatim(resource_dir@) ==> joined(resource_dir@, WHISPER_DIR@, r@[3]@),
        r@[4]@ == resource_dir@,
        !verbatim(cwd@) ==> joined(cwd@, WHISPER_DIR@, r@[5]@),
        stays_unverbatim(cwd@) ==> exists|m: Seq<char>|
            joined(cwd@, ".."@, m) && joined(m, WHISPER_DIR@, r@[6]@),
{
    proof {
        reveal_strlit("_up_");
        reveal_strlit("whisper");
        reveal_strlit("..");
    }
    let mut r: Vec<String> = Vec::new();
    r.push(join2(exe_dir, "_up_", WHISPER_DIR));
    r.push(join_path(exe_dir, WHISPER_DIR));
    r.push(String::from_str(exe_dir));
    r.push(join_path(resource_dir, WHISPER_DIR));
    r.push(String::from_str(resource_dir));
    r.push(join_path(cwd, WHISPER_DIR));
    r.push(join2(cwd, "..", WHISPER_DIR));
    r
}

/// The directories searched for the bundled binary by the settings window,
/// in order: `_up_/whisper` and `whisper` beside the executable, then
/// `whisper` in and beside the working directory.
pub fn settings_whisper_dirs(exe_dir: &str, cwd: &str) -> (r: Vec<String>)
    ensures
        r.len() == 4,
        stays_unverbatim(exe_dir@) ==> exists|m: Seq<char>|
            joined(exe_dir@, "_up_"@, m) && joined(m, WHISPER_DIR@, r@[0]@),
        !verbatim(exe_dir@) ==> joined(exe_dir@, WHISPER_DIR@, r@[1]@),
        !verbatim(cwd@) ==> joined(cwd@, WHISPER_DIR@, r@[2]@),
        stays_unverbatim(cwd@) ==> exists|m: Seq<char>|
            joined(cwd@, ".."@, m) && joined(m, WHISPER_DIR@, r@[3]@),
{
    proof {
        reveal_strlit("_up_");
        reveal_strlit("whisper");
        reveal_strlit("..");
    }
    let mut r: Vec<String> = Vec::new();
    r.push(join2(exe_dir, "_up_", WHISPER_DIR));
    r.push(join_path(exe_dir, WHISPER_DIR));
    r.push(join_path(cwd, WHISPER_DIR));
    r.push(join2(cwd, "..", WHISPER_DIR));
    r
}

/// The binary inside a directory.
pub fn whisper_bin_in(dir: &str) -> (r: String)
    ensures
        !verbatim(dir@) ==> joined(dir@, WHISPER_BIN@, r@),
{
    proof {
        reveal_strlit("whisper-cli.exe");
    }
    join_path(dir, WHISPER_BIN)
}

/// The first candidate that holds the binary, if any.
pub fn first_existing(found: &Vec<bool>) -> (r: Option<usize>)
    ensures
        match r {
            Some(i) => i < found.len() && found@[i as int] && forall|k: int|
                0 <= k < i ==> !#[trigger] found@[k],
            None => forall|k: int| 0 <= k < found.len() ==> !#[trigger] found@[k],
        },
{
    let n = found.len();
    let mut i: usize = 0;
    while i < n
        invariant
            n == found.len(),
            i <= n,
            forall|k: int| 0 <= k < i ==> !#[trigger] found@[k],
        decreases n - i,
    {
        if found[i] {
            return Some(i);
        }
        i = i + 1;
    }
    None
}

/// The binary the runtime is started with: the one in the first candidate
/// directory that holds it, or else `whisper/whisper-cli.exe` beside the
/// executable.
pub fn choose_whisper_bin(dirs: &Vec<String>, found: &Vec<bool>, exe_dir: &str) -> (r: String)
    requires
        dirs.len() == found.len(),
    ensures
        match first_index(found@) {
            Some(i) => !verbatim(dirs@[i as int]@) ==> joined(
                dirs@[i as int]@,
                WHISPER_BIN@,
                r@,
            ),
            None => stays_unverbatim(exe_dir@) ==> exists|m: Seq<char>|
                joined(exe_dir@, WHISPER_DIR@, m) && joined(m, WHISPER_BIN@, r@),
        },
{
    proof {
        reveal_strlit("whisper-cli.exe");
        reveal_strlit("whisper");
    }
    match first_existing(found) {
        Some(i) => {
            proof {
                lemma_first_index(found@, i as int);
            }
            whisper_bin_in(dirs[i].as_str())
        },
        None => {
            proof {
                lemma_first_index_none(found@);
            }
            join2(exe_dir, WHISPER_DIR, WHISPER_BIN)
        },
    }
}

/// The index of the first `true`, if any.
pub open spec fn first_index(found: Seq<bool>) -> Option<nat>
    decreases found.len(),
{
    if found.len() == 0 {
        None
    } else if found[0] {
        Some(0)
    } else {
        match first_index(found.drop_first()) {
            Some(i) => Some(i + 1),
            None => None,
        }
    }
}

proof fn lemma_first_index(found: Seq<bool>, i: int)
    requires
        0 <= i < found.len(),
        found[i],
        forall|k: int| 0 <= k < i ==> !#[trigger] found[k],
    ensures
        first_index(found) == Some(i as nat),
    decreases i,
{
    if i > 0 {
        assert(!found[0]);
        assert forall|k: int| 0 <= k < i - 1 implies !#[trigger] found.drop_first()[k] by {
            assert(found.drop_first()[k] == found[k + 1]);
        }
        lemma_first_index(found.drop_first(), i - 1);
    }
}

proof fn lemma_first_index_none(found: Seq<bool>)
    requires
        forall|k: int| 0 <= k < found.len() ==> !#[trigger] found[k],
    ensures
        first_index(found) is None,
    decreases found.len(),
{
    if found.len() > 0 {
        assert(!found[0]);
        assert forall|k: int| 0 <= k < found.len() - 1 implies !#[trigger] found.drop_first()[k] by {
            assert(found.drop_first()[k] == found[k + 1]);
        }
        lemma_first_index_none(found.drop_first());
    }
}

/// The settings window's path of the binary: the one in the first
/// candidate directory that holds it, or empty.
pub fn settings_whisper_bin(dirs: &Vec<String>, found: &Vec<bool>) -> (r: String)
    requires
        dirs.len() == found.len(),
    ensures
        match first_index(found@) {
            Some(i) => !verbatim(dirs@[i as int]@) ==> joined(
                dirs@[i as int]@,
                WHISPER_BIN@,
                r@,
            ),
            None => r@.len() == 0,
        },
{
    match first_existing(found) {
        Some(i) => {
            proof {
                lemma_first_index(found@, i as int);
            }
            whisper_bin_in(dirs[i].as_str())
        },
        None => {
            proof {
                lemma_first_index_none(found@);
            }
            String::new()
        },
    }
}

/// What a tray menu entry does.
#[derive(PartialEq, Eq, Structural, Clone, Copy, Debug)]
pub enum MenuAction {
    /// Quit the app.
    Quit,
    /// Open the settings window (unless it is open).
    OpenSettings,
    /// An entry the app does not know.
    Unknown,
}

/// The action of the tray menu entry with this id.
pub fn menu_action(id: &str) -> (r: MenuAction)
    ensures
        id@ == "quit"@ ==> r == MenuAction::Quit,
        id@ == "setting"@ ==> r == MenuAction::OpenSettings,
        id@ != "quit"@ && id@ != "setting"@ ==> r == MenuAction::Unknown,
{
    proof {
        reveal_strlit("quit");
        reveal_strlit("setting");
        assert("setting"@.len() != "quit"@.len());
    }
    let s = String::from_str(id);
    if s == String::from_str("quit") {
        MenuAction::Quit
    } else if s == String::from_str("setting") {
        MenuAction::OpenSettings
    } else {
        MenuAction::Unknown
    }
}

} // verus!
