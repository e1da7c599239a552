//! Where the app keeps its files: the data directory chosen at start-up, the
//! database and configuration files inside it, and recording file names.

use vstd::prelude::*;
use vstd::string::*;
use crate::text::{decimal, decimal_string};

verus! {

/// A file name that `Path::join` appends to a directory without any
/// interpretation: not empty, and free of path separators and drive colons.
pub open spec fn plain_name(name: Seq<char>) -> bool {
    &&& name.len() > 0
    &&& forall|i: int|
        0 <= i < name.len() ==> #[trigger] name[i] != '/' && name[i] != '\\' && name[i] != ':'
}

/// A relative path that `Path::join` appends to a directory as it stands:
/// not empty, not starting with a separator (a root), and not starting with
/// a drive (`X:`). Plain file names are such paths.
pub open spec fn relative_name(name: Seq<char>) -> bool {
    &&& name.len() > 0
    &&& name[0] != '/'
    &&& name[0] != '\\'
    &&& !(name.len() >= 2 && name[1] == ':')
}

/// A Windows verbatim path (`\\?\`...), which `PathBuf::push` normalises
/// when something is pushed onto it. Joins onto such bases are left
/// unspecified.
pub open spec fn verbatim(base: Seq<char>) -> bool {
    base.len() >= 4 && base[0] == '\\' && base[1] == '\\' && base[2] == '?' && base[3] == '\\'
}

/// A base that neither is verbatim nor turns verbatim when a plain name is
/// joined onto it (only `\\?` itself would).
pub open spec fn stays_unverbatim(base: Seq<char>) -> bool {
    !verbatim(base) && base != seq!['\\', '\\', '?']
}

/// What joining a relative path onto `base` gives, as `PathBuf::push`
/// documents it ("/tmp" and "file.bk" give "/tmp/file.bk"): the path itself
/// after an empty base; the path appended directly after a base that ends in
/// `/`; after a base that ends in `\` the path directly (where `\` is a
/// separator) or after `/` (where it is not); after a base ending in `:` the
/// path directly (a bare drive) or after a separator; after any other base
/// (UNC and device paths included) the path after the platform's separator,
/// `/` or `\`.
pub open spec fn joined(base: Seq<char>, name: Seq<char>, r: Seq<char>) -> bool {
    if base.len() == 0 {
        r == name
    } else if base.last() == '/' {
        r == base + name
    } else if base.last() == '\\' {
        r == base + name || r == base + seq!['/'] + name
    } else if base.last() == ':' {
        r == base + name || r == base + seq!['/'] + name || r == base + seq!['\\'] + name
    } else {
        r == base + seq!['/'] + name || r == base + seq!['\\'] + name
    }
}

/// `Path::new(base).join(name)` as a string. Trusted: for a relative path
/// and a base that is not a verbatim path, the result is as `joined`
/// describes, following `PathBuf::push` on a relative path: the path is
/// appended, after a separator unless the base is empty, already ends in
/// one, or is a bare drive. Which separator the platform uses, and what
/// happens to absolute or drive-relative names or to verbatim bases, is not
/// claimed. The conversion back with `to_string_lossy` loses nothing, both
/// parts being valid UTF-8.
#[verifier::external_body]
pub(crate) fn join_path(base: &str, name: &str) -> (r: String)
    ensures
        relative_name(name@) && !verbatim(base@) ==> joined(base@, name@, r@),
{
    std::path::Path::new(base).join(name).to_string_lossy().into_owned()
}

/// Plain names are relative paths.
pub proof fn lemma_plain_is_relative(name: Seq<char>)
    requires
        plain_name(name),
    ensures
        relative_name(name),
{
    if name.len() >= 2 {
        assert(name[1] != ':');
    }
}

/// Joining a plain name of two or more characters onto a base that stays
/// unverbatim gives a base that stays unverbatim, ending with the name's last
/// character.
pub proof fn lemma_join_keeps_shape(base: Seq<char>, name: Seq<char>, r: Seq<char>)
    requires
        plain_name(name),
        name.len() >= 2,
        stays_unverbatim(base),
        joined(base, name, r),
    ensures
        stays_unverbatim(r),
        r.len() > 0,
        r.last() == name.last(),
        r.last() != '/' && r.last() != '\\' && r.last() != ':',
{
    let bad = seq!['\\', '\\', '?'];
    assert(name[0] != '\\' && name[0] != '/' && name[0] != ':');
    assert(name[name.len() - 1] != '/' && name[name.len() - 1] != '\\' && name[name.len() - 1] != ':');
    assert(r.len() > base.len());
    if base.len() == 0 {
        assert(r[0] == name[0]);
        assert(r[0] != bad[0]);
        assert(r != bad);
    } else if base.len() >= 4 {
        assert(r[0] == base[0] && r[1] == base[1] && r[2] == base[2] && r[3] == base[3]);
        assert(r.len() != 3);
        assert(r != bad);
    } else if base.len() == 3 {
        assert(r[0] == base[0] && r[1] == base[1] && r[2] == base[2]);
        assert(!(base[0] == '\\' && base[1] == '\\' && base[2] == '?')) by {
            if base[0] == '\\' && base[1] == '\\' && base[2] == '?' {
                assert(base =~= bad);
            }
        }
        assert(r.len() != 3);
        assert(r != bad);
    } else if base.len() == 1 {
        if r == base + name {
            assert(r[1] == name[0]);
        } else if r == base + seq!['/'] + name {
            assert(r[1] == '/');
        } else {
            assert(r =~= base + seq!['\\'] + name);
            assert(r[1] == '\\');
            assert(r[2] == name[0]);
        }
        assert(r.len() >= 2);
        if r.len() == 3 {
            assert(r[2] != '?' || r[1] != '\\' || r[0] != '\\');
        }
        assert(r != bad) by {
            if r == bad {
                assert(r[1] == '\\' && r[2] == '?');
            }
        }
    } else {
        if r == base + name {
            assert(r[2] == name[0] && r[3] == name[1]);
            assert(r.len() >= 4);
        } else if r == base + seq!['/'] + name {
            assert(r[2] == '/');
        } else {
            assert(r =~= base + seq!['\\'] + name);
            assert(r[2] == '\\');
        }
        assert(r.len() != 3 || r[2] != '?');
        assert(r != bad) by {
            if r == bad {
                assert(r[2] == '?');
            }
        }
    }
}

/// The app's data directory, set once at start-up.
pub struct AppDataDir {
    dir: Option<String>,
}

impl View for AppDataDir {
    type V = Option<Seq<char>>;

    closed spec fn view(&self) -> Option<Seq<char>> {
        match self.dir {
            Some(d) => Some(d@),
            None => None,
        }
    }
}

impl AppDataDir {
    /// No directory set yet.
    pub fn new() -> (r: AppDataDir)
        ensures
            r@ is None,
    {
        AppDataDir { dir: None }
    }

    /// Whether the directory has been set.
    pub fn is_initialized(&self) -> (r: bool)
        ensures
            r == (self@ is Some),
    {
        self.dir.is_some()
    }
}

/// Records the data directory. Only the first call has an effect; later
/// calls are ignored, as with a set-once cell.
pub fn initialize(state: &mut AppDataDir, path: String)
    ensures
        final(state)@ == (if old(state)@ is Some {
            old(state)@
        } else {
            Some(path@)
        }),
{
    if state.dir.is_none() {
        state.dir = Some(path);
    }
}

/// The data directory; it must have been initialized.
pub fn app_data_dir(state: &AppDataDir) -> (r: &str)
    requires
        state@ is Some,
    ensures
        Some(r@) == state@,
{
    match &state.dir {
        Some(d) => d.as_str(),
        None => {
            proof {
                assert(false);
            }
            ""
        },
    }
}

/// The name of the database file.
pub const DB_FILE: &'static str = "data.sqlite";

/// The name of the configuration file.
pub const CONFIG_FILE: &'static str = "config.json";

/// The database file inside the data directory.
pub fn db_path(state: &AppDataDir) -> (r: String)
    requires
        state@ is Some,
    ensures
        !verbatim(state@->Some_0) ==> joined(state@->Some_0, DB_FILE@, r@),
{
    proof {
        reveal_strlit("data.sqlite");
    }
    join_path(app_data_dir(state), DB_FILE)
}

/// The configuration file inside the data directory.
pub fn config_path(state: &AppDataDir) -> (r: String)
    requires
        state@ is Some,
    ensures
        !verbatim(state@->Some_0) ==> joined(state@->Some_0, CONFIG_FILE@, r@),
{
    proof {
        reveal_strlit("config.json");
    }
    join_path(app_data_dir(state), CONFIG_FILE)
}

/// The name of the directory that holds the Whisper models.
pub const MODELS_DIR: &'static str = "models";

/// The models directory inside the data directory.
pub fn models_dir(state: &AppDataDir) -> (r: String)
    requires
        state@ is Some,
    ensures
        !verbatim(state@->Some_0) ==> joined(state@->Some_0, MODELS_DIR@, r@),
{
    proof {
        reveal_strlit("models");
    }
    join_path(app_data_dir(state), MODELS_DIR)
}

/// The file name of a finished recording taken at `secs` seconds after the
/// Unix epoch: `loon_recording_<secs>.wav`.
pub open spec fn recording_file_name_spec(secs: nat) -> Seq<char> {
    "loon_recording_"@ + decimal(secs) + ".wav"@
}

/// The file name of a finished recording taken at `secs`.
pub fn recording_file_name(secs: u64) -> (r: String)
    ensures
        r@ == recording_file_name_spec(secs as nat),
{
    let mut r = String::from_str("loon_recording_");
    let digits = decimal_string(secs);
    r.append(digits.as_str());
    r.append(".wav");
    r
}

/// The file name `<secs>.wav` of a recording in the recordings directory.
pub open spec fn timestamp_file_name(secs: nat) -> Seq<char> {
    decimal(secs) + ".wav"@
}

/// A new recording path: `<secs>.wav` inside `recordings_dir`.
pub fn new_recording_path(recordings_dir: &str, secs: u64) -> (r: String)
    ensures
        !verbatim(recordings_dir@) ==> joined(
            recordings_dir@,
            timestamp_file_name(secs as nat),
            r@,
        ),
{
    let mut name = decimal_string(secs);
    name.append(".wav");
    proof {
        reveal_strlit(".wav");
        lemma_decimal_plain(secs as nat);
        let n = name@;
        assert forall|i: int| 0 <= i < n.len() implies #[trigger] n[i] != '/' && n[i] != '\\'
            && n[i] != ':' by {
            if i < decimal(secs as nat).len() {
                assert(n[i] == decimal(secs as nat)[i]);
            }
        }
    }
    proof {
        lemma_plain_is_relative(name@);
    }
    join_path(recordings_dir, name.as_str())
}

/// Decimal renderings are non-empty and hold only digits.
pub proof fn lemma_decimal_plain(n: nat)
    ensures
        decimal(n).len() > 0,
        forall|i: int| 0 <= i < decimal(n).len() ==> '0' <= #[trigger] decimal(n)[i] <= '9',
    decreases n,
{
    if n >= 10 {
        lemma_decimal_plain(n / 10);
        let d = decimal(n);
        assert forall|i: int| 0 <= i < d.len() implies '0' <= #[trigger] d[i] <= '9' by {
            if i < decimal(n / 10).len() {
                assert(d[i] == decimal(n / 10)[i]);
            }
        }
    }
}

} // verus!
