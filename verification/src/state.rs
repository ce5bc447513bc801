//! What the switcher keeps on disk between runs, and where.

use vstd::prelude::*;

use crate::blocklist::{texts, Blocklist};
use crate::text::{chars_of, owned, string_of};

verus! {

/// The switcher's saved state.
pub struct AppState {
    /// MAC address of the exclusive target device (if any)
    pub exclusive_target: Option<String>,
    /// MAC addresses of devices blocked by this app
    pub app_blocked_devices: Vec<String>,
    /// Whether a switch operation was in progress (crash recovery)
    pub in_progress: bool,
}

/// `s` records `target` as the exclusive target, the addresses of `blocked`
/// each once, and the given in-progress flag.
pub open spec fn records(s: AppState, target: Seq<char>, blocked: Set<Seq<char>>, in_progress: bool) -> bool {
    &&& s.exclusive_target matches Some(t) && t@ == target
    &&& texts(s.app_blocked_devices@).no_duplicates()
    &&& texts(s.app_blocked_devices@).to_set() == blocked
    &&& s.in_progress == in_progress
}

/// `base` joined with `name` the way `PathBuf::join` does on Unix: an
/// absolute `name` replaces `base`; otherwise a '/' separates the two
/// unless `base` is empty or already ends with one.
pub open spec fn spec_join_path(base: Seq<char>, name: Seq<char>) -> Seq<char> {
    if name.len() > 0 && name[0] == '/' {
        name
    } else if base.len() == 0 || base.last() == '/' {
        base + name
    } else {
        base.push('/') + name
    }
}

/// Joins a path and a name as `PathBuf::join` does on Unix.
pub fn join_path(base: &str, name: &str) -> (r: String)
    ensures
        r@ == spec_join_path(base@, name@),
{
    let n = chars_of(name);
    if n.len() > 0 && n[0] == '/' {
        return owned(name);
    }
    let mut b = chars_of(base);
    if b.len() > 0 && b[b.len() - 1] != '/' {
        b.push('/');
    }
    let mut i: usize = 0;
    let ghost start = b@;
    while i < n.len()
        invariant
            i <= n@.len(),
            b@ == start + n@.take(i as int),
        decreases n.len() - i,
    {
        b.push(n[i]);
        assert(start + n@.take(i as int + 1) =~= (start + n@.take(i as int)).push(n@[i as int]));
        i = i + 1;
    }
    assert(n@.take(i as int) =~= n@);
    string_of(&b)
}

/// ".config" under the home directory.
pub open spec fn dot_config() -> Seq<char> {
    seq!['.', 'c', 'o', 'n', 'f', 'i', 'g']
}

/// "/tmp".
pub open spec fn tmp_dir() -> Seq<char> {
    seq!['/', 't', 'm', 'p']
}

/// The configuration directory: `$XDG_CONFIG_HOME` when set, else
/// `$HOME/.config`, else "/tmp".
pub open spec fn spec_dirs_path(xdg: Option<Seq<char>>, home: Option<Seq<char>>) -> Seq<char> {
    match xdg {
        Some(x) => x,
        None => match home {
            Some(h) => spec_join_path(h, dot_config()),
            None => tmp_dir(),
        },
    }
}

/// Get XDG config home or fallback to ~/.config, given the values of
/// `XDG_CONFIG_HOME` and `HOME` (`None` when unset).
pub fn dirs_path(xdg: Option<&str>, home: Option<&str>) -> (r: String)
    ensures
        r@ == spec_dirs_path(
            match xdg { Some(x) => Some(x@), None => None },
            match home { Some(h) => Some(h@), None => None },
        ),
{
    match xdg {
        Some(x) => owned(x),
        None => match home {
            Some(h) => {
                let r = join_path(h, ".config");
                proof {
                    reveal_strlit(".config");
                    assert(".config"@ =~= dot_config());
                }
                r
            },
            None => {
                let r = owned("/tmp");
                proof {
                    reveal_strlit("/tmp");
                    assert("/tmp"@ =~= tmp_dir());
                }
                r
            },
        },
    }
}

/// The directory name of the switcher's state.
pub open spec fn app_dir_name() -> Seq<char> {
    seq!['e', 'x', 'c', 'l', 'u', 's', 'i', 'v', 'e', '-', 'b', 't', '-', 's', 'w', 'i', 't', 'c', 'h', 'e', 'r']
}

/// The state file's name.
pub open spec fn state_file_name() -> Seq<char> {
    seq!['s', 't', 'a', 't', 'e', '.', 'j', 's', 'o', 'n']
}

/// The name of the file the state is first written to.
pub open spec fn temp_file_name() -> Seq<char> {
    state_file_name() + seq!['.', 't', 'm', 'p']
}

impl AppState {
    /// The directory holding the state, under the configuration directory.
    pub fn state_dir(config_home: &str) -> (r: String)
        ensures
            r@ == spec_join_path(config_home@, app_dir_name()),
    {
        let r = join_path(config_home, "exclusive-bt-switcher");
        proof {
            reveal_strlit("exclusive-bt-switcher");
            assert("exclusive-bt-switcher"@ =~= app_dir_name());
        }
        r
    }

    /// The state file, under the configuration directory.
    pub fn state_file(config_home: &str) -> (r: String)
        ensures
            r@ == spec_join_path(spec_join_path(config_home@, app_dir_name()), state_file_name()),
    {
        let dir = Self::state_dir(config_home);
        let r = join_path(dir.as_str(), "state.json");
        proof {
            reveal_strlit("state.json");
            assert("state.json"@ =~= state_file_name());
        }
        r
    }

    /// The file a new state is written to before it replaces the state file.
    pub fn temp_file(config_home: &str) -> (r: String)
        ensures
            r@ == spec_join_path(spec_join_path(config_home@, app_dir_name()), temp_file_name()),
    {
        let dir = Self::state_dir(config_home);
        let r = join_path(dir.as_str(), "state.json.tmp");
        proof {
            reveal_strlit("state.json.tmp");
            assert("state.json.tmp"@ =~= temp_file_name());
        }
        r
    }

    /// The state to save while an operation is in progress.
    pub fn save_in_progress(target_mac: &str, app_blocked: &Blocklist) -> (r: AppState)
        ensures
            records(r, target_mac@, app_blocked@, true),
    {
        AppState {
            exclusive_target: Some(owned(target_mac)),
            app_blocked_devices: app_blocked.addresses(),
            in_progress: true,
        }
    }

    /// The state to save once an operation completed successfully.
    pub fn save_clean(target_mac: &str, app_blocked: &Blocklist) -> (r: AppState)
        ensures
            records(r, target_mac@, app_blocked@, false),
    {
        AppState {
            exclusive_target: Some(owned(target_mac)),
            app_blocked_devices: app_blocked.addresses(),
            in_progress: false,
        }
    }

    /// Check if recovery is needed (unclean shutdown with blocked devices),
    /// given the state loaded from disk (`None` when there is none or it
    /// cannot be read): the loaded state when it lists blocked devices.
    pub fn needs_recovery(loaded: Option<AppState>) -> (r: Option<AppState>)
        ensures
            match loaded {
                Some(s) => if s.app_blocked_devices@.len() > 0 {
                    r == Some(s)
                } else {
                    r is None
                },
                None => r is None,
            },
    {
        match loaded {
            Some(s) => if s.app_blocked_devices.len() > 0 {
                Some(s)
            } else {
                None
            },
            None => None,
        }
    }

    /// The marker written when the program panics: the loaded state, if it
    /// lists blocked devices, saved again as in progress, with its target
    /// ("" when it has none) and its blocked devices each once.
    pub fn panic_marker(loaded: &Option<AppState>) -> (r: Option<AppState>)
        ensures
            match *loaded {
                Some(s) => if s.app_blocked_devices@.len() > 0 {
                    r matches Some(m) && records(
                        m,
                        match s.exclusive_target { Some(t) => t@, None => Seq::empty() },
                        texts(s.app_blocked_devices@).to_set(),
                        true,
                    )
                } else {
                    r is None
                },
                None => r is None,
            },
    {
        match loaded {
            Some(s) => if s.app_blocked_devices.len() > 0 {
                let blocked = Blocklist::from_addresses(&s.app_blocked_devices);
                let target = match &s.exclusive_target {
                    Some(t) => owned(t.as_str()),
                    None => String::new(),
                };
                Some(AppState::save_in_progress(target.as_str(), &blocked))
            } else {
                None
            },
            None => None,
        }
    }
}

/// The block list a restarted switcher rebuilds from the state it loaded:
/// the devices that state records, or none when there is no state.
pub open spec fn restored_blocks(loaded: Option<AppState>) -> Set<Seq<char>> {
    match loaded {
        Some(s) => texts(s.app_blocked_devices@).to_set(),
        None => Set::empty(),
    }
}

impl Blocklist {
    /// The block list a new switcher starts with: the devices recorded in the
    /// loaded state, or none.
    pub fn from_state(loaded: &Option<AppState>) -> (r: Blocklist)
        ensures
            r@ == restored_blocks(*loaded),
    {
        match loaded {
            Some(s) => Blocklist::from_addresses(&s.app_blocked_devices),
            None => Blocklist::new(),
        }
    }
}

/// What is saved is what a restarted switcher starts from: the block list
/// rebuilt from a saved state (`Blocklist::from_state`) is the block list
/// that was saved, and a restart asks for recovery (`needs_recovery`)
/// exactly when that list is not empty.
pub proof fn law_saved_block_list_restores(
    saved: AppState,
    target: Seq<char>,
    blocked: Set<Seq<char>>,
    in_progress: bool,
)
    requires
        records(saved, target, blocked, in_progress),
    ensures
        texts(saved.app_blocked_devices@).to_set() == blocked,
        (saved.app_blocked_devices@.len() > 0) == (blocked != Set::<Seq<char>>::empty()),
{
    let t = texts(saved.app_blocked_devices@);
    if t.len() > 0 {
        assert(blocked.contains(t[0]));
    } else {
        assert(blocked =~= Set::<Seq<char>>::empty());
    }
}

/// A clean save reloads as it was saved: the state saved once a switch
/// completed names its target, is not in progress, lists each blocked
/// device exactly once, and the block list rebuilt from it is the block list
/// that was saved. With no state at all, nothing is restored.
pub proof fn law_clean_save_reloads(saved: AppState, target: Seq<char>, blocked: Set<Seq<char>>)
    requires
        records(saved, target, blocked, false),
    ensures
        restored_blocks(Some(saved)) == blocked,
        saved.exclusive_target matches Some(t) && t@ == target,
        !saved.in_progress,
        texts(saved.app_blocked_devices@).no_duplicates(),
        blocked.finite(),
        saved.app_blocked_devices@.len() == blocked.len(),
        restored_blocks(None) == Set::<Seq<char>>::empty(),
{
    texts(saved.app_blocked_devices@).unique_seq_to_set();
}

} // verus!
