//! The configuration: named profiles, the name of the active one, and the
//! settings of the automatic switch.

use vstd::prelude::*;
use vstd::string::*;
use crate::text::{clone_texts, compare_text, join_path, joined, texts};

verus! {

/// How the next wallpaper is picked.
#[derive(Clone, Copy, Debug, PartialEq, Eq, Structural)]
pub enum SwitchMode {
    Random,
    Sequential,
}

/// Settings of the automatic switch.
#[derive(Clone, Copy, Debug, PartialEq, Eq, Structural)]
pub struct AutoSwitch {
    pub enabled: bool,
    /// Seconds between two switches.
    pub interval: u64,
    pub mode: SwitchMode,
}

/// Whether the service follows monitor changes.
#[derive(Clone, Copy, Debug, PartialEq, Eq, Structural)]
pub struct MonitorDetection {
    pub enabled: bool,
}

/// A binding of a monitor configuration to wallpaper directories and a
/// transition. The monitor list `["*"]` is the wildcard, which fits any
/// monitor configuration.
#[derive(Debug, PartialEq, Eq)]
pub struct Profile {
    pub monitors: Vec<String>,
    pub wallpaper_dirs: Vec<String>,
    pub transition: String,
    pub transition_duration: u32,
}

/// What a profile holds.
pub struct ProfileView {
    pub monitors: Seq<Seq<char>>,
    pub wallpaper_dirs: Seq<Seq<char>>,
    pub transition: Seq<char>,
    pub transition_duration: u32,
}

impl ProfileView {
    /// The profile fits any monitor configuration.
    pub open spec fn is_wildcard(self) -> bool {
        self.monitors.len() == 1 && self.monitors[0] == seq!['*']
    }

    /// The profile names exactly the monitors of `snapshot`, whatever their
    /// order and however often each is listed.
    pub open spec fn names_exactly(self, snapshot: Seq<Seq<char>>) -> bool {
        !self.is_wildcard() && self.monitors.to_set() == snapshot.to_set()
    }
}

impl View for Profile {
    type V = ProfileView;

    open spec fn view(&self) -> ProfileView {
        ProfileView {
            monitors: texts(self.monitors@),
            wallpaper_dirs: texts(self.wallpaper_dirs@),
            transition: self.transition@,
            transition_duration: self.transition_duration,
        }
    }
}

impl Clone for Profile {
    fn clone(&self) -> (r: Self)
        ensures
            r@ == self@,
    {
        Profile {
            monitors: clone_texts(&self.monitors),
            wallpaper_dirs: clone_texts(&self.wallpaper_dirs),
            transition: self.transition.clone(),
            transition_duration: self.transition_duration,
        }
    }
}

impl Profile {
    /// Whether this is the wildcard profile.
    pub fn is_wildcard(&self) -> (r: bool)
        ensures
            r == self@.is_wildcard(),
    {
        proof {
            reveal_strlit("*");
        }
        if self.monitors.len() != 1 {
            return false;
        }
        let r = compare_text(self.monitors[0].as_str(), "*") == 0;
        assert("*"@ =~= seq!['*']);
        assert(texts(self.monitors@)[0] == self.monitors@[0]@);
        r
    }
}

/// A profile under its name.
#[derive(Debug, PartialEq, Eq)]
pub struct ProfileEntry {
    pub name: String,
    pub profile: Profile,
}

/// A profile under its name, as values.
pub struct EntryView {
    pub name: Seq<char>,
    pub profile: ProfileView,
}

impl View for ProfileEntry {
    type V = EntryView;

    open spec fn view(&self) -> EntryView {
        EntryView { name: self.name@, profile: self.profile@ }
    }
}

impl Clone for ProfileEntry {
    fn clone(&self) -> (r: Self)
        ensures
            r@ == self@,
    {
        ProfileEntry { name: self.name.clone(), profile: self.profile.clone() }
    }
}

/// The views of a list of entries, in order.
pub open spec fn entry_views(v: Seq<ProfileEntry>) -> Seq<EntryView> {
    Seq::new(v.len(), |i: int| v[i]@)
}

/// No two entries share a name.
pub open spec fn distinct_names(s: Seq<EntryView>) -> bool {
    forall|i: int, j: int|
        0 <= i < s.len() && 0 <= j < s.len() && (#[trigger] s[i]).name == (#[trigger] s[j]).name
            ==> i == j
}

/// The place of the entry called `name`, or the length of `s` where there is
/// none.
pub open spec fn position(s: Seq<EntryView>, name: Seq<char>) -> int
    decreases s.len(),
{
    if s.len() == 0 {
        0
    } else if s[0].name == name {
        0
    } else {
        1 + position(s.drop_first(), name)
    }
}

/// Some entry is called `name`.
pub open spec fn has_name(s: Seq<EntryView>, name: Seq<char>) -> bool {
    exists|i: int| 0 <= i < s.len() && (#[trigger] s[i]).name == name
}

/// `position` finds the first entry called `name`, if there is one.
pub proof fn lemma_position(s: Seq<EntryView>, name: Seq<char>)
    ensures
        0 <= position(s, name) <= s.len(),
        forall|k: int| 0 <= k < position(s, name) ==> (#[trigger] s[k]).name != name,
        position(s, name) < s.len() ==> s[position(s, name)].name == name,
        has_name(s, name) <==> position(s, name) < s.len(),
    decreases s.len(),
{
    if s.len() > 0 && s[0].name != name {
        let t = s.drop_first();
        lemma_position(t, name);
        assert forall|k: int| 0 <= k < position(s, name) implies (#[trigger] s[k]).name
            != name by {
            if k > 0 {
                assert(s[k] == t[k - 1]);
            }
        }
        if position(s, name) < s.len() {
            assert(s[position(s, name)] == t[position(t, name)]);
        }
        if has_name(s, name) {
            let i = choose|i: int| 0 <= i < s.len() && (#[trigger] s[i]).name == name;
            assert(t[i - 1] == s[i]);
        }
    }
}

/// The profiles of a configuration, each under a name of its own, in the
/// order in which they were added.
#[derive(Debug, PartialEq, Eq)]
pub struct Profiles {
    entries: Vec<ProfileEntry>,
}

impl View for Profiles {
    type V = Seq<EntryView>;

    closed spec fn view(&self) -> Seq<EntryView> {
        entry_views(self.entries@)
    }
}

impl Profiles {
    #[verifier::type_invariant]
    spec fn names_are_distinct(self) -> bool {
        distinct_names(entry_views(self.entries@))
    }

    /// A collection without profiles.
    pub fn new() -> (r: Self)
        ensures
            r@ == Seq::<EntryView>::empty(),
    {
        let r = Profiles { entries: Vec::new() };
        assert(r@ =~= Seq::<EntryView>::empty());
        r
    }

    /// The number of profiles, no two of which share a name.
    pub fn len(&self) -> (r: usize)
        ensures
            r == self@.len(),
            distinct_names(self@),
    {
        proof {
            use_type_invariant(self);
        }
        self.entries.len()
    }

    /// The profiles under their names, in their order.
    pub fn entries(&self) -> (r: &Vec<ProfileEntry>)
        ensures
            entry_views(r@) == self@,
            distinct_names(self@),
    {
        proof {
            use_type_invariant(self);
        }
        &self.entries
    }

    /// The entry at place `i`.
    pub(crate) fn entry(&self, i: usize) -> (r: &ProfileEntry)
        requires
            i < self@.len(),
        ensures
            r@ == self@[i as int],
    {
        &self.entries[i]
    }

    /// The place of the profile called `name`.
    pub fn find(&self, name: &str) -> (r: Option<usize>)
        ensures
            r is Some <==> has_name(self@, name@),
            r is Some ==> r->0 == position(self@, name@) && r->0 < self@.len(),
            r is None ==> position(self@, name@) == self@.len(),
    {
        let mut i: usize = 0;
        while i < self.entries.len()
            invariant
                i <= self.entries.len(),
                self@ == entry_views(self.entries@),
                forall|k: int| 0 <= k < i ==> (#[trigger] self@[k]).name != name@,
            decreases self.entries.len() - i,
        {
            if compare_text(self.entries[i].name.as_str(), name) == 0 {
                proof {
                    lemma_position(self@, name@);
                    assert(self@[i as int].name == name@);
                }
                return Some(i);
            }
            i = i + 1;
        }
        proof {
            lemma_position(self@, name@);
        }
        None
    }

    /// Whether a profile is called `name`.
    pub fn contains_key(&self, name: &str) -> (r: bool)
        ensures
            r == has_name(self@, name@),
    {
        self.find(name).is_some()
    }

    /// The profile called `name`.
    pub fn get(&self, name: &str) -> (r: Option<&Profile>)
        ensures
            r is Some <==> has_name(self@, name@),
            r is Some ==> r->0@ == self@[position(self@, name@)].profile,
    {
        match self.find(name) {
            Some(i) => Some(&self.entries[i].profile),
            None => None,
        }
    }

    /// Puts `profile` under `name`: in the place of the profile that had the
    /// name, or after all others where none had it.
    pub fn insert(&mut self, name: String, profile: Profile)
        ensures
            has_name(old(self)@, name@) ==> final(self)@ == old(self)@.update(
                position(old(self)@, name@),
                EntryView { name: name@, profile: profile@ },
            ),
            !has_name(old(self)@, name@) ==> final(self)@ == old(self)@.push(
                EntryView { name: name@, profile: profile@ },
            ),
    {
        proof {
            use_type_invariant(&*self);
            lemma_position(self@, name@);
        }
        let ghost before = self@;
        let found = self.find(name.as_str());
        let entry = ProfileEntry { name, profile };
        let ghost added = entry@;
        let n: usize = self.entries.len();
        let at: usize = match found {
            Some(i) => i,
            None => n,
        };
        let mut entries: Vec<ProfileEntry> = Vec::new();
        let mut i: usize = 0;
        while i < at
            invariant
                i <= at <= n,
                n == self.entries.len(),
                entries.len() == i,
                before == entry_views(self.entries@),
                forall|k: int| 0 <= k < i ==> entries@[k]@ == before[k],
            decreases at - i,
        {
            entries.push(self.entries[i].clone());
            i = i + 1;
        }
        entries.push(entry);
        if at < n {
            i = at + 1;
            while i < n
                invariant
                    at < i <= n,
                    n == self.entries.len(),
                    entries.len() == i,
                    before == entry_views(self.entries@),
                    forall|k: int| 0 <= k < i && k != at ==> entries@[k]@ == before[k],
                    entries@[at as int]@ == added,
                decreases n - i,
            {
                entries.push(self.entries[i].clone());
                i = i + 1;
            }
        }
        proof {
            if found is Some {
                assert(entry_views(entries@) =~= before.update(at as int, added));
            } else {
                assert(entry_views(entries@) =~= before.push(added));
                assert forall|k: int| 0 <= k < before.len() implies (#[trigger] before[k]).name
                    != added.name by {}
            }
        }
        self.entries = entries;
    }
}

impl Clone for Profiles {
    fn clone(&self) -> (r: Self)
        ensures
            r@ == self@,
    {
        proof {
            use_type_invariant(self);
        }
        let mut entries: Vec<ProfileEntry> = Vec::new();
        let mut i: usize = 0;
        while i < self.entries.len()
            invariant
                i <= self.entries.len(),
                entries.len() == i,
                forall|k: int| 0 <= k < i ==> entries@[k]@ == self.entries@[k]@,
            decreases self.entries.len() - i,
        {
            entries.push(self.entries[i].clone());
            i = i + 1;
        }
        assert(entry_views(entries@) =~= entry_views(self.entries@));
        Profiles { entries }
    }
}

/// The whole configuration.
#[derive(Debug, PartialEq, Eq)]
pub struct Config {
    pub profiles: Profiles,
    pub auto_switch: AutoSwitch,
    pub monitor_detection: MonitorDetection,
    /// The name of the active profile.
    pub current_profile: String,
}

/// What a configuration holds.
pub struct ConfigView {
    pub profiles: Seq<EntryView>,
    pub auto_switch: AutoSwitch,
    pub monitor_detection: MonitorDetection,
    pub current_profile: Seq<char>,
}

impl View for Config {
    type V = ConfigView;

    open spec fn view(&self) -> ConfigView {
        ConfigView {
            profiles: self.profiles@,
            auto_switch: self.auto_switch,
            monitor_detection: self.monitor_detection,
            current_profile: self.current_profile@,
        }
    }
}

impl Clone for Config {
    fn clone(&self) -> (r: Self)
        ensures
            r@ == self@,
    {
        Config {
            profiles: self.profiles.clone(),
            auto_switch: self.auto_switch,
            monitor_detection: self.monitor_detection,
            current_profile: self.current_profile.clone(),
        }
    }
}

/// Where the configuration file lies below the user's configuration
/// directory.
pub open spec fn config_file() -> Seq<char> {
    "swww-manager/config.toml"@
}

/// One profile of the configuration that a new installation starts with.
pub open spec fn starter_profile(
    monitors: Seq<Seq<char>>,
    dir: Seq<char>,
    transition: Seq<char>,
    seconds: u32,
) -> ProfileView {
    ProfileView {
        monitors,
        wallpaper_dirs: seq![dir],
        transition,
        transition_duration: seconds,
    }
}

/// The configuration that a new installation starts with, for a user whose
/// home directory is `home`: a wildcard profile, which is active, and one
/// example each for two monitors and for a laptop panel.
pub open spec fn starter_config(home: Seq<char>) -> ConfigView {
    ConfigView {
        profiles: seq![
            EntryView {
                name: "default"@,
                profile: starter_profile(
                    seq!["*"@],
                    joined(home, "Pictures/Wallpapers"@),
                    "wipe"@,
                    2,
                ),
            },
            EntryView {
                name: "dual_monitor"@,
                profile: starter_profile(
                    seq!["DP-1"@, "HDMI-A-1"@],
                    joined(home, "Pictures/Wallpapers/Dual"@),
                    "fade"@,
                    3,
                ),
            },
            EntryView {
                name: "laptop"@,
                profile: starter_profile(
                    seq!["eDP-1"@],
                    joined(home, "Pictures/Wallpapers/Laptop"@),
                    "simple"@,
                    1,
                ),
            },
        ],
        auto_switch: AutoSwitch { enabled: false, interval: 300, mode: SwitchMode::Random },
        monitor_detection: MonitorDetection { enabled: true },
        current_profile: "default"@,
    }
}

/// `dirs::home_dir`: the home directory that the environment names for the
/// user, as text. Nothing is claimed of the answer.
#[verifier::external_body]
fn home_dir() -> (r: Option<String>) {
    match dirs::home_dir() {
        Some(p) => Some(p.to_string_lossy().into_owned()),
        None => None,
    }
}

/// `dirs::config_dir`: the directory that the environment names for the
/// user's configuration files, as text. Nothing is claimed of the answer.
#[verifier::external_body]
fn config_dir() -> (r: Option<String>) {
    match dirs::config_dir() {
        Some(p) => Some(p.to_string_lossy().into_owned()),
        None => None,
    }
}

fn starter(monitors: Vec<String>, home: &str, rel: &str, transition: &str, seconds: u32) -> (r:
    Profile)
    ensures
        r@ == starter_profile(texts(monitors@), joined(home@, rel@), transition@, seconds),
{
    let mut wallpaper_dirs: Vec<String> = Vec::new();
    wallpaper_dirs.push(join_path(home, rel));
    let r = Profile {
        monitors,
        wallpaper_dirs,
        transition: String::from_str(transition),
        transition_duration: seconds,
    };
    assert(r@.wallpaper_dirs =~= seq![joined(home@, rel@)]);
    r
}

impl Config {
    /// The configuration file below the directory `dir`.
    pub fn path_in(dir: &str) -> (r: String)
        ensures
            r@ == joined(dir@, config_file()),
    {
        join_path(dir, "swww-manager/config.toml")
    }

    /// The configuration file of a user for whom the environment names the
    /// configuration directory `dir`, or names none: the file below that
    /// directory, and no file where there is no directory.
    pub fn path_for(dir: &Option<String>) -> (r: Option<String>)
        ensures
            r is Some <==> dir is Some,
            r is Some ==> r->0@ == joined(dir->0@, config_file()),
    {
        match dir {
            Some(d) => Some(Config::path_in(d.as_str())),
            None => None,
        }
    }

    /// The configuration file of the user, where the environment names a
    /// configuration directory.
    pub fn default_path() -> (r: Option<String>)
        ensures
            r is Some ==> exists|dir: Seq<char>| r->0@ == joined(dir, config_file()),
    {
        let dir = config_dir();
        let r = Config::path_for(&dir);
        proof {
            if r is Some {
                assert(r->0@ == joined(dir->0@, config_file()));
            }
        }
        r
    }

    /// The configuration that a new installation starts with, for the home
    /// directory `home`.
    pub fn default_in(home: &str) -> (r: Config)
        ensures
            r@ == starter_config(home@),
    {
        proof {
            reveal_strlit("default");
            reveal_strlit("dual_monitor");
            reveal_strlit("laptop");
        }
        let mut any: Vec<String> = Vec::new();
        any.push(String::from_str("*"));
        assert(texts(any@) =~= seq!["*"@]);
        let mut dual: Vec<String> = Vec::new();
        dual.push(String::from_str("DP-1"));
        dual.push(String::from_str("HDMI-A-1"));
        assert(texts(dual@) =~= seq!["DP-1"@, "HDMI-A-1"@]);
        let mut laptop: Vec<String> = Vec::new();
        laptop.push(String::from_str("eDP-1"));
        assert(texts(laptop@) =~= seq!["eDP-1"@]);

        let mut profiles = Profiles::new();
        profiles.insert(
            String::from_str("default"),
            starter(any, home, "Pictures/Wallpapers", "wipe", 2),
        );
        let ghost one = profiles@;
        assert(!has_name(one, "dual_monitor"@)) by {
            assert forall|i: int| 0 <= i < one.len() implies (#[trigger] one[i]).name
                != "dual_monitor"@ by {
                assert(one[i].name.len() != "dual_monitor"@.len());
            }
        }
        profiles.insert(
            String::from_str("dual_monitor"),
            starter(dual, home, "Pictures/Wallpapers/Dual", "fade", 3),
        );
        let ghost two = profiles@;
        assert(!has_name(two, "laptop"@)) by {
            assert forall|i: int| 0 <= i < two.len() implies (#[trigger] two[i]).name
                != "laptop"@ by {
                assert(two[i].name.len() != "laptop"@.len());
            }
        }
        profiles.insert(
            String::from_str("laptop"),
            starter(laptop, home, "Pictures/Wallpapers/Laptop", "simple", 1),
        );
        let r = Config {
            profiles,
            auto_switch: AutoSwitch { enabled: false, interval: 300, mode: SwitchMode::Random },
            monitor_detection: MonitorDetection { enabled: true },
            current_profile: String::from_str("default"),
        };
        assert(r@.profiles =~= starter_config(home@).profiles);
        r
    }

    /// The configuration that a new installation starts with, for a user for
    /// whom the environment names the home directory `home`, or names none:
    /// the directories of the profiles then lie below no directory.
    pub fn default_for(home: &Option<String>) -> (r: Config)
        ensures
            r@ == starter_config(
                match *home {
                    Some(h) => h@,
                    None => Seq::empty(),
                },
            ),
    {
        match home {
            Some(h) => Config::default_in(h.as_str()),
            None => {
                let none = String::new();
                Config::default_in(none.as_str())
            },
        }
    }

    /// The configuration that a new installation starts with, for the home
    /// directory that the environment names, or for none where it names none.
    pub fn default() -> (r: Config)
        ensures
            exists|home: Seq<char>| r@ == starter_config(home),
    {
        let home = home_dir();
        let r = Config::default_for(&home);
        assert(r@ == starter_config(
            match home {
                Some(h) => h@,
                None => Seq::empty(),
            },
        ));
        r
    }
}

} // verus!
