//! The profiles of a configuration and the one that is active: which profile
//! fits a set of monitors, and switching to a profile by name.

use vstd::prelude::*;
use vstd::string::*;
use crate::config::{Config, ConfigView, EntryView, Profile, has_name, position};
use crate::protocol::{ProfileInfo, ProfileInfoView, info_views};
use crate::error::{Error, ErrorKind, ErrorView};
use crate::text::{same_set, texts};

verus! {

/// The place of the first profile of `s` that names exactly the monitors of
/// `snapshot`, or the length of `s` where none does.
pub open spec fn first_exact(s: Seq<EntryView>, snapshot: Seq<Seq<char>>) -> int
    decreases s.len(),
{
    if s.len() == 0 {
        0
    } else if s[0].profile.names_exactly(snapshot) {
        0
    } else {
        1 + first_exact(s.drop_first(), snapshot)
    }
}

/// The place of the first wildcard profile of `s`, or the length of `s`
/// where it has none.
pub open spec fn first_wildcard(s: Seq<EntryView>) -> int
    decreases s.len(),
{
    if s.len() == 0 {
        0
    } else if s[0].profile.is_wildcard() {
        0
    } else {
        1 + first_wildcard(s.drop_first())
    }
}

/// The profile for the monitors of `snapshot`: the first that names exactly
/// these monitors; where none does, the first wildcard profile; where there
/// is none either, no profile.
pub open spec fn detected(s: Seq<EntryView>, snapshot: Seq<Seq<char>>) -> Option<Seq<char>> {
    if first_exact(s, snapshot) < s.len() {
        Some(s[first_exact(s, snapshot)].name)
    } else if first_wildcard(s) < s.len() {
        Some(s[first_wildcard(s)].name)
    } else {
        None
    }
}

/// `first_exact` is the least place of a profile that names exactly the
/// monitors of `snapshot`.
pub proof fn lemma_first_exact(s: Seq<EntryView>, snapshot: Seq<Seq<char>>)
    ensures
        0 <= first_exact(s, snapshot) <= s.len(),
        forall|k: int|
            0 <= k < first_exact(s, snapshot) ==> !(#[trigger] s[k]).profile.names_exactly(
                snapshot,
            ),
        first_exact(s, snapshot) < s.len() ==> s[first_exact(s, snapshot)].profile.names_exactly(
            snapshot,
        ),
    decreases s.len(),
{
    if s.len() > 0 && !s[0].profile.names_exactly(snapshot) {
        let t = s.drop_first();
        lemma_first_exact(t, snapshot);
        assert forall|k: int| 0 <= k < first_exact(s, snapshot) implies !(#[trigger] s[k]).profile
            .names_exactly(snapshot) by {
            if k > 0 {
                assert(s[k] == t[k - 1]);
            }
        }
        if first_exact(s, snapshot) < s.len() {
            assert(s[first_exact(s, snapshot)] == t[first_exact(t, snapshot)]);
        }
    }
}

/// `first_wildcard` is the least place of a wildcard profile.
pub proof fn lemma_first_wildcard(s: Seq<EntryView>)
    ensures
        0 <= first_wildcard(s) <= s.len(),
        forall|k: int| 0 <= k < first_wildcard(s) ==> !(#[trigger] s[k]).profile.is_wildcard(),
        first_wildcard(s) < s.len() ==> s[first_wildcard(s)].profile.is_wildcard(),
    decreases s.len(),
{
    if s.len() > 0 && !s[0].profile.is_wildcard() {
        let t = s.drop_first();
        lemma_first_wildcard(t);
        assert forall|k: int| 0 <= k < first_wildcard(s) implies !(#[trigger] s[k]).profile
            .is_wildcard() by {
            if k > 0 {
                assert(s[k] == t[k - 1]);
            }
        }
        if first_wildcard(s) < s.len() {
            assert(s[first_wildcard(s)] == t[first_wildcard(t)]);
        }
    }
}

/// The message for a profile name that the configuration lacks.
pub open spec fn not_found_message(name: Seq<char>) -> Seq<char> {
    "Profile '"@ + name + "' not found"@
}

/// The failure for a profile name that the configuration lacks.
pub open spec fn not_found(name: Seq<char>) -> ErrorView {
    ErrorView { kind: ErrorKind::NotFound, message: not_found_message(name) }
}

/// The failure for a configuration whose active profile it does not hold.
pub open spec fn no_current() -> ErrorView {
    ErrorView { kind: ErrorKind::NotFound, message: "Current profile not found"@ }
}

/// The profiles of a configuration and the one that is active.
#[derive(Debug, PartialEq, Eq)]
pub struct ProfileManager {
    config: Config,
}

impl View for ProfileManager {
    type V = ConfigView;

    closed spec fn view(&self) -> ConfigView {
        self.config@
    }
}

impl Clone for ProfileManager {
    fn clone(&self) -> (r: Self)
        ensures
            r@ == self@,
    {
        ProfileManager { config: self.config.clone() }
    }
}

impl ProfileManager {
    /// A manager of the profiles of `config`.
    pub fn new(config: Config) -> (r: Self)
        ensures
            r@ == config@,
    {
        ProfileManager { config }
    }

    /// The active profile. Fails where the configuration holds no profile of
    /// the active name.
    pub fn current_profile(&self) -> (r: Result<&Profile, Error>)
        ensures
            r is Ok <==> has_name(self@.profiles, self@.current_profile),
            r is Ok ==> r->Ok_0@ == self@.profiles[position(
                self@.profiles,
                self@.current_profile,
            )].profile,
            r is Err ==> r->Err_0@ == no_current(),
    {
        match self.config.profiles.get(self.config.current_profile.as_str()) {
            Some(p) => Ok(p),
            None => Err(
                Error::new(ErrorKind::NotFound, String::from_str("Current profile not found")),
            ),
        }
    }

    /// Makes the profile called `name` the active one. Fails, and changes
    /// nothing, where the configuration holds no profile of that name.
    pub fn switch_to(&mut self, name: &str) -> (r: Result<(), Error>)
        ensures
            r is Ok <==> has_name(old(self)@.profiles, name@),
            r is Ok ==> final(self)@ == (ConfigView { current_profile: name@, ..old(self)@ }),
            r is Err ==> final(self)@ == old(self)@ && r->Err_0@ == not_found(name@),
    {
        if !self.config.profiles.contains_key(name) {
            let mut message = String::from_str("Profile '");
            message.append(name);
            message.append("' not found");
            return Err(Error::new(ErrorKind::NotFound, message));
        }
        self.config.current_profile = String::from_str(name);
        Ok(())
    }

    /// The name of the profile for the monitors of `monitors`, in whatever
    /// order and however often each is listed: see [`detected`]. Never fails.
    pub fn detect_profile(&self, monitors: &[String]) -> (r: Result<Option<String>, Error>)
        ensures
            r is Ok,
            crate::protocol::opt_text(r->Ok_0) == detected(self@.profiles, texts(monitors@)),
    {
        let ghost s = self@.profiles;
        let ghost snapshot = texts(monitors@);
        let n: usize = self.config.profiles.len();
        let mut exact: Option<usize> = None;
        let mut wild: Option<usize> = None;
        let mut i: usize = 0;
        while i < n
            invariant
                i <= n,
                n == s.len(),
                s == self.config.profiles@,
                snapshot == texts(monitors@),
                exact is Some ==> exact->0 < i && s[exact->0 as int].profile.names_exactly(
                    snapshot,
                ),
                forall|k: int|
                    0 <= k < (if exact is Some {
                        exact->0 as int
                    } else {
                        i as int
                    }) ==> !(#[trigger] s[k]).profile.names_exactly(snapshot),
                wild is Some ==> wild->0 < i && s[wild->0 as int].profile.is_wildcard(),
                forall|k: int|
                    0 <= k < (if wild is Some {
                        wild->0 as int
                    } else {
                        i as int
                    }) ==> !(#[trigger] s[k]).profile.is_wildcard(),
            decreases n - i,
        {
            let entry = self.config.profiles.entry(i);
            if entry.profile.is_wildcard() {
                if wild.is_none() {
                    wild = Some(i);
                }
            } else if exact.is_none() && same_set(entry.profile.monitors.as_slice(), monitors) {
                exact = Some(i);
            }
            i = i + 1;
        }
        proof {
            lemma_first_exact(s, snapshot);
            lemma_first_wildcard(s);
        }
        match exact {
            Some(k) => Ok(Some(self.config.profiles.entry(k).name.clone())),
            None => match wild {
                Some(k) => Ok(Some(self.config.profiles.entry(k).name.clone())),
                None => Ok(None),
            },
        }
    }

    /// Puts `config` in the place of the configuration.
    pub fn update_config(&mut self, config: Config)
        ensures
            final(self)@ == config@,
    {
        self.config = config;
    }

    /// The configuration.
    pub fn config(&self) -> (r: &Config)
        ensures
            r@ == self@,
    {
        &self.config
    }
}

} // verus!

verus! {

/// Exact match comes first: where some profile that is no wildcard names
/// exactly the monitors of the snapshot, the profile that is detected is the
/// first such profile, whatever wildcard profiles the configuration holds and
/// wherever they stand. So it is `p` itself where `p` is the only one.
pub proof fn law_exact_match_priority(s: Seq<EntryView>, snapshot: Seq<Seq<char>>, p: int)
    requires
        0 <= p < s.len(),
        s[p].profile.names_exactly(snapshot),
    ensures
        0 <= first_exact(s, snapshot) <= p,
        detected(s, snapshot) == Some(s[first_exact(s, snapshot)].name),
        s[first_exact(s, snapshot)].profile.names_exactly(snapshot),
        !s[first_exact(s, snapshot)].profile.is_wildcard(),
        (forall|k: int| 0 <= k < s.len() && (#[trigger] s[k]).profile.names_exactly(snapshot) ==> k == p)
            ==> detected(s, snapshot) == Some(s[p].name),
{
    lemma_first_exact(s, snapshot);
}

/// Wildcard fallback: where no profile names exactly the monitors of the
/// snapshot and the configuration holds a wildcard profile, the first
/// wildcard profile is detected. So it is `w` itself where `w` is the only
/// one.
pub proof fn law_wildcard_fallback(s: Seq<EntryView>, snapshot: Seq<Seq<char>>, w: int)
    requires
        0 <= w < s.len(),
        s[w].profile.is_wildcard(),
        forall|k: int| 0 <= k < s.len() ==> !(#[trigger] s[k]).profile.names_exactly(snapshot),
    ensures
        0 <= first_wildcard(s) <= w,
        detected(s, snapshot) == Some(s[first_wildcard(s)].name),
        s[first_wildcard(s)].profile.is_wildcard(),
        (forall|k: int| 0 <= k < s.len() && (#[trigger] s[k]).profile.is_wildcard() ==> k == w)
            ==> detected(s, snapshot) == Some(s[w].name),
{
    lemma_first_exact(s, snapshot);
    lemma_first_wildcard(s);
}

/// No match: without a wildcard profile and without a profile that names
/// exactly the monitors of the snapshot, no profile is detected.
pub proof fn law_no_match(s: Seq<EntryView>, snapshot: Seq<Seq<char>>)
    requires
        forall|k: int| 0 <= k < s.len() ==> !(#[trigger] s[k]).profile.is_wildcard(),
        forall|k: int| 0 <= k < s.len() ==> !(#[trigger] s[k]).profile.names_exactly(snapshot),
    ensures
        detected(s, snapshot) is None,
{
    lemma_first_exact(s, snapshot);
    lemma_first_wildcard(s);
}

/// Detection reads the snapshot as a set: two snapshots that name the same
/// monitors, in whatever order and however often, detect the same profile.
pub proof fn law_snapshot_is_a_set(s: Seq<EntryView>, a: Seq<Seq<char>>, b: Seq<Seq<char>>)
    requires
        a.to_set() == b.to_set(),
    ensures
        detected(s, a) == detected(s, b),
    decreases s.len(),
{
    lemma_same_first_exact(s, a, b);
}

proof fn lemma_same_first_exact(s: Seq<EntryView>, a: Seq<Seq<char>>, b: Seq<Seq<char>>)
    requires
        a.to_set() == b.to_set(),
    ensures
        first_exact(s, a) == first_exact(s, b),
    decreases s.len(),
{
    if s.len() > 0 {
        lemma_same_first_exact(s.drop_first(), a, b);
    }
}

} // verus!

verus! {

/// The number of images of the profile at place `i`, where `counts` holds
/// one number for each profile in order: the number at that place, or none
/// where `counts` ends before it.
pub open spec fn count_at(counts: Seq<usize>, i: int) -> usize {
    if 0 <= i < counts.len() {
        counts[i]
    } else {
        0
    }
}

/// What a client is told of the profile at place `i`.
pub open spec fn info_at(c: ConfigView, counts: Seq<usize>, i: int) -> ProfileInfoView {
    ProfileInfoView {
        name: c.profiles[i].name,
        monitors: c.profiles[i].profile.monitors,
        wallpaper_count: count_at(counts, i),
        is_current: c.profiles[i].name == c.current_profile,
        transition: Some(c.profiles[i].profile.transition),
        transition_duration: Some(c.profiles[i].profile.transition_duration),
    }
}

/// What a client is told of the profiles, in their order.
pub open spec fn profile_list(c: ConfigView, counts: Seq<usize>) -> Seq<ProfileInfoView> {
    Seq::new(c.profiles.len(), |i: int| info_at(c, counts, i))
}

/// The wallpaper directories of each profile, in the order of the profiles.
pub open spec fn all_dirs(c: ConfigView) -> Seq<Seq<Seq<char>>> {
    Seq::new(c.profiles.len(), |i: int| c.profiles[i].profile.wallpaper_dirs)
}

/// The views of a list of lists of strings.
pub open spec fn text_lists(v: Seq<Vec<String>>) -> Seq<Seq<Seq<char>>> {
    Seq::new(v.len(), |i: int| texts(v[i]@))
}

impl ProfileManager {
    /// The wallpaper directories of each profile, in the order of the
    /// profiles: where the images of each are to be counted.
    pub fn wallpaper_dirs(&self) -> (r: Vec<Vec<String>>)
        ensures
            text_lists(r@) == all_dirs(self@),
    {
        let n: usize = self.config.profiles.len();
        let mut r: Vec<Vec<String>> = Vec::new();
        let mut i: usize = 0;
        while i < n
            invariant
                i <= n,
                n == self@.profiles.len(),
                self@.profiles == self.config.profiles@,
                r.len() == i,
                forall|k: int|
                    0 <= k < i ==> texts((#[trigger] r@[k])@) == self@.profiles[k].profile.wallpaper_dirs,
            decreases n - i,
        {
            let entry = self.config.profiles.entry(i);
            r.push(crate::text::clone_texts(&entry.profile.wallpaper_dirs));
            i = i + 1;
        }
        assert(text_lists(r@) =~= all_dirs(self@));
        r
    }

    /// What a client is told of the profiles, where `counts` holds the
    /// number of images of each profile in order.
    pub fn get_profile_list(&self, counts: &[usize]) -> (r: Vec<ProfileInfo>)
        ensures
            info_views(r@) == profile_list(self@, counts@),
    {
        let n: usize = self.config.profiles.len();
        let mut r: Vec<ProfileInfo> = Vec::new();
        let mut i: usize = 0;
        while i < n
            invariant
                i <= n,
                n == self@.profiles.len(),
                self@ == self.config@,
                r.len() == i,
                forall|k: int| 0 <= k < i ==> (#[trigger] r@[k])@ == info_at(self@, counts@, k),
            decreases n - i,
        {
            let entry = self.config.profiles.entry(i);
            let count: usize = if i < counts.len() {
                counts[i]
            } else {
                0
            };
            let is_current = crate::text::compare_text(
                entry.name.as_str(),
                self.config.current_profile.as_str(),
            ) == 0;
            r.push(
                ProfileInfo {
                    name: entry.name.clone(),
                    monitors: crate::text::clone_texts(&entry.profile.monitors),
                    wallpaper_count: count,
                    is_current,
                    transition: Some(entry.profile.transition.clone()),
                    transition_duration: Some(entry.profile.transition_duration),
                },
            );
            i = i + 1;
        }
        assert(info_views(r@) =~= profile_list(self@, counts@));
        r
    }
}

} // verus!

verus! {

/// The mark of the active profile in the plain list, or of another.
pub open spec fn plain_marker(is_current: bool) -> Seq<char> {
    if is_current {
        "\u{e2}\u{153}\u{201c}"@
    } else {
        " "@
    }
}

/// What the plain list tells of a profile.
pub open spec fn plain_entry(e: EntryView, is_current: bool) -> Seq<char> {
    "["@ + plain_marker(is_current) + "] "@ + e.name + "\n"@ + "Monitors: "@
        + crate::text::joined_with(e.profile.monitors, ", "@) + "\n"@ + "Wallpaper dirs: "@
        + crate::text::decimal(e.profile.wallpaper_dirs.len()) + "\n"@ + "Transition: "@
        + e.profile.transition + " ("@ + crate::text::decimal(
        e.profile.transition_duration as nat,
    ) + "s)\n"@ + "\n"@
}

/// What the plain list tells of the profiles of `s`, in their order.
pub open spec fn plain_entries(s: Seq<EntryView>, current: Seq<char>) -> Seq<char>
    decreases s.len(),
{
    if s.len() == 0 {
        Seq::empty()
    } else {
        plain_entries(s.drop_last(), current) + plain_entry(s.last(), s.last().name == current)
    }
}

/// The plain list of the profiles of a configuration.
pub open spec fn plain_list(c: ConfigView) -> Seq<char> {
    "\nAvailable Profiles:\n"@ + crate::text::repeated("-"@, 50) + "\n"@ + plain_entries(
        c.profiles,
        c.current_profile,
    )
}

impl ProfileManager {
    /// The plain list of the profiles, as it is shown.
    pub fn list(&self) -> (r: String)
        ensures
            r@ == plain_list(self@),
    {
        let ghost all = self@.profiles;
        let ghost current = self@.current_profile;
        let n: usize = self.config.profiles.len();
        let mut body = String::new();
        let mut i: usize = 0;
        assert(all.take(0) =~= Seq::<EntryView>::empty());
        while i < n
            invariant
                i <= n,
                n == all.len(),
                all == self@.profiles,
                all == self.config.profiles@,
                current == self.config.current_profile@,
                body@ == plain_entries(all.take(i as int), current),
            decreases n - i,
        {
            let entry = self.config.profiles.entry(i);
            proof {
                assert(all.take(i + 1).drop_last() =~= all.take(i as int));
                assert(all.take(i + 1).last() == entry@);
            }
            let is_current = crate::text::compare_text(
                entry.name.as_str(),
                self.config.current_profile.as_str(),
            ) == 0;
            let mut e = String::from_str("[");
            if is_current {
                e.append("\u{e2}\u{153}\u{201c}");
            } else {
                e.append(" ");
            }
            e.append("] ");
            e.append(entry.name.as_str());
            e.append("\n");
            e.append("Monitors: ");
            e.append(crate::text::join_texts(entry.profile.monitors.as_slice(), ", ").as_str());
            e.append("\n");
            e.append("Wallpaper dirs: ");
            e.append(crate::text::decimal_text(entry.profile.wallpaper_dirs.len() as u64).as_str());
            e.append("\n");
            e.append("Transition: ");
            e.append(entry.profile.transition.as_str());
            e.append(" (");
            e.append(crate::text::decimal_text(entry.profile.transition_duration as u64).as_str());
            e.append("s)\n");
            e.append("\n");
            assert(texts(entry.profile.wallpaper_dirs@).len() == entry.profile.wallpaper_dirs@.len());
            assert(e@ == plain_entry(entry@, is_current));
            body.append(e.as_str());
            i = i + 1;
        }
        assert(all.take(n as int) =~= all);
        let mut r = String::from_str("\nAvailable Profiles:\n");
        r.append(crate::text::repeat_text("-", 50).as_str());
        r.append("\n");
        r.append(body.as_str());
        r
    }
}

} // verus!
