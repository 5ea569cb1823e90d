//! The candidate images of the active profile and the choice of the next
//! wallpaper among them.

use vstd::prelude::*;
use vstd::string::*;
use crate::config::{Config, Profile, SwitchMode};
use crate::error::{Error, ErrorKind, ErrorView};
use crate::protocol::{clone_opt_text, opt_text};
use crate::text::{
    compare_text, decimal, decimal_text, lemma_lt_irreflexive, lemma_lt_total,
    lemma_lt_transitive, strictly_sorted, text_lt, texts,
};

verus! {

/// `r` lists what `found` lists, each path once, in order.
pub open spec fn is_normal_form(r: Seq<Seq<char>>, found: Seq<Seq<char>>) -> bool {
    strictly_sorted(r) && r.to_set() == found.to_set()
}

/// The paths of `found`, each once, in order.
pub open spec fn normalized(found: Seq<Seq<char>>) -> Seq<Seq<char>> {
    choose|r: Seq<Seq<char>>| is_normal_form(r, found)
}

proof fn lemma_least_first(a: Seq<Seq<char>>, b: Seq<Seq<char>>)
    requires
        strictly_sorted(a),
        strictly_sorted(b),
        a.to_set() == b.to_set(),
        a.len() > 0,
    ensures
        b.len() > 0,
        a[0] == b[0],
{
    assert(a.contains(a[0]));
    assert(a.to_set().contains(a[0]));
    assert(b.contains(a[0]));
    let k = choose|k: int| 0 <= k < b.len() && b[k] == a[0];
    assert(b.contains(b[0]));
    assert(b.to_set().contains(b[0]));
    assert(a.contains(b[0]));
    let m = choose|m: int| 0 <= m < a.len() && a[m] == b[0];
    lemma_lt_irreflexive(a[0]);
    if k > 0 {
        assert(text_lt(b[0], b[k]));
        if m > 0 {
            assert(text_lt(a[0], a[m]));
            lemma_lt_transitive(a[0], b[0], a[0]);
        }
    }
}

proof fn lemma_rest_same_set(a: Seq<Seq<char>>, b: Seq<Seq<char>>)
    requires
        strictly_sorted(a),
        strictly_sorted(b),
        a.to_set() == b.to_set(),
        a.len() > 0,
        b.len() > 0,
        a[0] == b[0],
    ensures
        strictly_sorted(a.drop_first()),
        strictly_sorted(b.drop_first()),
        a.drop_first().to_set() == b.drop_first().to_set(),
{
    let x = a.drop_first();
    let y = b.drop_first();
    assert forall|i: int, j: int| 0 <= i < j < x.len() implies text_lt(
        #[trigger] x[i],
        #[trigger] x[j],
    ) by {
        assert(text_lt(a[i + 1], a[j + 1]));
    }
    assert forall|i: int, j: int| 0 <= i < j < y.len() implies text_lt(
        #[trigger] y[i],
        #[trigger] y[j],
    ) by {
        assert(text_lt(b[i + 1], b[j + 1]));
    }
    lemma_lt_irreflexive(a[0]);
    assert forall|p: Seq<char>| x.to_set().contains(p) == y.to_set().contains(p) by {
        if x.contains(p) {
            let i = choose|i: int| 0 <= i < x.len() && x[i] == p;
            assert(a[i + 1] == p);
            assert(text_lt(a[0], a[i + 1]));
            assert(a.contains(p));
            assert(a.to_set().contains(p));
            assert(b.contains(p));
            let k = choose|k: int| 0 <= k < b.len() && b[k] == p;
            assert(k > 0);
            assert(y[k - 1] == p);
        }
        if y.contains(p) {
            let i = choose|i: int| 0 <= i < y.len() && y[i] == p;
            assert(b[i + 1] == p);
            assert(text_lt(b[0], b[i + 1]));
            assert(b.contains(p));
            assert(b.to_set().contains(p));
            assert(a.contains(p));
            let k = choose|k: int| 0 <= k < a.len() && a[k] == p;
            assert(k > 0);
            assert(x[k - 1] == p);
        }
    }
    assert(x.to_set() =~= y.to_set());
}

proof fn lemma_sorted_same_set(a: Seq<Seq<char>>, b: Seq<Seq<char>>)
    requires
        strictly_sorted(a),
        strictly_sorted(b),
        a.to_set() == b.to_set(),
    ensures
        a == b,
    decreases a.len(),
{
    if a.len() == 0 {
        if b.len() > 0 {
            assert(b.contains(b[0]));
            assert(b.to_set().contains(b[0]));
            assert(a.contains(b[0]));
        }
        assert(a =~= b);
    } else {
        lemma_least_first(a, b);
        lemma_rest_same_set(a, b);
        lemma_sorted_same_set(a.drop_first(), b.drop_first());
        assert(a =~= seq![a[0]] + a.drop_first());
        assert(b =~= seq![b[0]] + b.drop_first());
    }
}

/// There is one way only to list a set of paths in order: what lists the
/// paths of `found`, each once, in order, is `normalized(found)`.
pub proof fn lemma_normal_form_unique(r: Seq<Seq<char>>, found: Seq<Seq<char>>)
    requires
        is_normal_form(r, found),
    ensures
        r == normalized(found),
{
    lemma_sorted_same_set(r, normalized(found));
}

/// The paths of `found`, each once, in order.
pub fn normalize(found: &[String]) -> (r: Vec<String>)
    ensures
        texts(r@) == normalized(texts(found@)),
        is_normal_form(texts(r@), texts(found@)),
{
    let mut r: Vec<String> = Vec::new();
    let mut i: usize = 0;
    while i < found.len()
        invariant
            i <= found.len(),
            strictly_sorted(texts(r@)),
            forall|k: int| 0 <= k < i ==> texts(r@).contains(#[trigger] texts(found@)[k]),
            forall|k: int|
                0 <= k < r.len() ==> texts(found@).contains(#[trigger] texts(r@)[k]),
        decreases found.len() - i,
    {
        let item = &found[i];
        let ghost x = item@;
        let ghost before = texts(r@);
        let mut at: usize = 0;
        let mut present = false;
        while at < r.len()
            invariant_except_break
                !present,
            invariant
                at <= r.len(),
                x == item@,
                before == texts(r@),
                forall|k: int| 0 <= k < at ==> text_lt(#[trigger] before[k], x),
            ensures
                at <= r.len(),
                before == texts(r@),
                forall|k: int| 0 <= k < at ==> text_lt(#[trigger] before[k], x),
                present ==> at < r.len() && before[at as int] == x,
                !present ==> (at == r.len() || text_lt(x, before[at as int])),
            decreases r.len() - at,
        {
            let c: i8 = compare_text(r[at].as_str(), item.as_str());
            assert(before[at as int] == r@[at as int]@);
            if c == 0 {
                present = true;
                break ;
            }
            if c > 0 {
                break ;
            }
            at = at + 1;
        }
        assert(texts(found@)[i as int] == x);
        if !present {
            r.insert(at, item.clone());
            proof {
                let after = texts(r@);
                assert(after =~= before.insert(at as int, x));
                if at < before.len() {
                    assert(text_lt(x, before[at as int]));
                }
                lemma_insert_keeps_order(before, x, at as int);
                assert(after[at as int] == x);
                assert forall|k: int| 0 <= k < i + 1 implies after.contains(
                    #[trigger] texts(found@)[k],
                ) by {
                    if k < i {
                        let y = texts(found@)[k];
                        assert(before.contains(y));
                        let m = choose|m: int| 0 <= m < before.len() && before[m] == y;
                        if m < at {
                            assert(after[m] == y);
                        } else {
                            assert(after[m + 1] == y);
                        }
                    }
                }
                assert forall|k: int| 0 <= k < after.len() implies texts(found@).contains(
                    #[trigger] after[k],
                ) by {
                    if k < at {
                        assert(after[k] == before[k]);
                    } else if k > at {
                        assert(after[k] == before[k - 1]);
                    }
                }
            }
        } else {
            assert(texts(r@).contains(x));
        }
        i = i + 1;
    }
    proof {
        let a = texts(r@);
        let b = texts(found@);
        assert forall|p: Seq<char>| a.to_set().contains(p) == b.to_set().contains(p) by {
            if a.contains(p) {
                let k = choose|k: int| 0 <= k < a.len() && a[k] == p;
                assert(b.contains(a[k]));
            }
            if b.contains(p) {
                let k = choose|k: int| 0 <= k < b.len() && b[k] == p;
                assert(a.contains(b[k]));
            }
        }
        assert(a.to_set() =~= b.to_set());
        lemma_normal_form_unique(a, b);
    }
    r
}

/// The number of draws after which a random choice is taken as it is.
pub const MAX_DRAWS: usize = 8;

/// The candidates of the active profile, the wallpaper that was applied
/// last, and the place from which the next one is taken in order.
pub struct WallpaperView {
    /// The candidate paths, each once, in order.
    pub cache: Seq<Seq<char>>,
    /// The wallpaper that was applied last.
    pub last: Option<Seq<char>>,
    /// Where a choice in order starts.
    pub cursor: usize,
}

/// The failure for a profile whose directories hold no image.
pub open spec fn no_wallpapers() -> ErrorView {
    ErrorView {
        kind: ErrorKind::NoWallpapersFound,
        message: "No wallpapers found in configured directories"@,
    }
}

/// The candidate on which a drawn number lands.
pub open spec fn landing(len: nat, draw: u32) -> int {
    draw as int % len as int
}

/// The candidate at place `i` is the wallpaper that was applied last.
pub open spec fn repeats(cache: Seq<Seq<char>>, last: Option<Seq<char>>, i: int) -> bool {
    last == Some(cache[i])
}

/// The place that a random choice takes, given the numbers that are drawn:
/// that of the first draw which does not repeat the last wallpaper, or that
/// of the last draw where all repeat it.
pub open spec fn random_choice(cache: Seq<Seq<char>>, last: Option<Seq<char>>, draws: Seq<u32>) -> int
    decreases draws.len(),
{
    if draws.len() == 0 {
        0
    } else if draws.len() == 1 || !repeats(cache, last, landing(cache.len(), draws[0])) {
        landing(cache.len(), draws[0])
    } else {
        random_choice(cache, last, draws.drop_first())
    }
}

/// The place that a choice in order takes: the first place from the cursor
/// on, going round, whose candidate is not the last wallpaper. Among two or
/// more candidates that is the cursor's place or the one after it.
pub open spec fn next_in_order(cache: Seq<Seq<char>>, cursor: usize, last: Option<Seq<char>>) -> int {
    let start = cursor as int % cache.len() as int;
    if repeats(cache, last, start) {
        (start + 1) % cache.len() as int
    } else {
        start
    }
}

/// The state with the candidates taken anew from `found`.
pub open spec fn refreshed(w: WallpaperView, found: Seq<Seq<char>>) -> WallpaperView {
    WallpaperView { cache: normalized(found), ..w }
}

/// The state with the cache filled from `found` where it was empty.
pub open spec fn filled(w: WallpaperView, found: Seq<Seq<char>>) -> WallpaperView {
    if w.cache.len() == 0 {
        WallpaperView { cache: normalized(found), ..w }
    } else {
        w
    }
}

/// The choice of the next wallpaper, and the state after it. `draws` are the
/// numbers that a random choice draws. Without a candidate the choice fails;
/// a single candidate is chosen whatever was applied last; a choice in order
/// moves the cursor behind the place it took.
pub open spec fn selection(w: WallpaperView, mode: SwitchMode, draws: Seq<u32>) -> (
    WallpaperView,
    Result<Seq<char>, ErrorView>,
) {
    if w.cache.len() == 0 {
        (w, Err(no_wallpapers()))
    } else if w.cache.len() == 1 {
        (w, Ok(w.cache[0]))
    } else {
        match mode {
            SwitchMode::Random => (w, Ok(w.cache[random_choice(w.cache, w.last, draws)])),
            SwitchMode::Sequential => {
                let i = next_in_order(w.cache, w.cursor, w.last);
                (
                    WallpaperView { cursor: ((i + 1) % w.cache.len() as int) as usize, ..w },
                    Ok(w.cache[i]),
                )
            },
        }
    }
}

/// The view of a path or a failure.
pub open spec fn chosen_view(r: Result<String, Error>) -> Result<Seq<char>, ErrorView> {
    match r {
        Ok(p) => Ok(p@),
        Err(e) => Err(e@),
    }
}

/// A random choice lands on a candidate.
pub proof fn lemma_random_choice_in_range(
    cache: Seq<Seq<char>>,
    last: Option<Seq<char>>,
    draws: Seq<u32>,
)
    requires
        cache.len() > 0,
    ensures
        0 <= random_choice(cache, last, draws) < cache.len(),
    decreases draws.len(),
{
    if draws.len() > 1 && repeats(cache, last, landing(cache.len(), draws[0])) {
        lemma_random_choice_in_range(cache, last, draws.drop_first());
    }
}

/// No immediate repeat, as far as the draws allow: where one of the draws
/// lands on a candidate that is not the last wallpaper, the random choice is
/// not the last wallpaper.
pub proof fn law_no_immediate_repeat(
    cache: Seq<Seq<char>>,
    last: Option<Seq<char>>,
    draws: Seq<u32>,
    k: int,
)
    requires
        cache.len() > 0,
        0 <= k < draws.len(),
        !repeats(cache, last, landing(cache.len(), draws[k])),
    ensures
        !repeats(cache, last, random_choice(cache, last, draws)),
    decreases draws.len(),
{
    if draws.len() > 1 && repeats(cache, last, landing(cache.len(), draws[0])) {
        assert(draws.drop_first()[k - 1] == draws[k]);
        law_no_immediate_repeat(cache, last, draws.drop_first(), k - 1);
    }
}

/// A choice in order among two or more candidates, no two alike, is never
/// the last wallpaper.
pub proof fn law_in_order_never_repeats(
    cache: Seq<Seq<char>>,
    cursor: usize,
    last: Option<Seq<char>>,
)
    requires
        cache.len() >= 2,
        strictly_sorted(cache),
    ensures
        0 <= next_in_order(cache, cursor, last) < cache.len(),
        !repeats(cache, last, next_in_order(cache, cursor, last)),
{
    let len = cache.len() as int;
    let start = cursor as int % len;
    let next = (start + 1) % len;
    vstd::arithmetic::div_mod::lemma_mod_pos_bound(cursor as int, len);
    if start + 1 < len {
        vstd::arithmetic::div_mod::lemma_small_mod((start + 1) as nat, len as nat);
    } else {
        vstd::arithmetic::div_mod::lemma_mod_self_0(len);
    }
    if repeats(cache, last, start) && repeats(cache, last, next) {
        crate::text::lemma_sorted_distinct(cache, start, next);
    }
}

/// A single candidate is chosen whatever was applied last, in either mode,
/// and the state stays as it is.
pub proof fn law_single_candidate(w: WallpaperView, mode: SwitchMode, draws: Seq<u32>)
    requires
        w.cache.len() == 1,
    ensures
        selection(w, mode, draws) == (w, Ok::<Seq<char>, ErrorView>(w.cache[0])),
{
}

proof fn lemma_random_choice_stops(
    cache: Seq<Seq<char>>,
    last: Option<Seq<char>>,
    draws: Seq<u32>,
    n: int,
)
    requires
        cache.len() > 0,
        0 <= n < draws.len(),
        forall|k: int| 0 <= k < n ==> repeats(cache, last, landing(cache.len(), #[trigger] draws[k])),
        n == draws.len() - 1 || !repeats(cache, last, landing(cache.len(), draws[n])),
    ensures
        random_choice(cache, last, draws) == landing(cache.len(), draws[n]),
    decreases draws.len(),
{
    if n > 0 {
        let rest = draws.drop_first();
        assert forall|k: int| 0 <= k < n - 1 implies repeats(
            cache,
            last,
            landing(cache.len(), #[trigger] rest[k]),
        ) by {
            assert(rest[k] == draws[k + 1]);
        }
        assert(rest[n - 1] == draws[n]);
        assert(repeats(cache, last, landing(cache.len(), draws[0])));
        lemma_random_choice_stops(cache, last, rest, n - 1);
    }
}

/// `rand::random::<u32>`: a number that the thread's generator draws.
/// Nothing is claimed of it.
#[verifier::external_body]
fn draw() -> (r: u32) {
    rand::random::<u32>()
}

/// As many numbers as a random choice draws at most.
fn draw_numbers() -> (r: Vec<u32>)
    ensures
        r@.len() == MAX_DRAWS,
{
    let mut r: Vec<u32> = Vec::new();
    while r.len() < MAX_DRAWS
        invariant
            r.len() <= MAX_DRAWS,
        decreases MAX_DRAWS - r.len(),
    {
        r.push(draw());
    }
    r
}

/// The candidates of the active profile and the choice of the next wallpaper
/// among them.
#[derive(Debug, PartialEq, Eq)]
pub struct WallpaperManager {
    last_wallpaper: Option<String>,
    sequential_index: usize,
    wallpaper_cache: Vec<String>,
}

impl View for WallpaperManager {
    type V = WallpaperView;

    closed spec fn view(&self) -> WallpaperView {
        WallpaperView {
            cache: texts(self.wallpaper_cache@),
            last: opt_text(self.last_wallpaper),
            cursor: self.sequential_index,
        }
    }
}

impl Clone for WallpaperManager {
    fn clone(&self) -> (r: Self)
        ensures
            r@ == self@,
    {
        proof {
            use_type_invariant(self);
        }
        WallpaperManager {
            last_wallpaper: clone_opt_text(&self.last_wallpaper),
            sequential_index: self.sequential_index,
            wallpaper_cache: crate::text::clone_texts(&self.wallpaper_cache),
        }
    }
}

impl WallpaperManager {
    #[verifier::type_invariant]
    spec fn cache_is_ordered(self) -> bool {
        strictly_sorted(texts(self.wallpaper_cache@))
    }

    /// A manager without candidates, before any wallpaper was applied.
    pub fn new() -> (r: Self)
        ensures
            r@ == (WallpaperView { cache: Seq::empty(), last: None, cursor: 0 }),
    {
        let r = WallpaperManager {
            last_wallpaper: None,
            sequential_index: 0,
            wallpaper_cache: Vec::new(),
        };
        assert(r@.cache =~= Seq::<Seq<char>>::empty());
        r
    }

    /// The candidates: each path once, in order.
    pub fn candidates(&self) -> (r: &Vec<String>)
        ensures
            texts(r@) == self@.cache,
            strictly_sorted(self@.cache),
    {
        proof {
            use_type_invariant(self);
        }
        &self.wallpaper_cache
    }

    /// Whether a choice would have to scan the directories first.
    pub fn needs_scan(&self) -> (r: bool)
        ensures
            r == (self@.cache.len() == 0),
    {
        self.wallpaper_cache.len() == 0
    }

    fn is_last(&self, i: usize) -> (r: bool)
        requires
            i < self@.cache.len(),
        ensures
            r == repeats(self@.cache, self@.last, i as int),
    {
        match &self.last_wallpaper {
            Some(p) => compare_text(p.as_str(), self.wallpaper_cache[i].as_str()) == 0,
            None => false,
        }
    }

    /// The place that a random choice takes where `draws` are the numbers
    /// drawn.
    pub fn random_place(&self, draws: &[u32]) -> (r: Option<usize>)
        ensures
            r is Some <==> (self@.cache.len() > 0 && draws@.len() > 0),
            r is Some ==> r->0 == random_choice(self@.cache, self@.last, draws@),
            r is Some ==> r->0 < self@.cache.len(),
    {
        let len: usize = self.wallpaper_cache.len();
        if len == 0 || draws.len() == 0 {
            return None;
        }
        let mut k: usize = 0;
        loop
            invariant
                k < draws.len(),
                len == self@.cache.len(),
                len > 0,
                forall|j: int|
                    0 <= j < k ==> repeats(
                        self@.cache,
                        self@.last,
                        landing(self@.cache.len(), #[trigger] draws@[j]),
                    ),
            decreases draws.len() - k,
        {
            let i: usize = (draws[k] as usize) % len;
            if !self.is_last(i) || k + 1 == draws.len() {
                proof {
                    lemma_random_choice_stops(self@.cache, self@.last, draws@, k as int);
                }
                return Some(i);
            }
            k = k + 1;
        }
    }

    /// The next wallpaper. Where there is no candidate yet, the candidates
    /// are first taken from `found`, which is what a scan of the profile's
    /// directories gave; else `found` is not read. What is chosen, and what
    /// becomes of the state, is [`selection`], for some eight numbers drawn.
    /// The wallpaper that was applied last stays as it is: see
    /// [`WallpaperManager::set_wallpaper`].
    pub fn get_wallpaper(&mut self, found: &[String], config: &Config) -> (r: Result<
        String,
        Error,
    >)
        ensures
            exists|draws: Seq<u32>|
                draws.len() == MAX_DRAWS && (final(self)@, chosen_view(r)) == #[trigger] selection(
                    filled(old(self)@, texts(found@)),
                    config@.auto_switch.mode,
                    draws,
                ),
    {
        proof {
            use_type_invariant(&*self);
        }
        if self.wallpaper_cache.len() == 0 {
            self.wallpaper_cache = normalize(found);
        }
        let ghost w = self@;
        assert(w == filled(old(self)@, texts(found@)));
        let len: usize = self.wallpaper_cache.len();
        let ghost zeros = Seq::new(MAX_DRAWS as nat, |j: int| 0u32);
        if len == 0 {
            let e = Error::new(
                ErrorKind::NoWallpapersFound,
                String::from_str("No wallpapers found in configured directories"),
            );
            assert((self@, chosen_view(Err(e))) == selection(w, config@.auto_switch.mode, zeros));
            return Err(e);
        }
        if len == 1 {
            let p = self.wallpaper_cache[0].clone();
            assert((self@, chosen_view(Ok(p))) == selection(w, config@.auto_switch.mode, zeros));
            return Ok(p);
        }
        match config.auto_switch.mode {
            SwitchMode::Random => {
                let draws = draw_numbers();
                match self.random_place(draws.as_slice()) {
                    Some(i) => {
                        let p = self.wallpaper_cache[i].clone();
                        assert((self@, chosen_view(Ok(p))) == selection(
                            w,
                            config@.auto_switch.mode,
                            draws@,
                        ));
                        Ok(p)
                    },
                    None => Err(
                        Error::new(
                            ErrorKind::NoWallpapersFound,
                            String::from_str("No wallpapers found in configured directories"),
                        ),
                    ),
                }
            },
            SwitchMode::Sequential => {
                let start: usize = self.sequential_index % len;
                let i: usize = if self.is_last(start) {
                    (start + 1) % len
                } else {
                    start
                };
                let p = self.wallpaper_cache[i].clone();
                self.sequential_index = (i + 1) % len;
                assert((self@, chosen_view(Ok(p))) == selection(w, config@.auto_switch.mode, zeros));
                Ok(p)
            },
        }
    }

    /// The wallpaper that was applied last.
    pub fn last_wallpaper(&self) -> (r: Option<&String>)
        ensures
            r is Some <==> self@.last is Some,
            r is Some ==> Some(r->0@) == self@.last,
    {
        self.last_wallpaper.as_ref()
    }

    /// Records `path` as the wallpaper that was applied last.
    pub fn set_last_wallpaper(&mut self, path: String)
        ensures
            final(self)@ == (WallpaperView { last: Some(path@), ..old(self)@ }),
    {
        proof {
            use_type_invariant(&*self);
        }
        self.last_wallpaper = Some(path);
    }

    /// Takes the candidates anew from `found`, which is what a scan of the
    /// profile's directories gave. Never fails.
    pub fn refresh_cache(&mut self, found: &[String]) -> (r: Result<(), Error>)
        ensures
            r is Ok,
            final(self)@ == refreshed(old(self)@, texts(found@)),
    {
        self.wallpaper_cache = normalize(found);
        Ok(())
    }

    /// Takes the candidates from `found` where there is none yet. Never
    /// fails.
    pub fn ensure_cache(&mut self, found: &[String]) -> (r: Result<(), Error>)
        ensures
            r is Ok,
            final(self)@ == filled(old(self)@, texts(found@)),
    {
        proof {
            use_type_invariant(&*self);
        }
        if self.wallpaper_cache.len() == 0 {
            self.wallpaper_cache = normalize(found);
        }
        Ok(())
    }
}

/// The file extensions of images, in the order in which they are scanned.
pub open spec fn lower_extension(j: int) -> Seq<char> {
    if j == 0 {
        "jpg"@
    } else if j == 1 {
        "jpeg"@
    } else if j == 2 {
        "png"@
    } else if j == 3 {
        "gif"@
    } else if j == 4 {
        "webp"@
    } else {
        "bmp"@
    }
}

/// The capital of a small letter of the alphabet, and any other character
/// as it is.
pub open spec fn capital(c: char) -> char {
    if 0x61 <= c as u32 <= 0x7a {
        ((c as u32 - 0x20) as u8) as char
    } else {
        c
    }
}

/// The text that stands in a pattern for `extension` in any spelling: for
/// each of its letters a class of the small and the capital letter. So
/// `jpg` becomes `[jJ][pP][gG]`, which `jpg`, `JPG` and `Jpg` all match.
pub open spec fn any_case(extension: Seq<char>) -> Seq<char> {
    Seq::new(
        4 * extension.len(),
        |k: int|
            if k % 4 == 0 {
                '['
            } else if k % 4 == 1 {
                extension[k / 4]
            } else if k % 4 == 2 {
                capital(extension[k / 4])
            } else {
                ']'
            },
    )
}

/// The pattern for the files of `dir` that end in `extension`.
pub open spec fn pattern(dir: Seq<char>, extension: Seq<char>) -> Seq<char> {
    dir + "/*."@ + extension
}

/// The patterns by which candidates are looked for: for each directory in
/// turn, each of six extensions, in any spelling of small and capital
/// letters.
pub open spec fn scan_patterns(dirs: Seq<Seq<char>>) -> Seq<Seq<char>> {
    Seq::new(dirs.len() * 6, |k: int| pattern(dirs[k / 6], any_case(lower_extension(k % 6))))
}

/// The patterns by which the images of a profile are counted: for each
/// directory in turn, each of the first five extensions in small letters.
pub open spec fn count_patterns(dirs: Seq<Seq<char>>) -> Seq<Seq<char>> {
    Seq::new(dirs.len() * 5, |k: int| pattern(dirs[k / 5], lower_extension(k % 5)))
}

/// Whether a leading `~` of `dir` stands for a home directory: it does
/// where nothing or a separator follows it.
pub open spec fn starts_at_home(dir: Seq<char>) -> bool {
    dir.len() > 0 && dir[0] == '~' && (dir.len() == 1 || dir[1] == '/' || dir[1] == '\\')
}

/// What may become of a directory when a leading `~` is expanded: it stays
/// as it is, or, where the `~` stands for a home directory, some home
/// directory takes the place of that character.
pub open spec fn tilde_outcome(dir: Seq<char>, expanded: Seq<char>) -> bool {
    expanded == dir || (starts_at_home(dir) && exists|home: Seq<char>|
        expanded == home + dir.skip(1))
}

/// `shellexpand::tilde`: the text with a leading `~` replaced by the home
/// directory of the user. The text comes back as it is where it does not
/// start with `~`, where something other than a separator follows the `~`,
/// or where the environment names no home directory. Nothing is claimed of
/// the home directory.
#[verifier::external_body]
fn expand_tilde(dir: &str) -> (r: String)
    ensures
        tilde_outcome(dir@, r@),
{
    shellexpand::tilde(dir).into_owned()
}

fn extension(j: usize) -> (r: &'static str)
    requires
        j < 6,
    ensures
        r@ == lower_extension(j as int),
{
    if j == 0 {
        "jpg"
    } else if j == 1 {
        "jpeg"
    } else if j == 2 {
        "png"
    } else if j == 3 {
        "gif"
    } else if j == 4 {
        "webp"
    } else {
        "bmp"
    }
}

fn extension_in_any_case(j: usize) -> (r: &'static str)
    requires
        j < 6,
    ensures
        r@ == any_case(lower_extension(j as int)),
{
    proof {
        reveal_strlit("jpg");
        reveal_strlit("jpeg");
        reveal_strlit("png");
        reveal_strlit("gif");
        reveal_strlit("webp");
        reveal_strlit("bmp");
        reveal_strlit("[jJ][pP][gG]");
        reveal_strlit("[jJ][pP][eE][gG]");
        reveal_strlit("[pP][nN][gG]");
        reveal_strlit("[gG][iI][fF]");
        reveal_strlit("[wW][eE][bB][pP]");
        reveal_strlit("[bB][mM][pP]");
    }
    let r = if j == 0 {
        "[jJ][pP][gG]"
    } else if j == 1 {
        "[jJ][pP][eE][gG]"
    } else if j == 2 {
        "[pP][nN][gG]"
    } else if j == 3 {
        "[gG][iI][fF]"
    } else if j == 4 {
        "[wW][eE][bB][pP]"
    } else {
        "[bB][mM][pP]"
    };
    assert(r@ =~= any_case(lower_extension(j as int)));
    r
}

fn make_pattern(dir: &str, extension: &str) -> (r: String)
    ensures
        r@ == pattern(dir@, extension@),
{
    let mut r = String::from_str(dir);
    r.append("/*.");
    r.append(extension);
    r
}

/// The patterns by which candidates are looked for in `dirs`.
pub fn patterns_for(dirs: &[String]) -> (r: Vec<String>)
    ensures
        texts(r@) == scan_patterns(texts(dirs@)),
{
    let ghost d = texts(dirs@);
    let mut r: Vec<String> = Vec::new();
    let mut i: usize = 0;
    while i < dirs.len()
        invariant
            i <= dirs.len(),
            d == texts(dirs@),
            r.len() == 6 * i,
            forall|k: int| 0 <= k < r.len() ==> (#[trigger] r@[k])@ == scan_patterns(d)[k],
        decreases dirs.len() - i,
    {
        let mut j: usize = 0;
        while j < 6
            invariant
                j <= 6,
                i < dirs.len(),
                d == texts(dirs@),
                r.len() == 6 * i + j,
                forall|k: int| 0 <= k < r.len() ==> (#[trigger] r@[k])@ == scan_patterns(d)[k],
            decreases 6 - j,
        {
            let ghost k0 = r.len() as int;
            assert(k0 / 6 == i && k0 % 6 == j);
            assert(d[i as int] == dirs@[i as int]@);
            r.push(make_pattern(dirs[i].as_str(), extension_in_any_case(j)));
            j = j + 1;
        }
        i = i + 1;
    }
    assert(texts(r@) =~= scan_patterns(d));
    r
}

/// The patterns by which the images in `dirs` are counted.
pub fn count_patterns_for(dirs: &[String]) -> (r: Vec<String>)
    ensures
        texts(r@) == count_patterns(texts(dirs@)),
{
    let ghost d = texts(dirs@);
    let mut r: Vec<String> = Vec::new();
    let mut i: usize = 0;
    while i < dirs.len()
        invariant
            i <= dirs.len(),
            d == texts(dirs@),
            r.len() == 5 * i,
            forall|k: int| 0 <= k < r.len() ==> (#[trigger] r@[k])@ == count_patterns(d)[k],
        decreases dirs.len() - i,
    {
        let mut j: usize = 0;
        while j < 5
            invariant
                j <= 5,
                i < dirs.len(),
                d == texts(dirs@),
                r.len() == 5 * i + j,
                forall|k: int| 0 <= k < r.len() ==> (#[trigger] r@[k])@ == count_patterns(d)[k],
            decreases 5 - j,
        {
            let ghost k0 = r.len() as int;
            assert(k0 / 5 == i && k0 % 5 == j);
            assert(d[i as int] == dirs@[i as int]@);
            r.push(make_pattern(dirs[i].as_str(), extension(j)));
            j = j + 1;
        }
        i = i + 1;
    }
    assert(texts(r@) =~= count_patterns(d));
    r
}

/// Each directory of `expanded` is what may become of the directory of
/// `dirs` at the same place when a leading `~` is expanded.
pub open spec fn expands(dirs: Seq<Seq<char>>, expanded: Seq<Seq<char>>) -> bool {
    expanded.len() == dirs.len() && forall|i: int|
        0 <= i < dirs.len() ==> tilde_outcome(#[trigger] dirs[i], expanded[i])
}

/// The patterns by which candidates are looked for in `dirs`, with the home
/// directory in the place of a leading `~` of a directory.
pub fn wallpaper_patterns(dirs: &[String]) -> (r: Vec<String>)
    ensures
        exists|expanded: Seq<Seq<char>>|
            expands(texts(dirs@), expanded) && texts(r@) == #[trigger] scan_patterns(expanded),
{
    let mut out: Vec<String> = Vec::new();
    let mut i: usize = 0;
    while i < dirs.len()
        invariant
            i <= dirs.len(),
            out.len() == i,
            forall|k: int|
                0 <= k < i ==> tilde_outcome(#[trigger] texts(dirs@)[k], texts(out@)[k]),
        decreases dirs.len() - i,
    {
        let e = expand_tilde(dirs[i].as_str());
        let ghost before = texts(out@);
        out.push(e);
        assert(texts(out@) =~= before.push(e@));
        assert(texts(dirs@)[i as int] == dirs@[i as int]@);
        i = i + 1;
    }
    let r = patterns_for(out.as_slice());
    assert(expands(texts(dirs@), texts(out@)));
    r
}

/// The seconds after which an attempt to apply a wallpaper counts as failed.
pub const APPLY_TIMEOUT_SECS: u64 = 6;

/// The program that applies a wallpaper.
pub open spec fn apply_program() -> Seq<char> {
    "swww"@
}

/// The arguments with which the program applies `path` under the transition
/// of `profile`.
pub open spec fn apply_arguments(path: Seq<char>, profile: crate::config::ProfileView) -> Seq<
    Seq<char>,
> {
    seq![
        "img"@,
        path,
        "--transition-type"@,
        profile.transition,
        "--transition-duration"@,
        decimal(profile.transition_duration as nat),
    ]
}

/// The program that applies a wallpaper.
pub fn program() -> (r: &'static str)
    ensures
        r@ == apply_program(),
{
    "swww"
}

/// The arguments with which the program applies `path` under the transition
/// of `profile`.
pub fn apply_command(path: &str, profile: &Profile) -> (r: Vec<String>)
    ensures
        texts(r@) == apply_arguments(path@, profile@),
{
    let mut r: Vec<String> = Vec::new();
    r.push(String::from_str("img"));
    r.push(String::from_str(path));
    r.push(String::from_str("--transition-type"));
    r.push(profile.transition.clone());
    r.push(String::from_str("--transition-duration"));
    r.push(decimal_text(profile.transition_duration as u64));
    assert(texts(r@) =~= apply_arguments(path@, profile@));
    r
}

/// How an attempt to apply a wallpaper ended.
#[derive(Debug, PartialEq, Eq)]
pub enum ApplyOutcome {
    /// The program ran to its end: whether it reported success, and what it
    /// wrote to its error stream.
    Finished { success: bool, diagnostics: String },
    /// The program could not be started.
    NotStarted { reason: String },
    /// The program did not end in time.
    TimedOut,
}

/// How an attempt ended, as values.
pub enum ApplyOutcomeView {
    Finished { success: bool, diagnostics: Seq<char> },
    NotStarted { reason: Seq<char> },
    TimedOut,
}

impl View for ApplyOutcome {
    type V = ApplyOutcomeView;

    open spec fn view(&self) -> ApplyOutcomeView {
        match *self {
            ApplyOutcome::Finished { success, diagnostics } => ApplyOutcomeView::Finished {
                success,
                diagnostics: diagnostics@,
            },
            ApplyOutcome::NotStarted { reason } => ApplyOutcomeView::NotStarted {
                reason: reason@,
            },
            ApplyOutcome::TimedOut => ApplyOutcomeView::TimedOut,
        }
    }
}

/// The failure that an attempt to apply a wallpaper amounts to, if any. What
/// the program wrote to its error stream is part of the message.
pub open spec fn apply_failure(outcome: ApplyOutcomeView) -> Option<ErrorView> {
    match outcome {
        ApplyOutcomeView::Finished { success, diagnostics } => if success {
            None
        } else {
            Some(
                ErrorView {
                    kind: ErrorKind::ExternalGatewayFailure,
                    message: "swww command failed: "@ + diagnostics,
                },
            )
        },
        ApplyOutcomeView::NotStarted { reason } => Some(
            ErrorView {
                kind: ErrorKind::ExternalGatewayFailure,
                message: "Failed to execute swww. Is swww daemon running? (swww init): "@ + reason,
            },
        ),
        ApplyOutcomeView::TimedOut => Some(
            ErrorView {
                kind: ErrorKind::ExternalGatewayFailure,
                message: "swww command timed out"@,
            },
        ),
    }
}

/// The state after an attempt to apply `path`: the path is the last
/// wallpaper where the attempt succeeded, and nothing has changed where it
/// failed.
pub open spec fn applied(w: WallpaperView, path: Seq<char>, outcome: ApplyOutcomeView)
    -> WallpaperView {
    if apply_failure(outcome) is None {
        WallpaperView { last: Some(path), ..w }
    } else {
        w
    }
}

impl WallpaperManager {
    /// Takes note of how the attempt to apply `path` ended: see [`applied`]
    /// and [`apply_failure`].
    pub fn set_wallpaper(&mut self, path: &str, outcome: &ApplyOutcome) -> (r: Result<(), Error>)
        ensures
            final(self)@ == applied(old(self)@, path@, outcome@),
            r is Ok <==> apply_failure(outcome@) is None,
            r is Err ==> Some(r->Err_0@) == apply_failure(outcome@),
    {
        proof {
            use_type_invariant(&*self);
        }
        match outcome {
            ApplyOutcome::Finished { success, diagnostics } => {
                if *success {
                    self.last_wallpaper = Some(String::from_str(path));
                    Ok(())
                } else {
                    let mut message = String::from_str("swww command failed: ");
                    message.append(diagnostics.as_str());
                    Err(Error::new(ErrorKind::ExternalGatewayFailure, message))
                }
            },
            ApplyOutcome::NotStarted { reason } => {
                let mut message = String::from_str(
                    "Failed to execute swww. Is swww daemon running? (swww init): ",
                );
                message.append(reason.as_str());
                Err(Error::new(ErrorKind::ExternalGatewayFailure, message))
            },
            ApplyOutcome::TimedOut => Err(
                Error::new(
                    ErrorKind::ExternalGatewayFailure,
                    String::from_str("swww command timed out"),
                ),
            ),
        }
    }
}

/// The number of texts at the start of `r` that come before `x`.
pub open spec fn rank(r: Seq<Seq<char>>, x: Seq<char>) -> int
    decreases r.len(),
{
    if r.len() == 0 {
        0
    } else if text_lt(r[0], x) {
        1 + rank(r.drop_first(), x)
    } else {
        0
    }
}

proof fn lemma_rank(r: Seq<Seq<char>>, x: Seq<char>)
    ensures
        0 <= rank(r, x) <= r.len(),
        forall|k: int| 0 <= k < rank(r, x) ==> text_lt(#[trigger] r[k], x),
        rank(r, x) == r.len() || !text_lt(r[rank(r, x)], x),
    decreases r.len(),
{
    if r.len() > 0 && text_lt(r[0], x) {
        let t = r.drop_first();
        lemma_rank(t, x);
        assert forall|k: int| 0 <= k < rank(r, x) implies text_lt(#[trigger] r[k], x) by {
            if k > 0 {
                assert(r[k] == t[k - 1]);
            }
        }
        if rank(r, x) < r.len() {
            assert(r[rank(r, x)] == t[rank(t, x)]);
        }
    }
}

proof fn lemma_insert_keeps_order(r: Seq<Seq<char>>, x: Seq<char>, at: int)
    requires
        strictly_sorted(r),
        0 <= at <= r.len(),
        forall|k: int| 0 <= k < at ==> text_lt(#[trigger] r[k], x),
        at == r.len() || text_lt(x, r[at]),
    ensures
        strictly_sorted(r.insert(at, x)),
{
    let after = r.insert(at, x);
    assert forall|a: int, b: int| 0 <= a < b < after.len() implies text_lt(
        #[trigger] after[a],
        #[trigger] after[b],
    ) by {
        if b < at {
            assert(text_lt(r[a], r[b]));
        } else if b == at {
            assert(text_lt(r[a], x));
        } else if a == at {
            if b - 1 > at {
                assert(text_lt(r[at], r[b - 1]));
                lemma_lt_transitive(x, r[at], r[b - 1]);
            }
        } else if a < at {
            assert(text_lt(r[a], r[b - 1]));
        } else {
            assert(text_lt(r[a - 1], r[b - 1]));
        }
    }
}

/// Every list of paths can be listed in order, each path once: the
/// candidates that are taken from `found` are the paths of `found`, no more
/// and no less, and no two of them are alike.
pub proof fn lemma_normal_form_exists(found: Seq<Seq<char>>)
    ensures
        is_normal_form(normalized(found), found),
    decreases found.len(),
{
    if found.len() == 0 {
        let r = Seq::<Seq<char>>::empty();
        assert(r.to_set() =~= found.to_set());
        assert(is_normal_form(r, found));
    } else {
        let rest = found.drop_last();
        let x = found.last();
        lemma_normal_form_exists(rest);
        let r0 = normalized(rest);
        assert forall|p: Seq<char>| found.contains(p) <==> (rest.contains(p) || p == x) by {
            if found.contains(p) {
                let k = choose|k: int| 0 <= k < found.len() && found[k] == p;
                if k < rest.len() {
                    assert(rest[k] == p);
                }
            }
            if rest.contains(p) {
                let k = choose|k: int| 0 <= k < rest.len() && rest[k] == p;
                assert(found[k] == p);
            }
            if p == x {
                assert(found[found.len() - 1] == p);
            }
        }
        assert forall|p: Seq<char>| rest.contains(p) <==> r0.contains(p) by {
            assert(rest.to_set().contains(p) == r0.to_set().contains(p));
        }
        if r0.contains(x) {
            assert(r0.to_set() =~= found.to_set());
            assert(is_normal_form(r0, found));
        } else {
            let at = rank(r0, x);
            lemma_rank(r0, x);
            if at < r0.len() {
                assert(r0.contains(r0[at]));
                lemma_lt_total(x, r0[at]);
            }
            lemma_insert_keeps_order(r0, x, at);
            let r = r0.insert(at, x);
            assert forall|p: Seq<char>| r.contains(p) <==> (r0.contains(p) || p == x) by {
                if r.contains(p) {
                    let k = choose|k: int| 0 <= k < r.len() && r[k] == p;
                    if k < at {
                        assert(r0[k] == p);
                    } else if k > at {
                        assert(r0[k - 1] == p);
                    }
                }
                if r0.contains(p) {
                    let k = choose|k: int| 0 <= k < r0.len() && r0[k] == p;
                    if k < at {
                        assert(r[k] == p);
                    } else {
                        assert(r[k + 1] == p);
                    }
                }
                if p == x {
                    assert(r[at] == p);
                }
            }
            assert(r.to_set() =~= found.to_set());
            assert(is_normal_form(r, found));
        }
    }
}

/// What is chosen was found: where the candidates are taken from `found`,
/// the wallpaper that is chosen is a path of `found`, and the choice fails
/// exactly where nothing was found.
pub proof fn law_choice_was_found(
    w: WallpaperView,
    found: Seq<Seq<char>>,
    mode: SwitchMode,
    draws: Seq<u32>,
)
    requires
        w.cache.len() == 0,
    ensures
        selection(filled(w, found), mode, draws).1 is Err <==> found.len() == 0,
        selection(filled(w, found), mode, draws).1 is Ok ==> found.contains(
            selection(filled(w, found), mode, draws).1->Ok_0,
        ),
        selection(filled(w, found), mode, draws).0.last == w.last,
        selection(filled(w, found), mode, draws).0.cache == normalized(found),
{
    lemma_normal_form_exists(found);
    let cache = normalized(found);
    if found.len() > 0 {
        assert(found.contains(found[0]));
        assert(found.to_set().contains(found[0]));
        assert(cache.contains(found[0]));
    }
    if cache.len() > 0 {
        assert(cache.contains(cache[0]));
        assert(cache.to_set().contains(cache[0]));
        lemma_random_choice_in_range(cache, w.last, draws);
        let len = cache.len() as int;
        let start = w.cursor as int % len;
        vstd::arithmetic::div_mod::lemma_mod_pos_bound(w.cursor as int, len);
        vstd::arithmetic::div_mod::lemma_mod_pos_bound(start + 1, len);
        let p = selection(filled(w, found), mode, draws).1->Ok_0;
        assert(cache.contains(p));
        assert(cache.to_set().contains(p));
    }
}

} // verus!
