//! Text as the library sees it: a sequence of characters, ordered by the bytes
//! of its UTF-8 encoding, which is the order of `str` itself.

use vstd::prelude::*;
use vstd::string::*;
use vstd::utf8::*;
use vstd::relations::{sorted_by, total_ordering};
use vstd::seq_lib::{lemma_sorted_unique, to_multiset_build, to_multiset_insert};

verus! {

/// The bytes that decide the place of a text among others.
pub open spec fn key(s: Seq<char>) -> Seq<u8> {
    encode_utf8(s)
}

/// Three-way lexicographic comparison of `a` and `b`, both read from index `i`
/// on: `-1` where `a` comes first, `1` where `b` does, `0` where neither does.
/// A sequence that ends first comes first.
pub open spec fn lex_from(a: Seq<u8>, b: Seq<u8>, i: int) -> int
    decreases a.len() - i,
{
    if i < 0 || i >= a.len() {
        if i >= b.len() {
            0
        } else {
            -1
        }
    } else if i >= b.len() {
        1
    } else if a[i] < b[i] {
        -1
    } else if a[i] > b[i] {
        1
    } else {
        lex_from(a, b, i + 1)
    }
}

/// `a` comes strictly before `b`.
pub open spec fn text_lt(a: Seq<char>, b: Seq<char>) -> bool {
    lex_from(key(a), key(b), 0) < 0
}

/// Every text of `s` comes strictly before those after it.
pub open spec fn strictly_sorted(s: Seq<Seq<char>>) -> bool {
    forall|i: int, j: int| 0 <= i < j < s.len() ==> text_lt(#[trigger] s[i], #[trigger] s[j])
}

/// Two texts with the same key are the same text.
pub proof fn lemma_key_injective(a: Seq<char>, b: Seq<char>)
    requires
        key(a) == key(b),
    ensures
        a == b,
{
    encode_utf8_decode_utf8(a);
    encode_utf8_decode_utf8(b);
}

proof fn lemma_lex_zero(a: Seq<u8>, b: Seq<u8>, i: int)
    requires
        0 <= i <= a.len(),
        i <= b.len(),
        lex_from(a, b, i) == 0,
    ensures
        a.len() == b.len(),
        forall|k: int| i <= k < a.len() ==> a[k] == b[k],
    decreases a.len() - i,
{
    if i < a.len() && i < b.len() {
        lemma_lex_zero(a, b, i + 1);
    }
}

proof fn lemma_lex_same(a: Seq<u8>, i: int)
    requires
        0 <= i,
    ensures
        lex_from(a, a, i) == 0,
    decreases a.len() - i,
{
    if i < a.len() {
        lemma_lex_same(a, i + 1);
    }
}

proof fn lemma_lex_flip(a: Seq<u8>, b: Seq<u8>, i: int)
    requires
        0 <= i,
    ensures
        lex_from(a, b, i) == -lex_from(b, a, i),
    decreases a.len() - i,
{
    if i < a.len() && i < b.len() && a[i] == b[i] {
        lemma_lex_flip(a, b, i + 1);
    }
}

proof fn lemma_lex_chain(a: Seq<u8>, b: Seq<u8>, c: Seq<u8>, i: int)
    requires
        0 <= i,
        lex_from(a, b, i) < 0,
        lex_from(b, c, i) < 0,
    ensures
        lex_from(a, c, i) < 0,
    decreases a.len() - i,
{
    if i < a.len() && i < b.len() && i < c.len() && a[i] == b[i] && b[i] == c[i] {
        lemma_lex_chain(a, b, c, i + 1);
    }
}

/// No text comes before itself.
pub proof fn lemma_lt_irreflexive(a: Seq<char>)
    ensures
        !text_lt(a, a),
{
    lemma_lex_same(key(a), 0);
}

/// Of two different texts exactly one comes before the other.
pub proof fn lemma_lt_total(a: Seq<char>, b: Seq<char>)
    ensures
        a == b || text_lt(a, b) || text_lt(b, a),
        !(text_lt(a, b) && text_lt(b, a)),
{
    lemma_lex_flip(key(a), key(b), 0);
    if lex_from(key(a), key(b), 0) == 0 {
        lemma_lex_zero(key(a), key(b), 0);
        assert(key(a) =~= key(b));
        lemma_key_injective(a, b);
    }
}

/// What comes before something that comes before `c` comes before `c`.
pub proof fn lemma_lt_transitive(a: Seq<char>, b: Seq<char>, c: Seq<char>)
    requires
        text_lt(a, b),
        text_lt(b, c),
    ensures
        text_lt(a, c),
{
    lemma_lex_chain(key(a), key(b), key(c), 0);
}

/// The texts of a strictly sorted sequence are pairwise different.
pub proof fn lemma_sorted_distinct(s: Seq<Seq<char>>, i: int, j: int)
    requires
        strictly_sorted(s),
        0 <= i < s.len(),
        0 <= j < s.len(),
        s[i] == s[j],
    ensures
        i == j,
{
    lemma_lt_irreflexive(s[i]);
}

/// Compares two texts by their bytes: `-1`, `0` or `1` as `a` comes before
/// `b`, is `b`, or comes after it.
pub fn compare_text(a: &str, b: &str) -> (r: i8)
    ensures
        r as int == lex_from(key(a@), key(b@), 0),
        (r == 0) == (a@ == b@),
        (r < 0) == text_lt(a@, b@),
        (r > 0) == text_lt(b@, a@),
{
    let x = a.as_bytes();
    let y = b.as_bytes();
    let mut i: usize = 0;
    let mut r: i8 = 0;
    let mut done = false;
    while !done
        invariant
            x@ == key(a@),
            y@ == key(b@),
            i <= x@.len(),
            i <= y@.len(),
            !done ==> lex_from(x@, y@, 0) == lex_from(x@, y@, i as int),
            done ==> r as int == lex_from(x@, y@, 0),
        decreases x@.len() - i + (if done { 0int } else { 1int }),
    {
        if i >= x.len() {
            r = if i >= y.len() { 0 } else { -1 };
            done = true;
        } else if i >= y.len() {
            r = 1;
            done = true;
        } else if x[i] < y[i] {
            r = -1;
            done = true;
        } else if x[i] > y[i] {
            r = 1;
            done = true;
        } else {
            i = i + 1;
        }
    }
    proof {
        lemma_lt_total(a@, b@);
        lemma_lt_irreflexive(a@);
        lemma_lex_flip(key(a@), key(b@), 0);
    }
    r
}

/// The views of a list of strings, in order.
pub open spec fn texts(v: Seq<String>) -> Seq<Seq<char>> {
    Seq::new(v.len(), |i: int| v[i]@)
}

/// A copy of a list of strings.
pub fn clone_texts(v: &Vec<String>) -> (r: Vec<String>)
    ensures
        texts(r@) == texts(v@),
{
    let mut r: Vec<String> = Vec::new();
    let mut i: usize = 0;
    while i < v.len()
        invariant
            i <= v.len(),
            r.len() == i,
            forall|k: int| 0 <= k < i ==> r@[k]@ == v@[k]@,
        decreases v.len() - i,
    {
        r.push(v[i].clone());
        i = i + 1;
    }
    assert(texts(r@) =~= texts(v@));
    r
}

/// Whether `name` is one of `v`.
pub fn contains_text(v: &[String], name: &str) -> (r: bool)
    ensures
        r == texts(v@).contains(name@),
{
    let mut i: usize = 0;
    while i < v.len()
        invariant
            i <= v.len(),
            forall|k: int| 0 <= k < i ==> v@[k]@ != name@,
        decreases v.len() - i,
    {
        if compare_text(v[i].as_str(), name) == 0 {
            assert(texts(v@)[i as int] == name@);
            return true;
        }
        i = i + 1;
    }
    assert forall|k: int| 0 <= k < texts(v@).len() implies texts(v@)[k] != name@ by {}
    false
}

/// A path made of `base` and `rel` as a file system joins them: an absolute
/// `rel` stands alone, and a separator goes between the two unless `base` is
/// empty or already ends in one.
pub open spec fn joined(base: Seq<char>, rel: Seq<char>) -> Seq<char> {
    if rel.len() > 0 && rel[0] == '/' {
        rel
    } else if base.len() == 0 || base.last() == '/' {
        base + rel
    } else {
        base + seq!['/'] + rel
    }
}

/// Joins two path texts.
pub fn join_path(base: &str, rel: &str) -> (r: String)
    ensures
        r@ == joined(base@, rel@),
{
    let rel_len: usize = rel.unicode_len();
    if rel_len > 0 && rel.get_char(0) == '/' {
        return String::from_str(rel);
    }
    let base_len: usize = base.unicode_len();
    let mut r = String::from_str(base);
    if base_len > 0 && base.get_char(base_len - 1) != '/' {
        proof {
            reveal_strlit("/");
        }
        r.append("/");
        assert("/"@ =~= seq!['/']);
    }
    r.append(rel);
    r
}

/// Whether each text of `a` is one of `b`.
pub open spec fn all_within(a: Seq<Seq<char>>, b: Seq<Seq<char>>) -> bool {
    forall|i: int| 0 <= i < a.len() ==> b.contains(#[trigger] a[i])
}

/// Two lists name the same set exactly when each holds all of the other.
pub proof fn lemma_same_set(a: Seq<Seq<char>>, b: Seq<Seq<char>>)
    ensures
        (a.to_set() == b.to_set()) <==> (all_within(a, b) && all_within(b, a)),
{
    if a.to_set() == b.to_set() {
        assert forall|i: int| 0 <= i < a.len() implies b.contains(#[trigger] a[i]) by {
            assert(a.contains(a[i]));
            assert(a.to_set().contains(a[i]));
        }
        assert forall|i: int| 0 <= i < b.len() implies a.contains(#[trigger] b[i]) by {
            assert(b.contains(b[i]));
            assert(b.to_set().contains(b[i]));
        }
    }
    if all_within(a, b) && all_within(b, a) {
        assert forall|x: Seq<char>| a.to_set().contains(x) == b.to_set().contains(x) by {
            if a.contains(x) {
                let i = choose|i: int| 0 <= i < a.len() && a[i] == x;
                assert(b.contains(a[i]));
            }
            if b.contains(x) {
                let i = choose|i: int| 0 <= i < b.len() && b[i] == x;
                assert(a.contains(b[i]));
            }
        }
        assert(a.to_set() =~= b.to_set());
    }
}

/// Whether each text of `a` is one of `b`.
pub fn is_within(a: &[String], b: &[String]) -> (r: bool)
    ensures
        r == all_within(texts(a@), texts(b@)),
{
    let mut i: usize = 0;
    while i < a.len()
        invariant
            i <= a.len(),
            forall|k: int| 0 <= k < i ==> texts(b@).contains(#[trigger] texts(a@)[k]),
        decreases a.len() - i,
    {
        if !contains_text(b, a[i].as_str()) {
            assert(!texts(b@).contains(texts(a@)[i as int]));
            return false;
        }
        i = i + 1;
    }
    true
}

/// Whether two lists name the same set of texts.
pub fn same_set(a: &[String], b: &[String]) -> (r: bool)
    ensures
        r == (texts(a@).to_set() == texts(b@).to_set()),
{
    proof {
        lemma_same_set(texts(a@), texts(b@));
    }
    is_within(a, b) && is_within(b, a)
}

/// The character of a decimal digit.
pub open spec fn digit(d: nat) -> char {
    if d == 0 {
        '0'
    } else if d == 1 {
        '1'
    } else if d == 2 {
        '2'
    } else if d == 3 {
        '3'
    } else if d == 4 {
        '4'
    } else if d == 5 {
        '5'
    } else if d == 6 {
        '6'
    } else if d == 7 {
        '7'
    } else if d == 8 {
        '8'
    } else {
        '9'
    }
}

/// A number in decimal digits, without leading zeros.
pub open spec fn decimal(n: nat) -> Seq<char>
    decreases n,
{
    if n < 10 {
        seq![digit(n)]
    } else {
        decimal(n / 10).push(digit(n % 10))
    }
}

fn digit_text(d: u64) -> (r: &'static str)
    requires
        d < 10,
    ensures
        r@ == seq![digit(d as nat)],
{
    proof {
        reveal_strlit("0");
        reveal_strlit("1");
        reveal_strlit("2");
        reveal_strlit("3");
        reveal_strlit("4");
        reveal_strlit("5");
        reveal_strlit("6");
        reveal_strlit("7");
        reveal_strlit("8");
        reveal_strlit("9");
    }
    let r = if d == 0 {
        "0"
    } else if d == 1 {
        "1"
    } else if d == 2 {
        "2"
    } else if d == 3 {
        "3"
    } else if d == 4 {
        "4"
    } else if d == 5 {
        "5"
    } else if d == 6 {
        "6"
    } else if d == 7 {
        "7"
    } else if d == 8 {
        "8"
    } else {
        "9"
    };
    assert(r@ =~= seq![digit(d as nat)]);
    r
}

/// A number in decimal digits.
pub fn decimal_text(n: u64) -> (r: String)
    ensures
        r@ == decimal(n as nat),
    decreases n,
{
    if n < 10 {
        String::from_str(digit_text(n))
    } else {
        let mut r = decimal_text(n / 10);
        r.append(digit_text(n % 10));
        assert(r@ =~= decimal((n / 10) as nat).push(digit((n % 10) as nat)));
        r
    }
}

/// The place after the last separator of a path, or 0 where it has none.
pub open spec fn after_last_separator(s: Seq<char>) -> int
    decreases s.len(),
{
    if s.len() == 0 {
        0
    } else if s.last() == '/' {
        s.len() as int
    } else {
        after_last_separator(s.drop_last())
    }
}

/// The name by which a path is shown: what follows its last separator, or
/// the whole path where nothing follows it.
pub open spec fn shown_name(s: Seq<char>) -> Seq<char> {
    if after_last_separator(s) == s.len() {
        s
    } else {
        s.skip(after_last_separator(s))
    }
}

proof fn lemma_after_last_separator(s: Seq<char>, k: int)
    requires
        0 <= k <= s.len(),
        forall|j: int| k <= j < s.len() ==> s[j] != '/',
        k == 0 || s[k - 1] == '/',
    ensures
        after_last_separator(s) == k,
    decreases s.len(),
{
    if s.len() > k {
        lemma_after_last_separator(s.drop_last(), k);
    }
}

/// The name by which `path` is shown.
pub fn file_name(path: &str) -> (r: String)
    ensures
        r@ == shown_name(path@),
{
    let n: usize = path.unicode_len();
    let mut k: usize = n;
    while k > 0 && path.get_char(k - 1) != '/'
        invariant
            k <= n,
            n == path@.len(),
            forall|j: int| k <= j < n ==> path@[j] != '/',
        decreases k,
    {
        k = k - 1;
    }
    proof {
        lemma_after_last_separator(path@, k as int);
    }
    if k == n {
        String::from_str(path)
    } else {
        String::from_str(path.substring_char(k, n))
    }
}

/// `a` does not come after `b`.
pub open spec fn text_le() -> spec_fn(Seq<char>, Seq<char>) -> bool {
    |a: Seq<char>, b: Seq<char>| !text_lt(b, a)
}

/// The texts of `s` in order, each as often as `s` holds it.
pub open spec fn in_order(s: Seq<Seq<char>>) -> Seq<Seq<char>> {
    s.sort_by(text_le())
}

/// The order of texts is total.
pub proof fn lemma_text_order_total()
    ensures
        total_ordering(text_le()),
{
    let le = text_le();
    assert forall|a: Seq<char>| #[trigger] le(a, a) by {
        lemma_lt_irreflexive(a);
    }
    assert forall|a: Seq<char>, b: Seq<char>| #[trigger] le(a, b) && #[trigger] le(b, a) implies a
        == b by {
        lemma_lt_total(a, b);
    }
    assert forall|a: Seq<char>, b: Seq<char>, c: Seq<char>| #[trigger]
        le(a, b) && #[trigger] le(b, c) implies le(a, c) by {
        lemma_lt_total(a, b);
        if text_lt(c, a) {
            if a != b {
                lemma_lt_transitive(c, a, b);
            }
        }
    }
    assert forall|a: Seq<char>, b: Seq<char>| #[trigger] le(a, b) || #[trigger] le(b, a) by {
        lemma_lt_total(a, b);
    }
}

/// The texts of `v` in order, each as often as `v` holds it.
pub fn sort_texts(v: &[String]) -> (r: Vec<String>)
    ensures
        texts(r@) == in_order(texts(v@)),
{
    let ghost le = text_le();
    let ghost all = texts(v@);
    let mut r: Vec<String> = Vec::new();
    let mut i: usize = 0;
    assert(texts(r@) =~= all.take(0));
    while i < v.len()
        invariant
            i <= v.len(),
            le == text_le(),
            all == texts(v@),
            sorted_by(texts(r@), le),
            texts(r@).to_multiset() == all.take(i as int).to_multiset(),
        decreases v.len() - i,
    {
        let item = &v[i];
        let ghost x = item@;
        let ghost before = texts(r@);
        let mut at: usize = 0;
        while at < r.len() && compare_text(r[at].as_str(), item.as_str()) <= 0
            invariant
                at <= r.len(),
                x == item@,
                before == texts(r@),
                forall|k: int| 0 <= k < at ==> !text_lt(x, #[trigger] before[k]),
            decreases r.len() - at,
        {
            assert(before[at as int] == r@[at as int]@);
            at = at + 1;
        }
        proof {
            if at < r.len() {
                assert(before[at as int] == r@[at as int]@);
            }
        }
        r.insert(at, item.clone());
        proof {
            let after = texts(r@);
            assert(after =~= before.insert(at as int, x));
            assert forall|a: int, b: int| 0 <= a < b < after.len() implies #[trigger] le(
                after[a],
                after[b],
            ) by {
                if b < at {
                    assert(le(before[a], before[b]));
                } else if b == at {
                } else if a == at {
                    assert(text_lt(x, before[at as int]));
                    if b - 1 > at {
                        assert(le(before[at as int], before[b - 1]));
                        if text_lt(before[b - 1], x) {
                            lemma_lt_transitive(before[b - 1], x, before[at as int]);
                        }
                    } else {
                        lemma_lt_total(x, before[at as int]);
                    }
                } else if a < at {
                    assert(le(before[a], before[b - 1]));
                } else {
                    assert(le(before[a - 1], before[b - 1]));
                }
            }
            to_multiset_insert(before, at as int, x);
            assert(all.take(i + 1) =~= all.take(i as int).push(x));
            to_multiset_build(all.take(i as int), x);
        }
        i = i + 1;
    }
    proof {
        assert(all.take(v.len() as int) =~= all);
        lemma_text_order_total();
        all.lemma_sort_by_ensures(le);
        lemma_sorted_unique(texts(r@), all.sort_by(le), le);
    }
    r
}

/// Whether two lists hold the same texts in the same order.
pub fn same_texts(a: &[String], b: &[String]) -> (r: bool)
    ensures
        r == (texts(a@) == texts(b@)),
{
    if a.len() != b.len() {
        assert(texts(a@).len() != texts(b@).len());
        return false;
    }
    let mut i: usize = 0;
    while i < a.len()
        invariant
            i <= a.len(),
            a.len() == b.len(),
            forall|k: int| 0 <= k < i ==> a@[k]@ == b@[k]@,
        decreases a.len() - i,
    {
        if compare_text(a[i].as_str(), b[i].as_str()) != 0 {
            assert(texts(a@)[i as int] != texts(b@)[i as int]);
            return false;
        }
        i = i + 1;
    }
    assert(texts(a@) =~= texts(b@));
    true
}

/// The texts of `s` in a row, with `sep` between each two.
pub open spec fn joined_with(s: Seq<Seq<char>>, sep: Seq<char>) -> Seq<char>
    decreases s.len(),
{
    if s.len() == 0 {
        Seq::empty()
    } else if s.len() == 1 {
        s[0]
    } else {
        joined_with(s.drop_last(), sep) + sep + s.last()
    }
}

/// The texts of `v` in a row, with `sep` between each two.
pub fn join_texts(v: &[String], sep: &str) -> (r: String)
    ensures
        r@ == joined_with(texts(v@), sep@),
{
    let ghost all = texts(v@);
    let mut r = String::new();
    let mut i: usize = 0;
    assert(all.take(0) =~= Seq::<Seq<char>>::empty());
    while i < v.len()
        invariant
            i <= v.len(),
            all == texts(v@),
            r@ == joined_with(all.take(i as int), sep@),
        decreases v.len() - i,
    {
        proof {
            assert(all.take(i + 1).drop_last() =~= all.take(i as int));
            assert(all.take(i + 1).last() == v@[i as int]@);
        }
        if i > 0 {
            r.append(sep);
        }
        r.append(v[i].as_str());
        proof {
            if i == 0 {
                assert(r@ =~= v@[0]@);
            }
        }
        i = i + 1;
    }
    assert(all.take(v.len() as int) =~= all);
    r
}

/// The text `unit`, `n` times in a row.
pub open spec fn repeated(unit: Seq<char>, n: nat) -> Seq<char>
    decreases n,
{
    if n == 0 {
        Seq::empty()
    } else {
        repeated(unit, (n - 1) as nat) + unit
    }
}

/// The text `unit`, `n` times in a row.
pub fn repeat_text(unit: &str, n: usize) -> (r: String)
    ensures
        r@ == repeated(unit@, n as nat),
{
    let mut r = String::new();
    let mut i: usize = 0;
    while i < n
        invariant
            i <= n,
            r@ == repeated(unit@, i as nat),
        decreases n - i,
    {
        r.append(unit);
        i = i + 1;
    }
    r
}

/// What follows the last separator of a path, where something follows it.
pub open spec fn base_name(s: Seq<char>) -> Option<Seq<char>> {
    if after_last_separator(s) == s.len() {
        None
    } else {
        Some(s.skip(after_last_separator(s)))
    }
}

/// What follows the last separator of `path`, where something follows it.
pub fn last_component(path: &str) -> (r: Option<String>)
    ensures
        match r {
            Some(name) => Some(name@),
            None => None,
        } == base_name(path@),
{
    let n: usize = path.unicode_len();
    let mut k: usize = n;
    while k > 0 && path.get_char(k - 1) != '/'
        invariant
            k <= n,
            n == path@.len(),
            forall|j: int| k <= j < n ==> path@[j] != '/',
        decreases k,
    {
        k = k - 1;
    }
    proof {
        lemma_after_last_separator(path@, k as int);
    }
    if k == n {
        None
    } else {
        Some(String::from_str(path.substring_char(k, n)))
    }
}

} // verus!
