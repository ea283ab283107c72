//! Character-level helpers: ordering, trimming and joining the strings
//! that name servers, connections and subscriptions.

use vstd::prelude::*;

verus! {

/// Strict lexicographic order on character sequences, by Unicode scalar
/// value.  This is the order `str::cmp` induces on the characters of two
/// strings, and the order connection and subscription names are ranked by.
pub open spec fn chars_lt(a: Seq<char>, b: Seq<char>) -> bool
    decreases a.len(),
{
    if b.len() == 0 {
        false
    } else if a.len() == 0 {
        true
    } else if a[0] != b[0] {
        (a[0] as int) < (b[0] as int)
    } else {
        chars_lt(a.skip(1), b.skip(1))
    }
}

/// `chars_lt` is irreflexive.
pub proof fn lemma_chars_lt_irreflexive(a: Seq<char>)
    ensures
        !chars_lt(a, a),
    decreases a.len(),
{
    if a.len() > 0 {
        lemma_chars_lt_irreflexive(a.skip(1));
    }
}

/// `chars_lt` is transitive.
pub proof fn lemma_chars_lt_transitive(a: Seq<char>, b: Seq<char>, c: Seq<char>)
    requires
        chars_lt(a, b),
        chars_lt(b, c),
    ensures
        chars_lt(a, c),
    decreases a.len(),
{
    if a.len() > 0 && b.len() > 0 && c.len() > 0 {
        if a[0] == b[0] && b[0] == c[0] {
            lemma_chars_lt_transitive(a.skip(1), b.skip(1), c.skip(1));
        }
    }
}

/// Decides `chars_lt(a@, b@)` on string slices.
pub fn str_lt(a: &str, b: &str) -> (r: bool)
    ensures
        r == chars_lt(a@, b@),
{
    let a_len: usize = a.unicode_len();
    let b_len: usize = b.unicode_len();
    let mut i: usize = 0;
    proof {
        assert(a@.skip(0) =~= a@);
        assert(b@.skip(0) =~= b@);
    }
    loop
        invariant
            i <= a_len,
            i <= b_len,
            a_len == a@.len(),
            b_len == b@.len(),
            a@.skip(i as int) =~= a@.skip(i as int),
            chars_lt(a@, b@) == chars_lt(a@.skip(i as int), b@.skip(i as int)),
        decreases a_len - i,
    {
        if i == b_len {
            assert(b@.skip(i as int).len() == 0);
            return false;
        }
        if i == a_len {
            assert(a@.skip(i as int).len() == 0);
            assert(b@.skip(i as int).len() > 0);
            return true;
        }
        let ca = a.get_char(i);
        let cb = b.get_char(i);
        if ca != cb {
            assert(a@.skip(i as int)[0] == ca);
            assert(b@.skip(i as int)[0] == cb);
            return ca < cb;
        }
        proof {
            assert(a@.skip(i as int).skip(1) =~= a@.skip(i + 1));
            assert(b@.skip(i as int).skip(1) =~= b@.skip(i + 1));
        }
        i = i + 1;
    }
}

/// The whitespace characters stripped from the ends of user-supplied text:
/// the Unicode white-space set that `str::trim` strips.
pub open spec fn is_space(c: char) -> bool {
    c == ' ' || c == '\t' || c == '\n' || c == '\r' || c == '\u{b}' || c == '\u{c}'
        || c == '\u{85}' || c == '\u{a0}' || c == '\u{1680}' || (0x2000 <= c as int <= 0x200a)
        || c == '\u{2028}' || c == '\u{2029}' || c == '\u{202f}' || c == '\u{205f}'
        || c == '\u{3000}'
}

/// The longest prefix of `s` made of whitespace has this length.
pub open spec fn leading_spaces(s: Seq<char>) -> int
    decreases s.len(),
{
    if s.len() == 0 || !is_space(s[0]) {
        0
    } else {
        1 + leading_spaces(s.skip(1))
    }
}

/// The longest suffix of `s` made of whitespace begins at this index.
pub open spec fn trailing_start(s: Seq<char>) -> int
    decreases s.len(),
{
    if s.len() == 0 || !is_space(s[s.len() - 1]) {
        s.len() as int
    } else {
        trailing_start(s.take(s.len() - 1))
    }
}

/// `s` with leading and trailing whitespace removed; empty if `s` is all
/// whitespace.
pub open spec fn trim_spec(s: Seq<char>) -> Seq<char> {
    if leading_spaces(s) == s.len() {
        Seq::empty()
    } else {
        s.subrange(leading_spaces(s), trailing_start(s))
    }
}

proof fn lemma_leading_spaces_bounds(s: Seq<char>)
    ensures
        0 <= leading_spaces(s) <= s.len(),
        forall|i: int| 0 <= i < leading_spaces(s) ==> is_space(s[i]),
        leading_spaces(s) < s.len() ==> !is_space(s[leading_spaces(s)]),
    decreases s.len(),
{
    if s.len() > 0 && is_space(s[0]) {
        lemma_leading_spaces_bounds(s.skip(1));
        assert forall|i: int| 0 <= i < leading_spaces(s) implies is_space(s[i]) by {
            if i > 0 {
                assert(s.skip(1)[i - 1] == s[i]);
            }
        }
    }
}

proof fn lemma_trailing_start_bounds(s: Seq<char>)
    ensures
        0 <= trailing_start(s) <= s.len(),
        forall|i: int| trailing_start(s) <= i < s.len() ==> is_space(s[i]),
        trailing_start(s) > 0 ==> !is_space(s[trailing_start(s) - 1]),
    decreases s.len(),
{
    if s.len() > 0 && is_space(s[s.len() - 1]) {
        lemma_trailing_start_bounds(s.take(s.len() - 1));
        assert forall|i: int| trailing_start(s) <= i < s.len() implies is_space(s[i]) by {
            if i < s.len() - 1 {
                assert(s.take(s.len() - 1)[i] == s[i]);
            }
        }
    }
}

/// Copies `s` without its leading and trailing whitespace.
pub fn trim_str(s: &str) -> (r: String)
    ensures
        r@ == trim_spec(s@),
{
    let len: usize = s.unicode_len();
    proof {
        lemma_leading_spaces_bounds(s@);
        lemma_trailing_start_bounds(s@);
    }
    let mut start: usize = 0;
    while start < len && is_space_char(s.get_char(start))
        invariant
            0 <= start <= len,
            len == s@.len(),
            start <= leading_spaces(s@),
        decreases len - start,
    {
        proof {
            lemma_leading_spaces_bounds(s@);
            lemma_leading_prefix(s@, start as int);
        }
        start = start + 1;
    }
    proof {
        lemma_leading_spaces_bounds(s@);
        if start < len {
            assert(start == leading_spaces(s@)) by {
                lemma_leading_prefix_exact(s@, start as int);
            }
        }
    }
    if start == len {
        assert(leading_spaces(s@) == len) by {
            lemma_leading_prefix_exact(s@, start as int);
        }
        return String::new();
    }
    let mut end: usize = len;
    while end > start && is_space_char(s.get_char(end - 1))
        invariant
            start < end <= len,
            len == s@.len(),
            start == leading_spaces(s@),
            !is_space(s@[start as int]),
            end >= trailing_start(s@),
            forall|i: int| end <= i < len ==> is_space(s@[i]),
        decreases end,
    {
        proof {
            lemma_trailing_start_bounds(s@);
            if end - 1 < trailing_start(s@) {
                assert(!is_space(s@[trailing_start(s@) - 1]));
                assert(trailing_start(s@) - 1 >= end - 1);
                assert(trailing_start(s@) - 1 < len);
            }
        }
        end = end - 1;
    }
    proof {
        lemma_trailing_start_bounds(s@);
        assert(!is_space(s@[start as int]));
        assert(end == trailing_start(s@)) by {
            if end > trailing_start(s@) {
                assert(is_space(s@[end - 1]));
                assert(trailing_start(s@) <= end - 1 < len);
            }
        }
    }
    let piece = s.substring_char(start, end);
    let r = piece.to_owned();
    assert(r@ =~= trim_spec(s@));
    r
}

/// Executable form of `is_space`.
pub fn is_space_char(c: char) -> (r: bool)
    ensures
        r == is_space(c),
{
    c == ' ' || c == '\t' || c == '\n' || c == '\r' || c == '\u{b}' || c == '\u{c}'
        || c == '\u{85}' || c == '\u{a0}' || c == '\u{1680}' || ('\u{2000}' <= c && c
        <= '\u{200a}') || c == '\u{2028}' || c == '\u{2029}' || c == '\u{202f}' || c
        == '\u{205f}' || c == '\u{3000}'
}

proof fn lemma_leading_prefix(s: Seq<char>, k: int)
    requires
        0 <= k < s.len(),
        k <= leading_spaces(s),
        is_space(s[k]),
    ensures
        k + 1 <= leading_spaces(s),
    decreases k,
{
    lemma_leading_spaces_bounds(s);
    if k == leading_spaces(s) {
        if leading_spaces(s) < s.len() {
            assert(!is_space(s[leading_spaces(s)]));
        }
    }
}

proof fn lemma_leading_prefix_exact(s: Seq<char>, k: int)
    requires
        0 <= k <= s.len(),
        k <= leading_spaces(s),
        k == s.len() || !is_space(s[k]),
    ensures
        k == leading_spaces(s),
{
    lemma_leading_spaces_bounds(s);
    if k < leading_spaces(s) {
        assert(is_space(s[k]));
    }
}

/// The index where the trailing run of `'/'` characters of `s` begins.
pub open spec fn slash_run_start(s: Seq<char>) -> int
    decreases s.len(),
{
    if s.len() == 0 || s[s.len() - 1] != '/' {
        s.len() as int
    } else {
        slash_run_start(s.take(s.len() - 1))
    }
}

/// `s` without its trailing `'/'` characters, as `str::trim_end_matches('/')`
/// leaves it.
pub open spec fn trim_slashes_spec(s: Seq<char>) -> Seq<char> {
    s.take(slash_run_start(s))
}

proof fn lemma_slash_run_start_bounds(s: Seq<char>)
    ensures
        0 <= slash_run_start(s) <= s.len(),
        forall|i: int| slash_run_start(s) <= i < s.len() ==> s[i] == '/',
        slash_run_start(s) > 0 ==> s[slash_run_start(s) - 1] != '/',
    decreases s.len(),
{
    if s.len() > 0 && s[s.len() - 1] == '/' {
        lemma_slash_run_start_bounds(s.take(s.len() - 1));
        assert forall|i: int| slash_run_start(s) <= i < s.len() implies s[i] == '/' by {
            if i < s.len() - 1 {
                assert(s.take(s.len() - 1)[i] == s[i]);
            }
        }
    }
}

/// Copies `s` without its trailing `'/'` characters.
pub fn trim_end_slashes(s: &str) -> (r: String)
    ensures
        r@ == trim_slashes_spec(s@),
{
    let len: usize = s.unicode_len();
    proof {
        lemma_slash_run_start_bounds(s@);
    }
    let mut end: usize = len;
    while end > 0 && s.get_char(end - 1) == '/'
        invariant
            0 <= end <= len,
            len == s@.len(),
            end >= slash_run_start(s@),
            forall|i: int| end <= i < len ==> s@[i] == '/',
        decreases end,
    {
        proof {
            lemma_slash_run_start_bounds(s@);
            if end - 1 < slash_run_start(s@) {
                assert(s@[slash_run_start(s@) - 1] != '/');
            }
        }
        end = end - 1;
    }
    proof {
        lemma_slash_run_start_bounds(s@);
        assert(end == slash_run_start(s@)) by {
            if end > slash_run_start(s@) {
                assert(s@[end - 1] == '/');
                assert(end - 1 > 0 || slash_run_start(s@) == 0);
            }
        }
    }
    let piece = s.substring_char(0, end);
    let r = piece.to_owned();
    assert(r@ =~= trim_slashes_spec(s@));
    r
}

/// Joins a server base URL and an absolute path: the base without trailing
/// slashes, then the path, which should carry its own leading `'/'`.
pub fn server_url(server: &str, path: &str) -> (r: String)
    ensures
        r@ == trim_slashes_spec(server@) + path@,
{
    let base = trim_end_slashes(server);
    let r = base.concat(path);
    r
}


/// Decides whether two string slices hold the same characters.
pub fn str_eq(a: &str, b: &str) -> (r: bool)
    ensures
        r == (a@ == b@),
{
    let a_len: usize = a.unicode_len();
    let b_len: usize = b.unicode_len();
    if a_len != b_len {
        proof {
            assert(a@ != b@);
        }
        return false;
    }
    let mut i: usize = 0;
    while i < a_len
        invariant
            i <= a_len,
            a_len == a@.len(),
            a_len == b@.len(),
            forall|j: int| 0 <= j < i ==> a@[j] == b@[j],
        decreases a_len - i,
    {
        if a.get_char(i) != b.get_char(i) {
            proof {
                assert(a@[i as int] != b@[i as int]);
            }
            return false;
        }
        i = i + 1;
    }
    proof {
        assert(a@ =~= b@);
    }
    true
}


/// The index, among the first `n` of `names`, of the name ranked first in
/// `chars_lt` order; ties keep the earliest index.
pub open spec fn min_name_index(names: Seq<Seq<char>>, n: int) -> int
    decreases n,
{
    if n <= 1 {
        0
    } else {
        let m = min_name_index(names, n - 1);
        if chars_lt(names[n - 1], names[m]) {
            n - 1
        } else {
            m
        }
    }
}

/// `min_name_index` lands in range and no listed name precedes its pick.
pub proof fn lemma_min_name_index(names: Seq<Seq<char>>, n: int)
    requires
        1 <= n <= names.len(),
    ensures
        0 <= min_name_index(names, n) < n,
        forall|j: int| 0 <= j < n ==> !chars_lt(names[j], names[min_name_index(names, n)]),
    decreases n,
{
    if n == 1 {
        lemma_chars_lt_irreflexive(names[0]);
    } else {
        lemma_min_name_index(names, n - 1);
        let m0 = min_name_index(names, n - 1);
        let m = min_name_index(names, n);
        if chars_lt(names[n - 1], names[m0]) {
            assert forall|j: int| 0 <= j < n implies !chars_lt(names[j], names[m]) by {
                if j == n - 1 {
                    lemma_chars_lt_irreflexive(names[n - 1]);
                } else {
                    if chars_lt(names[j], names[n - 1]) {
                        lemma_chars_lt_transitive(names[j], names[n - 1], names[m0]);
                    }
                }
            }
        }
    }
}


/// Relies on std's `String::push`: appends exactly the one character.
#[verifier::external_body]
pub fn push_char(s: &mut String, c: char)
    ensures
        final(s)@ == old(s)@.push(c),
{
    s.push(c);
}


/// Whether `x` occurs in `s`.
pub open spec fn contains_str(s: Seq<Seq<char>>, x: Seq<char>) -> bool {
    exists|i: int| 0 <= i < s.len() && s[i] == x
}

/// `s` with every repeat of an earlier element dropped: the first
/// occurrences, in order.
pub open spec fn dedup_spec(s: Seq<Seq<char>>) -> Seq<Seq<char>>
    decreases s.len(),
{
    if s.len() == 0 {
        Seq::empty()
    } else {
        let prefix = dedup_spec(s.take(s.len() - 1));
        if contains_str(s.take(s.len() - 1), s[s.len() - 1]) {
            prefix
        } else {
            prefix + seq![s[s.len() - 1]]
        }
    }
}

/// Copies `v` keeping only the first occurrence of each string.
pub fn dedup_strings(v: &Vec<String>) -> (r: Vec<String>)
    ensures
        r.deep_view() == dedup_spec(v.deep_view()),
{
    let mut out: Vec<String> = Vec::new();
    let mut i: usize = 0;
    proof {
        assert(v.deep_view().take(0) =~= Seq::<Seq<char>>::empty());
        assert(out.deep_view() =~= dedup_spec(v.deep_view().take(0)));
    }
    while i < v.len()
        invariant
            i <= v@.len(),
            v.deep_view().len() == v@.len(),
            forall|k: int| 0 <= k < v@.len() ==> v.deep_view()[k] == #[trigger] v@[k]@,
            out.deep_view() == dedup_spec(v.deep_view().take(i as int)),
        decreases v@.len() - i,
    {
        let mut seen = false;
        let mut k: usize = 0;
        while k < i
            invariant
                k <= i < v@.len(),
                v.deep_view().len() == v@.len(),
                forall|m: int| 0 <= m < v@.len() ==> v.deep_view()[m] == #[trigger] v@[m]@,
                seen == exists|m: int| 0 <= m < k && v.deep_view()[m] == v.deep_view()[i as int],
            decreases i - k,
        {
            if str_eq(v[k].as_str(), v[i].as_str()) {
                proof {
                    assert(v.deep_view()[k as int] == v.deep_view()[i as int]);
                }
                seen = true;
            }
            k = k + 1;
        }
        proof {
            assert(v.deep_view().take(i as int).len() == i);
            assert forall|m: int| 0 <= m < i implies #[trigger] v.deep_view().take(i as int)[m]
                == v.deep_view()[m] by {}
            if seen {
                let m = choose|m: int|
                    0 <= m < i && v.deep_view()[m] == v.deep_view()[i as int];
                assert(v.deep_view().take(i as int)[m] == v.deep_view()[i as int]);
            } else {
                assert forall|m: int|
                    0 <= m < i implies #[trigger] v.deep_view().take(i as int)[m]
                    != v.deep_view()[i as int] by {
                    assert(!(v.deep_view()[m] == v.deep_view()[i as int]));
                }
            }
            assert(seen == contains_str(v.deep_view().take(i as int), v.deep_view()[i as int]));
            assert(v.deep_view().take(i + 1).take(i as int) =~= v.deep_view().take(i as int));
            assert(v.deep_view().take(i + 1)[i as int] == v.deep_view()[i as int]);
        }
        let ghost before = out.deep_view();
        if !seen {
            out.push(v[i].clone());
            proof {
                assert(out.deep_view() =~= before + seq![v.deep_view()[i as int]]);
            }
        }
        proof {
            assert(out.deep_view() =~= dedup_spec(v.deep_view().take(i + 1)));
        }
        i = i + 1;
    }
    proof {
        assert(v.deep_view().take(v@.len() as int) =~= v.deep_view());
    }
    out
}

/// Whether a pair keyed `k` occurs in `s`.
pub open spec fn contains_key(s: Seq<(Seq<char>, Seq<char>)>, k: Seq<char>) -> bool {
    exists|i: int| 0 <= i < s.len() && s[i].0 == k
}

/// `s` with every pair whose key appeared earlier dropped: the first pair
/// under each key, in order.
pub open spec fn dedup_keys_spec(s: Seq<(Seq<char>, Seq<char>)>) -> Seq<(Seq<char>, Seq<char>)>
    decreases s.len(),
{
    if s.len() == 0 {
        Seq::empty()
    } else {
        let prefix = dedup_keys_spec(s.take(s.len() - 1));
        if contains_key(s.take(s.len() - 1), s[s.len() - 1].0) {
            prefix
        } else {
            prefix + seq![s[s.len() - 1]]
        }
    }
}

/// The view of a list of name-value pairs of strings.
pub open spec fn pairs_view(v: Seq<(String, String)>) -> Seq<(Seq<char>, Seq<char>)> {
    Seq::new(
        v.len(),
        |i: int|
            if 0 <= i < v.len() {
                (v[i].0@, v[i].1@)
            } else {
                (Seq::empty(), Seq::empty())
            },
    )
}

/// Copies `v` keeping only the first pair under each name.
pub fn dedup_by_name(v: &Vec<(String, String)>) -> (r: Vec<(String, String)>)
    ensures
        pairs_view(r@) == dedup_keys_spec(pairs_view(v@)),
{
    let mut out: Vec<(String, String)> = Vec::new();
    let mut i: usize = 0;
    proof {
        assert(pairs_view(v@).take(0) =~= Seq::<(Seq<char>, Seq<char>)>::empty());
        assert(pairs_view(out@) =~= dedup_keys_spec(pairs_view(v@).take(0)));
    }
    while i < v.len()
        invariant
            i <= v@.len(),
            pairs_view(out@) == dedup_keys_spec(pairs_view(v@).take(i as int)),
        decreases v@.len() - i,
    {
        let mut seen = false;
        let mut k: usize = 0;
        while k < i
            invariant
                k <= i < v@.len(),
                seen == exists|m: int|
                    0 <= m < k && #[trigger] pairs_view(v@)[m].0 == pairs_view(v@)[i as int].0,
            decreases i - k,
        {
            if str_eq(v[k].0.as_str(), v[i].0.as_str()) {
                proof {
                    assert(pairs_view(v@)[k as int].0 == pairs_view(v@)[i as int].0);
                }
                seen = true;
            }
            k = k + 1;
        }
        proof {
            assert(pairs_view(v@).take(i as int).len() == i);
            assert forall|m: int| 0 <= m < i implies #[trigger] pairs_view(v@).take(i as int)[m]
                == pairs_view(v@)[m] by {}
            if seen {
                let m = choose|m: int|
                    0 <= m < i && pairs_view(v@)[m].0 == pairs_view(v@)[i as int].0;
                assert(pairs_view(v@).take(i as int)[m].0 == pairs_view(v@)[i as int].0);
            } else {
                assert forall|m: int|
                    0 <= m < i implies (#[trigger] pairs_view(v@).take(i as int)[m]).0
                    != pairs_view(v@)[i as int].0 by {
                    assert(!(pairs_view(v@)[m].0 == pairs_view(v@)[i as int].0));
                }
            }
            assert(seen == contains_key(
                pairs_view(v@).take(i as int),
                pairs_view(v@)[i as int].0,
            ));
            assert(pairs_view(v@).take(i + 1).take(i as int) =~= pairs_view(v@).take(i as int));
            assert(pairs_view(v@).take(i + 1)[i as int] == pairs_view(v@)[i as int]);
        }
        let ghost before = pairs_view(out@);
        if !seen {
            out.push((v[i].0.clone(), v[i].1.clone()));
            proof {
                assert(pairs_view(out@) =~= before + seq![pairs_view(v@)[i as int]]);
            }
        }
        proof {
            assert(pairs_view(out@) =~= dedup_keys_spec(pairs_view(v@).take(i + 1)));
        }
        i = i + 1;
    }
    proof {
        assert(pairs_view(v@).take(v@.len() as int) =~= pairs_view(v@));
    }
    out
}

} // verus!
