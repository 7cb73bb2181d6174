//! Text handling shared by the rest of the library: trimming, the part of a
//! path after its last separator, a file name's extension, ASCII
//! case-insensitive comparison and placeholder substitution.
use vstd::prelude::*;
use vstd::string::*;

verus! {

/// The characters with the Unicode `White_Space` property, which is what
/// `char::is_whitespace` (and so `str::trim`) recognises.
pub open spec fn is_white_space(c: char) -> bool {
    let u = c as u32;
    ||| 0x9 <= u <= 0xd
    ||| u == 0x20
    ||| u == 0x85
    ||| u == 0xa0
    ||| u == 0x1680
    ||| 0x2000 <= u <= 0x200a
    ||| u == 0x2028
    ||| u == 0x2029
    ||| u == 0x202f
    ||| u == 0x205f
    ||| u == 0x3000
}

/// `s` without its leading white space.
pub open spec fn trim_start(s: Seq<char>) -> Seq<char>
    decreases s.len(),
{
    if s.len() > 0 && is_white_space(s[0]) {
        trim_start(s.drop_first())
    } else {
        s
    }
}

/// `s` without its trailing white space.
pub open spec fn trim_end(s: Seq<char>) -> Seq<char>
    decreases s.len(),
{
    if s.len() > 0 && is_white_space(s.last()) {
        trim_end(s.drop_last())
    } else {
        s
    }
}

/// `s` without leading and trailing white space, as `str::trim` gives it.
pub open spec fn trimmed(s: Seq<char>) -> Seq<char> {
    trim_end(trim_start(s))
}

/// Whether `c` is white space.
pub fn is_whitespace(c: char) -> (r: bool)
    ensures
        r == is_white_space(c),
{
    let u = c as u32;
    (0x9 <= u && u <= 0xd) || u == 0x20 || u == 0x85 || u == 0xa0 || u == 0x1680 || (0x2000
        <= u && u <= 0x200a) || u == 0x2028 || u == 0x2029 || u == 0x202f || u == 0x205f || u
        == 0x3000
}

proof fn lemma_trim_start_step(s: Seq<char>, i: int)
    requires
        0 <= i < s.len(),
        is_white_space(s[i]),
    ensures
        trim_start(s.subrange(i, s.len() as int)) == trim_start(s.subrange(i + 1, s.len() as int)),
{
    assert(s.subrange(i, s.len() as int).drop_first() =~= s.subrange(i + 1, s.len() as int));
}

proof fn lemma_trim_end_step(s: Seq<char>, i: int, j: int)
    requires
        0 <= i < j <= s.len(),
        is_white_space(s[j - 1]),
    ensures
        trim_end(s.subrange(i, j)) == trim_end(s.subrange(i, j - 1)),
{
    assert(s.subrange(i, j).drop_last() =~= s.subrange(i, j - 1));
}

/// `s` without leading and trailing white space (`str::trim`).
pub fn trim(s: &str) -> (r: String)
    ensures
        r@ == trimmed(s@),
{
    let n = s.unicode_len();
    let mut i: usize = 0;
    proof {
        assert(s@.subrange(0, n as int) =~= s@);
    }
    while i < n
        invariant
            n == s@.len(),
            i <= n,
            trim_start(s@) == trim_start(s@.subrange(i as int, n as int)),
        ensures
            i == n || !is_white_space(s@[i as int]),
        decreases n - i,
    {
        let c = s.get_char(i);
        if !is_whitespace(c) {
            break;
        }
        proof {
            lemma_trim_start_step(s@, i as int);
        }
        i = i + 1;
    }
    assert(trim_start(s@) == s@.subrange(i as int, n as int));
    let mut j: usize = n;
    while j > i
        invariant
            n == s@.len(),
            i <= j <= n,
            trim_start(s@) == s@.subrange(i as int, n as int),
            trimmed(s@) == trim_end(s@.subrange(i as int, j as int)),
        ensures
            j == i || !is_white_space(s@[j - 1]),
        decreases j - i,
    {
        let c = s.get_char(j - 1);
        if !is_whitespace(c) {
            break;
        }
        proof {
            lemma_trim_end_step(s@, i as int, j as int);
        }
        j = j - 1;
    }
    let part = s.substring_char(i, j);
    String::from_str(part)
}

/// The index of the last `c` in `s`, if `s` holds one.
pub open spec fn last_index(s: Seq<char>, c: char) -> Option<int>
    decreases s.len(),
{
    if s.len() == 0 {
        None
    } else if s.last() == c {
        Some(s.len() - 1)
    } else {
        last_index(s.drop_last(), c)
    }
}

/// What follows the last `c` in `s`: the second half of `str::rsplit_once(c)`.
pub open spec fn after_last(s: Seq<char>, c: char) -> Option<Seq<char>> {
    match last_index(s, c) {
        Some(k) => Some(s.subrange(k + 1, s.len() as int)),
        None => None,
    }
}

/// `last_index` is the largest position that holds `c`.
pub proof fn lemma_last_index(s: Seq<char>, c: char)
    ensures
        last_index(s, c) matches Some(k) ==> 0 <= k < s.len() && s[k] == c && (forall|m: int|
            k < m < s.len() ==> s[m] != c),
        last_index(s, c) is None ==> forall|m: int| 0 <= m < s.len() ==> s[m] != c,
    decreases s.len(),
{
    if s.len() > 0 && s.last() != c {
        lemma_last_index(s.drop_last(), c);
        if let Some(k) = last_index(s.drop_last(), c) {
            assert forall|m: int| k < m < s.len() implies s[m] != c by {
                if m < s.len() - 1 {
                    assert(s[m] == s.drop_last()[m]);
                }
            }
        } else {
            assert forall|m: int| 0 <= m < s.len() implies s[m] != c by {
                if m < s.len() - 1 {
                    assert(s[m] == s.drop_last()[m]);
                }
            }
        }
    }
}

proof fn lemma_last_index_found(s: Seq<char>, c: char, k: int)
    requires
        0 <= k < s.len(),
        s[k] == c,
        forall|m: int| k < m < s.len() ==> s[m] != c,
    ensures
        last_index(s, c) == Some(k),
{
    lemma_last_index(s, c);
}

proof fn lemma_last_index_absent(s: Seq<char>, c: char)
    requires
        forall|m: int| 0 <= m < s.len() ==> s[m] != c,
    ensures
        last_index(s, c) is None,
{
    lemma_last_index(s, c);
}

/// The position of the last `c` in `s`.
pub fn find_last(s: &str, c: char) -> (r: Option<usize>)
    ensures
        r matches Some(k) ==> last_index(s@, c) == Some(k as int),
        r is None ==> last_index(s@, c) is None,
{
    let n = s.unicode_len();
    let mut j: usize = n;
    while j > 0
        invariant
            n == s@.len(),
            j <= n,
            forall|m: int| j <= m < n ==> s@[m] != c,
        decreases j,
    {
        if s.get_char(j - 1) == c {
            proof {
                lemma_last_index_found(s@, c, j - 1);
            }
            return Some(j - 1);
        }
        j = j - 1;
    }
    proof {
        lemma_last_index_absent(s@, c);
    }
    None
}

/// What follows the last `c` in `s` (`s.rsplit_once(c).map(|(_, after)| after)`).
pub fn split_after_last(s: &str, c: char) -> (r: Option<String>)
    ensures
        r matches Some(t) ==> after_last(s@, c) == Some(t@),
        r is None ==> after_last(s@, c) is None,
{
    match find_last(s, c) {
        Some(k) => {
            proof {
                lemma_last_index(s@, c);
            }
            let n = s.unicode_len();
            Some(String::from_str(s.substring_char(k + 1, n)))
        },
        None => None,
    }
}

/// A file name's extension, as `std::path::Path::extension` gives it: what
/// follows the last `.`, unless there is no `.`, the only `.` starts the
/// name, or the name is `..`.
pub open spec fn extension(name: Seq<char>) -> Option<Seq<char>> {
    if name =~= seq!['.', '.'] {
        None
    } else {
        match last_index(name, '.') {
            Some(k) => if k == 0 {
                None
            } else {
                Some(name.subrange(k + 1, name.len() as int))
            },
            None => None,
        }
    }
}

/// The extension of the file name `name`.
pub fn file_extension(name: &str) -> (r: Option<String>)
    ensures
        r matches Some(t) ==> extension(name@) == Some(t@),
        r is None ==> extension(name@) is None,
{
    let n = name.unicode_len();
    if n == 2 && name.get_char(0) == '.' && name.get_char(1) == '.' {
        assert(name@ =~= seq!['.', '.']);
        return None;
    }
    match find_last(name, '.') {
        Some(k) => {
            proof {
                lemma_last_index(name@, '.');
            }
            if k == 0 {
                None
            } else {
                Some(String::from_str(name.substring_char(k + 1, n)))
            }
        },
        None => None,
    }
}

/// The code of `c` with ASCII upper-case letters folded to lower case.
pub open spec fn folded(c: char) -> u32 {
    let u = c as u32;
    if 65 <= u <= 90 {
        (u + 32) as u32
    } else {
        u
    }
}

/// `a` and `b` are equal up to the case of ASCII letters.
pub open spec fn same_ignoring_ascii_case(a: Seq<char>, b: Seq<char>) -> bool {
    &&& a.len() == b.len()
    &&& forall|i: int| 0 <= i < a.len() ==> folded(a[i]) == folded(b[i])
}

fn fold(c: char) -> (r: u32)
    ensures
        r == folded(c),
{
    let u = c as u32;
    if 65 <= u && u <= 90 {
        u + 32
    } else {
        u
    }
}

/// Whether `a` and `b` are equal up to the case of ASCII letters.
pub fn eq_ignore_ascii_case(a: &str, b: &str) -> (r: bool)
    ensures
        r == same_ignoring_ascii_case(a@, b@),
{
    let n = a.unicode_len();
    let m = b.unicode_len();
    if n != m {
        return false;
    }
    let mut i: usize = 0;
    while i < n
        invariant
            n == a@.len(),
            n == b@.len(),
            i <= n,
            forall|k: int| 0 <= k < i ==> folded(a@[k]) == folded(b@[k]),
        decreases n - i,
    {
        if fold(a.get_char(i)) != fold(b.get_char(i)) {
            return false;
        }
        i = i + 1;
    }
    true
}

/// `s` with every occurrence of `pat` replaced by `rep`, scanning from the
/// left without overlaps, as `str::replace` does; an empty `pat` matches
/// before every character and at the end.
pub open spec fn replaced(s: Seq<char>, pat: Seq<char>, rep: Seq<char>) -> Seq<char>
    decreases s.len(),
{
    if pat.len() == 0 {
        if s.len() == 0 {
            rep
        } else {
            rep + seq![s[0]] + replaced(s.drop_first(), pat, rep)
        }
    } else if s.len() >= pat.len() && s.take(pat.len() as int) == pat {
        rep + replaced(s.skip(pat.len() as int), pat, rep)
    } else if s.len() == 0 {
        Seq::empty()
    } else {
        seq![s[0]] + replaced(s.drop_first(), pat, rep)
    }
}

fn matches_at(s: &str, pat: &str, i: usize) -> (r: bool)
    requires
        i + pat@.len() <= s@.len(),
    ensures
        r == (s@.subrange(i as int, i + pat@.len()) == pat@),
{
    let p = pat.unicode_len();
    let n = s.unicode_len();
    let mut k: usize = 0;
    while k < p
        invariant
            p == pat@.len(),
            n == s@.len(),
            i + p <= n,
            k <= p,
            forall|m: int| 0 <= m < k ==> s@[i + m] == pat@[m],
        decreases p - k,
    {
        if s.get_char(i + k) != pat.get_char(k) {
            assert(s@.subrange(i as int, i + p)[k as int] != pat@[k as int]);
            return false;
        }
        k = k + 1;
    }
    assert(s@.subrange(i as int, i + p) =~= pat@);
    true
}

/// `s` with every occurrence of `pat` replaced by `rep` (`str::replace`).
pub fn replace_all(s: &str, pat: &str, rep: &str) -> (r: String)
    ensures
        r@ == replaced(s@, pat@, rep@),
{
    let n = s.unicode_len();
    let p = pat.unicode_len();
    let mut out = String::new();
    let mut i: usize = 0;
    proof {
        assert(s@.skip(0) =~= s@);
    }
    while i < n
        invariant
            n == s@.len(),
            p == pat@.len(),
            i <= n,
            replaced(s@, pat@, rep@) == out@ + replaced(s@.skip(i as int), pat@, rep@),
        decreases n - i,
    {
        let ghost rest = s@.skip(i as int);
        if p > 0 && p <= n - i && matches_at(s, pat, i) {
            proof {
                assert(rest.take(p as int) =~= s@.subrange(i as int, i + p));
                assert(rest.skip(p as int) =~= s@.skip(i + p));
            }
            out.append(rep);
            i = i + p;
        } else {
            proof {
                if p > 0 && p <= n - i {
                    assert(rest.take(p as int) =~= s@.subrange(i as int, i + p));
                }
                assert(rest.drop_first() =~= s@.skip(i + 1));
                assert(rest[0] == s@[i as int]);
            }
            if p == 0 {
                out.append(rep);
            }
            let one = s.substring_char(i, i + 1);
            proof {
                assert(one@ =~= seq![s@[i as int]]);
            }
            out.append(one);
            i = i + 1;
        }
    }
    proof {
        assert(s@.skip(n as int) =~= Seq::<char>::empty());
    }
    if p == 0 {
        out.append(rep);
    }
    out
}

/// Every character of `s` is white space.
pub open spec fn all_white_space(s: Seq<char>) -> bool {
    forall|i: int| 0 <= i < s.len() ==> is_white_space(s[i])
}

/// Leading white space does not change what trimming the start gives.
pub proof fn lemma_trim_start_skips(w: Seq<char>, s: Seq<char>)
    requires
        all_white_space(w),
    ensures
        trim_start(w + s) == trim_start(s),
    decreases w.len(),
{
    if w.len() > 0 {
        assert((w + s).drop_first() =~= w.drop_first() + s);
        assert((w + s)[0] == w[0]);
        lemma_trim_start_skips(w.drop_first(), s);
    } else {
        assert(w + s =~= s);
    }
}

/// Trailing white space does not change what trimming the end gives.
pub proof fn lemma_trim_end_skips(s: Seq<char>, w: Seq<char>)
    requires
        all_white_space(w),
    ensures
        trim_end(s + w) == trim_end(s),
    decreases w.len(),
{
    if w.len() > 0 {
        assert((s + w).drop_last() =~= s + w.drop_last());
        assert((s + w).last() == w.last());
        lemma_trim_end_skips(s, w.drop_last());
    } else {
        assert(s + w =~= s);
    }
}

/// Trimming the start of `s + t`: what trimming `s` leaves, followed by `t`,
/// unless `s` is all white space.
pub proof fn lemma_trim_start_append(s: Seq<char>, t: Seq<char>)
    ensures
        trim_start(s).len() > 0 ==> trim_start(s + t) == trim_start(s) + t,
        trim_start(s).len() == 0 ==> all_white_space(s) && trim_start(s + t) == trim_start(t),
    decreases s.len(),
{
    if s.len() == 0 {
        assert(s + t =~= t);
    } else if is_white_space(s[0]) {
        assert((s + t).drop_first() =~= s.drop_first() + t);
        assert((s + t)[0] == s[0]);
        lemma_trim_start_append(s.drop_first(), t);
        if trim_start(s).len() == 0 {
            assert forall|i: int| 0 <= i < s.len() implies is_white_space(s[i]) by {
                if i > 0 {
                    assert(s[i] == s.drop_first()[i - 1]);
                }
            }
        }
    } else {
        assert((s + t)[0] == s[0]);
    }
}

/// A line all of white space trims to nothing.
pub proof fn lemma_trim_start_all_white(w: Seq<char>)
    requires
        all_white_space(w),
    ensures
        trim_start(w) == Seq::<char>::empty(),
{
    lemma_trim_start_skips(w, Seq::empty());
    assert(w + Seq::<char>::empty() =~= w);
}

/// `pat` occurs in `s` at position `i`.
pub open spec fn occurs_at(s: Seq<char>, pat: Seq<char>, i: int) -> bool {
    0 <= i && i + pat.len() <= s.len() && s.subrange(i, i + pat.len()) == pat
}

/// With no occurrence of a non-empty `pat`, replacing changes nothing.
pub proof fn lemma_replaced_absent(s: Seq<char>, pat: Seq<char>, rep: Seq<char>)
    requires
        pat.len() > 0,
        forall|i: int| !#[trigger] occurs_at(s, pat, i),
    ensures
        replaced(s, pat, rep) == s,
    decreases s.len(),
{
    if s.len() > 0 {
        if s.len() >= pat.len() {
            assert(s.take(pat.len() as int) =~= s.subrange(0, pat.len() as int));
            assert(!occurs_at(s, pat, 0));
        }
        let rest = s.drop_first();
        assert forall|i: int| !#[trigger] occurs_at(rest, pat, i) by {
            if 0 <= i && i + pat.len() <= rest.len() {
                assert(rest.subrange(i, i + pat.len()) =~= s.subrange(i + 1, i + 1 + pat.len()));
                assert(!occurs_at(s, pat, i + 1));
            }
        }
        lemma_replaced_absent(rest, pat, rep);
        assert(seq![s[0]] + rest =~= s);
    }
}

} // verus!
