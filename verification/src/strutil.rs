//! String helpers shared by the input components, the mock repository and the
//! parsers: trimming, substring search, character/string conversion and a
//! lexicographic order on names (by code point, which is the order of the
//! byte-wise comparison of their UTF-8 forms).

use vstd::prelude::*;

verus! {

/// ASCII whitespace, the set the input components trim from both ends.
pub open spec fn is_space_char(c: char) -> bool {
    c == ' ' || c == '\t' || c == '\n' || c == '\r'
}

pub open spec fn trim_front(s: Seq<char>) -> Seq<char>
    decreases s.len(),
{
    if s.len() > 0 && is_space_char(s[0]) {
        trim_front(s.drop_first())
    } else {
        s
    }
}

pub open spec fn trim_back(s: Seq<char>) -> Seq<char>
    decreases s.len(),
{
    if s.len() > 0 && is_space_char(s.last()) {
        trim_back(s.drop_last())
    } else {
        s
    }
}

/// The text with ASCII whitespace removed from both ends.
pub open spec fn trimmed(s: Seq<char>) -> Seq<char> {
    trim_back(trim_front(s))
}

pub proof fn lemma_trim_front_subrange(s: Seq<char>, i: int)
    requires
        0 <= i <= s.len(),
        forall|j: int| 0 <= j < i ==> is_space_char(s[j]),
    ensures
        trim_front(s) == trim_front(s.subrange(i, s.len() as int)),
    decreases i,
{
    if i > 0 {
        let t = s.subrange(1, s.len() as int);
        assert(s.drop_first() == t);
        lemma_trim_front_subrange(t, i - 1);
        assert(t.subrange(i - 1, t.len() as int) == s.subrange(i, s.len() as int));
    } else {
        assert(s.subrange(0, s.len() as int) == s);
    }
}

pub proof fn lemma_trim_back_subrange(s: Seq<char>, e: int)
    requires
        0 <= e <= s.len(),
        forall|j: int| e <= j < s.len() ==> is_space_char(s[j]),
    ensures
        trim_back(s) == trim_back(s.subrange(0, e)),
    decreases s.len() - e,
{
    if e < s.len() {
        let t = s.drop_last();
        assert(t == s.subrange(0, s.len() - 1));
        lemma_trim_back_subrange(t, e);
        assert(t.subrange(0, e) == s.subrange(0, e));
    } else {
        assert(s.subrange(0, e) == s);
    }
}

fn is_space(c: char) -> (b: bool)
    ensures
        b == is_space_char(c),
{
    c == ' ' || c == '\t' || c == '\n' || c == '\r'
}

/// The characters of `v` with ASCII whitespace removed from both ends.
pub fn trim_chars(v: &Vec<char>) -> (r: Vec<char>)
    ensures
        r@ == trimmed(v@),
{
    let n = v.len();
    let mut start: usize = 0;
    while start < n && is_space(v[start])
        invariant
            n == v@.len(),
            0 <= start <= n,
            forall|j: int| 0 <= j < start ==> is_space_char(v@[j]),
        decreases n - start,
    {
        start = start + 1;
    }
    proof {
        lemma_trim_front_subrange(v@, start as int);
    }
    let ghost front = v@.subrange(start as int, v@.len() as int);
    // front == trim_front(v@), and its first character (if any) is not a space
    let mut end: usize = n;
    while end > start && is_space(v[end - 1])
        invariant
            n == v@.len(),
            0 <= start <= end <= n,
            forall|j: int| end <= j < n ==> is_space_char(v@[j]),
        decreases end,
    {
        end = end - 1;
    }
    proof {
        assert(forall|j: int| end - start <= j < front.len() ==> is_space_char(front[j]));
        lemma_trim_back_subrange(front, end - start);
        assert(front.subrange(0, end - start) == v@.subrange(start as int, end as int));
        if start < end {
            assert(!is_space_char(front[0]));
        }
    }
    let mut r: Vec<char> = Vec::new();
    let mut i: usize = start;
    while i < end
        invariant
            start <= i <= end <= n,
            n == v@.len(),
            r@ == v@.subrange(start as int, i as int),
        decreases end - i,
    {
        r.push(v[i]);
        proof {
            assert(v@.subrange(start as int, i + 1) == v@.subrange(start as int, i as int).push(
                v@[i as int],
            ));
        }
        i = i + 1;
    }
    proof {
        assert(trim_front(v@) == front);
        if start == end {
            assert(trim_back(front) == front.subrange(0, 0)) by {
                assert(forall|j: int| 0 <= j < front.len() ==> is_space_char(front[j]));
            }
            assert(r@ == trimmed(v@));
        } else {
            assert(r@ == trimmed(v@));
        }
    }
    r
}

/// The characters of the string, one by one.
pub fn str_chars(s: &str) -> (v: Vec<char>)
    ensures
        v@ == s@,
{
    let n = s.unicode_len();
    let mut v: Vec<char> = Vec::new();
    let mut i: usize = 0;
    while i < n
        invariant
            n == s@.len(),
            0 <= i <= n,
            v@ == s@.subrange(0, i as int),
        decreases n - i,
    {
        v.push(s.get_char(i));
        proof {
            assert(s@.subrange(0, i + 1) == s@.subrange(0, i as int).push(s@[i as int]));
        }
        i = i + 1;
    }
    proof {
        assert(s@.subrange(0, n as int) == s@);
    }
    v
}

/// Relies on `String::push`: appends the character at the end of the string.
#[verifier::external_body]
fn push_char(s: &mut String, c: char)
    ensures
        final(s)@ == old(s)@.push(c),
{
    s.push(c);
}

/// A `String` holding exactly the given characters.
pub fn chars_to_string(v: &Vec<char>) -> (s: String)
    ensures
        s@ == v@,
{
    let mut s = String::new();
    let mut i: usize = 0;
    while i < v.len()
        invariant
            0 <= i <= v@.len(),
            s@ == v@.subrange(0, i as int),
        decreases v@.len() - i,
    {
        push_char(&mut s, v[i]);
        proof {
            assert(v@.subrange(0, i + 1) == v@.subrange(0, i as int).push(v@[i as int]));
        }
        i = i + 1;
    }
    proof {
        assert(v@.subrange(0, v@.len() as int) == v@);
    }
    s
}

/// `pat` occurs in `s` starting at position `i`.
pub open spec fn occurs_at(s: Seq<char>, pat: Seq<char>, i: int) -> bool {
    0 <= i && i + pat.len() <= s.len() && s.subrange(i, i + pat.len()) == pat
}

/// `pat` occurs somewhere in `s`.
pub open spec fn contains_seq(s: Seq<char>, pat: Seq<char>) -> bool {
    exists|i: int| occurs_at(s, pat, i)
}

fn match_at(s: &Vec<char>, pat: &Vec<char>, i: usize) -> (b: bool)
    requires
        i + pat@.len() <= s@.len(),
    ensures
        b == occurs_at(s@, pat@, i as int),
{
    let n = s.len();
    let m = pat.len();
    let mut j: usize = 0;
    while j < m
        invariant
            n == s@.len(),
            m == pat@.len(),
            i + m <= n,
            0 <= j <= m,
            forall|k: int| 0 <= k < j ==> s@[i + k] == pat@[k],
        decreases m - j,
    {
        if s[i + j] != pat[j] {
            proof {
                let w = s@.subrange(i as int, i + pat@.len());
                assert(w[j as int] == s@[i + j]);
                assert(w != pat@);
            }
            return false;
        }
        j = j + 1;
    }
    proof {
        let w = s@.subrange(i as int, i + pat@.len());
        assert(forall|k: int| 0 <= k < pat@.len() ==> w[k] == s@[i + k]);
        assert(w =~= pat@);
    }
    true
}

/// Whether `pat` occurs as a contiguous run inside `s`.
pub fn chars_contain(s: &Vec<char>, pat: &Vec<char>) -> (b: bool)
    ensures
        b == contains_seq(s@, pat@),
{
    if pat.len() > s.len() {
        proof {
            assert(forall|i: int| !occurs_at(s@, pat@, i));
        }
        return false;
    }
    let last = s.len() - pat.len();
    let mut i: usize = 0;
    loop
        invariant
            pat@.len() <= s@.len(),
            last == s@.len() - pat@.len(),
            0 <= i <= last,
            forall|k: int| 0 <= k < i ==> !occurs_at(s@, pat@, k),
        decreases last - i,
    {
        if match_at(s, pat, i) {
            return true;
        }
        if i == last {
            proof {
                assert(forall|k: int| occurs_at(s@, pat@, k) ==> 0 <= k <= last);
            }
            return false;
        }
        i = i + 1;
    }
}

/// The position of the first occurrence of `pat` in `s`, or `-1` when there
/// is none.
pub open spec fn find_sub(s: Seq<char>, pat: Seq<char>) -> int
    decreases s.len(),
{
    if occurs_at(s, pat, 0) {
        0
    } else if s.len() == 0 {
        -1
    } else {
        let r = find_sub(s.drop_first(), pat);
        if r < 0 {
            -1
        } else {
            r + 1
        }
    }
}

proof fn lemma_occurs_shift(s: Seq<char>, pat: Seq<char>, i: int)
    requires
        s.len() > 0,
        i >= 0,
    ensures
        occurs_at(s, pat, i + 1) == occurs_at(s.drop_first(), pat, i),
{
    if i + 1 + pat.len() <= s.len() {
        assert(s.subrange(i + 1, i + 1 + pat.len()) =~= s.drop_first().subrange(
            i,
            i + pat.len(),
        ));
    }
}

/// What `find_sub` yields: `-1` exactly when the pattern never occurs, and
/// otherwise the first position at which it does.
pub proof fn lemma_find_sub(s: Seq<char>, pat: Seq<char>)
    ensures
        find_sub(s, pat) == -1 ==> !contains_seq(s, pat),
        find_sub(s, pat) >= 0 ==> occurs_at(s, pat, find_sub(s, pat)) && (forall|j: int|
            0 <= j < find_sub(s, pat) ==> !occurs_at(s, pat, j)),
    decreases s.len(),
{
    if !occurs_at(s, pat, 0) && s.len() > 0 {
        lemma_find_sub(s.drop_first(), pat);
        if find_sub(s.drop_first(), pat) < 0 {
            assert forall|j: int| !occurs_at(s, pat, j) by {
                if j > 0 {
                    lemma_occurs_shift(s, pat, j - 1);
                }
            }
        } else {
            let f = find_sub(s, pat);
            assert(f == find_sub(s.drop_first(), pat) + 1);
            lemma_occurs_shift(s, pat, f - 1);
            assert(occurs_at(s, pat, f));
            assert forall|j: int| 0 <= j < f implies !occurs_at(s, pat, j) by {
                if j > 0 {
                    lemma_occurs_shift(s, pat, j - 1);
                }
            }
        }
    }
}

/// The position of the first occurrence of `pat` in `s`, if any.
pub fn find_first(s: &Vec<char>, pat: &Vec<char>) -> (r: Option<usize>)
    ensures
        match r {
            Some(i) => i as int == find_sub(s@, pat@),
            None => find_sub(s@, pat@) == -1,
        },
{
    proof {
        lemma_find_sub(s@, pat@);
    }
    if pat.len() > s.len() {
        proof {
            assert(forall|i: int| !occurs_at(s@, pat@, i));
            if find_sub(s@, pat@) >= 0 {
                assert(occurs_at(s@, pat@, find_sub(s@, pat@)));
            }
        }
        return None;
    }
    let last = s.len() - pat.len();
    let mut i: usize = 0;
    loop
        invariant
            pat@.len() <= s@.len(),
            last == s@.len() - pat@.len(),
            0 <= i <= last,
            forall|k: int| 0 <= k < i ==> !occurs_at(s@, pat@, k),
        decreases last - i,
    {
        if match_at(s, pat, i) {
            proof {
                lemma_find_sub(s@, pat@);
                assert(occurs_at(s@, pat@, i as int));
                if find_sub(s@, pat@) == -1 {
                    assert(contains_seq(s@, pat@));
                    assert(false);
                }
            }
            return Some(i);
        }
        if i == last {
            proof {
                assert(forall|k: int| occurs_at(s@, pat@, k) ==> 0 <= k <= last);
                lemma_find_sub(s@, pat@);
                if find_sub(s@, pat@) >= 0 {
                    assert(occurs_at(s@, pat@, find_sub(s@, pat@)));
                }
            }
            return None;
        }
        i = i + 1;
    }
}

/// The characters of `v` from `a` (inclusive) to `b` (exclusive).
pub fn chars_slice(v: &Vec<char>, a: usize, b: usize) -> (r: Vec<char>)
    requires
        a <= b <= v@.len(),
    ensures
        r@ == v@.subrange(a as int, b as int),
{
    let mut r: Vec<char> = Vec::new();
    let mut i: usize = a;
    proof {
        assert(r@ =~= v@.subrange(a as int, a as int));
    }
    while i < b
        invariant
            a <= i <= b <= v@.len(),
            r@ == v@.subrange(a as int, i as int),
        decreases b - i,
    {
        r.push(v[i]);
        proof {
            assert(v@.subrange(a as int, i + 1) == v@.subrange(a as int, i as int).push(
                v@[i as int],
            ));
        }
        i = i + 1;
    }
    r
}

/// Some entry of `names` holds exactly this text.
pub open spec fn text_listed(names: Seq<String>, t: Seq<char>) -> bool {
    exists|j: int| 0 <= j < names.len() && (#[trigger] names[j])@ == t
}

/// Whether some entry of `names` holds exactly the text `t`.
pub fn text_in_list(names: &Vec<String>, t: &str) -> (b: bool)
    ensures
        b == text_listed(names@, t@),
{
    let n = names.len();
    let mut found = false;
    let mut i: usize = 0;
    while i < n
        invariant
            n == names@.len(),
            0 <= i <= n,
            found ==> exists|j: int| 0 <= j < i && (#[trigger] names@[j])@ == t@,
            !found ==> forall|j: int| 0 <= j < i ==> (#[trigger] names@[j])@ != t@,
        decreases n - i,
    {
        if str_eq(vstd::std_specs::vec::vec_index(names, i).as_str(), t) {
            proof {
                assert(names@[i as int]@ == t@);
            }
            found = true;
        }
        i = i + 1;
    }
    found
}

/// Lexicographic comparison by code point, from position `i` on.
pub open spec fn lex_le_from(a: Seq<char>, b: Seq<char>, i: int) -> bool
    decreases a.len() - i,
{
    if i < 0 || i >= a.len() {
        true
    } else if i >= b.len() {
        false
    } else if (a[i] as u32) == (b[i] as u32) {
        lex_le_from(a, b, i + 1)
    } else {
        (a[i] as u32) < (b[i] as u32)
    }
}

/// `a` is lexicographically at most `b`, comparing code points.
pub open spec fn lex_le(a: Seq<char>, b: Seq<char>) -> bool {
    lex_le_from(a, b, 0)
}

/// The order is total: two names can always be compared.
pub proof fn lemma_lex_total(a: Seq<char>, b: Seq<char>)
    ensures
        lex_le(a, b) || lex_le(b, a),
{
    lemma_lex_total_from(a, b, 0);
}

proof fn lemma_lex_total_from(a: Seq<char>, b: Seq<char>, i: int)
    requires
        0 <= i,
    ensures
        lex_le_from(a, b, i) || lex_le_from(b, a, i),
    decreases a.len() + b.len() - i,
{
    if i < a.len() && i < b.len() && (a[i] as u32) == (b[i] as u32) {
        lemma_lex_total_from(a, b, i + 1);
    }
}

/// The order is reflexive.
pub proof fn lemma_lex_refl(a: Seq<char>)
    ensures
        lex_le(a, a),
{
    lemma_lex_total(a, a);
}

/// The order is transitive.
pub proof fn lemma_lex_trans(a: Seq<char>, b: Seq<char>, c: Seq<char>)
    requires
        lex_le(a, b),
        lex_le(b, c),
    ensures
        lex_le(a, c),
{
    lemma_lex_trans_from(a, b, c, 0);
}

proof fn lemma_lex_trans_from(a: Seq<char>, b: Seq<char>, c: Seq<char>, i: int)
    requires
        0 <= i,
        lex_le_from(a, b, i),
        lex_le_from(b, c, i),
    ensures
        lex_le_from(a, c, i),
    decreases a.len() + b.len() + c.len() - i,
{
    if i < a.len() {
        if i < b.len() && i < c.len() && (a[i] as u32) == (b[i] as u32) && (b[i] as u32) == (
        c[i] as u32) {
            lemma_lex_trans_from(a, b, c, i + 1);
        }
    }
}

/// Whether the two strings hold the same characters.
pub fn str_eq(a: &str, b: &str) -> (r: bool)
    ensures
        r == (a@ == b@),
{
    let na = a.unicode_len();
    let nb = b.unicode_len();
    if na != nb {
        return false;
    }
    let mut i: usize = 0;
    while i < na
        invariant
            na == a@.len(),
            na == b@.len(),
            0 <= i <= na,
            forall|j: int| 0 <= j < i ==> a@[j] == b@[j],
        decreases na - i,
    {
        if a.get_char(i) != b.get_char(i) {
            return false;
        }
        i = i + 1;
    }
    proof {
        assert(a@ =~= b@);
    }
    true
}

/// Whether `a` comes at or before `b` in the name order.
pub fn str_le(a: &str, b: &str) -> (r: bool)
    ensures
        r == lex_le(a@, b@),
{
    let na = a.unicode_len();
    let nb = b.unicode_len();
    let mut i: usize = 0;
    loop
        invariant
            na == a@.len(),
            nb == b@.len(),
            0 <= i <= na,
            i <= nb,
            lex_le(a@, b@) == lex_le_from(a@, b@, i as int),
        decreases na - i,
    {
        if i >= na {
            return true;
        }
        if i >= nb {
            return false;
        }
        let ca = a.get_char(i) as u32;
        let cb = b.get_char(i) as u32;
        if ca != cb {
            return ca < cb;
        }
        i = i + 1;
    }
}

} // verus!
