//! Parsers for the text the git command line prints: the branch list
//! (`git branch --list -vv`) and the stash list
//! (`git stash list --format="%gd: %gs (%gd)"`). The grammars are stated as
//! specification functions; the parsers are proved to follow them.

use vstd::prelude::*;

use crate::git_types::GitBranch;
use crate::git_types::GitBranchV;
use crate::git_types::GitRemoteBranch;
use crate::git_types::GitRemoteBranchV;
use crate::git_types::GitStash;
use crate::strutil::chars_slice;
use crate::strutil::chars_to_string;
use crate::strutil::find_first;
use crate::strutil::find_sub;
use crate::strutil::is_space_char;
use crate::strutil::lemma_find_sub;
use crate::strutil::lemma_trim_front_subrange;
use crate::strutil::str_chars;
use crate::strutil::trim_chars;
use crate::strutil::trim_front;
use crate::strutil::trimmed;

verus! {

// --- line splitting ---

/// The text split at line breaks; a trailing break opens no further line.
pub open spec fn split_lines(s: Seq<char>) -> Seq<Seq<char>>
    decreases s.len(),
{
    if s.len() == 0 {
        Seq::empty()
    } else {
        let i = find_sub(s, seq!['\n']);
        if 0 <= i < s.len() {
            seq![s.take(i)] + split_lines(s.skip(i + 1))
        } else {
            seq![s]
        }
    }
}

// --- the stash list grammar ---
// each line reads `<stash id>: <message> (on <branch>)`

/// Everything before the first `": "`, or the whole line without one.
pub open spec fn stash_id_text(line: Seq<char>) -> Seq<char> {
    let i = find_sub(line, seq![':', ' ']);
    if i >= 0 {
        line.take(i)
    } else {
        line
    }
}

/// Everything after the first `": "`, or nothing without one.
pub open spec fn stash_rest(line: Seq<char>) -> Seq<char> {
    let i = find_sub(line, seq![':', ' ']);
    if i >= 0 {
        line.skip(i + 2)
    } else {
        Seq::empty()
    }
}

/// The rest up to the first `" (on "`.
pub open spec fn stash_message_text(line: Seq<char>) -> Seq<char> {
    let r = stash_rest(line);
    let j = find_sub(r, seq![' ', '(', 'o', 'n', ' ']);
    if j >= 0 {
        r.take(j)
    } else {
        r
    }
}

/// The text with every trailing `')'` removed.
pub open spec fn trim_trailing_parens(s: Seq<char>) -> Seq<char>
    decreases s.len(),
{
    if s.len() > 0 && s.last() == ')' {
        trim_trailing_parens(s.drop_last())
    } else {
        s
    }
}

/// The segment between the first and second `" (on "` of the rest (to its
/// end when there is no second one), with trailing parentheses dropped;
/// nothing when the rest has no `" (on "` at all.
pub open spec fn stash_branch_text(line: Seq<char>) -> Seq<char> {
    let r = stash_rest(line);
    let j = find_sub(r, seq![' ', '(', 'o', 'n', ' ']);
    if j < 0 {
        Seq::empty()
    } else {
        let after = r.skip(j + 5);
        let k = find_sub(after, seq![' ', '(', 'o', 'n', ' ']);
        let seg = if k >= 0 {
            after.take(k)
        } else {
            after
        };
        trim_trailing_parens(seg)
    }
}

proof fn lemma_trim_parens_subrange(s: Seq<char>, e: int)
    requires
        0 <= e <= s.len(),
        forall|j: int| e <= j < s.len() ==> s[j] == ')',
    ensures
        trim_trailing_parens(s) == trim_trailing_parens(s.subrange(0, e)),
    decreases s.len() - e,
{
    if e < s.len() {
        let t = s.drop_last();
        assert(t == s.subrange(0, s.len() - 1));
        lemma_trim_parens_subrange(t, e);
        assert(t.subrange(0, e) == s.subrange(0, e));
    } else {
        assert(s.subrange(0, e) == s);
    }
}

/// Removes every trailing `')'`.
fn strip_trailing_parens(v: &Vec<char>) -> (r: Vec<char>)
    ensures
        r@ == trim_trailing_parens(v@),
{
    let n = v.len();
    let mut end: usize = n;
    while end > 0 && v[end - 1] == ')'
        invariant
            n == v@.len(),
            0 <= end <= n,
            forall|j: int| end <= j < n ==> v@[j] == ')',
        decreases end,
    {
        end = end - 1;
    }
    proof {
        lemma_trim_parens_subrange(v@, end as int);
        if end > 0 {
            assert(v@.subrange(0, end as int).last() != ')');
        }
    }
    chars_slice(v, 0, end)
}

/// Parses one stash line into its fields, under the given position in the
/// list.
pub fn parse_stash_line(index: usize, line: &Vec<char>) -> (r: GitStash)
    ensures
        r@.index == index,
        r@.stash_id == stash_id_text(line@),
        r@.message == stash_message_text(line@),
        r@.branch_name == stash_branch_text(line@),
{
    let mut id_sep: Vec<char> = Vec::new();
    id_sep.push(':');
    id_sep.push(' ');
    proof {
        assert(id_sep@ =~= seq![':', ' ']);
    }
    let mut on_sep: Vec<char> = Vec::new();
    on_sep.push(' ');
    on_sep.push('(');
    on_sep.push('o');
    on_sep.push('n');
    on_sep.push(' ');
    proof {
        assert(on_sep@ =~= seq![' ', '(', 'o', 'n', ' ']);
    }
    let n = line.len();
    let (stash_id, rest) = match find_first(line, &id_sep) {
        Some(i) => {
            proof {
                lemma_find_sub(line@, id_sep@);
            }
            (chars_slice(line, 0, i), chars_slice(line, i + 2, n))
        },
        None => (chars_slice(line, 0, n), Vec::new()),
    };
    proof {
        assert(stash_id@ == stash_id_text(line@));
        assert(rest@ == stash_rest(line@)) by {
            if find_sub(line@, seq![':', ' ']) < 0 {
                assert(rest@ =~= Seq::<char>::empty());
            }
        }
    }
    let rn = rest.len();
    let (message, branch_name) = match find_first(&rest, &on_sep) {
        Some(j) => {
            proof {
                lemma_find_sub(rest@, on_sep@);
            }
            let message = chars_slice(&rest, 0, j);
            let after = chars_slice(&rest, j + 5, rn);
            let an = after.len();
            proof {
                assert(after@ =~= stash_rest(line@).skip(
                    find_sub(stash_rest(line@), seq![' ', '(', 'o', 'n', ' ']) + 5,
                ));
            }
            let seg = match find_first(&after, &on_sep) {
                Some(k) => {
                    proof {
                        lemma_find_sub(after@, on_sep@);
                    }
                    let sg = chars_slice(&after, 0, k);
                    proof {
                        assert(sg@ =~= after@.take(k as int));
                    }
                    sg
                },
                None => {
                    let sg = chars_slice(&after, 0, an);
                    proof {
                        assert(sg@ =~= after@);
                    }
                    sg
                },
            };
            let branch = strip_trailing_parens(&seg);
            proof {
                assert(branch@ == stash_branch_text(line@));
            }
            (message, branch)
        },
        None => {
            let message = chars_slice(&rest, 0, rn);
            let branch: Vec<char> = Vec::new();
            proof {
                assert(branch@ =~= Seq::<char>::empty());
                assert(branch@ =~= stash_branch_text(line@));
            }
            (message, branch)
        },
    };
    GitStash::new(
        index,
        chars_to_string(&message),
        chars_to_string(&stash_id),
        chars_to_string(&branch_name),
    )
}

/// Parses the whole output of the stash listing: one stash per line, indexed
/// in order, each split into its id, message and branch.
pub fn parse_stash_list(output: &str) -> (r: Vec<GitStash>)
    ensures
        r@.len() == split_lines(output@).len(),
        forall|i: int|
            0 <= i < r@.len() ==> {
                let line = split_lines(output@)[i];
                &&& (#[trigger] r@[i])@.index == i
                &&& r@[i]@.stash_id == stash_id_text(line)
                &&& r@[i]@.message == stash_message_text(line)
                &&& r@[i]@.branch_name == stash_branch_text(line)
            },
{
    let v = str_chars(output);
    let n = v.len();
    let mut nl: Vec<char> = Vec::new();
    nl.push('\n');
    proof {
        assert(nl@ =~= seq!['\n']);
    }
    let mut out: Vec<GitStash> = Vec::new();
    let ghost mut done: Seq<Seq<char>> = Seq::empty();
    let mut p: usize = 0;
    proof {
        assert(output@.skip(0) =~= output@);
        assert(done + split_lines(output@.skip(0)) =~= split_lines(output@));
    }
    loop
        invariant
            n == v@.len(),
            v@ == output@,
            nl@ == seq!['\n'],
            0 <= p <= n,
            out@.len() == done.len(),
            split_lines(output@) == done + split_lines(output@.skip(p as int)),
            forall|i: int|
                0 <= i < done.len() ==> {
                    &&& (#[trigger] out@[i])@.index == i
                    &&& out@[i]@.stash_id == stash_id_text(done[i])
                    &&& out@[i]@.message == stash_message_text(done[i])
                    &&& out@[i]@.branch_name == stash_branch_text(done[i])
                },
        decreases n - p,
    {
        if p == n {
            proof {
                assert(output@.skip(p as int) =~= Seq::<char>::empty());
                assert(split_lines(output@.skip(p as int)) =~= Seq::<Seq<char>>::empty());
                assert(done + Seq::<Seq<char>>::empty() =~= done);
            }
            return out;
        }
        let rem = chars_slice(&v, p, n);
        proof {
            assert(rem@ =~= output@.skip(p as int));
        }
        let line: Vec<char>;
        let next_p: usize;
        match find_first(&rem, &nl) {
            Some(i) => {
                proof {
                    lemma_find_sub(rem@, nl@);
                    assert(0 <= i as int && i + 1 <= rem@.len());
                }
                line = chars_slice(&rem, 0, i);
                next_p = p + i + 1;
                proof {
                    assert(line@ =~= rem@.take(i as int));
                    assert(rem@.skip(i + 1) =~= output@.skip(next_p as int));
                    assert(split_lines(rem@) == seq![rem@.take(i as int)] + split_lines(
                        rem@.skip(i + 1),
                    ));
                }
            },
            None => {
                let rl = rem.len();
                line = chars_slice(&rem, 0, rl);
                next_p = n;
                proof {
                    assert(line@ =~= rem@);
                    assert(split_lines(rem@) == seq![rem@]);
                    assert(output@.skip(n as int) =~= Seq::<char>::empty());
                    assert(split_lines(output@.skip(n as int)) =~= Seq::<Seq<char>>::empty());
                    assert(seq![rem@] + Seq::<Seq<char>>::empty() =~= seq![rem@]);
                }
            },
        }
        let idx = out.len();
        let stash = parse_stash_line(idx, &line);
        out.push(stash);
        proof {
            done = done.push(line@);
            assert(done + split_lines(output@.skip(next_p as int)) =~= split_lines(output@));
        }
        p = next_p;
    }
}

// --- the branch list grammar ---
// each trimmed line reads
//   [`*` ws] <name> ws <hex sha> [ws `[` <upstream> [`:` ...] `]` ...]
// and a line that does not fit becomes a branch named like the whole line

/// The run of characters before the first whitespace.
pub open spec fn leading_token(s: Seq<char>) -> Seq<char>
    decreases s.len(),
{
    if s.len() == 0 || is_space_char(s[0]) {
        Seq::empty()
    } else {
        seq![s[0]] + leading_token(s.drop_first())
    }
}

proof fn lemma_leading_token_subrange(s: Seq<char>, i: int)
    requires
        0 <= i <= s.len(),
        forall|j: int| 0 <= j < i ==> !is_space_char(s[j]),
    ensures
        leading_token(s) == s.take(i) + leading_token(s.skip(i)),
    decreases i,
{
    if i == 0 {
        assert(s.take(0) + leading_token(s.skip(0)) =~= leading_token(s.skip(0)));
        assert(s.skip(0) =~= s);
    } else {
        let t = s.drop_first();
        assert(t =~= s.skip(1));
        lemma_leading_token_subrange(t, i - 1);
        assert(t.take(i - 1) =~= s.take(i).drop_first());
        assert(t.skip(i - 1) =~= s.skip(i));
        assert(seq![s[0]] + (s.take(i).drop_first() + leading_token(s.skip(i))) =~= s.take(i)
            + leading_token(s.skip(i)));
    }
}

/// The run of characters before the first `':'` or `']'`.
pub open spec fn bracket_token(s: Seq<char>) -> Seq<char>
    decreases s.len(),
{
    if s.len() == 0 || s[0] == ':' || s[0] == ']' {
        Seq::empty()
    } else {
        seq![s[0]] + bracket_token(s.drop_first())
    }
}

proof fn lemma_bracket_token_subrange(s: Seq<char>, i: int)
    requires
        0 <= i <= s.len(),
        forall|j: int| 0 <= j < i ==> s[j] != ':' && s[j] != ']',
    ensures
        bracket_token(s) == s.take(i) + bracket_token(s.skip(i)),
    decreases i,
{
    if i == 0 {
        assert(s.take(0) + bracket_token(s.skip(0)) =~= bracket_token(s.skip(0)));
        assert(s.skip(0) =~= s);
    } else {
        let t = s.drop_first();
        assert(t =~= s.skip(1));
        lemma_bracket_token_subrange(t, i - 1);
        assert(t.take(i - 1) =~= s.take(i).drop_first());
        assert(t.skip(i - 1) =~= s.skip(i));
        assert(seq![s[0]] + (s.take(i).drop_first() + bracket_token(s.skip(i))) =~= s.take(i)
            + bracket_token(s.skip(i)));
    }
}

/// The trimmed line starts with the checked-out marker.
pub open spec fn branch_line_is_head(t: Seq<char>) -> bool {
    t.len() > 0 && t[0] == '*'
}

/// The line with its marker and the following whitespace removed.
pub open spec fn branch_body(t: Seq<char>) -> Seq<char> {
    if branch_line_is_head(t) {
        trim_front(t.skip(1))
    } else {
        t
    }
}

pub open spec fn branch_name_text(t: Seq<char>) -> Seq<char> {
    leading_token(branch_body(t))
}

pub open spec fn branch_rest1(t: Seq<char>) -> Seq<char> {
    trim_front(branch_body(t).skip(branch_name_text(t).len() as int))
}

pub open spec fn branch_sha_text(t: Seq<char>) -> Seq<char> {
    leading_token(branch_rest1(t))
}

pub open spec fn is_hex_char(c: char) -> bool {
    (48 <= c as u32 && c as u32 <= 57) || (65 <= c as u32 && c as u32 <= 70) || (97 <= c as u32
        && c as u32 <= 102)
}

pub open spec fn all_hex(s: Seq<char>) -> bool {
    forall|i: int| 0 <= i < s.len() ==> is_hex_char(#[trigger] s[i])
}

/// The line fits the grammar: it has a name and a hexadecimal id.
pub open spec fn branch_line_valid(t: Seq<char>) -> bool {
    branch_name_text(t).len() > 0 && branch_sha_text(t).len() > 0 && all_hex(branch_sha_text(t))
}

pub open spec fn branch_rest2(t: Seq<char>) -> Seq<char> {
    trim_front(branch_rest1(t).skip(branch_sha_text(t).len() as int))
}

/// An upstream bracket follows the id.
pub open spec fn has_upstream(t: Seq<char>) -> bool {
    branch_rest2(t).len() > 0 && branch_rest2(t)[0] == '['
}

pub open spec fn upstream_name_text(t: Seq<char>) -> Seq<char> {
    bracket_token(branch_rest2(t).skip(1))
}

/// A `':'` follows the upstream name (as in `[origin/x: gone]`).
pub open spec fn upstream_gone(t: Seq<char>) -> bool {
    let inner = branch_rest2(t).skip(1);
    let u = bracket_token(inner);
    u.len() < inner.len() && inner[u.len() as int] == ':'
}

/// What one line of the branch listing denotes.
pub open spec fn branch_of_line(line: Seq<char>) -> GitBranchV {
    let t = trimmed(line);
    if branch_line_valid(t) {
        GitBranchV {
            name: branch_name_text(t),
            is_head: branch_line_is_head(t),
            upstream: if has_upstream(t) {
                Some(
                    GitRemoteBranchV { name: upstream_name_text(t), gone: upstream_gone(t) },
                )
            } else {
                None
            },
        }
    } else {
        GitBranchV { name: t, is_head: false, upstream: None }
    }
}

fn is_space(c: char) -> (b: bool)
    ensures
        b == is_space_char(c),
{
    c == ' ' || c == '\t' || c == '\n' || c == '\r'
}

fn is_hex(c: char) -> (b: bool)
    ensures
        b == is_hex_char(c),
{
    let u = c as u32;
    (48 <= u && u <= 57) || (65 <= u && u <= 70) || (97 <= u && u <= 102)
}

/// The first position at or after `from` whose character is not whitespace.
fn skip_ws(v: &Vec<char>, from: usize) -> (r: usize)
    requires
        from <= v@.len(),
    ensures
        from <= r <= v@.len(),
        trim_front(v@.skip(from as int)) == v@.skip(r as int),
        r < v@.len() ==> !is_space_char(v@[r as int]),
{
    let n = v.len();
    let mut r = from;
    while r < n && is_space(v[r])
        invariant
            n == v@.len(),
            from <= r <= n,
            forall|j: int| from <= j < r ==> is_space_char(v@[j]),
        decreases n - r,
    {
        r = r + 1;
    }
    proof {
        let s = v@.skip(from as int);
        lemma_trim_front_subrange(s, r - from);
        assert(s.subrange(r - from, s.len() as int) =~= v@.skip(r as int));
    }
    r
}

/// The first position at or after `from` whose character is whitespace.
fn token_end(v: &Vec<char>, from: usize) -> (r: usize)
    requires
        from <= v@.len(),
    ensures
        from <= r <= v@.len(),
        leading_token(v@.skip(from as int)) == v@.subrange(from as int, r as int),
        r < v@.len() ==> is_space_char(v@[r as int]),
{
    let n = v.len();
    let mut r = from;
    while r < n && !is_space(v[r])
        invariant
            n == v@.len(),
            from <= r <= n,
            forall|j: int| from <= j < r ==> !is_space_char(v@[j]),
        decreases n - r,
    {
        r = r + 1;
    }
    proof {
        let s = v@.skip(from as int);
        lemma_leading_token_subrange(s, r - from);
        assert(s.take(r - from) =~= v@.subrange(from as int, r as int));
        if r < n {
            assert(s.skip(r - from)[0] == v@[r as int]);
            assert(leading_token(s.skip(r - from)) =~= Seq::<char>::empty());
        } else {
            assert(s.skip(r - from) =~= Seq::<char>::empty());
        }
        assert(s.take(r - from) + Seq::<char>::empty() =~= s.take(r - from));
    }
    r
}

/// The first position at or after `from` whose character closes or splits the
/// upstream bracket.
fn bracket_end(v: &Vec<char>, from: usize) -> (r: usize)
    requires
        from <= v@.len(),
    ensures
        from <= r <= v@.len(),
        bracket_token(v@.skip(from as int)) == v@.subrange(from as int, r as int),
        r < v@.len() ==> v@[r as int] == ':' || v@[r as int] == ']',
{
    let n = v.len();
    let mut r = from;
    while r < n && v[r] != ':' && v[r] != ']'
        invariant
            n == v@.len(),
            from <= r <= n,
            forall|j: int| from <= j < r ==> v@[j] != ':' && v@[j] != ']',
        decreases n - r,
    {
        r = r + 1;
    }
    proof {
        let s = v@.skip(from as int);
        lemma_bracket_token_subrange(s, r - from);
        assert(s.take(r - from) =~= v@.subrange(from as int, r as int));
        if r < n {
            assert(s.skip(r - from)[0] == v@[r as int]);
            assert(bracket_token(s.skip(r - from)) =~= Seq::<char>::empty());
        } else {
            assert(s.skip(r - from) =~= Seq::<char>::empty());
        }
        assert(s.take(r - from) + Seq::<char>::empty() =~= s.take(r - from));
    }
    r
}

/// Parses one line of the branch listing: the optional checked-out marker,
/// the branch name, its hexadecimal id, and the optional upstream bracket
/// with its gone mark. A line that does not fit the grammar yields a branch
/// named like the whole trimmed line, so that no listed branch is lost.
pub fn parse_branch_line(line: &str) -> (r: GitBranch)
    ensures
        r@ == branch_of_line(line@),
{
    let raw = str_chars(line);
    let t = trim_chars(&raw);
    let tn = t.len();
    let is_head = tn > 0 && t[0] == '*';
    let bstart = if is_head {
        skip_ws(&t, 1)
    } else {
        0
    };
    proof {
        assert(t@.skip(0) =~= t@);
        assert(branch_body(t@) == t@.skip(bstart as int));
    }
    let name_end = token_end(&t, bstart);
    proof {
        assert(branch_name_text(t@) == t@.subrange(bstart as int, name_end as int));
        assert(branch_body(t@).skip(name_end - bstart) =~= t@.skip(name_end as int));
        assert(branch_rest1(t@) == trim_front(t@.skip(name_end as int)));
    }
    let rest1_start = skip_ws(&t, name_end);
    proof {
        assert(branch_rest1(t@) == t@.skip(rest1_start as int));
    }
    let sha_end = token_end(&t, rest1_start);
    proof {
        assert(branch_sha_text(t@) == t@.subrange(rest1_start as int, sha_end as int));
    }
    let mut sha_hex = true;
    let mut i = rest1_start;
    while i < sha_end
        invariant
            rest1_start <= i <= sha_end <= t@.len(),
            sha_hex == (forall|j: int| rest1_start <= j < i ==> is_hex_char(#[trigger] t@[j])),
        decreases sha_end - i,
    {
        if !is_hex(t[i]) {
            sha_hex = false;
        }
        i = i + 1;
    }
    let valid = name_end > bstart && sha_end > rest1_start && sha_hex;
    proof {
        assert(valid == branch_line_valid(t@)) by {
            assert(branch_sha_text(t@).len() == sha_end - rest1_start);
            assert(branch_name_text(t@).len() == name_end - bstart);
            if sha_end > rest1_start {
                let sha = branch_sha_text(t@);
                assert(forall|k: int| 0 <= k < sha.len() ==> #[trigger] sha[k] == t@[rest1_start
                    + k]);
                if forall|j: int| rest1_start <= j < sha_end ==> is_hex_char(#[trigger] t@[j]) {
                    assert forall|k: int| 0 <= k < sha.len() implies is_hex_char(
                        #[trigger] sha[k],
                    ) by {
                        assert(is_hex_char(t@[rest1_start + k]));
                    }
                } else {
                    let j = choose|j: int|
                        rest1_start <= j < sha_end && !is_hex_char(#[trigger] t@[j]);
                    assert(sha[j - rest1_start] == t@[j]);
                    assert(!all_hex(sha));
                }
            }
        }
    }
    if !valid {
        return GitBranch { name: chars_to_string(&t), is_head: false, upstream: None };
    }
    let rest2_start = skip_ws(&t, sha_end);
    proof {
        assert(branch_rest1(t@).skip(sha_end - rest1_start) =~= t@.skip(sha_end as int));
        assert(branch_rest2(t@) == t@.skip(rest2_start as int));
    }
    let has_up = rest2_start < tn && t[rest2_start] == '[';
    let name = chars_to_string(&chars_slice(&t, bstart, name_end));
    if has_up {
        let uend = bracket_end(&t, rest2_start + 1);
        proof {
            assert(branch_rest2(t@).skip(1) =~= t@.skip(rest2_start + 1));
            assert(upstream_name_text(t@) == t@.subrange(rest2_start + 1, uend as int));
        }
        let gone = uend < tn && t[uend] == ':';
        proof {
            let inner = branch_rest2(t@).skip(1);
            assert(inner.len() == tn - rest2_start - 1);
            assert(upstream_name_text(t@).len() == uend - rest2_start - 1);
            if uend < tn {
                assert(inner[uend - rest2_start - 1] == t@[uend as int]);
            }
            assert(gone == upstream_gone(t@));
        }
        let uname = chars_to_string(&chars_slice(&t, rest2_start + 1, uend));
        GitBranch { name, is_head, upstream: Some(GitRemoteBranch { name: uname, gone }) }
    } else {
        GitBranch { name, is_head, upstream: None }
    }
}

/// Parses the whole output of the branch listing, one branch per line.
pub fn parse_branches(output: &str) -> (r: Vec<GitBranch>)
    ensures
        r@.len() == split_lines(output@).len(),
        forall|i: int|
            0 <= i < r@.len() ==> (#[trigger] r@[i])@ == branch_of_line(split_lines(output@)[i]),
{
    let v = str_chars(output);
    let n = v.len();
    let mut nl: Vec<char> = Vec::new();
    nl.push('\n');
    proof {
        assert(nl@ =~= seq!['\n']);
    }
    let mut out: Vec<GitBranch> = Vec::new();
    let ghost mut done: Seq<Seq<char>> = Seq::empty();
    let mut p: usize = 0;
    proof {
        assert(output@.skip(0) =~= output@);
        assert(done + split_lines(output@.skip(0)) =~= split_lines(output@));
    }
    loop
        invariant
            n == v@.len(),
            v@ == output@,
            nl@ == seq!['\n'],
            0 <= p <= n,
            out@.len() == done.len(),
            split_lines(output@) == done + split_lines(output@.skip(p as int)),
            forall|i: int|
                0 <= i < done.len() ==> (#[trigger] out@[i])@ == branch_of_line(done[i]),
        decreases n - p,
    {
        if p == n {
            proof {
                assert(output@.skip(p as int) =~= Seq::<char>::empty());
                assert(split_lines(output@.skip(p as int)) =~= Seq::<Seq<char>>::empty());
                assert(done + Seq::<Seq<char>>::empty() =~= done);
            }
            return out;
        }
        let rem = chars_slice(&v, p, n);
        proof {
            assert(rem@ =~= output@.skip(p as int));
        }
        let line: Vec<char>;
        let next_p: usize;
        match find_first(&rem, &nl) {
            Some(i) => {
                proof {
                    lemma_find_sub(rem@, nl@);
                    assert(0 <= i as int && i + 1 <= rem@.len());
                }
                line = chars_slice(&rem, 0, i);
                next_p = p + i + 1;
                proof {
                    assert(line@ =~= rem@.take(i as int));
                    assert(rem@.skip(i + 1) =~= output@.skip(next_p as int));
                    assert(split_lines(rem@) == seq![rem@.take(i as int)] + split_lines(
                        rem@.skip(i + 1),
                    ));
                }
            },
            None => {
                let rl = rem.len();
                line = chars_slice(&rem, 0, rl);
                next_p = n;
                proof {
                    assert(line@ =~= rem@);
                    assert(split_lines(rem@) == seq![rem@]);
                    assert(output@.skip(n as int) =~= Seq::<char>::empty());
                    assert(split_lines(output@.skip(n as int)) =~= Seq::<Seq<char>>::empty());
                    assert(seq![rem@] + Seq::<Seq<char>>::empty() =~= seq![rem@]);
                }
            },
        }
        let line_str = chars_to_string(&line);
        let branch = parse_branch_line(line_str.as_str());
        out.push(branch);
        proof {
            done = done.push(line@);
            assert(done + split_lines(output@.skip(next_p as int)) =~= split_lines(output@));
        }
        p = next_p;
    }
}

} // verus!
