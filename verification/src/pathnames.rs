//! Path-string helpers: file name, stem and extension extraction, path
//! joining, and the output naming rule. Paths are plain strings; both `/`
//! and `\` count as directory separators.

use vstd::prelude::*;

verus! {

/// A directory separator character.
pub open spec fn is_sep(c: char) -> bool {
    c == '/' || c == '\\'
}

/// ASCII lower-casing of one character.
pub open spec fn lower_char(c: char) -> char {
    if 'A' <= c && c <= 'Z' {
        ((c as u32) + 32) as char
    } else {
        c
    }
}

/// ASCII lower-casing of a character sequence.
pub open spec fn lower_seq(s: Seq<char>) -> Seq<char> {
    Seq::new(s.len(), |i: int| lower_char(s[i]))
}

/// Index of the last separator in `s`, or -1 if there is none.
pub open spec fn last_sep_idx(s: Seq<char>) -> int
    decreases s.len(),
{
    if s.len() == 0 {
        -1
    } else if is_sep(s[s.len() - 1]) {
        s.len() - 1
    } else {
        last_sep_idx(s.drop_last())
    }
}

/// Index of the last `.` in `s`, or -1 if there is none.
pub open spec fn last_dot_idx(s: Seq<char>) -> int
    decreases s.len(),
{
    if s.len() == 0 {
        -1
    } else if s[s.len() - 1] == '.' {
        s.len() - 1
    } else {
        last_dot_idx(s.drop_last())
    }
}

pub proof fn lemma_last_sep_idx_range(s: Seq<char>)
    ensures
        -1 <= last_sep_idx(s) < s.len(),
    decreases s.len(),
{
    if s.len() != 0 && !is_sep(s[s.len() - 1]) {
        lemma_last_sep_idx_range(s.drop_last());
    }
}

pub proof fn lemma_last_dot_idx_range(s: Seq<char>)
    ensures
        -1 <= last_dot_idx(s) < s.len(),
    decreases s.len(),
{
    if s.len() != 0 && s[s.len() - 1] != '.' {
        lemma_last_dot_idx_range(s.drop_last());
    }
}

/// A sequence with no separator in it.
pub open spec fn sep_free(s: Seq<char>) -> bool {
    forall|i: int| 0 <= i < s.len() ==> !is_sep(#[trigger] s[i])
}

/// A separator-free sequence has no last separator.
pub proof fn lemma_sep_free_last_idx(s: Seq<char>)
    requires
        sep_free(s),
    ensures
        last_sep_idx(s) == -1,
    decreases s.len(),
{
    if s.len() != 0 {
        assert(!is_sep(s[s.len() - 1]));
        assert(sep_free(s.drop_last()));
        lemma_sep_free_last_idx(s.drop_last());
    }
}

/// A separator with none after it is the last one.
pub proof fn lemma_last_sep_idx_at(s: Seq<char>, k: int)
    requires
        0 <= k < s.len(),
        is_sep(s[k]),
        forall|j: int| k < j < s.len() ==> !is_sep(#[trigger] s[j]),
    ensures
        last_sep_idx(s) == k,
    decreases s.len(),
{
    if k == s.len() - 1 {
    } else {
        assert(!is_sep(s[s.len() - 1]));
        lemma_last_sep_idx_at(s.drop_last(), k);
    }
}

/// Nothing after the last separator is a separator.
pub proof fn lemma_no_sep_after_last(s: Seq<char>)
    ensures
        forall|j: int| last_sep_idx(s) < j < s.len() ==> !is_sep(#[trigger] s[j]),
    decreases s.len(),
{
    if s.len() != 0 && !is_sep(s[s.len() - 1]) {
        lemma_no_sep_after_last(s.drop_last());
        lemma_last_sep_idx_range(s.drop_last());
        assert forall|j: int| last_sep_idx(s) < j < s.len() implies !is_sep(#[trigger] s[j]) by {
            if j < s.len() - 1 {
                assert(s.drop_last()[j] == s[j]);
            }
        }
    }
}

/// A found separator really is one: the character at a non-negative
/// last-separator index is a separator.
pub proof fn lemma_last_sep_idx_char(s: Seq<char>)
    ensures
        last_sep_idx(s) >= 0 ==> is_sep(s[last_sep_idx(s)]),
    decreases s.len(),
{
    if s.len() != 0 && !is_sep(s[s.len() - 1]) {
        lemma_last_sep_idx_char(s.drop_last());
        lemma_last_sep_idx_range(s.drop_last());
        if last_sep_idx(s) >= 0 {
            assert(s.drop_last()[last_sep_idx(s)] == s[last_sep_idx(s)]);
        }
    }
}

/// Separator-free sequences concatenate to a separator-free sequence.
pub proof fn lemma_sep_free_concat(a: Seq<char>, b: Seq<char>)
    requires
        sep_free(a),
        sep_free(b),
    ensures
        sep_free(a + b),
{
    assert forall|i: int| 0 <= i < (a + b).len() implies !is_sep(#[trigger] (a + b)[i]) by {
        if i < a.len() {
            assert((a + b)[i] == a[i]);
        } else {
            assert((a + b)[i] == b[i - a.len()]);
        }
    }
}

/// A path's file name holds no separator.
pub proof fn lemma_file_name_sep_free(p: Seq<char>)
    ensures
        sep_free(spec_file_name(p)),
{
    lemma_last_sep_idx_range(p);
    lemma_no_sep_after_last(p);
}

/// Joining a file name onto a directory puts it just under that
/// directory: the parent of the joined path is the directory again. Holds
/// for any separator-free name and any directory that does not end in a
/// separator, except for a bare root separator, which stays its own
/// parent.
pub proof fn lemma_parent_of_join(dir: Seq<char>, name: Seq<char>)
    requires
        sep_free(name),
        dir.len() == 0 || (dir.len() == 1 && is_sep(dir[0])) || !is_sep(dir[dir.len() - 1]),
    ensures
        spec_parent(spec_join(dir, name)) == dir,
{
    reveal_strlit("/");
    if dir.len() == 0 {
        lemma_sep_free_last_idx(name);
        assert(dir =~= Seq::<char>::empty());
    } else if dir.len() == 1 && is_sep(dir[0]) {
        let s = dir + name;
        assert forall|j: int| 0 < j < s.len() implies !is_sep(#[trigger] s[j]) by {
            assert(s[j] == name[j - 1]);
        }
        lemma_last_sep_idx_at(s, 0);
        assert(s.subrange(0, 0) =~= Seq::<char>::empty());
        assert(seq![s[0]] =~= dir);
    } else {
        let s = dir + "/"@ + name;
        assert(s[dir.len() as int] == '/');
        assert forall|j: int| dir.len() < j < s.len() implies !is_sep(#[trigger] s[j]) by {
            assert(s[j] == name[j - dir.len() - 1]);
        }
        lemma_last_sep_idx_at(s, dir.len() as int);
        assert(s.subrange(0, dir.len() as int) =~= dir);
        assert(strip_trailing_seps(dir) == dir);
    }
}

/// A found `.` really is one: the character at a non-negative last-dot
/// index is `.`.
pub proof fn lemma_last_dot_idx_char(s: Seq<char>)
    ensures
        last_dot_idx(s) >= 0 ==> s[last_dot_idx(s)] == '.',
    decreases s.len(),
{
    if s.len() != 0 && s[s.len() - 1] != '.' {
        lemma_last_dot_idx_char(s.drop_last());
        lemma_last_dot_idx_range(s.drop_last());
        if last_dot_idx(s) >= 0 {
            assert(s.drop_last()[last_dot_idx(s)] == s[last_dot_idx(s)]);
        }
    }
}

/// The part of a path after its last separator.
pub open spec fn spec_file_name(p: Seq<char>) -> Seq<char> {
    p.subrange(last_sep_idx(p) + 1, p.len() as int)
}

/// The stem of a file name: what stands before its last `.`, the whole
/// name when there is no `.` past the first position.
pub open spec fn spec_stem(name: Seq<char>) -> Seq<char> {
    if last_dot_idx(name) <= 0 {
        name
    } else {
        name.subrange(0, last_dot_idx(name))
    }
}

/// The extension of a file name: what stands after its last `.`; a name
/// without a `.` past the first position has none.
pub open spec fn spec_ext(name: Seq<char>) -> Option<Seq<char>> {
    if last_dot_idx(name) <= 0 {
        None
    } else {
        Some(name.subrange(last_dot_idx(name) + 1, name.len() as int))
    }
}

/// A sequence with its trailing separators removed.
pub open spec fn strip_trailing_seps(s: Seq<char>) -> Seq<char>
    decreases s.len(),
{
    if s.len() > 0 && is_sep(s[s.len() - 1]) {
        strip_trailing_seps(s.drop_last())
    } else {
        s
    }
}

/// Stripping trailing separators keeps a prefix: what stays is an initial
/// segment that does not end in a separator, and everything cut was one.
pub proof fn lemma_strip_trailing_seps(s: Seq<char>)
    ensures
        strip_trailing_seps(s).len() <= s.len(),
        strip_trailing_seps(s) == s.take(strip_trailing_seps(s).len() as int),
        strip_trailing_seps(s).len() > 0 ==> !is_sep(
            strip_trailing_seps(s)[strip_trailing_seps(s).len() - 1],
        ),
        forall|j: int|
            strip_trailing_seps(s).len() <= j < s.len() ==> is_sep(#[trigger] s[j]),
    decreases s.len(),
{
    if s.len() > 0 && is_sep(s[s.len() - 1]) {
        lemma_strip_trailing_seps(s.drop_last());
        let k = strip_trailing_seps(s).len() as int;
        assert(s.drop_last().take(k) =~= s.take(k));
        assert forall|j: int| k <= j < s.len() implies is_sep(#[trigger] s[j]) by {
            if j < s.len() - 1 {
                assert(s.drop_last()[j] == s[j]);
            }
        }
    } else {
        assert(s.take(s.len() as int) =~= s);
    }
}

/// The directory part of a path: what stands before its last separator,
/// with trailing separators stripped; a single separator where nothing
/// else is left of one, empty where the path has no separator.
pub open spec fn spec_parent(p: Seq<char>) -> Seq<char> {
    if last_sep_idx(p) < 0 {
        Seq::<char>::empty()
    } else {
        let stripped = strip_trailing_seps(p.subrange(0, last_sep_idx(p)));
        if stripped.len() == 0 {
            seq![p[0]]
        } else {
            stripped
        }
    }
}

/// A parent is empty, a single separator, or ends in a non-separator.
pub proof fn lemma_parent_shape(p: Seq<char>)
    ensures
        ({
            let d = spec_parent(p);
            d.len() == 0 || (d.len() == 1 && is_sep(d[0])) || !is_sep(d[d.len() - 1])
        }),
{
    let idx = last_sep_idx(p);
    lemma_last_sep_idx_range(p);
    lemma_last_sep_idx_char(p);
    if idx >= 0 {
        let prefix = p.subrange(0, idx);
        lemma_strip_trailing_seps(prefix);
        if strip_trailing_seps(prefix).len() == 0 {
            if prefix.len() > 0 {
                assert(is_sep(prefix[0]));
                assert(prefix[0] == p[0]);
            } else {
                assert(p[0] == p[idx]);
            }
        }
    }
}

/// Joining a directory and a file name with `/`; an empty directory or one
/// that already ends in a separator gets no extra separator.
pub open spec fn spec_join(dir: Seq<char>, name: Seq<char>) -> Seq<char> {
    if dir.len() == 0 {
        name
    } else if is_sep(dir[dir.len() - 1]) {
        dir + name
    } else {
        dir + "/"@ + name
    }
}

/// Finds the last separator of `path`, if any.
pub fn last_sep_index(path: &str) -> (r: Option<usize>)
    ensures
        match r {
            Some(i) => last_sep_idx(path@) == i,
            None => last_sep_idx(path@) == -1,
        },
{
    let n = path.unicode_len();
    let mut i: usize = 0;
    let mut best: Option<usize> = None;
    proof {
        assert(path@.take(0) =~= Seq::<char>::empty());
    }
    while i < n
        invariant
            i <= n,
            n == path@.len(),
            match best {
                Some(b) => last_sep_idx(path@.take(i as int)) == b,
                None => last_sep_idx(path@.take(i as int)) == -1,
            },
        decreases n - i,
    {
        let c = path.get_char(i);
        proof {
            let t = path@.take(i + 1);
            assert(t.drop_last() =~= path@.take(i as int));
            assert(t[t.len() - 1] == path@[i as int]);
        }
        if c == '/' || c == '\\' {
            best = Some(i);
        }
        i = i + 1;
    }
    proof {
        assert(path@.take(n as int) =~= path@);
    }
    best
}

/// Finds the last `.` of `name`, if any.
pub fn last_dot_index(name: &str) -> (r: Option<usize>)
    ensures
        match r {
            Some(i) => last_dot_idx(name@) == i,
            None => last_dot_idx(name@) == -1,
        },
{
    let n = name.unicode_len();
    let mut i: usize = 0;
    let mut best: Option<usize> = None;
    proof {
        assert(name@.take(0) =~= Seq::<char>::empty());
    }
    while i < n
        invariant
            i <= n,
            n == name@.len(),
            match best {
                Some(b) => last_dot_idx(name@.take(i as int)) == b,
                None => last_dot_idx(name@.take(i as int)) == -1,
            },
        decreases n - i,
    {
        let c = name.get_char(i);
        proof {
            let t = name@.take(i + 1);
            assert(t.drop_last() =~= name@.take(i as int));
            assert(t[t.len() - 1] == name@[i as int]);
        }
        if c == '.' {
            best = Some(i);
        }
        i = i + 1;
    }
    proof {
        assert(name@.take(n as int) =~= name@);
    }
    best
}

/// The file-name part of a path.
pub fn file_name(path: &str) -> (r: &str)
    ensures
        r@ == spec_file_name(path@),
{
    let n = path.unicode_len();
    proof {
        lemma_last_sep_idx_range(path@);
    }
    match last_sep_index(path) {
        Some(i) => path.substring_char(i + 1, n),
        None => {
            proof {
                assert(path@.subrange(0, n as int) =~= path@);
            }
            path.substring_char(0, n)
        },
    }
}

/// The stem of a file name.
pub fn stem_of(name: &str) -> (r: &str)
    ensures
        r@ == spec_stem(name@),
{
    let n = name.unicode_len();
    proof {
        lemma_last_dot_idx_range(name@);
    }
    match last_dot_index(name) {
        Some(i) if i > 0 => name.substring_char(0, i),
        _ => {
            proof {
                assert(name@.subrange(0, n as int) =~= name@);
            }
            name.substring_char(0, n)
        },
    }
}

/// The extension of a file name, if it has one.
pub fn ext_of(name: &str) -> (r: Option<&str>)
    ensures
        match r {
            Some(e) => spec_ext(name@) == Some(e@),
            None => spec_ext(name@) is None,
        },
{
    let n = name.unicode_len();
    proof {
        lemma_last_dot_idx_range(name@);
    }
    match last_dot_index(name) {
        Some(i) if i > 0 => Some(name.substring_char(i + 1, n)),
        _ => None,
    }
}

/// Whether a character is a directory separator.
pub fn is_sep_char(c: char) -> (r: bool)
    ensures
        r == is_sep(c),
{
    c == '/' || c == '\\'
}

/// The directory part of a path.
pub fn parent_of(path: &str) -> (r: &str)
    ensures
        r@ == spec_parent(path@),
{
    proof {
        lemma_last_sep_idx_range(path@);
    }
    match last_sep_index(path) {
        Some(i) => {
            let ghost prefix = path@.subrange(0, i as int);
            let mut j: usize = i;
            while j > 0 && is_sep_char(path.get_char(j - 1))
                invariant
                    j <= i,
                    i < path@.len(),
                    last_sep_idx(path@) == i,
                    prefix == path@.subrange(0, i as int),
                    strip_trailing_seps(prefix) == strip_trailing_seps(
                        path@.subrange(0, j as int),
                    ),
                decreases j,
            {
                proof {
                    let t = path@.subrange(0, j as int);
                    assert(t.drop_last() =~= path@.subrange(0, j - 1));
                    assert(is_sep(t[t.len() - 1]));
                }
                j = j - 1;
            }
            if j == 0 {
                proof {
                    assert(path@.subrange(0, 0) =~= Seq::<char>::empty());
                    assert(path@.subrange(0, 1) =~= seq![path@[0]]);
                }
                path.substring_char(0, 1)
            } else {
                proof {
                    let t = path@.subrange(0, j as int);
                    assert(!is_sep(t[t.len() - 1]));
                }
                path.substring_char(0, j)
            }
        },
        None => {
            proof {
                reveal_strlit("");
                assert(""@ =~= Seq::<char>::empty());
            }
            ""
        },
    }
}

/// Joins a directory and a file name.
pub fn join_path(dir: &str, name: &str) -> (r: String)
    ensures
        r@ == spec_join(dir@, name@),
{
    let n = dir.unicode_len();
    if n == 0 {
        name.to_owned()
    } else {
        let last = dir.get_char(n - 1);
        let mut out = dir.to_owned();
        if !(last == '/' || last == '\\') {
            out.append("/");
        }
        out.append(name);
        out
    }
}

/// Compares `s` with the all-lowercase string `t`, ignoring ASCII case in `s`.
pub fn eq_lower(s: &str, t: &str) -> (r: bool)
    ensures
        r == (lower_seq(s@) == t@),
{
    let n = s.unicode_len();
    if n != t.unicode_len() {
        proof {
            assert(lower_seq(s@).len() == s@.len());
        }
        return false;
    }
    let mut i: usize = 0;
    while i < n
        invariant
            i <= n,
            n == s@.len(),
            n == t@.len(),
            forall|j: int| 0 <= j < i ==> lower_char(s@[j]) == t@[j],
        decreases n - i,
    {
        let sc = s.get_char(i);
        let tc = t.get_char(i);
        let scu = sc as u32;
        let lcu: u32 = if 65 <= scu && scu <= 90 {
            scu + 32
        } else {
            scu
        };
        proof {
            assert(lower_char(s@[i as int]) as u32 == lcu);
        }
        if lcu != tc as u32 {
            proof {
                assert(lower_seq(s@)[i as int] != t@[i as int]);
            }
            return false;
        }
        i = i + 1;
    }
    proof {
        assert(lower_seq(s@) =~= t@);
    }
    true
}

} // verus!
