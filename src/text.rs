use vstd::prelude::*;

verus! {

/// Index of the last occurrence of `c` among the first `n` characters of `s`, or -1.
pub open spec fn last_index_of(s: Seq<char>, c: char, n: int) -> int
    decreases n,
{
    if n <= 0 {
        -1
    } else if s[n - 1] == c {
        n - 1
    } else {
        last_index_of(s, c, n - 1)
    }
}

pub proof fn lemma_last_index_bounds(s: Seq<char>, c: char, n: int)
    requires
        0 <= n <= s.len(),
    ensures
        -1 <= last_index_of(s, c, n) < n,
        last_index_of(s, c, n) >= 0 ==> s[last_index_of(s, c, n)] == c,
    decreases n,
{
    if n > 0 && s[n - 1] != c {
        lemma_last_index_bounds(s, c, n - 1);
    }
}

/// Position of the last `c` among the first `n` characters of `s`.
pub fn find_last(s: &str, c: char, n: usize) -> (r: Option<usize>)
    requires
        n <= s@.len(),
    ensures
        r is None <==> last_index_of(s@, c, n as int) == -1,
        r matches Some(i) ==> i == last_index_of(s@, c, n as int),
{
    let mut i: usize = n;
    while i > 0
        invariant
            i <= n,
            n <= s@.len(),
            last_index_of(s@, c, n as int) == last_index_of(s@, c, i as int),
        decreases i,
    {
        if s.get_char(i - 1) == c {
            return Some(i - 1);
        }
        i = i - 1;
    }
    None
}

/// The end of the last path component of the first `n` characters of `s` that is
/// neither empty nor `.`: trailing separators and `.` components are passed over.
pub open spec fn base_end(s: Seq<char>, n: int) -> int
    decreases n,
{
    if n <= 0 {
        0
    } else if s[n - 1] == '/' {
        base_end(s, n - 1)
    } else if s[n - 1] == '.' && (n == 1 || s[n - 2] == '/') {
        base_end(s, n - 1)
    } else {
        n
    }
}

pub proof fn lemma_base_end_bounds(s: Seq<char>, n: int)
    requires
        0 <= n <= s.len(),
    ensures
        0 <= base_end(s, n) <= n,
    decreases n,
{
    if n > 0 {
        lemma_base_end_bounds(s, n - 1);
    }
}

/// The end of the last path component of `s` that is neither empty nor `.`.
pub fn find_base_end(s: &str) -> (r: usize)
    ensures
        r == base_end(s@, s@.len() as int),
{
    let mut n: usize = s.unicode_len();
    while n > 0
        invariant
            n <= s@.len(),
            base_end(s@, s@.len() as int) == base_end(s@, n as int),
        decreases n,
    {
        let c = s.get_char(n - 1);
        if c == '/' {
            n = n - 1;
        } else if c == '.' && (n == 1 || s.get_char(n - 2) == '/') {
            n = n - 1;
        } else {
            return n;
        }
    }
    0
}

/// Whether two strings hold the same characters.
pub fn same_text(a: &str, b: &str) -> (r: bool)
    ensures
        r == (a@ == b@),
{
    let n = a.unicode_len();
    if n != b.unicode_len() {
        return false;
    }
    let mut i: usize = 0;
    while i < n
        invariant
            i <= n,
            n == a@.len(),
            n == b@.len(),
            a@.subrange(0, i as int) == b@.subrange(0, i as int),
        decreases n - i,
    {
        if a.get_char(i) != b.get_char(i) {
            assert(a@[i as int] == a@.subrange(0, i + 1)[i as int]);
            return false;
        }
        assert(a@.subrange(0, i + 1) == a@.subrange(0, i as int).push(a@[i as int]));
        assert(b@.subrange(0, i + 1) == b@.subrange(0, i as int).push(b@[i as int]));
        i = i + 1;
    }
    assert(a@ == a@.subrange(0, n as int));
    assert(b@ == b@.subrange(0, n as int));
    true
}

} // verus!
