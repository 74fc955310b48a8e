//! Character-level helpers shared by the parsers and message builders.
use vstd::prelude::*;

verus! {

/// The code of `c` after ASCII lower-casing: `A`..`Z` move to `a`..`z`,
/// every other character keeps its code.
pub open spec fn ascii_lower_code(c: char) -> u32 {
    if 'A' <= c && c <= 'Z' {
        ((c as u32) + 32) as u32
    } else {
        c as u32
    }
}

/// `a` and `b` are equal once both are ASCII lower-cased, character by character.
pub open spec fn eq_ignore_ascii_case(a: Seq<char>, b: Seq<char>) -> bool {
    &&& a.len() == b.len()
    &&& forall|i: int| 0 <= i < a.len() ==> #[trigger] ascii_lower_code(a[i]) == ascii_lower_code(b[i])
}

fn lower_code(c: char) -> (r: u32)
    ensures
        r == ascii_lower_code(c),
{
    if 'A' <= c && c <= 'Z' {
        (c as u32) + 32
    } else {
        c as u32
    }
}

/// Compares two strings as `str::eq_ignore_ascii_case` does.
pub fn str_eq_ignore_ascii_case(a: &str, b: &str) -> (r: bool)
    ensures
        r == eq_ignore_ascii_case(a@, b@),
{
    let n = a.unicode_len();
    let m = b.unicode_len();
    if n != m {
        return false;
    }
    let mut i: usize = 0;
    while i < n
        invariant
            n == a@.len(),
            m == b@.len(),
            n == m,
            i <= n,
            forall|j: int| 0 <= j < i ==> #[trigger] ascii_lower_code(a@[j]) == ascii_lower_code(b@[j]),
        decreases n - i,
    {
        let x = a.get_char(i);
        let y = b.get_char(i);
        if lower_code(x) != lower_code(y) {
            return false;
        }
        i += 1;
    }
    true
}

/// The decimal digit character for `d`, which is below ten.
pub open spec fn digit_char(d: nat) -> char {
    "0123456789"@[d as int]
}

/// The decimal representation of `n`, without sign or leading zeros.
pub open spec fn decimal(n: nat) -> Seq<char>
    decreases n,
{
    if n < 10 {
        seq![digit_char(n)]
    } else {
        decimal(n / 10).push(digit_char(n % 10))
    }
}

/// Writes `n` in decimal, as `n.to_string()` does for unsigned integers.
pub fn decimal_string(n: u64) -> (s: String)
    ensures
        s@ == decimal(n as nat),
    decreases n,
{
    proof {
        reveal_strlit("0123456789");
    }
    let digits = "0123456789";
    if n < 10 {
        let d = n as usize;
        String::from_str(digits.substring_char(d, d + 1))
    } else {
        let mut s = decimal_string(n / 10);
        let d = (n % 10) as usize;
        let last = digits.substring_char(d, d + 1);
        s.append(last);
        assert(last@ =~= seq![digit_char((n % 10) as nat)]);
        s
    }
}

/// Concatenates two strings into a new one.
pub fn concat(a: &str, b: &str) -> (s: String)
    ensures
        s@ == a@ + b@,
{
    let mut s = String::from_str(a);
    s.append(b);
    s
}

/// Compares two strings character by character.
pub fn str_eq(a: &str, b: &str) -> (r: bool)
    ensures
        r == (a@ == b@),
{
    let n = a.unicode_len();
    let m = b.unicode_len();
    if n != m {
        return false;
    }
    let mut i: usize = 0;
    while i < n
        invariant
            n == a@.len(),
            m == b@.len(),
            n == m,
            i <= n,
            forall|j: int| 0 <= j < i ==> #[trigger] a@[j] == b@[j],
        decreases n - i,
    {
        if a.get_char(i) != b.get_char(i) {
            return false;
        }
        i += 1;
    }
    assert(a@ =~= b@);
    true
}

/// The index of the last `c` in `s`, or -1 when `s` holds no `c`.
pub open spec fn last_index_of(s: Seq<char>, c: char) -> int
    decreases s.len(),
{
    if s.len() == 0 {
        -1
    } else if s.last() == c {
        s.len() - 1
    } else {
        last_index_of(s.drop_last(), c)
    }
}

/// `last_index_of` finds the last occurrence, or reports that there is none.
pub proof fn lemma_last_index_of(s: Seq<char>, c: char)
    ensures
        -1 <= last_index_of(s, c) < s.len(),
        last_index_of(s, c) >= 0 ==> s[last_index_of(s, c)] == c,
        forall|j: int| last_index_of(s, c) < j < s.len() ==> s[j] != c,
    decreases s.len(),
{
    if s.len() > 0 {
        lemma_last_index_of(s.drop_last(), c);
        if s.last() != c {
            assert forall|j: int| last_index_of(s, c) < j < s.len() implies s[j] != c by {
                if j < s.len() - 1 {
                    assert(s[j] == s.drop_last()[j]);
                }
            }
        }
    }
}

/// The index of the last `c` among the first `hi` characters of `s`.
fn rfind_char(s: &str, hi: usize, c: char) -> (r: Option<usize>)
    requires
        hi <= s@.len(),
    ensures
        match r {
            Some(k) => last_index_of(s@.subrange(0, hi as int), c) == k,
            None => last_index_of(s@.subrange(0, hi as int), c) == -1,
        },
{
    let mut i = hi;
    while i > 0
        invariant
            i <= hi <= s@.len(),
            last_index_of(s@.subrange(0, hi as int), c) == last_index_of(
                s@.subrange(0, i as int),
                c,
            ),
        decreases i,
    {
        if s.get_char(i - 1) == c {
            return Some(i - 1);
        }
        assert(s@.subrange(0, i as int).drop_last() =~= s@.subrange(0, i - 1));
        i -= 1;
    }
    None
}

/// The last component of a `/`-separated path, as `Path::file_name` finds it:
/// empty and `.` components are skipped, and a final `..` has no name.
pub open spec fn path_file_name(p: Seq<char>) -> Option<Seq<char>>
    decreases p.len(),
{
    let k = last_index_of(p, '/');
    let seg = p.subrange(k + 1, p.len() as int);
    if seg.len() > 0 && seg != seq!['.'] {
        if seg == seq!['.', '.'] {
            None
        } else {
            Some(seg)
        }
    } else if k < 0 {
        None
    } else {
        proof {
            lemma_last_index_of(p, '/');
        }
        path_file_name(p.subrange(0, k))
    }
}

/// The extension of a file name: what follows its last `.`, when that `.` is
/// not its first character.
pub open spec fn name_extension(name: Seq<char>) -> Option<Seq<char>> {
    let d = last_index_of(name, '.');
    if d > 0 {
        Some(name.subrange(d + 1, name.len() as int))
    } else {
        None
    }
}

/// The extension of a path, as `Path::extension` finds it: the extension of
/// its file name.
pub open spec fn file_extension_spec(p: Seq<char>) -> Option<Seq<char>> {
    match path_file_name(p) {
        Some(name) => name_extension(name),
        None => None,
    }
}

fn extension_of_name(name: &str) -> (r: Option<String>)
    ensures
        match r {
            Some(e) => name_extension(name@) == Some(e@),
            None => name_extension(name@) is None,
        },
{
    let n = name.unicode_len();
    proof {
        lemma_last_index_of(name@, '.');
    }
    assert(name@.subrange(0, n as int) =~= name@);
    let d = rfind_char(name, n, '.');
    match d {
        Some(d) => {
            if d > 0 {
                Some(String::from_str(name.substring_char(d + 1, n)))
            } else {
                None
            }
        },
        None => None,
    }
}

/// The extension of a file name or path, e.g. `"wav"` for `"dir/test.wav"`.
pub fn file_extension(path: &str) -> (r: Option<String>)
    ensures
        match r {
            Some(e) => file_extension_spec(path@) == Some(e@),
            None => file_extension_spec(path@) is None,
        },
{
    let mut end = path.unicode_len();
    assert(path@.subrange(0, end as int) =~= path@);
    loop
        invariant
            end <= path@.len(),
            path_file_name(path@) == path_file_name(path@.subrange(0, end as int)),
        decreases end,
    {
        let ghost p = path@.subrange(0, end as int);
        proof {
            lemma_last_index_of(p, '/');
        }
        let k = rfind_char(path, end, '/');
        let start: usize = match k {
            Some(k) => k + 1,
            None => 0,
        };
        let seg = path.substring_char(start, end);
        let n = end - start;
        assert(seg@ =~= p.subrange(last_index_of(p, '/') + 1, p.len() as int));
        let is_dot = n == 1 && seg.get_char(0) == '.';
        assert(is_dot <==> seg@ == seq!['.']) by {
            if seg@ == seq!['.'] {
                assert(seg@.len() == 1 && seg@[0] == '.');
            }
            if is_dot {
                assert(seg@ =~= seq!['.']);
            }
        }
        if n > 0 && !is_dot {
            let is_dot_dot = n == 2 && seg.get_char(0) == '.' && seg.get_char(1) == '.';
            assert(is_dot_dot <==> seg@ == seq!['.', '.']) by {
                if seg@ == seq!['.', '.'] {
                    assert(seg@.len() == 2 && seg@[0] == '.' && seg@[1] == '.');
                }
                if is_dot_dot {
                    assert(seg@ =~= seq!['.', '.']);
                }
            }
            if is_dot_dot {
                return None;
            }
            assert(path_file_name(p) == Some(seg@));
            return extension_of_name(seg);
        } else {
            match k {
                None => {
                    return None;
                },
                Some(k) => {
                    assert(p.subrange(0, k as int) =~= path@.subrange(0, k as int));
                    end = k;
                },
            }
        }
    }
}

proof fn lemma_last_index_absent(s: Seq<char>, c: char)
    requires
        !s.contains(c),
    ensures
        last_index_of(s, c) == -1,
    decreases s.len(),
{
    if s.len() > 0 {
        assert(s.last() == s[s.len() - 1]);
        assert(!s.drop_last().contains(c)) by {
            if s.drop_last().contains(c) {
                let j = choose|j: int| 0 <= j < s.drop_last().len() && s.drop_last()[j] == c;
                assert(s[j] == c);
            }
        }
        lemma_last_index_absent(s.drop_last(), c);
    }
}

proof fn lemma_last_index_before_suffix(a: Seq<char>, c: char, b: Seq<char>)
    requires
        !b.contains(c),
    ensures
        last_index_of(a + seq![c] + b, c) == a.len(),
    decreases b.len(),
{
    let s = a + seq![c] + b;
    if b.len() == 0 {
        assert(s.last() == c);
    } else {
        assert(s.last() == b.last());
        assert(!b.drop_last().contains(c)) by {
            if b.drop_last().contains(c) {
                let j = choose|j: int| 0 <= j < b.drop_last().len() && b.drop_last()[j] == c;
                assert(b[j] == c);
            }
        }
        lemma_last_index_before_suffix(a, c, b.drop_last());
        assert(s.drop_last() =~= a + seq![c] + b.drop_last());
    }
}

/// A name `stem.ext` with no `/` and no `.` in `ext` has the extension
/// `ext` (`"test.wav"` has `"wav"`, `"a.b.mp3"` has `"mp3"`); the one
/// exception is `".."`, which names no file.
pub proof fn lemma_extension_of_simple_name(stem: Seq<char>, ext: Seq<char>)
    requires
        stem.len() > 0,
        !stem.contains('/'),
        !ext.contains('/'),
        !ext.contains('.'),
        !(stem == seq!['.'] && ext.len() == 0),
    ensures
        file_extension_spec(stem + seq!['.'] + ext) == Some(ext),
{
    let p = stem + seq!['.'] + ext;
    assert(!p.contains('/')) by {
        if p.contains('/') {
            let j = choose|j: int| 0 <= j < p.len() && p[j] == '/';
            if j < stem.len() {
                assert(stem[j] == '/');
            } else if j > stem.len() {
                assert(ext[j - stem.len() - 1] == '/');
            }
        }
    }
    lemma_last_index_absent(p, '/');
    assert(p.subrange(0, p.len() as int) =~= p);
    assert(p != seq!['.']) by {
        assert(p.len() >= 2);
    }
    assert(p != seq!['.', '.']) by {
        if p =~= seq!['.', '.'] {
            assert(stem.len() == 1 && ext.len() == 0);
            assert(stem =~= seq!['.']);
        }
    }
    assert(path_file_name(p) == Some(p));
    lemma_last_index_before_suffix(stem, '.', ext);
    assert(p.subrange(stem.len() + 1int, p.len() as int) =~= ext);
}

} // verus!
