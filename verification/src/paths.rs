use vstd::prelude::*;
use vstd::string::*;

verus! {

/// Path separators recognized in path strings: both the POSIX and the
/// Windows separator, since installation paths arrive in either form.
pub open spec fn is_sep(c: char) -> bool {
    c == '/' || c == '\\'
}

/// The base (file) name of a path: the characters after the last separator,
/// the whole path when it has no separator, empty when it ends in one.
pub open spec fn base_name(p: Seq<char>) -> Seq<char>
    decreases p.len(),
{
    if p.len() == 0 {
        p
    } else if is_sep(p.last()) {
        Seq::<char>::empty()
    } else {
        base_name(p.drop_last()).push(p.last())
    }
}

/// The directory part of a path: the characters before the last separator,
/// empty when the path has no separator.
pub open spec fn dir_name(p: Seq<char>) -> Seq<char>
    decreases p.len(),
{
    if p.len() == 0 {
        p
    } else if is_sep(p.last()) {
        p.drop_last()
    } else {
        dir_name(p.drop_last())
    }
}

/// Both recursive path decompositions, pinned to the index just after the
/// last separator.
pub proof fn lemma_split_at(p: Seq<char>, i: int)
    requires
        0 <= i <= p.len(),
        forall|j: int| i <= j < p.len() ==> !is_sep(p[j]),
        i > 0 ==> is_sep(p[i - 1]),
    ensures
        base_name(p) == p.subrange(i, p.len() as int),
        i > 0 ==> dir_name(p) == p.subrange(0, i - 1),
        i == 0 ==> dir_name(p) == Seq::<char>::empty(),
    decreases p.len(),
{
    if i == p.len() {
        if p.len() == 0 {
            assert(base_name(p) =~= p.subrange(i, p.len() as int));
            assert(dir_name(p) =~= Seq::<char>::empty());
        } else {
            assert(is_sep(p.last()));
            assert(base_name(p) =~= p.subrange(i, p.len() as int));
            assert(dir_name(p) =~= p.subrange(0, i - 1));
        }
    } else {
        assert(!is_sep(p.last()));
        let d = p.drop_last();
        assert(forall|j: int| i <= j < d.len() ==> d[j] == p[j]);
        lemma_split_at(d, i);
        assert(base_name(d) =~= p.subrange(i, p.len() - 1));
        assert(base_name(p) =~= p.subrange(i, p.len() as int));
        if i > 0 {
            assert(dir_name(d) =~= p.subrange(0, i - 1));
        }
    }
}

/// The index just after the last separator of `s`; 0 when `s` has none.
pub fn split_point(s: &str) -> (i: usize)
    ensures
        i <= s@.len(),
        forall|j: int| i <= j < s@.len() ==> !is_sep(s@[j]),
        i > 0 ==> is_sep(s@[i - 1]),
{
    let n = s.unicode_len();
    let mut k = n;
    while k > 0
        invariant
            k <= n,
            n == s@.len(),
            forall|j: int| k <= j < s@.len() ==> !is_sep(s@[j]),
        decreases k,
    {
        let c = s.get_char(k - 1);
        if c == '/' || c == '\\' {
            return k;
        }
        k = k - 1;
    }
    0
}

/// The base name of a path, when it is nonempty.
pub fn file_name(p: &str) -> (r: Option<String>)
    ensures
        match r {
            Some(n) => n@ == base_name(p@) && n@.len() > 0,
            None => base_name(p@).len() == 0,
        },
{
    let n = p.unicode_len();
    let i = split_point(p);
    proof {
        lemma_split_at(p@, i as int);
    }
    if i == n {
        None
    } else {
        Some(p.substring_char(i, n).to_owned())
    }
}

/// The directory part of a path; empty when the path has no separator.
pub fn parent_dir(p: &str) -> (r: String)
    ensures
        r@ == dir_name(p@),
{
    let i = split_point(p);
    proof {
        lemma_split_at(p@, i as int);
    }
    if i == 0 {
        String::new()
    } else {
        p.substring_char(0, i - 1).to_owned()
    }
}

/// Whether `n` stands at position `i` of `h`.
pub open spec fn match_here(h: Seq<char>, n: Seq<char>, i: int) -> bool {
    0 <= i && i + n.len() <= h.len() && h.subrange(i, i + n.len() as int) == n
}

/// Whether `n` occurs as a contiguous substring of `h`.
pub open spec fn contains_sub(h: Seq<char>, n: Seq<char>) -> bool {
    exists|i: int| match_here(h, n, i)
}

fn match_at(h: &str, n: &str, i: usize, hl: usize, nl: usize) -> (r: bool)
    requires
        hl == h@.len(),
        nl == n@.len(),
        i + nl <= hl,
    ensures
        r == match_here(h@, n@, i as int),
{
    let mut j: usize = 0;
    while j < nl
        invariant
            j <= nl,
            hl == h@.len(),
            nl == n@.len(),
            i + nl <= hl,
            forall|jj: int| 0 <= jj < j ==> h@[i + jj] == n@[jj],
        decreases nl - j,
    {
        if h.get_char(i + j) != n.get_char(j) {
            assert(h@.subrange(i as int, i + n@.len() as int)[j as int] != n@[j as int]);
            return false;
        }
        j = j + 1;
    }
    assert(h@.subrange(i as int, i + n@.len() as int) =~= n@);
    true
}

/// Whether `needle` occurs as a contiguous substring of `hay`.
pub fn contains_substr(hay: &str, needle: &str) -> (r: bool)
    ensures
        r == contains_sub(hay@, needle@),
{
    let hl = hay.unicode_len();
    let nl = needle.unicode_len();
    if nl > hl {
        return false;
    }
    let bound = hl - nl;
    let mut i: usize = 0;
    loop
        invariant
            hl == hay@.len(),
            nl == needle@.len(),
            nl <= hl,
            bound == hl - nl,
            i <= bound,
            forall|ii: int| 0 <= ii < i ==> !match_here(hay@, needle@, ii),
        decreases bound - i,
    {
        if match_at(hay, needle, i, hl, nl) {
            assert(contains_sub(hay@, needle@));
            return true;
        }
        if i == bound {
            return false;
        }
        i = i + 1;
    }
}

/// Joining a directory and a file name with the POSIX separator.
pub open spec fn joined(dir: Seq<char>, name: Seq<char>) -> Seq<char> {
    dir + "/"@ + name
}

/// Joins a directory and a file name with the POSIX separator.
pub fn join_path(dir: &str, name: &str) -> (r: String)
    ensures
        r@ == joined(dir@, name@),
{
    let mut s = dir.to_owned();
    s.append("/");
    s.append(name);
    s
}

/// The character for a decimal digit.
pub open spec fn dec_digit(d: nat) -> char {
    if d == 0 {
        '0'
    } else if d == 1 {
        '1'
    } else if d == 2 {
        '2'
    } else if d == 3 {
        '3'
    } else if d == 4 {
        '4'
    } else if d == 5 {
        '5'
    } else if d == 6 {
        '6'
    } else if d == 7 {
        '7'
    } else if d == 8 {
        '8'
    } else {
        '9'
    }
}

/// The decimal numeral of `n`, most significant digit first.
pub open spec fn dec_digits(n: nat) -> Seq<char>
    decreases n,
{
    if n < 10 {
        seq![dec_digit(n)]
    } else {
        dec_digits(n / 10).push(dec_digit(n % 10))
    }
}

fn digit_str(d: usize) -> (s: String)
    requires
        d < 10,
    ensures
        s@ =~= seq![dec_digit(d as nat)],
{
    proof {
        reveal_strlit("0");
        reveal_strlit("1");
        reveal_strlit("2");
        reveal_strlit("3");
        reveal_strlit("4");
        reveal_strlit("5");
        reveal_strlit("6");
        reveal_strlit("7");
        reveal_strlit("8");
        reveal_strlit("9");
    }
    let t = match d {
        0 => "0",
        1 => "1",
        2 => "2",
        3 => "3",
        4 => "4",
        5 => "5",
        6 => "6",
        7 => "7",
        8 => "8",
        _ => "9",
    };
    t.to_owned()
}

/// Renders `n` in decimal.
pub fn dec_str(n: usize) -> (s: String)
    ensures
        s@ == dec_digits(n as nat),
    decreases n,
{
    if n < 10 {
        let s = digit_str(n);
        assert(s@ =~= dec_digits(n as nat));
        s
    } else {
        let mut s = dec_str(n / 10);
        let d = digit_str(n % 10);
        s.append(d.as_str());
        assert(s@ =~= dec_digits(n as nat));
        s
    }
}

} // verus!
