//! Small string helpers over the character view of `str` and `String`.
use vstd::prelude::*;

verus! {

/// Whether two strings hold the same characters.
pub fn str_eq(a: &str, b: &str) -> (r: bool)
    ensures
        r == (a@ == b@),
{
    let n = a.unicode_len();
    let m = b.unicode_len();
    if n != m {
        return false;
    }
    let mut i: usize = 0;
    while i < n
        invariant
            n == a@.len(),
            m == b@.len(),
            n == m,
            i <= n,
            forall|j: int| 0 <= j < i ==> a@[j] == b@[j],
        decreases n - i,
    {
        if a.get_char(i) != b.get_char(i) {
            return false;
        }
        i = i + 1;
    }
    assert(a@ =~= b@);
    true
}

} // verus!

verus! {

/// `s.trim_end_matches('/')`: the string without its trailing slashes.
pub open spec fn trim_end_slashes(s: Seq<char>) -> Seq<char>
    decreases s.len(),
{
    if s.len() > 0 && s.last() == '/' {
        trim_end_slashes(s.drop_last())
    } else {
        s
    }
}

/// `base` (or `default` when there is none) without trailing slashes,
/// followed by `path`.
pub open spec fn endpoint(base: Option<Seq<char>>, default: Seq<char>, path: Seq<char>) -> Seq<
    char,
> {
    trim_end_slashes(
        match base {
            Some(b) => b,
            None => default,
        },
    ) + path
}

pub open spec fn opt_view(o: Option<String>) -> Option<Seq<char>> {
    match o {
        Some(s) => Some(s@),
        None => None,
    }
}

/// The string without its trailing slashes.
pub fn trim_end_slashes_of(s: &str) -> (r: String)
    ensures
        r@ == trim_end_slashes(s@),
{
    let n = s.unicode_len();
    let mut j: usize = n;
    assert(s@.take(n as int) =~= s@);
    while j > 0 && s.get_char(j - 1) == '/'
        invariant
            n == s@.len(),
            j <= n,
            trim_end_slashes(s@) == trim_end_slashes(s@.take(j as int)),
        decreases j,
    {
        assert(s@.take(j as int).drop_last() =~= s@.take(j - 1));
        j = j - 1;
    }
    s.substring_char(0, j).to_string()
}

/// The URL of an endpoint under a configurable base URL.
pub fn endpoint_url(base: &Option<String>, default: &str, path: &str) -> (r: String)
    ensures
        r@ == endpoint(opt_view(*base), default@, path@),
{
    let b: &str = match base {
        Some(b) => b.as_str(),
        None => default,
    };
    trim_end_slashes_of(b).concat(path)
}

/// Clone an optional string.
pub fn clone_opt(o: &Option<String>) -> (r: Option<String>)
    ensures
        r == *o,
{
    match o {
        Some(s) => Some(s.clone()),
        None => None,
    }
}

} // verus!

verus! {

/// `char::is_whitespace`: the characters with the Unicode `White_Space`
/// property.
pub open spec fn is_ws(c: char) -> bool {
    let u = c as u32;
    (0x09 <= u <= 0x0D) || u == 0x20 || u == 0x85 || u == 0xA0 || u == 0x1680 || (0x2000 <= u
        <= 0x200A) || u == 0x2028 || u == 0x2029 || u == 0x202F || u == 0x205F || u == 0x3000
}

pub fn char_is_ws(c: char) -> (r: bool)
    ensures
        r == is_ws(c),
{
    let u = c as u32;
    (0x09 <= u && u <= 0x0D) || u == 0x20 || u == 0x85 || u == 0xA0 || u == 0x1680 || (0x2000 <= u
        && u <= 0x200A) || u == 0x2028 || u == 0x2029 || u == 0x202F || u == 0x205F || u == 0x3000
}

/// The string without its leading whitespace.
pub open spec fn trim_start(s: Seq<char>) -> Seq<char>
    decreases s.len(),
{
    if s.len() > 0 && is_ws(s[0]) {
        trim_start(s.drop_first())
    } else {
        s
    }
}

/// The string without its trailing whitespace.
pub open spec fn trim_end(s: Seq<char>) -> Seq<char>
    decreases s.len(),
{
    if s.len() > 0 && is_ws(s.last()) {
        trim_end(s.drop_last())
    } else {
        s
    }
}

/// `str::trim`: the string without leading and trailing whitespace.
pub open spec fn trim(s: Seq<char>) -> Seq<char> {
    trim_end(trim_start(s))
}

/// The string without leading and trailing whitespace.
pub fn trim_str(s: &str) -> (r: String)
    ensures
        r@ == trim(s@),
{
    let n = s.unicode_len();
    let mut i: usize = 0;
    assert(s@.subrange(0, n as int) =~= s@);
    while i < n && char_is_ws(s.get_char(i))
        invariant
            n == s@.len(),
            i <= n,
            trim_start(s@) == trim_start(s@.subrange(i as int, n as int)),
        decreases n - i,
    {
        assert(s@.subrange(i as int, n as int).drop_first() =~= s@.subrange(i + 1, n as int));
        i = i + 1;
    }
    let ghost rest = s@.subrange(i as int, n as int);
    assert(trim_start(rest) == rest);
    let mut j: usize = n;
    while j > i && char_is_ws(s.get_char(j - 1))
        invariant
            n == s@.len(),
            i <= j <= n,
            rest == s@.subrange(i as int, n as int),
            trim_end(rest) == trim_end(s@.subrange(i as int, j as int)),
        decreases j - i,
    {
        assert(s@.subrange(i as int, j as int).drop_last() =~= s@.subrange(i as int, j - 1));
        j = j - 1;
    }
    assert(trim_end(s@.subrange(i as int, j as int)) == s@.subrange(i as int, j as int));
    s.substring_char(i, j).to_string()
}

/// A string of whitespace only (`s.trim().is_empty()`).
pub open spec fn is_blank(s: Seq<char>) -> bool {
    forall|i: int| 0 <= i < s.len() ==> is_ws(#[trigger] s[i])
}

pub fn str_is_blank(s: &str) -> (r: bool)
    ensures
        r == is_blank(s@),
{
    let n = s.unicode_len();
    let mut i: usize = 0;
    while i < n
        invariant
            n == s@.len(),
            i <= n,
            forall|j: int| 0 <= j < i ==> is_ws(#[trigger] s@[j]),
        decreases n - i,
    {
        if !char_is_ws(s.get_char(i)) {
            return false;
        }
        i = i + 1;
    }
    true
}

/// The index of the first `'\n'`, or the length when there is none.
pub open spec fn newline_pos(t: Seq<char>) -> int
    decreases t.len(),
{
    if t.len() == 0 {
        0
    } else if t[0] == '\n' {
        0
    } else {
        1 + newline_pos(t.drop_first())
    }
}

/// The first line of `t`, without its line ending (`"\n"` or `"\r\n"`).
pub open spec fn first_line(t: Seq<char>) -> Seq<char> {
    let p = newline_pos(t);
    if p < t.len() && p > 0 && t[p - 1] == '\r' {
        t.take(p - 1)
    } else {
        t.take(p)
    }
}

/// `t.lines().find(|l| !l.trim().is_empty())`: the first line that holds
/// more than whitespace.
pub open spec fn first_nonblank(t: Seq<char>) -> Option<Seq<char>>
    decreases t.len(),
{
    if t.len() == 0 {
        None
    } else if !is_blank(first_line(t)) {
        Some(first_line(t))
    } else if newline_pos(t) < t.len() {
        proof {
            lemma_newline_pos_bounds(t);
        }
        first_nonblank(t.skip(newline_pos(t) + 1))
    } else {
        None
    }
}

pub proof fn lemma_newline_pos_bounds(t: Seq<char>)
    ensures
        0 <= newline_pos(t) <= t.len(),
        newline_pos(t) < t.len() ==> t[newline_pos(t)] == '\n',
        forall|j: int| 0 <= j < newline_pos(t) ==> t[j] != '\n',
    decreases t.len(),
{
    if t.len() > 0 && t[0] != '\n' {
        lemma_newline_pos_bounds(t.drop_first());
        assert forall|j: int| 0 <= j < newline_pos(t) implies t[j] != '\n' by {
            if j > 0 {
                assert(t.drop_first()[j - 1] == t[j]);
            }
        }
    }
}

proof fn lemma_newline_pos_is(t: Seq<char>, k: int)
    requires
        0 <= k <= t.len(),
        forall|j: int| 0 <= j < k ==> t[j] != '\n',
        k < t.len() ==> t[k] == '\n',
    ensures
        newline_pos(t) == k,
    decreases k,
{
    if k > 0 {
        lemma_newline_pos_is(t.drop_first(), k - 1);
    }
}

pub open spec fn opt_string_view(o: Option<String>) -> Option<Seq<char>> {
    match o {
        Some(s) => Some(s@),
        None => None,
    }
}

/// The first line of `text` that holds more than whitespace, if any.
pub fn first_nonblank_line(text: &str) -> (r: Option<String>)
    ensures
        opt_string_view(r) == first_nonblank(text@),
{
    let n = text.unicode_len();
    let mut start: usize = 0;
    assert(text@.skip(0) =~= text@);
    while start < n
        invariant
            n == text@.len(),
            start <= n,
            first_nonblank(text@) == first_nonblank(text@.skip(start as int)),
        decreases n - start,
    {
        let ghost rest = text@.skip(start as int);
        let mut p: usize = start;
        while p < n && text.get_char(p) != '\n'
            invariant
                n == text@.len(),
                start <= p <= n,
                forall|j: int| start <= j < p ==> text@[j] != '\n',
            decreases n - p,
        {
            p = p + 1;
        }
        proof {
            assert forall|j: int| 0 <= j < p - start implies rest[j] != '\n' by {
                assert(rest[j] == text@[start + j]);
            }
            lemma_newline_pos_is(rest, p - start);
        }
        let end: usize = if p < n && p > start && text.get_char(p - 1) == '\r' {
            p - 1
        } else {
            p
        };
        let line = text.substring_char(start, end);
        proof {
            assert(line@ =~= first_line(rest));
        }
        if !str_is_blank(line) {
            return Some(line.to_string());
        }
        if p >= n {
            return None;
        }
        proof {
            assert(rest.skip(p - start + 1) =~= text@.skip(p + 1));
        }
        start = p + 1;
    }
    proof {
        assert(text@.skip(start as int).len() == 0);
    }
    None
}

/// Trimming the trailing slashes keeps a prefix of the string that does not
/// end in a slash, and cuts off slashes only.
pub proof fn lemma_trim_end_slashes(s: Seq<char>)
    ensures
        trim_end_slashes(s).len() <= s.len(),
        trim_end_slashes(s) == s.take(trim_end_slashes(s).len() as int),
        trim_end_slashes(s).len() == 0 || trim_end_slashes(s).last() != '/',
        forall|i: int| trim_end_slashes(s).len() <= i < s.len() ==> s[i] == '/',
    decreases s.len(),
{
    if s.len() > 0 && s.last() == '/' {
        lemma_trim_end_slashes(s.drop_last());
        let r = trim_end_slashes(s.drop_last());
        assert(s.drop_last().take(r.len() as int) =~= s.take(r.len() as int));
        assert forall|i: int| r.len() <= i < s.len() implies s[i] == '/' by {
            if i < s.len() - 1 {
                assert(s[i] == s.drop_last()[i]);
            }
        }
    } else {
        assert(s.take(s.len() as int) =~= s);
    }
}

/// An endpoint is the base (or the default) with its trailing slashes cut,
/// then the path: a base of `https://host/` and a path of `/v1/x` give
/// `https://host/v1/x`, never a doubled slash from the base.
pub proof fn lemma_endpoint_joins(base: Option<Seq<char>>, default: Seq<char>, path: Seq<char>)
    ensures
        ({
            let b = match base {
                Some(b) => b,
                None => default,
            };
            let e = endpoint(base, default, path);
            let k = trim_end_slashes(b).len() as int;
            &&& e.skip(k) == path
            &&& e.take(k) == b.take(k)
            &&& (k == 0 || e[k - 1] != '/')
            &&& forall|i: int| k <= i < b.len() ==> b[i] == '/'
        }),
{
    let b = match base {
        Some(b) => b,
        None => default,
    };
    lemma_trim_end_slashes(b);
    let e = endpoint(base, default, path);
    let k = trim_end_slashes(b).len() as int;
    assert(e.skip(k) =~= path);
    assert(e.take(k) =~= trim_end_slashes(b));
}

/// Trimming keeps a contiguous part of the string that neither starts nor
/// ends with whitespace, and cuts off whitespace only.
pub proof fn lemma_trim(s: Seq<char>)
    ensures
        exists|a: int, b: int|
            #![trigger s.subrange(a, b)]
            0 <= a <= b <= s.len() && trim(s) == s.subrange(a, b) && (forall|i: int|
                0 <= i < a ==> is_ws(#[trigger] s[i])) && (forall|i: int|
                b <= i < s.len() ==> is_ws(#[trigger] s[i])),
        trim(s).len() == 0 || (!is_ws(trim(s)[0]) && !is_ws(trim(s).last())),
{
    let a = lemma_trim_start(s);
    let t = s.subrange(a, s.len() as int);
    let b = lemma_trim_end(t);
    assert(trim(s) == s.subrange(a, a + b));
    assert(t.subrange(0, b) =~= s.subrange(a, a + b));
    assert forall|i: int| a + b <= i < s.len() implies is_ws(#[trigger] s[i]) by {
        assert(s[i] == t[i - a]);
    }
}

proof fn lemma_trim_start(s: Seq<char>) -> (a: int)
    ensures
        0 <= a <= s.len(),
        trim_start(s) == s.subrange(a, s.len() as int),
        forall|i: int| 0 <= i < a ==> is_ws(#[trigger] s[i]),
        a < s.len() ==> !is_ws(s[a]),
    decreases s.len(),
{
    if s.len() > 0 && is_ws(s[0]) {
        let a1 = lemma_trim_start(s.drop_first());
        assert(s.drop_first().subrange(a1, s.len() - 1) =~= s.subrange(a1 + 1, s.len() as int));
        assert forall|i: int| 0 <= i < a1 + 1 implies is_ws(#[trigger] s[i]) by {
            if i > 0 {
                assert(s[i] == s.drop_first()[i - 1]);
            }
        }
        if a1 + 1 < s.len() {
            assert(s[a1 + 1] == s.drop_first()[a1]);
        }
        a1 + 1
    } else {
        assert(s.subrange(0, s.len() as int) =~= s);
        0
    }
}

proof fn lemma_trim_end(s: Seq<char>) -> (b: int)
    ensures
        0 <= b <= s.len(),
        trim_end(s) == s.subrange(0, b),
        forall|i: int| b <= i < s.len() ==> is_ws(#[trigger] s[i]),
        b > 0 ==> !is_ws(s[b - 1]),
    decreases s.len(),
{
    if s.len() > 0 && is_ws(s.last()) {
        let b1 = lemma_trim_end(s.drop_last());
        assert(s.drop_last().subrange(0, b1) =~= s.subrange(0, b1));
        assert forall|i: int| b1 <= i < s.len() implies is_ws(#[trigger] s[i]) by {
            if i < s.len() - 1 {
                assert(s[i] == s.drop_last()[i]);
            }
        }
        b1
    } else {
        assert(s.subrange(0, s.len() as int) =~= s);
        s.len() as int
    }
}

} // verus!
