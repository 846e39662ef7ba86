//! String helpers shared by the pipeline: locating separator characters,
//! taking the text before or after an occurrence, and prefix/suffix tests.
//! Specifications are stated over `Seq<char>` views.

use vstd::prelude::*;

verus! {

/// Number of occurrences of `c` in `s`.
pub open spec fn count_char(s: Seq<char>, c: char) -> nat
    decreases s.len(),
{
    if s.len() == 0 {
        0
    } else {
        (if s[0] == c {
            1nat
        } else {
            0nat
        }) + count_char(s.drop_first(), c)
    }
}

/// The text after the last occurrence of `c`; the whole of `s` when `c`
/// does not occur.
pub open spec fn after_last(s: Seq<char>, c: char) -> Seq<char>
    decreases s.len(),
{
    if s.len() == 0 {
        s
    } else if s.last() == c {
        Seq::empty()
    } else {
        after_last(s.drop_last(), c).push(s.last())
    }
}

/// The text before the last occurrence of `c`; empty when `c` does not occur.
pub open spec fn before_last(s: Seq<char>, c: char) -> Seq<char>
    decreases s.len(),
{
    if s.len() == 0 {
        s
    } else if s.last() == c {
        s.drop_last()
    } else {
        before_last(s.drop_last(), c)
    }
}

/// The text before the first occurrence of `c`; the whole of `s` when `c`
/// does not occur.
pub open spec fn before_first(s: Seq<char>, c: char) -> Seq<char>
    decreases s.len(),
{
    if s.len() == 0 {
        s
    } else if s.first() == c {
        Seq::empty()
    } else {
        seq![s.first()] + before_first(s.drop_first(), c)
    }
}

/// The text after the `n`-th occurrence of `c` (counting from 1); empty when
/// `c` occurs fewer than `n` times.
pub open spec fn after_nth(s: Seq<char>, c: char, n: nat) -> Seq<char>
    decreases s.len(),
{
    if s.len() == 0 {
        Seq::empty()
    } else if s.first() == c {
        if n <= 1 {
            s.drop_first()
        } else {
            after_nth(s.drop_first(), c, (n - 1) as nat)
        }
    } else {
        after_nth(s.drop_first(), c, n)
    }
}

/// Equality of two string slices, decided by contents.
pub fn str_eq(a: &str, b: &str) -> (r: bool)
    ensures
        r == (a@ == b@),
{
    let sa = String::from_str(a);
    let sb = String::from_str(b);
    sa == sb
}

/// Whether `prefix` is a prefix of `s`.
pub fn starts_with(s: &str, prefix: &str) -> (r: bool)
    ensures
        r == prefix@.is_prefix_of(s@),
{
    let n = s.unicode_len();
    let p = prefix.unicode_len();
    if p > n {
        false
    } else {
        let head = s.substring_char(0, p);
        let r = str_eq(head, prefix);
        proof {
            if !r {
                assert(prefix@ =~= s@.subrange(0, p as int) ==> prefix@ == s@.subrange(
                    0,
                    p as int,
                ));
            }
        }
        r
    }
}

/// Whether `suffix` is a suffix of `s`.
pub fn ends_with(s: &str, suffix: &str) -> (r: bool)
    ensures
        r == suffix@.is_suffix_of(s@),
{
    let n = s.unicode_len();
    let p = suffix.unicode_len();
    if p > n {
        false
    } else {
        let tail = s.substring_char(n - p, n);
        let r = str_eq(tail, suffix);
        proof {
            if !r {
                assert(suffix@ =~= s@.subrange(n - p, n as int) ==> suffix@ == s@.subrange(
                    n - p,
                    n as int,
                ));
            }
        }
        r
    }
}

/// Index of the last occurrence of `c` in `s`, if any.
pub fn rfind_char(s: &str, c: char) -> (r: Option<usize>)
    ensures
        match r {
            Some(i) => i < s@.len() && s@[i as int] == c && (forall|j: int|
                i < j < s@.len() ==> s@[j] != c),
            None => forall|j: int| 0 <= j < s@.len() ==> s@[j] != c,
        },
{
    let n = s.unicode_len();
    let mut i: usize = n;
    while i > 0
        invariant
            i <= n,
            n as nat == s@.len(),
            forall|j: int| i <= j < s@.len() ==> s@[j] != c,
        decreases i,
    {
        i = i - 1;
        if s.get_char(i) == c {
            return Some(i);
        }
    }
    None
}

/// Index of the first occurrence of `c` in `s`, if any.
pub fn find_char(s: &str, c: char) -> (r: Option<usize>)
    ensures
        match r {
            Some(i) => i < s@.len() && s@[i as int] == c && (forall|j: int|
                0 <= j < i ==> s@[j] != c),
            None => forall|j: int| 0 <= j < s@.len() ==> s@[j] != c,
        },
{
    let n = s.unicode_len();
    let mut i: usize = 0;
    while i < n
        invariant
            i <= n,
            n as nat == s@.len(),
            forall|j: int| 0 <= j < i ==> s@[j] != c,
        decreases n - i,
    {
        if s.get_char(i) == c {
            return Some(i);
        }
        i = i + 1;
    }
    None
}

proof fn lemma_count_push(t: Seq<char>, x: char, c: char)
    ensures
        count_char(t.push(x), c) == count_char(t, c) + (if x == c {
            1nat
        } else {
            0nat
        }),
    decreases t.len(),
{
    if t.len() == 0 {
        assert(t.push(x)[0] == x);
        assert(t.push(x).drop_first() =~= Seq::<char>::empty());
        assert(count_char(Seq::<char>::empty(), c) == 0);
        assert(count_char(t.push(x), c) == (if x == c {
            1nat
        } else {
            0nat
        }) + count_char(t.push(x).drop_first(), c));
    } else {
        assert(t.push(x)[0] == t[0]);
        assert(t.push(x).drop_first() =~= t.drop_first().push(x));
        lemma_count_push(t.drop_first(), x, c);
        assert(count_char(t.push(x), c) == (if t[0] == c {
            1nat
        } else {
            0nat
        }) + count_char(t.push(x).drop_first(), c));
        assert(count_char(t, c) == (if t[0] == c {
            1nat
        } else {
            0nat
        }) + count_char(t.drop_first(), c));
    }
}

/// Index of the `nth` occurrence (counting from 1) of `c` in `s`, if there
/// are that many.
pub fn find_nth_char(s: &str, c: char, nth: usize) -> (r: Option<usize>)
    requires
        nth >= 1,
    ensures
        match r {
            Some(i) => i < s@.len() && s@[i as int] == c && count_char(s@.take(i as int), c) == nth
                - 1,
            None => count_char(s@, c) < nth,
        },
{
    let n = s.unicode_len();
    let mut i: usize = 0;
    let mut seen: usize = 0;
    while i < n
        invariant
            i <= n,
            n as nat == s@.len(),
            seen < nth,
            count_char(s@.take(i as int), c) == seen,
        decreases n - i,
    {
        let ch = s.get_char(i);
        proof {
            assert(s@.take(i + 1) =~= s@.take(i as int).push(s@[i as int]));
            lemma_count_push(s@.take(i as int), s@[i as int], c);
        }
        if ch == c {
            if seen + 1 == nth {
                return Some(i);
            }
            seen = seen + 1;
        }
        i = i + 1;
    }
    proof {
        assert(s@.take(n as int) =~= s@);
    }
    None
}

proof fn lemma_after_last_none(s: Seq<char>, c: char)
    requires
        forall|j: int| 0 <= j < s.len() ==> s[j] != c,
    ensures
        after_last(s, c) == s,
    decreases s.len(),
{
    if s.len() > 0 {
        lemma_after_last_none(s.drop_last(), c);
        assert(s.drop_last().push(s.last()) =~= s);
    }
}

proof fn lemma_after_last_at(s: Seq<char>, c: char, i: int)
    requires
        0 <= i < s.len(),
        s[i] == c,
        forall|j: int| i < j < s.len() ==> s[j] != c,
    ensures
        after_last(s, c) == s.subrange(i + 1, s.len() as int),
    decreases s.len(),
{
    if i == s.len() - 1 {
        assert(after_last(s, c) =~= s.subrange(i + 1, s.len() as int));
    } else {
        lemma_after_last_at(s.drop_last(), c, i);
        assert(after_last(s, c) == after_last(s.drop_last(), c).push(s.last()));
        assert(s.drop_last().subrange(i + 1, s.len() - 1).push(s.last()) =~= s.subrange(
            i + 1,
            s.len() as int,
        ));
    }
}

proof fn lemma_before_last_none(s: Seq<char>, c: char)
    requires
        forall|j: int| 0 <= j < s.len() ==> s[j] != c,
    ensures
        before_last(s, c) == Seq::<char>::empty(),
    decreases s.len(),
{
    if s.len() > 0 {
        lemma_before_last_none(s.drop_last(), c);
    }
}

proof fn lemma_before_last_at(s: Seq<char>, c: char, i: int)
    requires
        0 <= i < s.len(),
        s[i] == c,
        forall|j: int| i < j < s.len() ==> s[j] != c,
    ensures
        before_last(s, c) == s.take(i),
    decreases s.len(),
{
    if i == s.len() - 1 {
        assert(s.drop_last() =~= s.take(i));
    } else {
        lemma_before_last_at(s.drop_last(), c, i);
        assert(s.drop_last().take(i) =~= s.take(i));
    }
}

proof fn lemma_before_first_none(s: Seq<char>, c: char)
    requires
        forall|j: int| 0 <= j < s.len() ==> s[j] != c,
    ensures
        before_first(s, c) == s,
    decreases s.len(),
{
    if s.len() > 0 {
        lemma_before_first_none(s.drop_first(), c);
        assert(seq![s.first()] + s.drop_first() =~= s);
    }
}

proof fn lemma_before_first_at(s: Seq<char>, c: char, i: int)
    requires
        0 <= i < s.len(),
        s[i] == c,
        forall|j: int| 0 <= j < i ==> s[j] != c,
    ensures
        before_first(s, c) == s.take(i),
    decreases s.len(),
{
    if i == 0 {
        assert(before_first(s, c) =~= s.take(0));
    } else {
        lemma_before_first_at(s.drop_first(), c, i - 1);
        assert(seq![s.first()] + s.drop_first().take(i - 1) =~= s.take(i));
    }
}

proof fn lemma_after_nth_none(s: Seq<char>, c: char, n: nat)
    requires
        count_char(s, c) < n,
    ensures
        after_nth(s, c, n) == Seq::<char>::empty(),
    decreases s.len(),
{
    if s.len() > 0 {
        if s.first() == c {
            lemma_after_nth_none(s.drop_first(), c, (n - 1) as nat);
        } else {
            lemma_after_nth_none(s.drop_first(), c, n);
        }
    }
}

proof fn lemma_after_nth_at(s: Seq<char>, c: char, n: nat, i: int)
    requires
        n >= 1,
        0 <= i < s.len(),
        s[i] == c,
        count_char(s.take(i), c) == n - 1,
    ensures
        after_nth(s, c, n) == s.subrange(i + 1, s.len() as int),
    decreases s.len(),
{
    if s.first() == c {
        if n == 1 {
            if i > 0 {
                assert(s.take(i)[0] == c);
                assert(count_char(s.take(i), c) >= 1) by {
                    assert(count_char(s.take(i), c) == 1 + count_char(s.take(i).drop_first(), c));
                }
            }
            assert(i == 0);
            assert(s.drop_first() =~= s.subrange(1, s.len() as int));
        } else {
            assert(i > 0) by {
                if i == 0 {
                    assert(count_char(s.take(0), c) == 0);
                }
            }
            assert(count_char(s.take(i), c) == 1 + count_char(s.take(i).drop_first(), c));
            assert(s.take(i).drop_first() =~= s.drop_first().take(i - 1));
            lemma_after_nth_at(s.drop_first(), c, (n - 1) as nat, i - 1);
            assert(s.drop_first().subrange(i, s.len() - 1) =~= s.subrange(i + 1, s.len() as int));
        }
    } else {
        assert(i > 0) by {
            if i == 0 {
                assert(s[0] == c);
            }
        }
        assert(count_char(s.take(i), c) == count_char(s.take(i).drop_first(), c));
        assert(s.take(i).drop_first() =~= s.drop_first().take(i - 1));
        lemma_after_nth_at(s.drop_first(), c, n, i - 1);
        assert(s.drop_first().subrange(i, s.len() - 1) =~= s.subrange(i + 1, s.len() as int));
    }
}

/// The slice of `s` after the last occurrence of `c`.
pub fn after_last_str<'a>(s: &'a str, c: char) -> (r: &'a str)
    ensures
        r@ == after_last(s@, c),
{
    let n = s.unicode_len();
    match rfind_char(s, c) {
        Some(i) => {
            proof {
                lemma_after_last_at(s@, c, i as int);
            }
            s.substring_char(i + 1, n)
        },
        None => {
            proof {
                lemma_after_last_none(s@, c);
            }
            s
        },
    }
}

/// The slice of `s` before the last occurrence of `c`; empty when `c` does
/// not occur.
pub fn before_last_str<'a>(s: &'a str, c: char) -> (r: &'a str)
    ensures
        r@ == before_last(s@, c),
{
    match rfind_char(s, c) {
        Some(i) => {
            proof {
                lemma_before_last_at(s@, c, i as int);
                assert(s@.take(i as int) =~= s@.subrange(0, i as int));
            }
            s.substring_char(0, i)
        },
        None => {
            proof {
                lemma_before_last_none(s@, c);
            }
            s.substring_char(0, 0)
        },
    }
}

/// The slice of `s` before the first occurrence of `c`.
pub fn before_first_str<'a>(s: &'a str, c: char) -> (r: &'a str)
    ensures
        r@ == before_first(s@, c),
{
    match find_char(s, c) {
        Some(i) => {
            proof {
                lemma_before_first_at(s@, c, i as int);
                assert(s@.take(i as int) =~= s@.subrange(0, i as int));
            }
            s.substring_char(0, i)
        },
        None => {
            proof {
                lemma_before_first_none(s@, c);
            }
            s
        },
    }
}

/// The slice of `s` after the `nth` occurrence (counting from 1) of `c`;
/// empty when `c` occurs fewer than `nth` times.
pub fn after_nth_str<'a>(s: &'a str, c: char, nth: usize) -> (r: &'a str)
    requires
        nth >= 1,
    ensures
        r@ == after_nth(s@, c, nth as nat),
{
    let n = s.unicode_len();
    match find_nth_char(s, c, nth) {
        Some(i) => {
            proof {
                lemma_after_nth_at(s@, c, nth as nat, i as int);
            }
            s.substring_char(i + 1, n)
        },
        None => {
            proof {
                lemma_after_nth_none(s@, c, nth as nat);
            }
            s.substring_char(0, 0)
        },
    }
}

/// Concatenation of two string slices.
pub fn concat2(a: &str, b: &str) -> (r: String)
    ensures
        r@ == a@ + b@,
{
    let mut s = String::from_str(a);
    s.append(b);
    s
}

/// Concatenation of three string slices.
pub fn concat3(a: &str, b: &str, c: &str) -> (r: String)
    ensures
        r@ == a@ + b@ + c@,
{
    let mut s = String::from_str(a);
    s.append(b);
    s.append(c);
    s
}

/// Concatenation of five string slices.
pub fn concat5(a: &str, b: &str, c: &str, d: &str, e: &str) -> (r: String)
    ensures
        r@ == a@ + b@ + c@ + d@ + e@,
{
    let mut s = String::from_str(a);
    s.append(b);
    s.append(c);
    s.append(d);
    s.append(e);
    s
}

} // verus!
