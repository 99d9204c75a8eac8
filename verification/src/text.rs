//! Character-level helpers over strings: whitespace, trimming, splitting.
use vstd::prelude::*;

verus! {

/// The Unicode `White_Space` property, which `char::is_whitespace` tests.
pub open spec fn is_white_space(c: char) -> bool {
    let u = c as u32;
    ||| 0x09 <= u <= 0x0D
    ||| u == 0x20
    ||| u == 0x85
    ||| u == 0xA0
    ||| u == 0x1680
    ||| 0x2000 <= u <= 0x200A
    ||| u == 0x2028
    ||| u == 0x2029
    ||| u == 0x202F
    ||| u == 0x205F
    ||| u == 0x3000
}

/// Whether `c` has the Unicode `White_Space` property.
pub fn is_whitespace_char(c: char) -> (b: bool)
    ensures
        b == is_white_space(c),
{
    let u = c as u32;
    (0x09 <= u && u <= 0x0D) || u == 0x20 || u == 0x85 || u == 0xA0 || u == 0x1680 || (0x2000
        <= u && u <= 0x200A) || u == 0x2028 || u == 0x2029 || u == 0x202F || u == 0x205F || u
        == 0x3000
}

/// `s` without its leading whitespace.
pub open spec fn trim_start_seq(s: Seq<char>) -> Seq<char>
    decreases s.len(),
{
    if s.len() > 0 && is_white_space(s[0]) {
        trim_start_seq(s.drop_first())
    } else {
        s
    }
}

/// `s` without its trailing whitespace.
pub open spec fn trim_end_seq(s: Seq<char>) -> Seq<char>
    decreases s.len(),
{
    if s.len() > 0 && is_white_space(s.last()) {
        trim_end_seq(s.drop_last())
    } else {
        s
    }
}

/// `s` without leading and trailing whitespace, as `str::trim` gives it.
pub open spec fn trim_seq(s: Seq<char>) -> Seq<char> {
    trim_end_seq(trim_start_seq(s))
}

/// Whether every character of `s` is whitespace.
pub open spec fn all_white(s: Seq<char>) -> bool {
    forall|i: int| 0 <= i < s.len() ==> is_white_space(#[trigger] s[i])
}

/// The characters of `s`, in order.
pub fn chars_of(s: &str) -> (v: Vec<char>)
    ensures
        v@ == s@,
{
    let mut v: Vec<char> = Vec::new();
    let n = s.unicode_len();
    let mut i: usize = 0;
    while i < n
        invariant
            n == s@.len(),
            i <= n,
            v@ == s@.subrange(0, i as int),
        decreases n - i,
    {
        let c = s.get_char(i);
        v.push(c);
        i = i + 1;
        assert(v@ =~= s@.subrange(0, i as int));
    }
    assert(v@ =~= s@);
    v
}

proof fn lemma_trim_start_is_suffix(s: Seq<char>)
    ensures
        exists|a: int| 0 <= a <= s.len() && trim_start_seq(s) == s.subrange(a, s.len() as int)
            && all_white(s.subrange(0, a)) && (a < s.len() ==> !is_white_space(s[a])),
    decreases s.len(),
{
    if s.len() > 0 && is_white_space(s[0]) {
        lemma_trim_start_is_suffix(s.drop_first());
        let a = choose|a: int|
            0 <= a <= s.drop_first().len() && trim_start_seq(s.drop_first())
                == s.drop_first().subrange(a, s.drop_first().len() as int) && all_white(
                s.drop_first().subrange(0, a),
            ) && (a < s.drop_first().len() ==> !is_white_space(s.drop_first()[a]));
        assert(s.drop_first().subrange(a, s.drop_first().len() as int) =~= s.subrange(
            a + 1,
            s.len() as int,
        ));
        assert forall|i: int| 0 <= i < a + 1 implies is_white_space(
            #[trigger] s.subrange(0, a + 1)[i],
        ) by {
            if i > 0 {
                assert(s.subrange(0, a + 1)[i] == s.drop_first().subrange(0, a)[i - 1]);
            }
        }
    } else {
        assert(s.subrange(0, s.len() as int) =~= s);
        assert(all_white(s.subrange(0, 0)));
    }
}

proof fn lemma_trim_end_is_prefix(s: Seq<char>)
    ensures
        exists|b: int| 0 <= b <= s.len() && trim_end_seq(s) == s.subrange(0, b)
            && all_white(s.subrange(b, s.len() as int)) && (b > 0 ==> !is_white_space(s[b - 1])),
    decreases s.len(),
{
    if s.len() > 0 && is_white_space(s.last()) {
        lemma_trim_end_is_prefix(s.drop_last());
        let t = s.drop_last();
        let b = choose|b: int|
            0 <= b <= t.len() && trim_end_seq(t) == t.subrange(0, b) && all_white(
                t.subrange(b, t.len() as int),
            ) && (b > 0 ==> !is_white_space(t[b - 1]));
        assert(t.subrange(0, b) =~= s.subrange(0, b));
        assert forall|i: int| 0 <= i < s.len() - b implies is_white_space(
            #[trigger] s.subrange(b, s.len() as int)[i],
        ) by {
            if i < t.len() - b {
                assert(s.subrange(b, s.len() as int)[i] == t.subrange(b, t.len() as int)[i]);
            }
        }
    } else {
        assert(s.subrange(0, s.len() as int) =~= s);
        assert(all_white(s.subrange(s.len() as int, s.len() as int)));
    }
}

/// The trimmed form of `s` is `s[a..b]`, where `a` is the first non-whitespace
/// position (or the length) and `b` one past the last non-whitespace position.
pub proof fn lemma_trim_bounds(s: Seq<char>, a: int, b: int)
    requires
        0 <= a <= b <= s.len(),
        all_white(s.subrange(0, a)),
        a < s.len() ==> !is_white_space(s[a]),
        all_white(s.subrange(b, s.len() as int)),
        a < b ==> !is_white_space(s[b - 1]),
        a == b ==> all_white(s),
    ensures
        trim_seq(s) == s.subrange(a, b),
{
    lemma_trim_start_is_suffix(s);
    let a2 = choose|a2: int|
        0 <= a2 <= s.len() && trim_start_seq(s) == s.subrange(a2, s.len() as int) && all_white(
            s.subrange(0, a2),
        ) && (a2 < s.len() ==> !is_white_space(s[a2]));
    // the first non-whitespace position is unique
    if a2 < a {
        assert(s.subrange(0, a)[a2] == s[a2]);
    }
    if a < a2 {
        assert(s.subrange(0, a2)[a] == s[a]);
    }
    if a == b {
        assert(a2 == s.len()) by {
            if a2 < s.len() {
                assert(is_white_space(s[a2]));
            }
        }
    }
    let t = trim_start_seq(s);
    lemma_trim_end_is_prefix(t);
    let b2 = choose|b2: int|
        0 <= b2 <= t.len() && trim_end_seq(t) == t.subrange(0, b2) && all_white(
            t.subrange(b2, t.len() as int),
        ) && (b2 > 0 ==> !is_white_space(t[b2 - 1]));
    if a == b {
        assert(t.len() == 0);
        assert(trim_seq(s) =~= s.subrange(a, b));
    } else {
        assert(a2 == a);
        // b2 + a == b
        if b2 + a < b {
            assert(t.subrange(b2, t.len() as int)[b - 1 - a - b2] == s[b - 1]);
        }
        if b2 + a > b {
            assert(s.subrange(b, s.len() as int)[b2 + a - 1 - b] == s[b2 + a - 1]);
            assert(t[b2 - 1] == s[b2 + a - 1]);
        }
        assert(trim_seq(s) =~= s.subrange(a, b));
    }
}

proof fn lemma_trim_start_skips_white(w: Seq<char>, x: Seq<char>)
    requires
        all_white(w),
    ensures
        trim_start_seq(w + x) == trim_start_seq(x),
    decreases w.len(),
{
    if w.len() == 0 {
        assert(w + x =~= x);
    } else {
        assert((w + x)[0] == w[0]);
        assert((w + x).drop_first() =~= w.drop_first() + x);
        assert(all_white(w.drop_first())) by {
            assert forall|i: int| 0 <= i < w.drop_first().len() implies is_white_space(
                #[trigger] w.drop_first()[i],
            ) by {
                assert(w.drop_first()[i] == w[i + 1]);
            }
        }
        lemma_trim_start_skips_white(w.drop_first(), x);
    }
}

proof fn lemma_trim_end_skips_white(y: Seq<char>, w: Seq<char>)
    requires
        all_white(w),
    ensures
        trim_end_seq(y + w) == trim_end_seq(y),
    decreases w.len(),
{
    if w.len() == 0 {
        assert(y + w =~= y);
    } else {
        assert((y + w).last() == w.last());
        assert((y + w).drop_last() =~= y + w.drop_last());
        assert(all_white(w.drop_last())) by {
            assert forall|i: int| 0 <= i < w.drop_last().len() implies is_white_space(
                #[trigger] w.drop_last()[i],
            ) by {
                assert(w.drop_last()[i] == w[i]);
            }
        }
        lemma_trim_end_skips_white(y, w.drop_last());
    }
}

proof fn lemma_trim_start_of_white(w: Seq<char>)
    requires
        all_white(w),
    ensures
        trim_start_seq(w).len() == 0,
{
    lemma_trim_start_skips_white(w, Seq::<char>::empty());
    assert(w + Seq::<char>::empty() =~= w);
}

proof fn lemma_trim_ignores_white_tail(x: Seq<char>, w: Seq<char>)
    requires
        all_white(w),
    ensures
        trim_seq(x + w) == trim_seq(x),
    decreases x.len(),
{
    if x.len() == 0 {
        assert(x + w =~= w);
        lemma_trim_start_of_white(w);
        assert(trim_start_seq(w) =~= x);
    } else if is_white_space(x[0]) {
        assert((x + w)[0] == x[0]);
        assert((x + w).drop_first() =~= x.drop_first() + w);
        lemma_trim_ignores_white_tail(x.drop_first(), w);
    } else {
        assert((x + w)[0] == x[0]);
        lemma_trim_end_skips_white(x, w);
    }
}

/// Whitespace around a text does not change its trimmed form.
pub proof fn lemma_trim_padded(w1: Seq<char>, p: Seq<char>, w2: Seq<char>)
    requires
        all_white(w1),
        all_white(w2),
    ensures
        trim_seq(w1 + p + w2) == trim_seq(p),
{
    assert(w1 + p + w2 =~= w1 + (p + w2));
    lemma_trim_start_skips_white(w1, p + w2);
    lemma_trim_ignores_white_tail(p, w2);
}

/// `s` with leading and trailing whitespace removed.
pub fn trim(s: &str) -> (r: String)
    ensures
        r@ == trim_seq(s@),
{
    let v = chars_of(s);
    let n = v.len();
    let mut a: usize = 0;
    while a < n && is_whitespace_char(v[a])
        invariant
            v@ == s@,
            n == v.len(),
            a <= n,
            all_white(s@.subrange(0, a as int)),
        decreases n - a,
    {
        assert forall|i: int| 0 <= i < a + 1 implies is_white_space(
            #[trigger] s@.subrange(0, a + 1)[i],
        ) by {
            if i < a {
                assert(s@.subrange(0, a + 1)[i] == s@.subrange(0, a as int)[i]);
            }
        }
        a = a + 1;
    }
    let mut b: usize = n;
    while b > a && is_whitespace_char(v[b - 1])
        invariant
            v@ == s@,
            n == v.len(),
            a <= b <= n,
            all_white(s@.subrange(b as int, n as int)),
        decreases b,
    {
        assert forall|i: int| 0 <= i < n - (b - 1) implies is_white_space(
            #[trigger] s@.subrange(b - 1, n as int)[i],
        ) by {
            if i > 0 {
                assert(s@.subrange(b - 1, n as int)[i] == s@.subrange(b as int, n as int)[i - 1]);
            }
        }
        b = b - 1;
    }
    proof {
        if a == b {
            assert forall|i: int| 0 <= i < s@.len() implies is_white_space(#[trigger] s@[i]) by {
                if i < a {
                    assert(s@.subrange(0, a as int)[i] == s@[i]);
                } else {
                    assert(s@.subrange(b as int, n as int)[i - b] == s@[i]);
                }
            }
        }
        lemma_trim_bounds(s@, a as int, b as int);
    }
    s.substring_char(a, b).to_string()
}


/// Whether `a` and `b` hold the same characters.
pub fn str_eq(a: &str, b: &str) -> (r: bool)
    ensures
        r == (a@ == b@),
{
    let va = chars_of(a);
    let vb = chars_of(b);
    if va.len() != vb.len() {
        return false;
    }
    let n = va.len();
    let mut i: usize = 0;
    while i < n
        invariant
            n == va.len(),
            n == vb.len(),
            va@ == a@,
            vb@ == b@,
            i <= n,
            forall|j: int| 0 <= j < i ==> va@[j] == vb@[j],
        decreases n - i,
    {
        if va[i] != vb[i] {
            assert(a@[i as int] != b@[i as int]);
            return false;
        }
        i = i + 1;
    }
    assert(va@ =~= vb@);
    true
}

} // verus!
