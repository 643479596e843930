use vstd::prelude::*;
use vstd::string::*;

verus! {

/// The characters `str::split_ascii_whitespace` splits on.
pub open spec fn is_space_char(c: char) -> bool {
    c == ' ' || c == '\t' || c == '\n' || c == '\r' || c == '\x0c'
}

/// Length of the run of non-space characters at the front of `s`.
pub open spec fn spec_word_len(s: Seq<char>) -> int
    decreases s.len(),
{
    if s.len() == 0 || is_space_char(s[0]) {
        0
    } else {
        1 + spec_word_len(s.skip(1))
    }
}

pub proof fn lemma_word_len_bounds(s: Seq<char>)
    ensures
        0 <= spec_word_len(s) <= s.len(),
        forall|k: int| 0 <= k < spec_word_len(s) ==> !is_space_char(s[k]),
        spec_word_len(s) < s.len() ==> is_space_char(s[spec_word_len(s)]),
    decreases s.len(),
{
    if s.len() == 0 || is_space_char(s[0]) {
    } else {
        lemma_word_len_bounds(s.skip(1));
        assert forall|k: int| 0 <= k < spec_word_len(s) implies !is_space_char(s[k]) by {
            if k > 0 {
                assert(!is_space_char(s.skip(1)[k - 1]));
            }
        }
        if spec_word_len(s) < s.len() {
            assert(is_space_char(s.skip(1)[spec_word_len(s) - 1]));
        }
    }
}

/// The front run length is the only cut obeying the run conditions.
pub proof fn lemma_word_len_is(s: Seq<char>, w: int)
    requires
        0 <= w <= s.len(),
        forall|k: int| 0 <= k < w ==> !is_space_char(s[k]),
        w < s.len() ==> is_space_char(s[w]),
    ensures
        spec_word_len(s) == w,
    decreases s.len(),
{
    if s.len() == 0 {
    } else if is_space_char(s[0]) {
        assert(w == 0);
    } else {
        assert(w >= 1);
        assert forall|k: int| 0 <= k < w - 1 implies !is_space_char(s.skip(1)[k]) by {
            assert(!is_space_char(s[k + 1]));
        }
        if w - 1 < s.skip(1).len() {
            assert(s.skip(1)[w - 1] == s[w]);
        }
        lemma_word_len_is(s.skip(1), w - 1);
    }
}

/// The whitespace-separated words of `s`, in order, without the spaces.
pub open spec fn spec_tokens(s: Seq<char>) -> Seq<Seq<char>>
    decreases s.len(),
    via spec_tokens_decreases
{
    if s.len() == 0 {
        Seq::<Seq<char>>::empty()
    } else if is_space_char(s[0]) {
        spec_tokens(s.skip(1))
    } else {
        seq![s.take(spec_word_len(s))] + spec_tokens(s.skip(spec_word_len(s)))
    }
}

#[via_fn]
proof fn spec_tokens_decreases(s: Seq<char>) {
    if s.len() != 0 && !is_space_char(s[0]) {
        lemma_word_len_bounds(s);
    }
}

/// Split a line into its whitespace-separated words.
pub fn split_words(s: &str) -> (words: Vec<String>)
    ensures
        words.deep_view() == spec_tokens(s@),
{
    let n = s.unicode_len();
    let mut words: Vec<String> = Vec::new();
    let mut i: usize = 0;
    proof {
        assert(words.deep_view() =~= Seq::<Seq<char>>::empty());
        assert(s@.skip(0) =~= s@);
    }
    while i < n
        invariant
            n == s@.len(),
            i <= n,
            spec_tokens(s@) == words.deep_view() + spec_tokens(s@.skip(i as int)),
        decreases n - i,
    {
        let c = s.get_char(i);
        if is_space(c) {
            proof {
                assert(s@.skip(i as int).skip(1) =~= s@.skip(i as int + 1));
            }
            i = i + 1;
        } else {
            let ghost t = s@.skip(i as int);
            let mut j: usize = i + 1;
            while j < n && !is_space(s.get_char(j))
                invariant
                    n == s@.len(),
                    i < j <= n,
                    forall|k: int| i <= k < j ==> !is_space_char(s@[k]),
                decreases n - j,
            {
                j = j + 1;
            }
            proof {
                assert forall|k: int| 0 <= k < j - i implies !is_space_char(t[k]) by {
                    assert(t[k] == s@[i + k]);
                }
                if j - i < t.len() {
                    assert(t[j - i] == s@[j as int]);
                }
                lemma_word_len_is(t, j - i);
                assert(t.take(j - i) =~= s@.subrange(i as int, j as int));
                assert(t.skip(j - i) =~= s@.skip(j as int));
            }
            let word = String::from_str(s.substring_char(i, j));
            let ghost pre = words.deep_view();
            words.push(word);
            proof {
                assert(words.deep_view() =~= pre.push(word@));
                assert(words.deep_view() + spec_tokens(s@.skip(j as int)) =~= pre + (seq![
                    t.take(spec_word_len(t)),
                ] + spec_tokens(t.skip(spec_word_len(t)))));
            }
            i = j;
        }
    }
    proof {
        assert(s@.skip(i as int) =~= Seq::<char>::empty());
        assert(spec_tokens(s@) =~= words.deep_view());
    }
    words
}

/// Exec mirror of `is_space_char`.
pub fn is_space(c: char) -> (r: bool)
    ensures
        r == is_space_char(c),
{
    c == ' ' || c == '\t' || c == '\n' || c == '\r' || c == '\x0c'
}

/// The words joined back together with single spaces.
pub open spec fn spec_join_space(ts: Seq<Seq<char>>) -> Seq<char>
    decreases ts.len(),
{
    if ts.len() == 0 {
        Seq::<char>::empty()
    } else if ts.len() == 1 {
        ts[0]
    } else {
        ts[0] + seq![' '] + spec_join_space(ts.skip(1))
    }
}

/// Join `words[start..]` with single spaces.
pub fn join_from(words: &Vec<String>, start: usize) -> (r: String)
    requires
        start <= words@.len(),
    ensures
        r@ == spec_join_space(words.deep_view().skip(start as int)),
{
    let n = words.len();
    let mut r = String::new();
    let mut k = start;
    while k < n
        invariant
            n == words@.len(),
            start <= k <= n,
            spec_join_space(words.deep_view().skip(start as int)) == r@ + (if k < n {
                (if k > start {
                    seq![' ']
                } else {
                    Seq::<char>::empty()
                }) + spec_join_space(words.deep_view().skip(k as int))
            } else {
                Seq::<char>::empty()
            }),
        decreases n - k,
    {
        proof {
            reveal_strlit(" ");
            assert(" "@ =~= seq![' ']);
            assert(words.deep_view().skip(k as int).skip(1) =~= words.deep_view().skip(
                k as int + 1,
            ));
            assert(words.deep_view().skip(k as int)[0] == words@[k as int]@);
        }
        if k > start {
            r.append(" ");
        }
        r.append(words[k].as_str());
        k = k + 1;
    }
    proof {
        if start == n {
            assert(words.deep_view().skip(start as int) =~= Seq::<Seq<char>>::empty());
        }
    }
    r
}

/// Compare two texts character by character.
pub fn eq_str(s: &str, t: &str) -> (r: bool)
    ensures
        r == (s@ == t@),
{
    let n = s.unicode_len();
    if n != t.unicode_len() {
        proof {
            assert(s@ != t@);
        }
        return false;
    }
    let mut i: usize = 0;
    while i < n
        invariant
            n == s@.len(),
            n == t@.len(),
            i <= n,
            forall|k: int| 0 <= k < i ==> s@[k] == t@[k],
        decreases n - i,
    {
        if s.get_char(i) != t.get_char(i) {
            return false;
        }
        i = i + 1;
    }
    proof {
        assert(s@ =~= t@);
    }
    true
}

/// ASCII upper-case letters map onto lower case; every other character is
/// left alone, compared by scalar value.
pub open spec fn spec_lower_scalar(c: char) -> u32 {
    if 65 <= c as u32 && c as u32 <= 90 {
        (c as u32 + 32) as u32
    } else {
        c as u32
    }
}

/// Whether two texts are equal up to ASCII case.
pub open spec fn ci_equal(s: Seq<char>, t: Seq<char>) -> bool {
    s.len() == t.len() && forall|i: int|
        0 <= i < s.len() ==> spec_lower_scalar(s[i]) == spec_lower_scalar(t[i])
}

/// Compare two texts ignoring ASCII case.
pub fn eq_ignore_case(s: &str, t: &str) -> (r: bool)
    ensures
        r == ci_equal(s@, t@),
{
    let n = s.unicode_len();
    if n != t.unicode_len() {
        return false;
    }
    let mut i: usize = 0;
    while i < n
        invariant
            n == s@.len(),
            n == t@.len(),
            i <= n,
            forall|k: int| 0 <= k < i ==> spec_lower_scalar(s@[k]) == spec_lower_scalar(t@[k]),
        decreases n - i,
    {
        let a = s.get_char(i) as u32;
        let b = t.get_char(i) as u32;
        let la = if 65 <= a && a <= 90 {
            a + 32
        } else {
            a
        };
        let lb = if 65 <= b && b <= 90 {
            b + 32
        } else {
            b
        };
        if la != lb {
            return false;
        }
        i = i + 1;
    }
    true
}

/// `s` padded on the right with spaces to at least `width` characters.
pub open spec fn spec_pad_right(s: Seq<char>, width: int) -> Seq<char> {
    if s.len() >= width {
        s
    } else {
        s + Seq::new((width - s.len()) as nat, |i: int| ' ')
    }
}

/// Pad with trailing spaces to at least `width` characters.
pub fn pad_right(s: String, width: usize) -> (r: String)
    ensures
        r@ == spec_pad_right(s@, width as int),
{
    let mut r = s;
    let ghost orig = r@;
    let mut n = r.as_str().unicode_len();
    while n < width
        invariant
            n == r@.len(),
            orig.len() <= n,
            orig.len() >= width ==> n == orig.len(),
            orig.len() < width ==> n <= width,
            r@ =~= orig + Seq::new((n - orig.len()) as nat, |i: int| ' '),
        decreases width - n,
    {
        proof {
            reveal_strlit(" ");
            assert(" "@ =~= seq![' ']);
        }
        r.append(" ");
        proof {
            assert(r@ =~= orig + Seq::new((n + 1 - orig.len()) as nat, |i: int| ' '));
        }
        n = n + 1;
    }
    proof {
        if orig.len() >= width {
            assert(r@ =~= orig);
        }
        assert(r@ =~= spec_pad_right(orig, width as int));
    }
    r
}

/// The decimal digit `d` as a character.
pub open spec fn spec_digit(d: int) -> char {
    if d == 0 {
        '0'
    } else if d == 1 {
        '1'
    } else if d == 2 {
        '2'
    } else if d == 3 {
        '3'
    } else if d == 4 {
        '4'
    } else if d == 5 {
        '5'
    } else if d == 6 {
        '6'
    } else if d == 7 {
        '7'
    } else if d == 8 {
        '8'
    } else {
        '9'
    }
}

/// The usual decimal text of `n`, most significant digit first, no sign and
/// no leading zeros (except for zero itself).
pub open spec fn spec_dec(n: nat) -> Seq<char>
    decreases n,
{
    if n < 10 {
        seq![spec_digit(n as int)]
    } else {
        spec_dec(n / 10).push(spec_digit((n % 10) as int))
    }
}

fn digit_str(d: u64) -> (r: &'static str)
    requires
        d < 10,
    ensures
        r@ =~= seq![spec_digit(d as int)],
{
    proof {
        reveal_strlit("0");
        reveal_strlit("1");
        reveal_strlit("2");
        reveal_strlit("3");
        reveal_strlit("4");
        reveal_strlit("5");
        reveal_strlit("6");
        reveal_strlit("7");
        reveal_strlit("8");
        reveal_strlit("9");
    }
    if d == 0 {
        "0"
    } else if d == 1 {
        "1"
    } else if d == 2 {
        "2"
    } else if d == 3 {
        "3"
    } else if d == 4 {
        "4"
    } else if d == 5 {
        "5"
    } else if d == 6 {
        "6"
    } else if d == 7 {
        "7"
    } else if d == 8 {
        "8"
    } else {
        "9"
    }
}

/// Decimal text of an unsigned number.
pub fn u64_to_string(n: u64) -> (s: String)
    ensures
        s@ == spec_dec(n as nat),
    decreases n,
{
    if n < 10 {
        String::from_str(digit_str(n))
    } else {
        let mut s = u64_to_string(n / 10);
        s.append(digit_str(n % 10));
        s
    }
}

/// An element-wise copy of a list of strings.
pub fn clone_strings(v: &Vec<String>) -> (r: Vec<String>)
    ensures
        r@ == v@,
{
    let mut r: Vec<String> = Vec::new();
    let mut i: usize = 0;
    while i < v.len()
        invariant
            i <= v@.len(),
            r@ =~= v@.take(i as int),
        decreases v@.len() - i,
    {
        r.push(v[i].clone());
        proof {
            assert(r@ =~= v@.take(i as int + 1));
        }
        i = i + 1;
    }
    proof {
        assert(v@.take(v@.len() as int) =~= v@);
    }
    r
}

/// Two-digit decimal text, leading zero kept.
pub fn two_digit_string(m: u64) -> (s: String)
    requires
        m < 100,
    ensures
        s@ == seq![spec_digit((m / 10) as int), spec_digit((m % 10) as int)],
{
    let mut s = String::from_str(digit_str(m / 10));
    s.append(digit_str(m % 10));
    s
}

/// Whether `pat` occurs in `hay` as a contiguous run.
pub open spec fn contains_seq(hay: Seq<char>, needle: Seq<char>) -> bool {
    exists|k: int|
        0 <= k && k + needle.len() <= hay.len() && #[trigger] hay.subrange(k, k + needle.len())
            == needle
}

/// Whether `pat` starts at position `k` of `s`.
pub open spec fn spec_match_at(s: Seq<char>, pat: Seq<char>, k: int) -> bool {
    k + pat.len() <= s.len() && s.subrange(k, k + pat.len()) == pat
}

/// Check whether `pat` starts at character position `k`.
pub fn match_at(s: &str, pat: &str, k: usize) -> (r: bool)
    requires
        k <= s@.len(),
    ensures
        r == spec_match_at(s@, pat@, k as int),
{
    let n = s.unicode_len();
    let m = pat.unicode_len();
    if m > n - k {
        return false;
    }
    let mut i: usize = 0;
    while i < m
        invariant
            n == s@.len(),
            m == pat@.len(),
            k + m <= n,
            i <= m,
            forall|t: int| 0 <= t < i ==> s@[k + t] == pat@[t],
        decreases m - i,
    {
        if s.get_char(k + i) != pat.get_char(i) {
            proof {
                assert(s@.subrange(k as int, k + pat@.len())[i as int] == s@[k + i]);
            }
            return false;
        }
        i = i + 1;
    }
    proof {
        assert(s@.subrange(k as int, k + pat@.len()) =~= pat@);
    }
    true
}

/// `s` with every occurrence of `pat` removed, scanning left to right.
pub open spec fn spec_strip_all(s: Seq<char>, pat: Seq<char>) -> Seq<char>
    decreases s.len(),
    when pat.len() >= 1
{
    if s.len() == 0 {
        Seq::<char>::empty()
    } else if spec_match_at(s, pat, 0) {
        spec_strip_all(s.skip(pat.len() as int), pat)
    } else {
        seq![s[0]] + spec_strip_all(s.skip(1), pat)
    }
}

/// Relies on `String::push`: appends exactly the one character.
#[verifier::external_body]
pub(crate) fn push_char(s: &mut String, c: char)
    ensures
        final(s)@ == old(s)@.push(c),
{
    s.push(c);
}

/// Remove every occurrence of `pat`, scanning left to right.
pub fn strip_all(s: &str, pat: &str) -> (r: String)
    requires
        pat@.len() >= 1,
    ensures
        r@ == spec_strip_all(s@, pat@),
    decreases s@.len(),
{
    let n = s.unicode_len();
    let m = pat.unicode_len();
    if n == 0 {
        String::new()
    } else if match_at(s, pat, 0) {
        proof {
            assert(s@.skip(pat@.len() as int) == s@.subrange(m as int, n as int));
        }
        strip_all(s.substring_char(m, n), pat)
    } else {
        let mut head = String::new();
        push_char(&mut head, s.get_char(0));
        proof {
            assert(s@.skip(1) == s@.subrange(1, n as int));
        }
        head.append(strip_all(s.substring_char(1, n), pat).as_str());
        proof {
            assert(head@ =~= seq![s@[0]] + spec_strip_all(s@.skip(1), pat@));
        }
        head
    }
}

} // verus!
