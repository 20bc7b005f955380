use vstd::prelude::*;

verus! {

/// What `str::to_lowercase` returns for a string whose chars are `s`.
pub uninterp spec fn lowercase(s: Seq<char>) -> Seq<char>;

/// Calls `str::to_lowercase` and hands back the chars of its result. The
/// contract claims only that the result is a function of the argument's chars,
/// named `lowercase`; the Unicode case mapping itself is not stated.
#[verifier::external_body]
pub(crate) fn lowercase_chars(s: &str) -> (r: Vec<char>)
    ensures
        r@ == lowercase(s@),
{
    s.to_lowercase().chars().collect()
}

/// The chars of `s`, in order.
pub fn str_chars(s: &str) -> (r: Vec<char>)
    ensures
        r@ == s@,
{
    let n: usize = s.unicode_len();
    let mut out: Vec<char> = Vec::new();
    let mut i: usize = 0;
    while i < n
        invariant
            i <= n,
            n == s@.len(),
            out@ == s@.take(i as int),
        decreases n - i,
    {
        let c = s.get_char(i);
        out.push(c);
        i += 1;
        assert(out@ =~= s@.take(i as int));
    }
    assert(s@.take(n as int) =~= s@);
    out
}

/// `needle` occurs in `hay` as a contiguous run of chars (the empty run occurs
/// everywhere). On valid strings this is what `str::contains` with a `&str`
/// pattern decides, since UTF-8 is self-synchronizing.
pub open spec fn has_substring(hay: Seq<char>, needle: Seq<char>) -> bool {
    exists|i: int|
        0 <= i && i + needle.len() <= hay.len() && #[trigger] hay.subrange(i, i + needle.len())
            == needle
}

/// Decides `has_substring` by trying every position in turn.
pub fn contains_chars(hay: &Vec<char>, needle: &Vec<char>) -> (r: bool)
    ensures
        r == has_substring(hay@, needle@),
{
    let h: usize = hay.len();
    let n: usize = needle.len();
    if n > h {
        assert forall|i: int| 0 <= i && i + n <= h implies #[trigger] hay@.subrange(i, i + n)
            != needle@ by {}
        return false;
    }
    let mut i: usize = 0;
    while i <= h - n
        invariant
            n <= h,
            h == hay@.len(),
            n == needle@.len(),
            i <= h - n + 1,
            forall|k: int| 0 <= k < i ==> #[trigger] hay@.subrange(k, k + n) != needle@,
        decreases h - n + 1 - i,
    {
        let mut j: usize = 0;
        let mut same = true;
        while j < n
            invariant
                n <= h,
                i + n <= h,
                h == hay@.len(),
                n == needle@.len(),
                j <= n,
                same == (forall|t: int| 0 <= t < j ==> hay@[i + t] == needle@[t]),
            decreases n - j,
        {
            if hay[i + j] != needle[j] {
                same = false;
            }
            j += 1;
        }
        if same {
            assert(hay@.subrange(i as int, i + n) =~= needle@);
            return true;
        } else {
            let ghost t: int = choose|t: int| 0 <= t < n && hay@[i + t] != needle@[t];
            assert(hay@.subrange(i as int, i + n)[t] != needle@[t]);
        }
        i += 1;
    }
    assert forall|k: int| 0 <= k && k + n <= h implies #[trigger] hay@.subrange(k, k + n)
        != needle@ by {}
    false
}

/// Every `s` occurs in itself.
pub proof fn lemma_has_substring_refl(s: Seq<char>)
    ensures
        has_substring(s, s),
{
    assert(s.subrange(0int, 0int + s.len()) =~= s);
}

/// Length of the first space-separated word of `s`: the chars before the
/// first `' '`, or all of `s` where it holds none.
pub open spec fn word_len(s: Seq<char>) -> nat
    decreases s.len(),
{
    if s.len() == 0 || s[0] == ' ' {
        0
    } else {
        1 + word_len(s.drop_first())
    }
}

/// What `s.split(' ').next()` yields: the chars before the first space.
pub open spec fn first_word(s: Seq<char>) -> Seq<char> {
    s.take(word_len(s) as int)
}

proof fn lemma_word_len(s: Seq<char>, k: int)
    requires
        0 <= k <= s.len(),
        forall|j: int| 0 <= j < k ==> s[j] != ' ',
        k == s.len() || s[k] == ' ',
    ensures
        word_len(s) == k,
    decreases k,
{
    if k > 0 {
        assert forall|j: int| 0 <= j < k - 1 implies s.drop_first()[j] != ' ' by {
            assert(s.drop_first()[j] == s[j + 1]);
        }
        lemma_word_len(s.drop_first(), k - 1);
    }
}

/// The chars of `s` before its first space.
pub fn first_word_chars(s: &Vec<char>) -> (r: Vec<char>)
    ensures
        r@ == first_word(s@),
{
    let mut out: Vec<char> = Vec::new();
    let mut i: usize = 0;
    while i < s.len() && s[i] != ' '
        invariant
            i <= s.len(),
            out@ == s@.take(i as int),
            forall|j: int| 0 <= j < i ==> s@[j] != ' ',
        decreases s.len() - i,
    {
        out.push(s[i]);
        i += 1;
        assert(out@ =~= s@.take(i as int));
    }
    proof {
        lemma_word_len(s@, i as int);
    }
    out
}


/// `c` has the Unicode White_Space property, which is what `char::is_whitespace`
/// tests: U+0009 to U+000D, U+0020, U+0085, U+00A0, U+1680, U+2000 to U+200A,
/// U+2028, U+2029, U+202F, U+205F and U+3000.
pub open spec fn is_white_space(c: char) -> bool {
    let x = c as u32;
    ||| 0x09 <= x <= 0x0D
    ||| x == 0x20
    ||| x == 0x85
    ||| x == 0xA0
    ||| x == 0x1680
    ||| 0x2000 <= x <= 0x200A
    ||| x == 0x2028
    ||| x == 0x2029
    ||| x == 0x202F
    ||| x == 0x205F
    ||| x == 0x3000
}

/// Decides `is_white_space`.
pub fn white_space(c: char) -> (r: bool)
    ensures
        r == is_white_space(c),
{
    let x: u32 = c as u32;
    (0x09 <= x && x <= 0x0D) || x == 0x20 || x == 0x85 || x == 0xA0 || x == 0x1680 || (0x2000 <= x
        && x <= 0x200A) || x == 0x2028 || x == 0x2029 || x == 0x202F || x == 0x205F || x == 0x3000
}

/// `s` without its trailing white space.
pub open spec fn trim_end(s: Seq<char>) -> Seq<char>
    decreases s.len(),
{
    if s.len() > 0 && is_white_space(s.last()) {
        trim_end(s.drop_last())
    } else {
        s
    }
}

/// The run of non-white-space chars at the end of `s`.
pub open spec fn trailing_word(s: Seq<char>) -> Seq<char>
    decreases s.len(),
{
    if s.len() == 0 || is_white_space(s.last()) {
        Seq::empty()
    } else {
        trailing_word(s.drop_last()).push(s.last())
    }
}

/// What `s.split_whitespace().last().unwrap_or(s)` yields: the last
/// white-space-separated word of `s`, or all of `s` where it has no word.
pub open spec fn last_word(s: Seq<char>) -> Seq<char> {
    let t = trim_end(s);
    if t.len() == 0 {
        s
    } else {
        trailing_word(t)
    }
}

/// The last white-space-separated word of `s`, or `s` itself where it has none.
pub fn last_word_of<'a>(s: &'a str) -> (r: &'a str)
    ensures
        r@ == last_word(s@),
{
    let n: usize = s.unicode_len();
    let mut e: usize = n;
    assert(s@.take(n as int) =~= s@);
    while e > 0 && white_space(s.get_char(e - 1))
        invariant
            e <= n,
            n == s@.len(),
            trim_end(s@) == trim_end(s@.take(e as int)),
        decreases e,
    {
        assert(s@.take(e as int).drop_last() =~= s@.take(e - 1));
        e -= 1;
    }
    if e == 0 {
        assert(s@.take(0) =~= Seq::<char>::empty());
        return s;
    }
    assert(trim_end(s@.take(e as int)) == s@.take(e as int));
    let mut b: usize = e;
    assert(s@.subrange(e as int, e as int) =~= Seq::<char>::empty());
    assert(trailing_word(s@.take(e as int)) =~= trailing_word(s@.take(e as int)) + s@.subrange(
        e as int,
        e as int,
    ));
    while b > 0 && !white_space(s.get_char(b - 1))
        invariant
            b <= e,
            e <= n,
            n == s@.len(),
            trailing_word(s@.take(e as int)) == trailing_word(s@.take(b as int)) + s@.subrange(
                b as int,
                e as int,
            ),
        decreases b,
    {
        let ghost tb = s@.take(b as int);
        assert(tb.drop_last() =~= s@.take(b - 1));
        assert(tb.last() == s@[b - 1]);
        assert(trailing_word(tb) == trailing_word(s@.take(b - 1)).push(s@[b - 1]));
        assert(trailing_word(s@.take(b - 1)).push(s@[b - 1]) + s@.subrange(b as int, e as int)
            =~= trailing_word(s@.take(b - 1)) + s@.subrange(b - 1, e as int));
        b -= 1;
    }
    assert(trailing_word(s@.take(b as int)) =~= Seq::<char>::empty());
    assert(trailing_word(s@.take(e as int)) =~= s@.subrange(b as int, e as int));
    s.substring_char(b, e)
}

/// Bytes that `c` takes in UTF-8.
pub open spec fn utf8_len(c: char) -> nat {
    let x = c as u32;
    if x < 0x80 {
        1
    } else if x < 0x800 {
        2
    } else if x < 0x10000 {
        3
    } else {
        4
    }
}

/// How many leading chars of `s` fit, encoded in UTF-8, in `budget` bytes.
pub open spec fn chars_within(s: Seq<char>, budget: nat) -> nat
    decreases s.len(),
{
    if s.len() == 0 || utf8_len(s[0]) > budget {
        0
    } else {
        1 + chars_within(s.drop_first(), (budget - utf8_len(s[0])) as nat)
    }
}

fn utf8_width(c: char) -> (r: usize)
    ensures
        r == utf8_len(c),
{
    let x: u32 = c as u32;
    if x < 0x80 {
        1
    } else if x < 0x800 {
        2
    } else if x < 0x10000 {
        3
    } else {
        4
    }
}

/// The longest prefix of `s` that takes at most `budget` bytes in UTF-8. Where
/// byte `budget` falls on a char boundary (always, for ASCII) this is
/// `&s[..min(s.len(), budget)]`; elsewhere it stops at the boundary before it.
pub fn prefix_within_bytes<'a>(s: &'a str, budget: usize) -> (r: &'a str)
    ensures
        r@ == s@.take(chars_within(s@, budget as nat) as int),
{
    let n: usize = s.unicode_len();
    let mut i: usize = 0;
    let mut used: usize = 0;
    assert(s@.skip(0) =~= s@);
    while i < n && utf8_width(s.get_char(i)) <= budget - used
        invariant
            i <= n,
            n == s@.len(),
            used <= budget,
            chars_within(s@, budget as nat) == i + chars_within(
                s@.skip(i as int),
                (budget - used) as nat,
            ),
        decreases n - i,
    {
        let w: usize = utf8_width(s.get_char(i));
        assert(s@.skip(i as int)[0] == s@[i as int]);
        assert(s@.skip(i as int).drop_first() =~= s@.skip(i + 1));
        used = used + w;
        i += 1;
    }
    if i < n {
        assert(s@.skip(i as int)[0] == s@[i as int]);
    }
    s.substring_char(0, i)
}

} // verus!
