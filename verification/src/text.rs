//! Character and byte level helpers: whitespace classification, trimming,
//! whitespace splitting, decimal formatting, and UTF-8 decoding.
use vstd::prelude::*;

verus! {

use vstd::string::StrSliceExecFns;
use vstd::string::StringExecFns;
use vstd::utf8::valid_utf8;
use vstd::utf8::decode_utf8;

/// Whether `char::is_whitespace` holds of `c`: the Unicode `White_Space`
/// property, which is a fixed table and depends on the character alone.
pub uninterp spec fn is_unicode_whitespace(c: char) -> bool;

/// Relies on char::is_whitespace: true exactly for characters with the
/// Unicode `White_Space` property. That table plainly contains the space,
/// tab, line feed and carriage return, and no printable ASCII character
/// other than the space, which the further clauses state.
#[verifier::external_body]
pub(crate) fn char_is_whitespace(c: char) -> (r: bool)
    ensures
        r == is_unicode_whitespace(c),
        c == ' ' || c == '\t' || c == '\n' || c == '\r' ==> r,
        '!' <= c <= '~' ==> !r,
{
    c.is_whitespace()
}

/// `s` without its leading whitespace characters.
pub open spec fn trim_start_spec(s: Seq<char>) -> Seq<char>
    decreases s.len(),
{
    if s.len() == 0 {
        s
    } else if is_unicode_whitespace(s[0]) {
        trim_start_spec(s.drop_first())
    } else {
        s
    }
}

/// `s` without its trailing whitespace characters.
pub open spec fn trim_end_spec(s: Seq<char>) -> Seq<char>
    decreases s.len(),
{
    if s.len() == 0 {
        s
    } else if is_unicode_whitespace(s[s.len() - 1]) {
        trim_end_spec(s.drop_last())
    } else {
        s
    }
}

/// `s` without leading and trailing whitespace: what `str::trim` returns.
pub open spec fn trim_spec(s: Seq<char>) -> Seq<char> {
    trim_end_spec(trim_start_spec(s))
}

proof fn lemma_trim_start_at(s: Seq<char>, i: int)
    requires
        0 <= i <= s.len(),
        forall|k: int| 0 <= k < i ==> is_unicode_whitespace(s[k]),
        i < s.len() ==> !is_unicode_whitespace(s[i]),
    ensures
        trim_start_spec(s) =~= s.subrange(i, s.len() as int),
    decreases i,
{
    if i == 0 {
        if s.len() == 0 {
            assert(trim_start_spec(s) =~= s.subrange(0, s.len() as int));
        } else {
            assert(trim_start_spec(s) =~= s.subrange(0, s.len() as int));
        }
    } else {
        assert(is_unicode_whitespace(s[0]));
        let t = s.drop_first();
        assert(forall|k: int| 0 <= k < i - 1 ==> is_unicode_whitespace(t[k]));
        lemma_trim_start_at(t, i - 1);
        assert(t.subrange(i - 1, t.len() as int) =~= s.subrange(i, s.len() as int));
    }
}

proof fn lemma_trim_end_at(s: Seq<char>, j: int)
    requires
        0 <= j <= s.len(),
        forall|k: int| j <= k < s.len() ==> is_unicode_whitespace(s[k]),
        j > 0 ==> !is_unicode_whitespace(s[j - 1]),
    ensures
        trim_end_spec(s) =~= s.subrange(0, j),
    decreases s.len() - j,
{
    if j == s.len() {
        if j == 0 {
            assert(trim_end_spec(s) =~= s.subrange(0, j));
        } else {
            assert(trim_end_spec(s) =~= s.subrange(0, j));
        }
    } else {
        assert(is_unicode_whitespace(s[s.len() - 1]));
        let t = s.drop_last();
        assert(forall|k: int| j <= k < t.len() ==> is_unicode_whitespace(t[k]));
        lemma_trim_end_at(t, j);
        assert(t.subrange(0, j) =~= s.subrange(0, j));
    }
}

/// `s` with leading and trailing whitespace removed, as `str::trim` does it.
pub(crate) fn trim(s: &str) -> (r: String)
    ensures
        r@ == trim_spec(s@),
{
    let n = s.unicode_len();
    let mut i: usize = 0;
    while i < n && char_is_whitespace(s.get_char(i))
        invariant
            0 <= i <= n,
            n == s@.len(),
            forall|k: int| 0 <= k < i ==> is_unicode_whitespace(s@[k]),
        decreases n - i,
    {
        i = i + 1;
    }
    proof {
        lemma_trim_start_at(s@, i as int);
    }
    if i == n {
        proof {
            assert(trim_spec(s@) =~= Seq::<char>::empty());
        }
        let r = String::new();
        return r;
    }
    let mut j: usize = n;
    while j > i && char_is_whitespace(s.get_char(j - 1))
        invariant
            i <= j <= n,
            n == s@.len(),
            forall|k: int| j <= k < n ==> is_unicode_whitespace(s@[k]),
        decreases j,
    {
        j = j - 1;
    }
    proof {
        assert(!is_unicode_whitespace(s@[i as int]));
        assert(j > i);
        let t = s@.subrange(i as int, n as int);
        lemma_trim_end_at(t, j - i);
        assert(t.subrange(0, j - i) =~= s@.subrange(i as int, j as int));
    }
    let piece = s.substring_char(i, j);
    piece.to_owned()
}

/// The longest whitespace-free prefix of `s`.
pub open spec fn take_word_spec(s: Seq<char>) -> Seq<char>
    decreases s.len(),
{
    if s.len() == 0 || is_unicode_whitespace(s[0]) {
        Seq::empty()
    } else {
        seq![s[0]] + take_word_spec(s.drop_first())
    }
}

/// The whitespace-separated words of `s`, in order, without empty words:
/// what `str::split_whitespace` yields.
pub open spec fn split_whitespace_spec(s: Seq<char>) -> Seq<Seq<char>>
    decreases s.len(),
{
    if s.len() == 0 {
        Seq::empty()
    } else if is_unicode_whitespace(s[0]) {
        split_whitespace_spec(s.drop_first())
    } else {
        let w = take_word_spec(s);
        let k: int = if w.len() < 1 {
            1
        } else if w.len() > s.len() {
            s.len() as int
        } else {
            w.len() as int
        };
        seq![w] + split_whitespace_spec(s.subrange(k, s.len() as int))
    }
}

proof fn lemma_take_word_at(s: Seq<char>, e: int)
    requires
        0 <= e <= s.len(),
        forall|k: int| 0 <= k < e ==> !is_unicode_whitespace(s[k]),
        e < s.len() ==> is_unicode_whitespace(s[e]),
    ensures
        take_word_spec(s) =~= s.subrange(0, e),
    decreases e,
{
    if e == 0 {
    } else {
        let t = s.drop_first();
        assert(forall|k: int| 0 <= k < e - 1 ==> !is_unicode_whitespace(t[k]));
        lemma_take_word_at(t, e - 1);
        assert(t.subrange(0, e - 1) =~= s.subrange(1, e));
        assert(take_word_spec(s) =~= seq![s[0]] + s.subrange(1, e));
    }
}

/// The words of `s`, split on whitespace as `str::split_whitespace` does it.
pub(crate) fn split_whitespace(s: &str) -> (r: Vec<String>)
    ensures
        r.deep_view() == split_whitespace_spec(s@),
{
    let n = s.unicode_len();
    let mut words: Vec<String> = Vec::new();
    let mut i: usize = 0;
    proof {
        assert(s@.subrange(0, n as int) =~= s@);
        assert(words.deep_view() + split_whitespace_spec(s@) =~= split_whitespace_spec(s@));
    }
    while i < n
        invariant
            0 <= i <= n,
            n == s@.len(),
            words.deep_view() + split_whitespace_spec(s@.subrange(i as int, n as int))
                == split_whitespace_spec(s@),
        decreases n - i,
    {
        if char_is_whitespace(s.get_char(i)) {
            proof {
                let rest = s@.subrange(i as int, n as int);
                assert(rest.drop_first() =~= s@.subrange(i + 1, n as int));
            }
            i = i + 1;
        } else {
            let start = i;
            let mut j = i + 1;
            while j < n && !char_is_whitespace(s.get_char(j))
                invariant
                    start < j <= n,
                    n == s@.len(),
                    forall|k: int| start <= k < j ==> !is_unicode_whitespace(s@[k]),
                decreases n - j,
            {
                j = j + 1;
            }
            let word = s.substring_char(start, j).to_owned();
            let ghost wdv = words.deep_view();
            proof {
                let rest = s@.subrange(start as int, n as int);
                lemma_take_word_at(rest, j - start);
                assert(take_word_spec(rest) =~= s@.subrange(start as int, j as int));
                assert(take_word_spec(rest).len() == j - start);
                assert(rest.subrange(j - start, rest.len() as int) =~= s@.subrange(
                    j as int,
                    n as int,
                ));
                assert(split_whitespace_spec(rest) == seq![word@] + split_whitespace_spec(
                    s@.subrange(j as int, n as int),
                ));
                assert((wdv + seq![word@]) + split_whitespace_spec(s@.subrange(j as int, n as int))
                    =~= wdv + split_whitespace_spec(s@.subrange(start as int, n as int)));
            }
            words.push(word);
            proof {
                assert(words.deep_view() =~= wdv + seq![word@]);
            }
            i = j;
        }
    }
    proof {
        assert(s@.subrange(n as int, n as int) =~= Seq::<char>::empty());
        assert(words.deep_view() + Seq::<Seq<char>>::empty() =~= words.deep_view());
    }
    words
}

/// The character for the decimal digit `d`.
pub open spec fn digit_char(d: int) -> char {
    if d == 0 {
        '0'
    } else if d == 1 {
        '1'
    } else if d == 2 {
        '2'
    } else if d == 3 {
        '3'
    } else if d == 4 {
        '4'
    } else if d == 5 {
        '5'
    } else if d == 6 {
        '6'
    } else if d == 7 {
        '7'
    } else if d == 8 {
        '8'
    } else {
        '9'
    }
}

/// The decimal digits of the non-negative number `n`, most significant first.
pub open spec fn dec_str(n: int) -> Seq<char>
    recommends
        n >= 0,
    decreases n,
{
    if n < 10 {
        seq![digit_char(n)]
    } else {
        dec_str(n / 10).push(digit_char(n % 10))
    }
}

/// The decimal rendering of `v`, with a leading minus sign when negative.
pub open spec fn dec_str_signed(v: int) -> Seq<char> {
    if v < 0 {
        seq!['-'] + dec_str(-v)
    } else {
        dec_str(v)
    }
}

fn digit_string(d: u64) -> (r: String)
    requires
        d < 10,
    ensures
        r@ =~= seq![digit_char(d as int)],
{
    proof {
        reveal_strlit("0");
        reveal_strlit("1");
        reveal_strlit("2");
        reveal_strlit("3");
        reveal_strlit("4");
        reveal_strlit("5");
        reveal_strlit("6");
        reveal_strlit("7");
        reveal_strlit("8");
        reveal_strlit("9");
    }
    if d == 0 {
        "0".to_owned()
    } else if d == 1 {
        "1".to_owned()
    } else if d == 2 {
        "2".to_owned()
    } else if d == 3 {
        "3".to_owned()
    } else if d == 4 {
        "4".to_owned()
    } else if d == 5 {
        "5".to_owned()
    } else if d == 6 {
        "6".to_owned()
    } else if d == 7 {
        "7".to_owned()
    } else if d == 8 {
        "8".to_owned()
    } else {
        "9".to_owned()
    }
}

/// `n` written in decimal.
pub(crate) fn u64_to_string(n: u64) -> (r: String)
    ensures
        r@ == dec_str(n as int),
    decreases n,
{
    if n < 10 {
        digit_string(n)
    } else {
        let mut s = u64_to_string(n / 10);
        let d = digit_string(n % 10);
        s.append(d.as_str());
        proof {
            assert(dec_str((n / 10) as int).push(digit_char((n % 10) as int)) =~= dec_str(
                (n / 10) as int,
            ) + seq![digit_char((n % 10) as int)]);
            assert((n / 10) as int == n as int / 10);
            assert((n % 10) as int == n as int % 10);
        }
        s
    }
}

/// `v` written in decimal, with a minus sign when negative.
pub(crate) fn i64_to_string(v: i64) -> (r: String)
    requires
        v > i64::MIN,
    ensures
        r@ == dec_str_signed(v as int),
{
    if v < 0 {
        let mut s = "-".to_owned();
        proof {
            reveal_strlit("-");
            assert("-"@ =~= seq!['-']);
        }
        let d = u64_to_string((-v) as u64);
        s.append(d.as_str());
        s
    } else {
        u64_to_string(v as u64)
    }
}

/// Relies on `String::from_utf8`: it succeeds exactly on valid UTF-8 and
/// returns the decoded string.
#[verifier::external_body]
pub(crate) fn bytes_to_string(b: &Vec<u8>) -> (r: Option<String>)
    ensures
        r is Some <==> valid_utf8(b@),
        r matches Some(s) ==> s@ == decode_utf8(b@),
{
    String::from_utf8(b.clone()).ok()
}

/// Relies on `String::from_utf8_lossy`: on valid UTF-8 it returns the decoded
/// string unchanged (invalid sequences would be replaced, of which nothing is
/// claimed here).
#[verifier::external_body]
pub(crate) fn bytes_to_string_lossy(b: &Vec<u8>) -> (r: String)
    ensures
        valid_utf8(b@) ==> r@ == decode_utf8(b@),
{
    String::from_utf8_lossy(b.as_slice()).into_owned()
}

} // verus!
