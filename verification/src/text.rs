//! Text helpers: blank-string detection, trailing-slash removal, prefix
//! stripping and byte-bounded truncation.

use vstd::prelude::*;
use vstd::utf8::*;
use vstd::string::*;

verus! {

broadcast use vstd::utf8::group_utf8_lib;

/// Unicode `White_Space`, the set that `char::is_whitespace` and
/// `str::trim` use.
pub open spec fn is_whitespace(c: char) -> bool {
    let u = c as u32;
    ||| (0x09 <= u && u <= 0x0D)
    ||| u == 0x20
    ||| u == 0x85
    ||| u == 0xA0
    ||| u == 0x1680
    ||| (0x2000 <= u && u <= 0x200A)
    ||| u == 0x2028
    ||| u == 0x2029
    ||| u == 0x202F
    ||| u == 0x205F
    ||| u == 0x3000
}

/// A string that is empty once whitespace is trimmed from both ends.
pub open spec fn is_blank(s: Seq<char>) -> bool {
    forall|i: int| 0 <= i < s.len() ==> #[trigger] is_whitespace(s[i])
}

/// `s` without the slashes at its end, however many.
pub open spec fn trim_trailing_slashes(s: Seq<char>) -> Seq<char>
    decreases s.len(),
{
    if s.len() > 0 && s.last() == '/' {
        trim_trailing_slashes(s.drop_last())
    } else {
        s
    }
}

/// `s` without a leading `0x`, when it has one.
pub open spec fn strip_hex_prefix(s: Seq<char>) -> Seq<char> {
    if s.len() >= 2 && s[0] == '0' && s[1] == 'x' {
        s.skip(2)
    } else {
        s
    }
}

/// The number of bytes in the UTF-8 encoding of `c`.
pub open spec fn utf8_width(c: char) -> nat {
    encode_scalar(c as u32).len()
}

/// The UTF-8 length of `s` in bytes.
pub open spec fn utf8_len(s: Seq<char>) -> nat {
    encode_utf8(s).len()
}

/// Whether the first `max` bytes of `s` end between two characters.
pub open spec fn is_cut_point(s: Seq<char>, max: int) -> bool {
    exists|k: int| 0 <= k <= s.len() && #[trigger] utf8_len(s.take(k)) == max
}

/// The inputs on which `truncate` does not panic: text that already fits,
/// or a cut that falls between two characters.
pub open spec fn truncatable(s: Seq<char>, max: int) -> bool {
    utf8_len(s) <= max || is_cut_point(s, max)
}

/// The number of characters in the first `max` bytes of `s`, at a cut point.
pub open spec fn cut_chars(s: Seq<char>, max: int) -> int {
    choose|k: int| 0 <= k <= s.len() && #[trigger] utf8_len(s.take(k)) == max
}

/// The character that marks a cut.
pub open spec fn ellipsis() -> char {
    '\u{2026}'
}

/// Text that fits in `max` bytes is kept; longer text keeps the characters
/// of its first `max` bytes and gains an ellipsis.
pub open spec fn truncated(s: Seq<char>, max: int) -> Seq<char> {
    if utf8_len(s) <= max {
        s
    } else {
        s.take(cut_chars(s, max)) + seq![ellipsis()]
    }
}

proof fn lemma_encode_concat(a: Seq<char>, b: Seq<char>)
    ensures
        encode_utf8(a + b) == encode_utf8(a) + encode_utf8(b),
    decreases a.len(),
{
    if a.len() == 0 {
        assert(a + b =~= b);
        assert(encode_utf8(a) + encode_utf8(b) =~= encode_utf8(b));
    } else {
        assert((a + b).drop_first() =~= a.drop_first() + b);
        lemma_encode_concat(a.drop_first(), b);
        assert(encode_utf8(a + b) =~= encode_utf8(a) + encode_utf8(b));
    }
}

proof fn lemma_width_bounds(c: char)
    ensures
        1 <= utf8_width(c) <= 4,
{
}

proof fn lemma_take_step(s: Seq<char>, i: int)
    requires
        0 <= i < s.len(),
    ensures
        utf8_len(s.take(i + 1)) == utf8_len(s.take(i)) + utf8_width(s[i]),
{
    assert(s.take(i + 1) =~= s.take(i) + seq![s[i]]);
    lemma_encode_concat(s.take(i), seq![s[i]]);
    let one = seq![s[i]];
    assert(one.drop_first() =~= Seq::<char>::empty());
    assert(encode_utf8(Seq::<char>::empty()) =~= Seq::<u8>::empty());
    assert(encode_utf8(one) =~= encode_scalar(s[i] as u32));
}

proof fn lemma_take_grows(s: Seq<char>, k1: int, k2: int)
    requires
        0 <= k1 <= k2 <= s.len(),
    ensures
        utf8_len(s.take(k1)) + (k2 - k1) <= utf8_len(s.take(k2)),
    decreases k2 - k1,
{
    if k1 < k2 {
        lemma_take_grows(s, k1, k2 - 1);
        lemma_take_step(s, k2 - 1);
        lemma_width_bounds(s[k2 - 1]);
    }
}

proof fn lemma_cut_here(s: Seq<char>, max: int, i: int)
    requires
        truncatable(s, max),
        0 <= i < s.len(),
        utf8_len(s.take(i)) <= max < utf8_len(s.take(i)) + utf8_width(s[i]),
    ensures
        utf8_len(s.take(i)) == max,
        utf8_len(s) > max,
        truncated(s, max) == s.take(i) + seq![ellipsis()],
{
    lemma_take_step(s, i);
    lemma_take_grows(s, i + 1, s.len() as int);
    assert(s.take(s.len() as int) =~= s);
    let k = cut_chars(s, max);
    if k < i {
        lemma_take_grows(s, k, i);
    } else if k > i {
        lemma_take_grows(s, i + 1, k);
    }
}

/// Whether `c` is whitespace (Unicode `White_Space`).
pub fn char_is_whitespace(c: char) -> (res: bool)
    ensures
        res == is_whitespace(c),
{
    let u = c as u32;
    (0x09 <= u && u <= 0x0D) || u == 0x20 || u == 0x85 || u == 0xA0 || u == 0x1680 || (0x2000 <= u
        && u <= 0x200A) || u == 0x2028 || u == 0x2029 || u == 0x202F || u == 0x205F || u == 0x3000
}

/// Whether nothing but whitespace is in `s` (what `s.trim().is_empty()` asks).
pub fn str_is_blank(s: &str) -> (res: bool)
    ensures
        res == is_blank(s@),
{
    let n = s.unicode_len();
    let mut i: usize = 0;
    while i < n
        invariant
            n == s@.len(),
            i <= n,
            forall|j: int| 0 <= j < i ==> #[trigger] is_whitespace(s@[j]),
        decreases n - i,
    {
        if !char_is_whitespace(s.get_char(i)) {
            return false;
        }
        i = i + 1;
    }
    true
}

/// Whether two strings hold the same characters.
pub fn str_eq(a: &str, b: &str) -> (res: bool)
    ensures
        res == (a@ == b@),
{
    let n = a.unicode_len();
    if n != b.unicode_len() {
        return false;
    }
    let mut i: usize = 0;
    while i < n
        invariant
            n == a@.len(),
            n == b@.len(),
            i <= n,
            forall|j: int| 0 <= j < i ==> a@[j] == b@[j],
        decreases n - i,
    {
        if a.get_char(i) != b.get_char(i) {
            return false;
        }
        i = i + 1;
    }
    assert(a@ =~= b@);
    true
}

proof fn lemma_trim_trailing_slashes_prefix(s: Seq<char>, k: int)
    requires
        0 <= k <= s.len(),
        forall|j: int| k <= j < s.len() ==> s[j] == '/',
    ensures
        trim_trailing_slashes(s) == trim_trailing_slashes(s.take(k)),
    decreases s.len() - k,
{
    if k < s.len() {
        assert(s.take(s.len() - 1) =~= s.drop_last());
        lemma_trim_trailing_slashes_prefix(s.drop_last(), k);
        assert(s.drop_last().take(k) =~= s.take(k));
    } else {
        assert(s.take(k) =~= s);
    }
}

/// `s` with every trailing `/` removed (what `trim_end_matches('/')` does).
pub fn trim_end_slashes(s: &str) -> (res: String)
    ensures
        res@ == trim_trailing_slashes(s@),
{
    let n = s.unicode_len();
    let mut k: usize = n;
    while k > 0 && s.get_char(k - 1) == '/'
        invariant
            n == s@.len(),
            k <= n,
            forall|j: int| k <= j < n ==> s@[j] == '/',
        decreases k,
    {
        k = k - 1;
    }
    proof {
        lemma_trim_trailing_slashes_prefix(s@, k as int);
        let t = s@.take(k as int);
        if t.len() > 0 {
            assert(t.last() == s@[k - 1]);
        }
    }
    String::from_str(s.substring_char(0, k))
}

/// `s` without a leading `0x` (what `s.strip_prefix("0x").unwrap_or(s)` gives).
pub fn strip_hex_prefix_str(s: &str) -> (res: &str)
    ensures
        res@ == strip_hex_prefix(s@),
{
    let n = s.unicode_len();
    if n >= 2 && s.get_char(0) == '0' && s.get_char(1) == 'x' {
        s.substring_char(2, n)
    } else {
        s
    }
}

/// The number of bytes in the UTF-8 encoding of `c`.
pub fn char_utf8_width(c: char) -> (res: usize)
    ensures
        res == utf8_width(c),
{
    let u = c as u32;
    if u <= 0x7F {
        1
    } else if u <= 0x7FF {
        2
    } else if u <= 0xFFFF {
        3
    } else {
        4
    }
}

/// Keeps `text` when it is at most `max` bytes long; otherwise keeps its
/// first `max` bytes and appends an ellipsis. As with slicing a `str`, the
/// cut must fall between two characters.
pub fn truncate(text: &str, max: usize) -> (res: String)
    requires
        truncatable(text@, max as int),
    ensures
        res@ == truncated(text@, max as int),
{
    let n = text.unicode_len();
    let mut i: usize = 0;
    let mut used: usize = 0;
    assert(text@.take(0) =~= Seq::<char>::empty());
    while i < n
        invariant
            n == text@.len(),
            i <= n,
            used <= max,
            used == utf8_len(text@.take(i as int)),
            truncatable(text@, max as int),
        decreases n - i,
    {
        let w = char_utf8_width(text.get_char(i));
        if w > max - used {
            proof {
                lemma_cut_here(text@, max as int, i as int);
            }
            let mut out = String::from_str(text.substring_char(0, i));
            let mark = "\u{2026}";
            proof {
                reveal_strlit("\u{2026}");
            }
            out.append(mark);
            return out;
        }
        proof {
            lemma_take_step(text@, i as int);
        }
        used = used + w;
        i = i + 1;
    }
    assert(text@.take(n as int) =~= text@);
    String::from_str(text)
}

/// The decimal digit for a value below ten.
pub open spec fn digit_char(d: nat) -> char {
    (d + '0' as nat) as char
}

/// The decimal representation of `n`, without leading zeros.
pub open spec fn decimal(n: nat) -> Seq<char>
    decreases n,
{
    if n < 10 {
        seq![digit_char(n)]
    } else {
        decimal(n / 10) + seq![digit_char(n % 10)]
    }
}

fn digit_str(d: u64) -> (res: &'static str)
    requires
        d < 10,
    ensures
        res@ == seq![digit_char(d as nat)],
{
    proof {
        reveal_strlit("0");
        reveal_strlit("1");
        reveal_strlit("2");
        reveal_strlit("3");
        reveal_strlit("4");
        reveal_strlit("5");
        reveal_strlit("6");
        reveal_strlit("7");
        reveal_strlit("8");
        reveal_strlit("9");
    }
    let s = if d == 0 {
        "0"
    } else if d == 1 {
        "1"
    } else if d == 2 {
        "2"
    } else if d == 3 {
        "3"
    } else if d == 4 {
        "4"
    } else if d == 5 {
        "5"
    } else if d == 6 {
        "6"
    } else if d == 7 {
        "7"
    } else if d == 8 {
        "8"
    } else {
        "9"
    };
    assert(s@ =~= seq![digit_char(d as nat)]);
    s
}

/// The decimal representation of `n`.
pub fn decimal_string(n: u64) -> (res: String)
    ensures
        res@ == decimal(n as nat),
    decreases n,
{
    if n < 10 {
        String::from_str(digit_str(n))
    } else {
        let mut s = decimal_string(n / 10);
        s.append(digit_str(n % 10));
        s
    }
}

/// What is kept of cut text is a prefix of it whose UTF-8 encoding is
/// exactly the first `max` bytes of the text's; the ellipsis closes it.
pub proof fn lemma_truncated_keeps_prefix(s: Seq<char>, max: int)
    requires
        0 <= max,
        truncatable(s, max),
    ensures
        utf8_len(s) <= max ==> truncated(s, max) == s,
        utf8_len(s) > max ==> {
            let kept = truncated(s, max).drop_last();
            &&& s.take(kept.len() as int) == kept
            &&& encode_utf8(kept) == encode_utf8(s).subrange(0, max)
            &&& truncated(s, max).last() == ellipsis()
        },
{
    if utf8_len(s) > max {
        let k = cut_chars(s, max);
        let kept = s.take(k);
        assert(truncated(s, max).drop_last() =~= kept);
        assert(s =~= kept + s.skip(k));
        lemma_encode_concat(kept, s.skip(k));
        assert(encode_utf8(kept) =~= encode_utf8(s).subrange(0, max));
    }
}

/// Truncating twice is truncating once: cut text is itself a valid input,
/// and cutting it again at the same limit leaves it unchanged.
pub proof fn lemma_truncate_idempotent(s: Seq<char>, max: int)
    requires
        0 <= max,
        truncatable(s, max),
    ensures
        truncatable(truncated(s, max), max),
        truncated(truncated(s, max), max) == truncated(s, max),
{
    if utf8_len(s) > max {
        let k = cut_chars(s, max);
        let t = truncated(s, max);
        assert(t.take(k) =~= s.take(k));
        assert(t.take(k + 1) =~= t);
        lemma_take_step(t, k);
        assert(utf8_width(ellipsis()) == 3);
        assert(utf8_len(t) == max + 3);
        assert(is_cut_point(t, max)) by {
            assert(utf8_len(t.take(k)) == max);
        }
        let k2 = cut_chars(t, max);
        if k2 < k {
            lemma_take_grows(t, k2, k);
        } else if k2 > k {
            lemma_take_grows(t, k + 1, k2);
        }
        assert(truncated(t, max) =~= t);
    }
}

} // verus!
