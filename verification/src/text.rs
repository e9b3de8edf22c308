//! Text over `Seq<char>`: decimal numerals, searching, trimming.

use vstd::prelude::*;
use vstd::string::*;

verus! {

/// The character for one decimal digit.
pub open spec fn digit_char(d: int) -> char {
    if d == 0 {
        '0'
    } else if d == 1 {
        '1'
    } else if d == 2 {
        '2'
    } else if d == 3 {
        '3'
    } else if d == 4 {
        '4'
    } else if d == 5 {
        '5'
    } else if d == 6 {
        '6'
    } else if d == 7 {
        '7'
    } else if d == 8 {
        '8'
    } else {
        '9'
    }
}

/// The decimal numeral of a natural number, without leading zeros.
pub open spec fn decimal(n: nat) -> Seq<char>
    decreases n,
{
    if n < 10 {
        seq![digit_char(n as int)]
    } else {
        decimal(n / 10).push(digit_char((n % 10) as int))
    }
}

/// The decimal numeral of an integer: a minus sign before a negative one.
pub open spec fn signed_decimal(i: int) -> Seq<char> {
    if i < 0 {
        seq!['-'] + decimal((-i) as nat)
    } else {
        decimal(i as nat)
    }
}

fn digit_text(d: u128) -> (r: &'static str)
    requires
        d < 10,
    ensures
        r@ == seq![digit_char(d as int)],
{
    proof {
        reveal_strlit("0");
        reveal_strlit("1");
        reveal_strlit("2");
        reveal_strlit("3");
        reveal_strlit("4");
        reveal_strlit("5");
        reveal_strlit("6");
        reveal_strlit("7");
        reveal_strlit("8");
        reveal_strlit("9");
    }
    if d == 0 {
        "0"
    } else if d == 1 {
        "1"
    } else if d == 2 {
        "2"
    } else if d == 3 {
        "3"
    } else if d == 4 {
        "4"
    } else if d == 5 {
        "5"
    } else if d == 6 {
        "6"
    } else if d == 7 {
        "7"
    } else if d == 8 {
        "8"
    } else {
        "9"
    }
}

/// Appends the decimal numeral of `n` to `out`.
pub fn push_decimal(out: &mut String, n: u128)
    ensures
        final(out)@ == old(out)@ + decimal(n as nat),
    decreases n,
{
    if n >= 10 {
        push_decimal(out, n / 10);
    }
    out.append(digit_text(n % 10));
    assert(out@ =~= old(out)@ + decimal(n as nat));
}

/// The characters of a string slice, in order.
pub fn chars_of(s: &str) -> (r: Vec<char>)
    ensures
        r@ == s@,
{
    let mut out: Vec<char> = Vec::new();
    for c in it: s.chars()
        invariant
            it.seq() == s@,
            out@ == it.seq().take(it.index()),
    {
        assert(it.seq().take(it.index()).push(c) =~= it.seq().take(it.index() + 1));
        out.push(c);
    }
    assert(s@.take(s@.len() as int) =~= s@);
    out
}

/// Appends the decimal numeral of `i` to `out`, with a minus sign if it is negative.
pub fn push_signed(out: &mut String, i: i128)
    ensures
        final(out)@ == old(out)@ + signed_decimal(i as int),
{
    if i < 0 {
        proof {
            reveal_strlit("-");
        }
        out.append("-");
        let magnitude: u128 = if i == i128::MIN {
            0x8000_0000_0000_0000_0000_0000_0000_0000u128
        } else {
            (-i) as u128
        };
        push_decimal(out, magnitude);
        assert(out@ =~= old(out)@ + signed_decimal(i as int));
    } else {
        push_decimal(out, i as u128);
    }
}

/// Whether `c` is white space: the code points that carry the Unicode
/// property `White_Space`.
pub open spec fn is_space(c: char) -> bool {
    let u = c as u32;
    ||| 0x09 <= u <= 0x0d
    ||| u == 0x20
    ||| u == 0x85
    ||| u == 0xa0
    ||| u == 0x1680
    ||| 0x2000 <= u <= 0x200a
    ||| u == 0x2028
    ||| u == 0x2029
    ||| u == 0x202f
    ||| u == 0x205f
    ||| u == 0x3000
}

/// Tests a character for white space.
pub fn is_whitespace(c: char) -> (r: bool)
    ensures
        r == is_space(c),
{
    let u: u32 = c as u32;
    (0x09 <= u && u <= 0x0d) || u == 0x20 || u == 0x85 || u == 0xa0 || u == 0x1680 || (0x2000 <= u
        && u <= 0x200a) || u == 0x2028 || u == 0x2029 || u == 0x202f || u == 0x205f || u == 0x3000
}

/// Whether `pat` stands in `s` at position `i`.
pub open spec fn occurs_at(s: Seq<char>, pat: Seq<char>, i: int) -> bool {
    0 <= i && i + pat.len() <= s.len() && s.subrange(i, i + pat.len()) == pat
}

/// The first position at or after `from` where `pat` stands in `s`.
pub open spec fn first_match(s: Seq<char>, pat: Seq<char>, from: int) -> Option<int>
    decreases s.len() - from + 1,
{
    if from < 0 || from + pat.len() > s.len() {
        None
    } else if occurs_at(s, pat, from) {
        Some(from)
    } else {
        first_match(s, pat, from + 1)
    }
}

/// What `first_match` finds is the least position from `from` on where the
/// pattern stands, and it finds nothing only where the pattern stands nowhere
/// from `from` on.
pub proof fn lemma_first_match(s: Seq<char>, pat: Seq<char>, from: int)
    requires
        0 <= from,
    ensures
        match first_match(s, pat, from) {
            Some(i) => from <= i && occurs_at(s, pat, i) && forall|j: int|
                from <= j < i ==> !occurs_at(s, pat, j),
            None => forall|j: int| from <= j ==> !occurs_at(s, pat, j),
        },
    decreases s.len() - from + 1,
{
    if from + pat.len() > s.len() {
    } else if occurs_at(s, pat, from) {
    } else {
        lemma_first_match(s, pat, from + 1);
    }
}

/// A position where the pattern stands, with none before it from `from` on,
/// is what `first_match` finds.
pub proof fn lemma_first_match_is(s: Seq<char>, pat: Seq<char>, from: int, i: int)
    requires
        0 <= from <= i,
        occurs_at(s, pat, i),
        forall|j: int| from <= j < i ==> !occurs_at(s, pat, j),
    ensures
        first_match(s, pat, from) == Some(i),
    decreases i - from,
{
    if from < i {
        lemma_first_match_is(s, pat, from + 1, i);
    }
}

/// Where the pattern stands nowhere from `from` on, `first_match` finds nothing.
pub proof fn lemma_first_match_none(s: Seq<char>, pat: Seq<char>, from: int)
    requires
        0 <= from,
        forall|j: int| from <= j ==> !occurs_at(s, pat, j),
    ensures
        first_match(s, pat, from) is None,
    decreases s.len() - from + 1,
{
    if from + pat.len() <= s.len() {
        lemma_first_match_none(s, pat, from + 1);
    }
}

/// Searches `hay` from `from` on for the first place where `pat` stands.
pub fn find_from(hay: &Vec<char>, pat: &Vec<char>, from: usize) -> (r: Option<usize>)
    ensures
        match r {
            Some(i) => first_match(hay@, pat@, from as int) == Some(i as int),
            None => first_match(hay@, pat@, from as int) is None,
        },
{
    let n: usize = hay.len();
    let m: usize = pat.len();
    if m > n || from > n - m {
        return None;
    }
    let mut i: usize = from;
    while i <= n - m
        invariant
            n == hay@.len(),
            m == pat@.len(),
            m <= n,
            from <= i <= n - m + 1,
            first_match(hay@, pat@, from as int) == first_match(hay@, pat@, i as int),
        decreases n - m + 1 - i,
    {
        let mut k: usize = 0;
        while k < m && hay[i + k] == pat[k]
            invariant
                n == hay@.len(),
                m == pat@.len(),
                i + m <= n,
                k <= m,
                forall|t: int| 0 <= t < k ==> hay@[i + t] == pat@[t],
            decreases m - k,
        {
            k = k + 1;
        }
        if k == m {
            assert(hay@.subrange(i as int, i + m) =~= pat@);
            return Some(i);
        }
        assert(!occurs_at(hay@, pat@, i as int)) by {
            if occurs_at(hay@, pat@, i as int) {
                assert(hay@.subrange(i as int, i + m)[k as int] == pat@[k as int]);
            }
        }
        i = i + 1;
    }
    None
}

/// The first position at or after `from` that holds `c`.
pub open spec fn first_index(s: Seq<char>, c: char, from: int) -> Option<int>
    decreases s.len() - from,
{
    if from < 0 || from >= s.len() {
        None
    } else if s[from] == c {
        Some(from)
    } else {
        first_index(s, c, from + 1)
    }
}

/// What `first_index` finds holds `c`, and nothing before it from `from` on does.
pub proof fn lemma_first_index(s: Seq<char>, c: char, from: int)
    requires
        0 <= from,
    ensures
        match first_index(s, c, from) {
            Some(i) => from <= i < s.len() && s[i] == c && forall|j: int|
                from <= j < i ==> s[j] != c,
            None => forall|j: int| from <= j < s.len() ==> s[j] != c,
        },
    decreases s.len() - from,
{
    if from < s.len() && s[from] != c {
        lemma_first_index(s, c, from + 1);
    }
}

/// A position that holds `c`, with none before it from `from` on, is what
/// `first_index` finds.
pub proof fn lemma_first_index_is(s: Seq<char>, c: char, from: int, i: int)
    requires
        0 <= from <= i < s.len(),
        s[i] == c,
        forall|j: int| from <= j < i ==> s[j] != c,
    ensures
        first_index(s, c, from) == Some(i),
    decreases i - from,
{
    if from < i {
        lemma_first_index_is(s, c, from + 1, i);
    }
}

/// Where no position from `from` on holds `c`, `first_index` finds nothing.
pub proof fn lemma_first_index_none(s: Seq<char>, c: char, from: int)
    requires
        0 <= from,
        forall|j: int| from <= j < s.len() ==> s[j] != c,
    ensures
        first_index(s, c, from) is None,
    decreases s.len() - from,
{
    if from < s.len() {
        lemma_first_index_none(s, c, from + 1);
    }
}

/// Searches `hay` from `from` on for the first `c`.
pub fn find_char(hay: &Vec<char>, c: char, from: usize) -> (r: Option<usize>)
    ensures
        match r {
            Some(i) => first_index(hay@, c, from as int) == Some(i as int),
            None => first_index(hay@, c, from as int) is None,
        },
{
    let n: usize = hay.len();
    let mut i: usize = from;
    while i < n
        invariant
            n == hay@.len(),
            from <= i,
            first_index(hay@, c, from as int) == first_index(hay@, c, i as int),
        decreases n - i,
    {
        if hay[i] == c {
            return Some(i);
        }
        i = i + 1;
    }
    None
}

/// The last position before `upto` that holds `c`.
pub open spec fn last_index(s: Seq<char>, c: char, upto: int) -> Option<int>
    decreases upto,
{
    if upto <= 0 || upto > s.len() {
        None
    } else if s[upto - 1] == c {
        Some(upto - 1)
    } else {
        last_index(s, c, upto - 1)
    }
}

/// What `last_index` finds holds `c`, and nothing after it before `upto` does.
pub proof fn lemma_last_index(s: Seq<char>, c: char, upto: int)
    requires
        upto <= s.len(),
    ensures
        match last_index(s, c, upto) {
            Some(i) => 0 <= i < upto && s[i] == c && forall|j: int| i < j < upto ==> s[j] != c,
            None => forall|j: int| 0 <= j < upto ==> s[j] != c,
        },
    decreases upto,
{
    if upto > 0 && s[upto - 1] != c {
        lemma_last_index(s, c, upto - 1);
    }
}

/// A position that holds `c`, with none after it before `upto`, is what
/// `last_index` finds.
pub proof fn lemma_last_index_is(s: Seq<char>, c: char, upto: int, i: int)
    requires
        0 <= i < upto <= s.len(),
        s[i] == c,
        forall|j: int| i < j < upto ==> s[j] != c,
    ensures
        last_index(s, c, upto) == Some(i),
    decreases upto - i,
{
    if i < upto - 1 {
        lemma_last_index_is(s, c, upto - 1, i);
    }
}

/// Searches `hay` backwards from its end for the last `c`.
pub fn rfind_char(hay: &Vec<char>, c: char) -> (r: Option<usize>)
    ensures
        match r {
            Some(i) => last_index(hay@, c, hay@.len() as int) == Some(i as int),
            None => last_index(hay@, c, hay@.len() as int) is None,
        },
{
    let n: usize = hay.len();
    let mut i: usize = n;
    while i > 0
        invariant
            n == hay@.len(),
            i <= n,
            last_index(hay@, c, n as int) == last_index(hay@, c, i as int),
        decreases i,
    {
        if hay[i - 1] == c {
            return Some(i - 1);
        }
        i = i - 1;
    }
    None
}

/// The position of the first character from `from` on that is not white
/// space, or the length of `s` if there is none.
pub open spec fn skip_spaces(s: Seq<char>, from: int) -> int
    decreases s.len() - from,
{
    if 0 <= from < s.len() && is_space(s[from]) {
        skip_spaces(s, from + 1)
    } else {
        from
    }
}

/// The position just after the last character before `upto` that is not white
/// space, and no less than `floor`.
pub open spec fn drop_spaces(s: Seq<char>, floor: int, upto: int) -> int
    decreases upto,
{
    if floor < upto <= s.len() && 0 < upto && is_space(s[upto - 1]) {
        drop_spaces(s, floor, upto - 1)
    } else {
        upto
    }
}

/// Where the trimmed form of `s` begins.
pub open spec fn trim_start(s: Seq<char>) -> int {
    skip_spaces(s, 0)
}

/// Where the trimmed form of `s` ends.
pub open spec fn trim_end(s: Seq<char>) -> int {
    drop_spaces(s, trim_start(s), s.len() as int)
}

/// `s` without the white space at its two ends.
pub open spec fn trimmed(s: Seq<char>) -> Seq<char> {
    s.subrange(trim_start(s), trim_end(s))
}

/// `skip_spaces` stays within the text, passes only white space, and stops
/// at the end or before a character that is not white space.
pub proof fn lemma_skip_spaces(s: Seq<char>, from: int)
    requires
        0 <= from <= s.len(),
    ensures
        from <= skip_spaces(s, from) <= s.len(),
        forall|j: int| from <= j < skip_spaces(s, from) ==> is_space(s[j]),
        skip_spaces(s, from) < s.len() ==> !is_space(s[skip_spaces(s, from)]),
    decreases s.len() - from,
{
    if from < s.len() && is_space(s[from]) {
        lemma_skip_spaces(s, from + 1);
    }
}

/// `drop_spaces` stays between `floor` and `upto`, passes only white space,
/// and stops at `floor` or after a character that is not white space.
pub proof fn lemma_drop_spaces(s: Seq<char>, floor: int, upto: int)
    requires
        0 <= floor <= upto <= s.len(),
    ensures
        floor <= drop_spaces(s, floor, upto) <= upto,
        forall|j: int| drop_spaces(s, floor, upto) <= j < upto ==> is_space(s[j]),
        floor < drop_spaces(s, floor, upto) ==> !is_space(s[drop_spaces(s, floor, upto) - 1]),
    decreases upto,
{
    if floor < upto && is_space(s[upto - 1]) {
        lemma_drop_spaces(s, floor, upto - 1);
    }
}

/// The bounds of the trimmed form of `chars`.
pub fn trim_bounds(chars: &Vec<char>) -> (r: (usize, usize))
    ensures
        r.0 == trim_start(chars@),
        r.1 == trim_end(chars@),
        r.0 <= r.1 <= chars@.len(),
{
    let n: usize = chars.len();
    let mut a: usize = 0;
    while a < n && is_whitespace(chars[a])
        invariant
            n == chars@.len(),
            a <= n,
            skip_spaces(chars@, 0) == skip_spaces(chars@, a as int),
        decreases n - a,
    {
        a = a + 1;
    }
    let mut b: usize = n;
    while b > a && is_whitespace(chars[b - 1])
        invariant
            n == chars@.len(),
            a <= b <= n,
            drop_spaces(chars@, a as int, n as int) == drop_spaces(chars@, a as int, b as int),
        decreases b,
    {
        b = b - 1;
    }
    (a, b)
}

/// `s` without the white space at its two ends.
pub fn trim(s: &str) -> (r: &str)
    ensures
        r@ == trimmed(s@),
{
    let chars = chars_of(s);
    let (a, b) = trim_bounds(&chars);
    s.substring_char(a, b)
}

/// Whether `s` begins with `prefix`.
pub fn starts_with(s: &str, prefix: &str) -> (r: bool)
    ensures
        r == prefix@.is_prefix_of(s@),
{
    let text = chars_of(s);
    let head = chars_of(prefix);
    if head.len() > text.len() {
        return false;
    }
    let mut k: usize = 0;
    while k < head.len()
        invariant
            head@ == prefix@,
            text@ == s@,
            head@.len() <= text@.len(),
            k <= head@.len(),
            forall|t: int| 0 <= t < k ==> text@[t] == head@[t],
        decreases head@.len() - k,
    {
        if text[k] != head[k] {
            assert(!prefix@.is_prefix_of(s@)) by {
                if prefix@.is_prefix_of(s@) {
                    assert(s@.subrange(0, prefix@.len() as int)[k as int] == prefix@[k as int]);
                }
            }
            return false;
        }
        k = k + 1;
    }
    assert(s@.subrange(0, prefix@.len() as int) =~= prefix@);
    true
}

/// Whether two string slices hold the same text.
pub fn same_text(a: &str, b: &str) -> (r: bool)
    ensures
        r == (a@ == b@),
{
    let left = chars_of(a);
    let right = chars_of(b);
    if left.len() != right.len() {
        return false;
    }
    let mut k: usize = 0;
    while k < left.len()
        invariant
            left@ == a@,
            right@ == b@,
            left@.len() == right@.len(),
            k <= left@.len(),
            forall|t: int| 0 <= t < k ==> left@[t] == right@[t],
        decreases left@.len() - k,
    {
        if left[k] != right[k] {
            return false;
        }
        k = k + 1;
    }
    assert(a@ =~= b@);
    true
}

/// The pieces one after the other, with `sep` between each two.
pub open spec fn joined(pieces: Seq<Seq<char>>, sep: Seq<char>) -> Seq<char>
    decreases pieces.len(),
{
    if pieces.len() == 0 {
        Seq::empty()
    } else if pieces.len() == 1 {
        pieces[0]
    } else {
        joined(pieces.drop_last(), sep) + sep + pieces.last()
    }
}

} // verus!
