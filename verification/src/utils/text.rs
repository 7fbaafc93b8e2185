//! Text helpers: decimal rendering of integers and substring search, with
//! their mathematical models over `Seq<char>`.

use vstd::prelude::*;

verus! {

/// The character of a decimal digit.
pub open spec fn digit_char(d: nat) -> char {
    if d == 0 {
        '0'
    } else if d == 1 {
        '1'
    } else if d == 2 {
        '2'
    } else if d == 3 {
        '3'
    } else if d == 4 {
        '4'
    } else if d == 5 {
        '5'
    } else if d == 6 {
        '6'
    } else if d == 7 {
        '7'
    } else if d == 8 {
        '8'
    } else {
        '9'
    }
}

/// The decimal representation of `n`, most significant digit first, with no
/// leading zeros (zero itself is `"0"`).
pub open spec fn decimal(n: nat) -> Seq<char>
    decreases n,
{
    if n < 10 {
        seq![digit_char(n)]
    } else {
        decimal(n / 10).push(digit_char(n % 10))
    }
}

/// The model of an optional string.
pub open spec fn opt_string_view(o: Option<String>) -> Option<Seq<char>> {
    match o {
        Some(s) => Some(s@),
        None => None,
    }
}

/// The model of an optional string slice.
pub open spec fn opt_str_view(o: Option<&str>) -> Option<Seq<char>> {
    match o {
        Some(s) => Some(s@),
        None => None,
    }
}

/// `needle` stands in `hay` starting at position `i`.
pub open spec fn occurs_at(hay: Seq<char>, needle: Seq<char>, i: int) -> bool {
    &&& 0 <= i
    &&& i + needle.len() <= hay.len()
    &&& hay.subrange(i, i + needle.len()) == needle
}

/// `needle` is a contiguous part of `hay` (the empty sequence is part of
/// every sequence).
pub open spec fn contains_seq(hay: Seq<char>, needle: Seq<char>) -> bool {
    exists|i: int| occurs_at(hay, needle, i)
}

proof fn lemma_digit_char_injective(a: nat, b: nat)
    requires
        a < 10,
        b < 10,
        digit_char(a) == digit_char(b),
    ensures
        a == b,
{
}

/// A decimal representation has at least one digit, and exactly one digit
/// for the numbers below ten.
pub proof fn lemma_decimal_len(n: nat)
    ensures
        decimal(n).len() >= 1,
        (decimal(n).len() == 1) == (n < 10),
    decreases n,
{
    if n >= 10 {
        lemma_decimal_len(n / 10);
    }
}

/// Different numbers have different decimal representations.
pub proof fn lemma_decimal_injective(a: nat, b: nat)
    requires
        decimal(a) == decimal(b),
    ensures
        a == b,
    decreases a,
{
    lemma_decimal_len(a);
    lemma_decimal_len(b);
    if a < 10 {
        assert(b < 10);
        assert(decimal(a) == seq![digit_char(a)]);
        assert(decimal(b) == seq![digit_char(b)]);
        assert(decimal(a)[0] == decimal(b)[0]);
        assert(seq![digit_char(a)][0] == digit_char(a));
        assert(seq![digit_char(b)][0] == digit_char(b));
        lemma_digit_char_injective(a, b);
    } else {
        assert(b >= 10);
        let da = decimal(a);
        let db = decimal(b);
        assert(da.last() == db.last());
        assert(da.last() == digit_char(a % 10));
        assert(db.last() == digit_char(b % 10));
        lemma_digit_char_injective(a % 10, b % 10);
        assert(da.drop_last() =~= decimal(a / 10));
        assert(db.drop_last() =~= decimal(b / 10));
        lemma_decimal_injective(a / 10, b / 10);
    }
}

/// The string of one decimal digit.
fn digit_str(d: u64) -> (s: &'static str)
    requires
        d < 10,
    ensures
        s@ == seq![digit_char(d as nat)],
{
    proof {
        reveal_strlit("0");
        reveal_strlit("1");
        reveal_strlit("2");
        reveal_strlit("3");
        reveal_strlit("4");
        reveal_strlit("5");
        reveal_strlit("6");
        reveal_strlit("7");
        reveal_strlit("8");
        reveal_strlit("9");
    }
    if d == 0 {
        "0"
    } else if d == 1 {
        "1"
    } else if d == 2 {
        "2"
    } else if d == 3 {
        "3"
    } else if d == 4 {
        "4"
    } else if d == 5 {
        "5"
    } else if d == 6 {
        "6"
    } else if d == 7 {
        "7"
    } else if d == 8 {
        "8"
    } else {
        "9"
    }
}

/// Appends the decimal representation of `n` to `out`.
pub fn push_decimal(out: &mut String, n: u64)
    ensures
        final(out)@ == old(out)@ + decimal(n as nat),
    decreases n,
{
    if n >= 10 {
        push_decimal(out, n / 10);
    }
    let ghost before = out@;
    out.append(digit_str(n % 10));
    proof {
        if n >= 10 {
            assert(decimal(n as nat) == decimal((n / 10) as nat).push(digit_char((n % 10) as nat)));
            assert(out@ =~= old(out)@ + decimal(n as nat));
        } else {
            assert(out@ =~= old(out)@ + decimal(n as nat));
        }
    }
}

/// The characters of `s`, one per element.
pub fn chars_of(s: &str) -> (v: Vec<char>)
    ensures
        v@ == s@,
{
    let n = s.unicode_len();
    let mut v: Vec<char> = Vec::new();
    let mut i: usize = 0;
    while i < n
        invariant
            n == s@.len(),
            i <= n,
            v@ == s@.subrange(0, i as int),
        decreases n - i,
    {
        let c = s.get_char(i);
        v.push(c);
        i = i + 1;
        assert(v@ =~= s@.subrange(0, i as int));
    }
    assert(v@ =~= s@);
    v
}

/// Whether `needle` stands in `hay` at position `start`.
fn matches_at(hay: &Vec<char>, needle: &Vec<char>, start: usize) -> (b: bool)
    requires
        start + needle@.len() <= hay@.len(),
    ensures
        b == occurs_at(hay@, needle@, start as int),
{
    let mut j: usize = 0;
    while j < needle.len()
        invariant
            start + needle@.len() <= hay@.len(),
            j <= needle@.len(),
            forall|k: int| 0 <= k < j ==> hay@[start + k] == needle@[k],
        decreases needle@.len() - j,
    {
        assert(start + j < hay.len());
        if hay[start + j] != needle[j] {
            assert(hay@.subrange(start as int, start + needle@.len())[j as int] != needle@[j as int]);
            return false;
        }
        j = j + 1;
    }
    assert(hay@.subrange(start as int, start + needle@.len()) =~= needle@);
    true
}

/// Whether `needle` is a contiguous part of `hay`, as `str::contains` with a
/// string pattern answers.
pub fn str_contains(hay: &str, needle: &str) -> (b: bool)
    ensures
        b == contains_seq(hay@, needle@),
{
    let h = chars_of(hay);
    let nd = chars_of(needle);
    if nd.len() > h.len() {
        assert forall|i: int| !occurs_at(hay@, needle@, i) by {}
        return false;
    }
    let last = h.len() - nd.len();
    let mut i: usize = 0;
    while i <= last
        invariant
            h@ == hay@,
            nd@ == needle@,
            last == h@.len() - nd@.len(),
            nd@.len() <= h@.len(),
            i <= last,
            forall|k: int| 0 <= k < i ==> !occurs_at(hay@, needle@, k),
        decreases last - i,
    {
        if matches_at(&h, &nd, i) {
            return true;
        }
        if i == last {
            assert forall|k: int| !occurs_at(hay@, needle@, k) by {
                if 0 <= k <= last {
                    assert(k < i || k == i);
                }
            }
            return false;
        }
        i = i + 1;
    }
    false
}

/// What `format!("{:?}", s)` gives for a string slice whose characters are
/// `s`: the string quoted, with characters escaped as `char::escape_debug`
/// does.
pub uninterp spec fn str_debug(s: Seq<char>) -> Seq<char>;

/// Every character is printable ASCII other than the double quote and the
/// backslash, so that the debug form escapes none of them.
pub open spec fn plain_ascii(s: Seq<char>) -> bool {
    forall|i: int|
        0 <= i < s.len() ==> {
            &&& ' ' <= #[trigger] s[i] <= '~'
            &&& s[i] != '"'
            &&& s[i] != '\\'
        }
}

/// The debug form of a string slice, as `format!("{:?}", s)` writes it (the
/// `Debug` impl of `str` in std). Claimed: the result is `str_debug` of the
/// characters, and a string of plain printable ASCII comes back between
/// double quotes, unchanged.
#[verifier::external_body]
fn debug_str(s: &str) -> (r: String)
    ensures
        r@ == str_debug(s@),
        plain_ascii(s@) ==> r@ == seq!['"'] + s@ + seq!['"'],
{
    format!("{:?}", s)
}

/// The debug form of an optional string slice, as `{:?}` writes it.
pub open spec fn option_str_debug(o: Option<Seq<char>>) -> Seq<char> {
    match o {
        None => "None"@,
        Some(s) => "Some("@ + str_debug(s) + ")"@,
    }
}

/// The debug form of an optional string slice, given the debug form `shown`
/// of the string it holds, if any.
pub fn option_debug_from(shown: Option<&str>) -> (r: String)
    ensures
        r@ == match shown {
            None => "None"@,
            Some(d) => "Some("@ + d@ + ")"@,
        },
{
    match shown {
        None => String::from_str("None"),
        Some(d) => {
            let mut r = String::from_str("Some(");
            r.append(d);
            r.append(")");
            r
        },
    }
}

/// Writes the debug form of an optional string slice.
pub fn debug_option_str(o: Option<&str>) -> (r: String)
    ensures
        r@ == option_str_debug(opt_str_view(o)),
        match o {
            Some(q) => plain_ascii(q@) ==> r@ == "Some("@ + seq!['"'] + q@ + seq!['"'] + ")"@,
            None => true,
        },
{
    match o {
        None => option_debug_from(None),
        Some(s) => {
            let inner = debug_str(s);
            let r = option_debug_from(Some(inner.as_str()));
            proof {
                if plain_ascii(s@) {
                    assert(r@ =~= "Some("@ + seq!['"'] + s@ + seq!['"'] + ")"@);
                }
            }
            r
        },
    }
}

} // verus!
