//! Small facts about text that the rest of the crate builds its messages and checks from.

use vstd::prelude::*;

verus! {

/// Whether `c` has Unicode's `White_Space` property: the ASCII tab, line feed, vertical
/// tab, form feed, carriage return, and space; next line; no-break space; ogham space mark;
/// the spaces from en quad to hair space; the line and paragraph separators; narrow
/// no-break space; medium mathematical space; and ideographic space.
pub open spec fn is_white_space(c: char) -> bool {
    let n = c as u32;
    ||| 0x09 <= n <= 0x0D
    ||| n == 0x20
    ||| n == 0x85
    ||| n == 0xA0
    ||| n == 0x1680
    ||| 0x2000 <= n <= 0x200A
    ||| n == 0x2028
    ||| n == 0x2029
    ||| n == 0x202F
    ||| n == 0x205F
    ||| n == 0x3000
}

/// Whether `c` is white space, as `char::is_whitespace` answers it.
pub fn char_is_whitespace(c: char) -> (r: bool)
    ensures
        r == is_white_space(c),
{
    let n = c as u32;
    (0x09 <= n && n <= 0x0D) || n == 0x20 || n == 0x85 || n == 0xA0 || n == 0x1680 || (0x2000 <= n
        && n <= 0x200A) || n == 0x2028 || n == 0x2029 || n == 0x202F || n == 0x205F || n == 0x3000
}

/// Every character of `s` is white space, so trimming it leaves nothing.
pub open spec fn is_blank(s: Seq<char>) -> bool {
    forall|i: int| 0 <= i < s.len() ==> is_white_space(#[trigger] s[i])
}

/// Whether `text` holds no character but white space.
pub fn blank(text: &str) -> (r: bool)
    ensures
        r == is_blank(text@),
{
    broadcast use vstd::string::group_string_axioms;

    for c in it: text.chars()
        invariant
            it.seq() == text@,
            forall|i: int| 0 <= i < it.index() ==> is_white_space(#[trigger] text@[i]),
    {
        if !char_is_whitespace(c) {
            return false;
        }
    }
    true
}

/// Whether two texts are the same characters.
pub fn same(a: &str, b: &str) -> (r: bool)
    ensures
        r == (a@ == b@),
{
    let left = String::from_str(a);
    let right = String::from_str(b);
    left == right
}

/// An owned copy of `text`.
pub fn owned(text: &str) -> (r: String)
    ensures
        r@ == text@,
{
    String::from_str(text)
}

/// `a` followed by `b`.
pub fn join2(a: &str, b: &str) -> (r: String)
    ensures
        r@ == a@ + b@,
{
    let mut out = String::from_str(a);
    out.append(b);
    out
}

/// `a`, `b`, and `c`, one after another.
pub fn join3(a: &str, b: &str, c: &str) -> (r: String)
    ensures
        r@ == a@ + b@ + c@,
{
    let mut out = String::from_str(a);
    out.append(b);
    out.append(c);
    out
}

/// Five texts, one after another.
pub fn join5(a: &str, b: &str, c: &str, d: &str, e: &str) -> (r: String)
    ensures
        r@ == a@ + b@ + c@ + d@ + e@,
{
    let mut out = String::from_str(a);
    out.append(b);
    out.append(c);
    out.append(d);
    out.append(e);
    out
}

/// `text` in double quotes, as a message names a key or an id.
pub open spec fn quoted(text: Seq<char>) -> Seq<char> {
    "\""@ + text + "\""@
}

/// `text` in double quotes.
pub fn quote(text: &str) -> (r: String)
    ensures
        r@ == quoted(text@),
{
    join3("\"", text, "\"")
}

/// The one character of the decimal digit `d`.
pub open spec fn digit_text(d: nat) -> Seq<char> {
    "0123456789"@.subrange(d as int, d as int + 1)
}

/// A number in decimal, as `{}` formats one.
pub open spec fn decimal_text(n: nat) -> Seq<char>
    decreases n,
{
    if n < 10 {
        digit_text(n)
    } else {
        decimal_text(n / 10) + digit_text(n % 10)
    }
}

/// The decimal digit `d` as text.
fn digit(d: u64) -> (r: &'static str)
    requires
        d < 10,
    ensures
        r@ == digit_text(d as nat),
{
    proof {
        reveal_strlit("0123456789");
    }
    let d = d as usize;
    "0123456789".substring_char(d, d + 1)
}

/// `n` in decimal.
pub fn decimal(n: u64) -> (r: String)
    ensures
        r@ == decimal_text(n as nat),
    decreases n,
{
    if n < 10 {
        owned(digit(n))
    } else {
        let mut out = decimal(n / 10);
        out.append(digit(n % 10));
        out
    }
}

/// The position of the first `c` in `s`, if it holds one.
pub open spec fn first_index(s: Seq<char>, c: char) -> Option<int> {
    if exists|i: int| 0 <= i < s.len() && s[i] == c {
        Some(choose|i: int| 0 <= i < s.len() && s[i] == c && forall|j: int| 0 <= j < i ==> s[j] != c)
    } else {
        None
    }
}

/// A position that holds `c`, with no `c` before it, is the first one.
pub proof fn lemma_first_index(s: Seq<char>, c: char, i: int)
    requires
        0 <= i < s.len(),
        s[i] == c,
        forall|j: int| 0 <= j < i ==> s[j] != c,
    ensures
        first_index(s, c) == Some(i),
{
    let k = choose|k: int| 0 <= k < s.len() && s[k] == c && forall|j: int| 0 <= j < k ==> s[j] != c;
    assert(0 <= k < s.len() && s[k] == c && forall|j: int| 0 <= j < k ==> s[j] != c);
    if k < i {
        assert(s[k] != c);
    } else if k > i {
        assert(s[i] != c);
    }
}

/// Where the first `c` is in `text`, counted in characters.
pub fn find_char(text: &str, c: char) -> (r: Option<usize>)
    ensures
        match r {
            Some(i) => {
                &&& i < text@.len()
                &&& text@[i as int] == c
                &&& forall|j: int| 0 <= j < i ==> text@[j] != c
            },
            None => forall|j: int| 0 <= j < text@.len() ==> text@[j] != c,
        },
        r matches Some(i) ==> first_index(text@, c) == Some(i as int),
        r is None ==> first_index(text@, c) is None,
{
    broadcast use vstd::string::group_string_axioms;

    let length = text.unicode_len();
    let mut position: usize = 0;
    for x in it: text.chars()
        invariant
            it.seq() == text@,
            length == text@.len(),
            position == it.index(),
            forall|j: int| 0 <= j < it.index() ==> text@[j] != c,
    {
        if x == c {
            proof {
                lemma_first_index(text@, c, position as int);
            }
            return Some(position);
        }
        position = position + 1;
    }
    None
}

/// Whether `text` begins with `prefix`.
pub fn starts_with(text: &str, prefix: &str) -> (r: bool)
    ensures
        r == (prefix@.len() <= text@.len() && text@.subrange(0, prefix@.len() as int)
            == prefix@),
{
    let n = text.unicode_len();
    let m = prefix.unicode_len();
    if m > n {
        return false;
    }
    same(text.substring_char(0, m), prefix)
}

/// Whether `text` ends with `suffix`.
pub fn ends_with(text: &str, suffix: &str) -> (r: bool)
    ensures
        r == (suffix@.len() <= text@.len() && text@.subrange(
            text@.len() - suffix@.len(),
            text@.len() as int,
        ) == suffix@),
{
    let n = text.unicode_len();
    let m = suffix.unicode_len();
    if m > n {
        return false;
    }
    same(text.substring_char(n - m, n), suffix)
}

/// `s` with every trailing `c` removed.
pub open spec fn trim_end_char(s: Seq<char>, c: char) -> Seq<char>
    decreases s.len(),
{
    if s.len() > 0 && s.last() == c {
        trim_end_char(s.drop_last(), c)
    } else {
        s
    }
}

/// `text` without the run of `c` it ends in, as `str::trim_end_matches(c)` gives it.
pub fn trim_end(text: &str, c: char) -> (r: &str)
    ensures
        r@ == trim_end_char(text@, c),
{
    let mut end = text.unicode_len();
    assert(text@.subrange(0, end as int) =~= text@);
    while end > 0 && text.get_char(end - 1) == c
        invariant
            end <= text@.len(),
            trim_end_char(text@, c) == trim_end_char(text@.subrange(0, end as int), c),
        decreases end,
    {
        assert(text@.subrange(0, end as int).drop_last() =~= text@.subrange(0, end - 1));
        end = end - 1;
    }
    text.substring_char(0, end)
}

/// `s` without the white space it begins with.
pub open spec fn trim_start_ws(s: Seq<char>) -> Seq<char>
    decreases s.len(),
{
    if s.len() > 0 && is_white_space(s[0]) {
        trim_start_ws(s.drop_first())
    } else {
        s
    }
}

/// `s` without the white space it ends with.
pub open spec fn trim_end_ws(s: Seq<char>) -> Seq<char>
    decreases s.len(),
{
    if s.len() > 0 && is_white_space(s.last()) {
        trim_end_ws(s.drop_last())
    } else {
        s
    }
}

/// `s` without white space at either end, as `str::trim` gives it.
pub open spec fn trimmed(s: Seq<char>) -> Seq<char> {
    trim_end_ws(trim_start_ws(s))
}

/// `text` without white space at either end.
pub fn trim(text: &str) -> (r: &str)
    ensures
        r@ == trimmed(text@),
{
    let n = text.unicode_len();
    let mut start: usize = 0;
    assert(text@.subrange(0, n as int) =~= text@);
    while start < n && char_is_whitespace(text.get_char(start))
        invariant
            start <= n,
            n == text@.len(),
            trim_start_ws(text@) == trim_start_ws(text@.subrange(start as int, n as int)),
        decreases n - start,
    {
        assert(text@.subrange(start as int, n as int).drop_first() =~= text@.subrange(
            start + 1,
            n as int,
        ));
        start = start + 1;
    }
    let rest = text.substring_char(start, n);
    let mut end = rest.unicode_len();
    assert(rest@.subrange(0, end as int) =~= rest@);
    while end > 0 && char_is_whitespace(rest.get_char(end - 1))
        invariant
            end <= rest@.len(),
            trim_end_ws(rest@) == trim_end_ws(rest@.subrange(0, end as int)),
        decreases end,
    {
        assert(rest@.subrange(0, end as int).drop_last() =~= rest@.subrange(0, end - 1));
        end = end - 1;
    }
    rest.substring_char(0, end)
}

/// The text an optional owned text holds, borrowed.
pub fn as_text(text: &Option<String>) -> (r: Option<&str>)
    ensures
        match text {
            Some(t) => r matches Some(b) && b@ == t@,
            None => r is None,
        },
{
    match text {
        Some(t) => Some(t.as_str()),
        None => None,
    }
}

/// The characters of a text that may be absent.
pub open spec fn opt_view(text: Option<&str>) -> Option<Seq<char>> {
    match text {
        Some(t) => Some(t@),
        None => None,
    }
}

/// The characters of an owned text that may be absent.
pub open spec fn owned_opt_view(text: Option<String>) -> Option<Seq<char>> {
    match text {
        Some(t) => Some(t@),
        None => None,
    }
}

} // verus!
