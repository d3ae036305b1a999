//! Text helpers: equality and blankness of strings, decimal rendering of
//! integers, and concatenation, each with a contract over `Seq<char>`.
use vstd::prelude::*;
use vstd::string::{StrSliceExecFns, StringExecFns};

verus! {

/// Characters with the Unicode `White_Space` property, which is what
/// `str::trim` removes.
pub open spec fn is_white_space(c: char) -> bool {
    let n = c as u32;
    ||| 0x09 <= n <= 0x0D
    ||| n == 0x20
    ||| n == 0x85
    ||| n == 0xA0
    ||| n == 0x1680
    ||| 0x2000 <= n <= 0x200A
    ||| n == 0x2028
    ||| n == 0x2029
    ||| n == 0x202F
    ||| n == 0x205F
    ||| n == 0x3000
}

/// A string is blank when trimming it leaves nothing: it consists of white
/// space only (the empty string included).
pub open spec fn is_blank_text(s: Seq<char>) -> bool {
    forall|i: int| 0 <= i < s.len() ==> is_white_space(#[trigger] s[i])
}

pub fn is_white_space_char(c: char) -> (r: bool)
    ensures
        r == is_white_space(c),
{
    let n = c as u32;
    (0x09 <= n && n <= 0x0D) || n == 0x20 || n == 0x85 || n == 0xA0 || n == 0x1680 || (0x2000
        <= n && n <= 0x200A) || n == 0x2028 || n == 0x2029 || n == 0x202F || n == 0x205F || n
        == 0x3000
}

/// Whether `s.trim()` is empty.
pub fn is_blank(s: &str) -> (r: bool)
    ensures
        r == is_blank_text(s@),
{
    let n = s.unicode_len();
    let mut i: usize = 0;
    while i < n
        invariant
            n == s@.len(),
            i <= n,
            forall|j: int| 0 <= j < i ==> is_white_space(#[trigger] s@[j]),
        decreases n - i,
    {
        if !is_white_space_char(s.get_char(i)) {
            return false;
        }
        i = i + 1;
    }
    true
}

/// Character-wise string equality.
pub fn same_text(a: &str, b: &str) -> (r: bool)
    ensures
        r == (a@ == b@),
{
    let n = a.unicode_len();
    let m = b.unicode_len();
    if n != m {
        return false;
    }
    let mut i: usize = 0;
    while i < n
        invariant
            n == a@.len(),
            m == b@.len(),
            n == m,
            i <= n,
            forall|j: int| 0 <= j < i ==> a@[j] == b@[j],
        decreases n - i,
    {
        if a.get_char(i) != b.get_char(i) {
            return false;
        }
        i = i + 1;
    }
    assert(a@ =~= b@);
    true
}

pub fn owned(s: &str) -> (r: String)
    ensures
        r@ == s@,
{
    String::from_str(s)
}

pub fn join(a: String, b: &str) -> (r: String)
    ensures
        r@ == a@ + b@,
{
    a.concat(b)
}

pub open spec fn digit_char(d: nat) -> char {
    if d == 0 { '0' }
    else if d == 1 { '1' }
    else if d == 2 { '2' }
    else if d == 3 { '3' }
    else if d == 4 { '4' }
    else if d == 5 { '5' }
    else if d == 6 { '6' }
    else if d == 7 { '7' }
    else if d == 8 { '8' }
    else { '9' }
}

/// The decimal digits of `x`, most significant first, without sign or
/// leading zeros (`0` is the single digit `0`).
pub open spec fn decimal_text(x: nat) -> Seq<char>
    decreases x,
{
    if x < 10 {
        seq![digit_char(x)]
    } else {
        decimal_text(x / 10).push(digit_char(x % 10))
    }
}

/// The one-character text of decimal digit `d`.
fn digit_str(d: u64) -> (r: &'static str)
    requires
        d < 10,
    ensures
        r@ == seq![digit_char(d as nat)],
{
    if d == 0 {
        proof { reveal_strlit("0"); }
        "0"
    } else if d == 1 {
        proof { reveal_strlit("1"); }
        "1"
    } else if d == 2 {
        proof { reveal_strlit("2"); }
        "2"
    } else if d == 3 {
        proof { reveal_strlit("3"); }
        "3"
    } else if d == 4 {
        proof { reveal_strlit("4"); }
        "4"
    } else if d == 5 {
        proof { reveal_strlit("5"); }
        "5"
    } else if d == 6 {
        proof { reveal_strlit("6"); }
        "6"
    } else if d == 7 {
        proof { reveal_strlit("7"); }
        "7"
    } else if d == 8 {
        proof { reveal_strlit("8"); }
        "8"
    } else {
        proof { reveal_strlit("9"); }
        "9"
    }
}

/// An unsigned integer in decimal, as `u64::to_string` renders it: no sign,
/// padding or leading zeros.
pub(crate) fn decimal(x: u64) -> (r: String)
    ensures
        r@ == decimal_text(x as nat),
    decreases x,
{
    if x < 10 {
        owned(digit_str(x))
    } else {
        let high = decimal(x / 10);
        let r = join(high, digit_str(x % 10));
        assert(r@ =~= decimal_text(x as nat));
        r
    }
}

} // verus!

verus! {

/// What `format!("{:?}", s)` renders for a string: the quoted text with
/// Rust's escapes applied.
pub uninterp spec fn debug_escaped(s: Seq<char>) -> Seq<char>;

/// `<str as Debug>::fmt`, rendered through `format!`.
#[verifier::external_body]
pub(crate) fn debug_text(s: &str) -> (r: String)
    ensures
        r@ == debug_escaped(s@),
{
    format!("{:?}", s)
}

} // verus!

verus! {

/// The texts of a list of strings.
pub open spec fn texts(v: Seq<String>) -> Seq<Seq<char>> {
    v.map_values(|s: String| s@)
}

/// A one-message list when `failed`, else nothing.
pub open spec fn check(failed: bool, message: Seq<char>) -> Seq<Seq<char>> {
    if failed { seq![message] } else { seq![] }
}

/// Appends `message` to `failures` when `failed`.
pub fn note(failures: &mut Vec<String>, failed: bool, message: String)
    ensures
        texts(final(failures)@) == texts(old(failures)@) + check(failed, message@),
{
    if failed {
        failures.push(message);
        assert(texts(final(failures)@) =~= texts(old(failures)@) + check(failed, message@));
    } else {
        assert(texts(final(failures)@) =~= texts(old(failures)@) + check(failed, message@));
    }
}

} // verus!

verus! {

/// An empty message list.
pub fn no_failures() -> (r: Vec<String>)
    ensures
        texts(r@) == Seq::<Seq<char>>::empty(),
{
    let r: Vec<String> = Vec::new();
    assert(texts(r@) =~= Seq::<Seq<char>>::empty());
    r
}

/// Moves every message of `more` to the end of `failures`.
pub fn absorb(failures: &mut Vec<String>, more: Vec<String>)
    ensures
        texts(final(failures)@) == texts(old(failures)@) + texts(more@),
{
    let ghost added = more@;
    let mut tail = more;
    failures.append(&mut tail);
    assert(texts(final(failures)@) =~= texts(old(failures)@) + texts(added));
}

} // verus!

verus! {

/// The texts of `v` with `sep` between neighbours.
pub open spec fn joined(v: Seq<Seq<char>>, sep: Seq<char>) -> Seq<char>
    decreases v.len(),
{
    if v.len() == 0 {
        seq![]
    } else if v.len() == 1 {
        v[0]
    } else {
        joined(v.drop_last(), sep) + sep + v.last()
    }
}

/// `v.join(sep)`.
pub fn join_all(v: &Vec<String>, sep: &str) -> (r: String)
    ensures
        r@ == joined(texts(v@), sep@),
{
    let n = v.len();
    if n == 0 {
        proof {
            reveal_strlit("");
        }
        return owned("");
    }
    let mut r = owned(v[0].as_str());
    let mut i: usize = 1;
    assert(texts(v@).take(1) =~= seq![v@[0]@]);
    while i < n
        invariant
            n == v@.len(),
            1 <= i <= n,
            r@ == joined(texts(v@).take(i as int), sep@),
        decreases n - i,
    {
        assert(texts(v@).take(i + 1).drop_last() =~= texts(v@).take(i as int));
        r = join(r, sep);
        r = join(r, v[i].as_str());
        i = i + 1;
    }
    assert(texts(v@).take(n as int) =~= texts(v@));
    r
}

/// Each text of `v` behind `prefix`.
pub open spec fn prefixed(prefix: Seq<char>, v: Seq<Seq<char>>) -> Seq<Seq<char>> {
    v.map_values(|m: Seq<char>| prefix + m)
}

/// Appends each message of `more`, behind `prefix`, to `failures`.
pub fn absorb_prefixed(failures: &mut Vec<String>, prefix: &str, more: &Vec<String>)
    ensures
        texts(final(failures)@) == texts(old(failures)@) + prefixed(prefix@, texts(more@)),
{
    let ghost start = texts(failures@);
    let n = more.len();
    let mut i: usize = 0;
    while i < n
        invariant
            n == more@.len(),
            i <= n,
            texts(failures@) == start + prefixed(prefix@, texts(more@).take(i as int)),
        decreases n - i,
    {
        let m = join(owned(prefix), more[i].as_str());
        let ghost before = failures@;
        failures.push(m);
        assert(texts(failures@) =~= texts(before).push(m@));
        assert(prefixed(prefix@, texts(more@).take(i + 1)) =~= prefixed(
            prefix@,
            texts(more@).take(i as int),
        ).push(prefix@ + more@[i as int]@));
        assert(texts(failures@) =~= start + prefixed(prefix@, texts(more@).take(i + 1)));
        i = i + 1;
    }
    assert(texts(more@).take(n as int) =~= texts(more@));
}

} // verus!
