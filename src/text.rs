//! Small facts about text shared by the widgets: white space, trimming and
//! comparison.
use vstd::prelude::*;

verus! {

/// The characters Unicode gives the White_Space property, which is what
/// `char::is_whitespace` tests.
pub open spec fn white_space(c: char) -> bool {
    let u = c as u32;
    ||| 0x09 <= u <= 0x0d
    ||| u == 0x20
    ||| u == 0x85
    ||| u == 0xa0
    ||| u == 0x1680
    ||| 0x2000 <= u <= 0x200a
    ||| u == 0x2028
    ||| u == 0x2029
    ||| u == 0x202f
    ||| u == 0x205f
    ||| u == 0x3000
}

pub fn is_white_space(c: char) -> (r: bool)
    ensures
        r == white_space(c),
{
    let u = c as u32;
    (0x09 <= u && u <= 0x0d) || u == 0x20 || u == 0x85 || u == 0xa0 || u == 0x1680 || (0x2000 <= u
        && u <= 0x200a) || u == 0x2028 || u == 0x2029 || u == 0x202f || u == 0x205f || u == 0x3000
}

/// Nothing but white space: the text trims to nothing.
pub open spec fn blank(s: Seq<char>) -> bool {
    forall|i: int| 0 <= i < s.len() ==> white_space(#[trigger] s[i])
}

pub fn is_blank(s: &str) -> (r: bool)
    ensures
        r == blank(s@),
{
    let n = s.unicode_len();
    let mut i: usize = 0;
    while i < n
        invariant
            n == s@.len(),
            i <= n,
            forall|j: int| 0 <= j < i ==> white_space(#[trigger] s@[j]),
        decreases n - i,
    {
        if !is_white_space(s.get_char(i)) {
            return false;
        }
        i += 1;
    }
    true
}

/// Number of white-space characters at the front of `s`.
pub open spec fn leading_white(s: Seq<char>) -> int
    decreases s.len(),
{
    if s.len() > 0 && white_space(s[0]) {
        1 + leading_white(s.subrange(1, s.len() as int))
    } else {
        0
    }
}

/// Number of white-space characters at the end of `s`.
pub open spec fn trailing_white(s: Seq<char>) -> int
    decreases s.len(),
{
    if s.len() > 0 && white_space(s.last()) {
        1 + trailing_white(s.drop_last())
    } else {
        0
    }
}

/// `s` without white space at either end, as `str::trim` gives it.
pub open spec fn trimmed(s: Seq<char>) -> Seq<char> {
    let rest = s.subrange(leading_white(s), s.len() as int);
    rest.subrange(0, rest.len() - trailing_white(rest))
}

proof fn lemma_leading_white_bounds(s: Seq<char>)
    ensures
        0 <= leading_white(s) <= s.len(),
    decreases s.len(),
{
    if s.len() > 0 && white_space(s[0]) {
        lemma_leading_white_bounds(s.subrange(1, s.len() as int));
    }
}

proof fn lemma_trailing_white_bounds(s: Seq<char>)
    ensures
        0 <= trailing_white(s) <= s.len(),
    decreases s.len(),
{
    if s.len() > 0 && white_space(s.last()) {
        lemma_trailing_white_bounds(s.drop_last());
    }
}

/// `s` without white space at either end.
pub fn trim_text(s: &str) -> (r: String)
    ensures
        r@ == trimmed(s@),
{
    let n = s.unicode_len();
    let mut a: usize = 0;
    assert(s@.subrange(0, n as int) =~= s@);
    while a < n && is_white_space(s.get_char(a))
        invariant
            n == s@.len(),
            a <= n,
            leading_white(s@) == a + leading_white(s@.subrange(a as int, n as int)),
        decreases n - a,
    {
        let ghost tail = s@.subrange(a as int, n as int);
        assert(tail.subrange(1, tail.len() as int) =~= s@.subrange(a + 1, n as int));
        a += 1;
    }
    proof {
        lemma_leading_white_bounds(s@);
    }
    let rest = s.substring_char(a, n);
    let m = rest.unicode_len();
    let mut b: usize = m;
    assert(rest@.subrange(0, m as int) =~= rest@);
    while b > 0 && is_white_space(rest.get_char(b - 1))
        invariant
            m == rest@.len(),
            b <= m,
            trailing_white(rest@) == (m - b) + trailing_white(rest@.subrange(0, b as int)),
        decreases b,
    {
        assert(rest@.subrange(0, b as int).drop_last() =~= rest@.subrange(0, b - 1));
        b -= 1;
    }
    proof {
        lemma_trailing_white_bounds(rest@);
    }
    String::from_str(rest.substring_char(0, b))
}

/// Compares two texts character by character.
pub fn same_text(a: &str, b: &str) -> (r: bool)
    ensures
        r == (a@ == b@),
{
    let n = a.unicode_len();
    if n != b.unicode_len() {
        return false;
    }
    let mut i: usize = 0;
    while i < n
        invariant
            n == a@.len() == b@.len(),
            i <= n,
            forall|j: int| 0 <= j < i ==> a@[j] == b@[j],
        decreases n - i,
    {
        if a.get_char(i) != b.get_char(i) {
            return false;
        }
        i += 1;
    }
    assert(a@ =~= b@);
    true
}

/// `word` when `b` holds, else nothing.
pub open spec fn word_if(b: bool, word: Seq<char>) -> Seq<char> {
    if b {
        word
    } else {
        Seq::empty()
    }
}

/// A user-supplied class, trimmed; nothing when there is none.
pub open spec fn user_class(class: Option<String>) -> Seq<char> {
    match class {
        Some(c) => trimmed(c@),
        None => Seq::empty(),
    }
}

/// Appends the trimmed user class, if any, to `classes`.
pub fn push_user_class(classes: &mut String, class: &Option<String>)
    ensures
        final(classes)@ == old(classes)@ + user_class(*class),
{
    if let Some(c) = class {
        let t = trim_text(c.as_str());
        classes.append(t.as_str());
    } else {
        assert(old(classes)@ + Seq::<char>::empty() =~= old(classes)@);
    }
}

/// Appends `word` to `classes` when `b` holds.
pub fn append_if(classes: &mut String, b: bool, word: &str)
    ensures
        final(classes)@ == old(classes)@ + word_if(b, word@),
{
    if b {
        classes.append(word);
    } else {
        assert(old(classes)@ + Seq::<char>::empty() =~= old(classes)@);
    }
}

} // verus!
