//! The localized message widget's own grammars.
//!
//! A message is referenced as `"#id"` or `"id.attribute"`, and its arguments
//! are written as `"key:value,key:value"` where a backslash guards a comma
//! and is dropped from the value.
use vstd::prelude::*;

use crate::text::{blank, is_blank};

verus! {

/// What a message widget reports when its locale or text changes.
pub struct XMessageEvent {
    locale: Option<String>,
    text: Option<String>,
}

fn clone_text(t: &Option<String>) -> (r: Option<String>)
    ensures
        r == *t,
{
    match t {
        Some(s) => Some(s.clone()),
        None => None,
    }
}

impl XMessageEvent {
    pub closed spec fn locale_of(&self) -> Option<String> {
        self.locale
    }

    pub closed spec fn text_of(&self) -> Option<String> {
        self.text
    }

    pub fn new(locale: Option<String>, text: Option<String>) -> (r: XMessageEvent)
        ensures
            r.locale_of() == locale,
            r.text_of() == text,
    {
        XMessageEvent { locale, text }
    }

    /// Current locale as an identifier such as `"en-US"`; `None` when no locale is set.
    pub fn locale(&self) -> (r: Option<String>)
        ensures
            r == self.locale_of(),
    {
        clone_text(&self.locale)
    }

    /// Text of the message, when the loaded resources hold it.
    pub fn text(&self) -> (r: Option<String>)
        ensures
            r == self.text_of(),
    {
        clone_text(&self.text)
    }
}

/// Index of the first `c` in `s`, or the length of `s` when there is none.
pub open spec fn find_char(s: Seq<char>, c: char) -> int
    decreases s.len(),
{
    if s.len() == 0 {
        0
    } else {
        let p = find_char(s.drop_last(), c);
        if p < s.len() - 1 {
            p
        } else if s.last() == c {
            s.len() - 1
        } else {
            s.len() as int
        }
    }
}

proof fn lemma_find_char_bounds(s: Seq<char>, c: char)
    ensures
        0 <= find_char(s, c) <= s.len(),
        find_char(s, c) < s.len() ==> s[find_char(s, c)] == c,
        forall|j: int| 0 <= j < find_char(s, c) ==> s[j] != c,
    decreases s.len(),
{
    if s.len() > 0 {
        let init = s.drop_last();
        lemma_find_char_bounds(init, c);
        assert forall|j: int| 0 <= j < find_char(s, c) implies s[j] != c by {
            if j < s.len() - 1 {
                assert(s[j] == init[j]);
            }
        }
    }
}

/// Scans `s` from the front for `c`; returns its first index, or the length.
fn find_char_in(s: &str, c: char) -> (r: usize)
    ensures
        r == find_char(s@, c),
{
    let n = s.unicode_len();
    let mut i: usize = 0;
    while i < n
        invariant
            n == s@.len(),
            i <= n,
            find_char(s@.subrange(0, i as int), c) == i,
        decreases n - i,
    {
        assert(s@.subrange(0, i + 1).drop_last() =~= s@.subrange(0, i as int));
        if s.get_char(i) == c {
            assert(s@.subrange(0, i + 1).last() == c);
            proof {
                lemma_find_prefix(s@, c, i as int + 1);
            }
            return i;
        }
        i += 1;
    }
    assert(s@.subrange(0, n as int) =~= s@);
    n
}

/// A first occurrence found in a prefix is the first occurrence in the whole.
proof fn lemma_find_prefix(s: Seq<char>, c: char, k: int)
    requires
        0 <= k <= s.len(),
        find_char(s.subrange(0, k), c) < k,
    ensures
        find_char(s, c) == find_char(s.subrange(0, k), c),
    decreases s.len() - k,
{
    if k < s.len() {
        assert(s.subrange(0, k + 1).drop_last() =~= s.subrange(0, k));
        lemma_find_prefix(s, c, k + 1);
    } else {
        assert(s.subrange(0, k) =~= s);
    }
}

/// `h` without one leading `#`.
pub open spec fn strip_hash(h: Seq<char>) -> Seq<char> {
    if h.len() > 0 && h[0] == '#' {
        h.subrange(1, h.len() as int)
    } else {
        h
    }
}

/// Message id named by a reference: after dropping one leading `#`, the
/// text before the first dot, or all of it without a dot.
pub open spec fn href_id(h: Seq<char>) -> Seq<char> {
    let t = strip_hash(h);
    t.subrange(0, find_char(t, '.'))
}

/// Attribute named by a reference: after dropping one leading `#`, the text
/// between the first dot and the next one, if there is a dot.
pub open spec fn href_attribute(h: Seq<char>) -> Option<Seq<char>> {
    let t = strip_hash(h);
    let d = find_char(t, '.');
    if d < t.len() {
        let rest = t.subrange(d + 1, t.len() as int);
        Some(rest.subrange(0, find_char(rest, '.')))
    } else {
        None
    }
}

/// Splits a message reference into the message id and the attribute.
pub fn parse_href(href: String) -> (r: (String, Option<String>))
    ensures
        r.0@ == href_id(href@),
        r.1 matches Some(a) ==> href_attribute(href@) == Some(a@),
        r.1 is None ==> href_attribute(href@) is None,
{
    let full = href.as_str();
    let m = full.unicode_len();
    let h = if m > 0 && full.get_char(0) == '#' {
        full.substring_char(1, m)
    } else {
        full
    };
    assert(h@ == strip_hash(full@));
    let n = h.unicode_len();
    let d = find_char_in(h, '.');
    proof {
        lemma_find_char_bounds(h@, '.');
    }
    let id = String::from_str(h.substring_char(0, d));
    if d < n {
        let rest = h.substring_char(d + 1, n);
        let e = find_char_in(rest, '.');
        proof {
            lemma_find_char_bounds(rest@, '.');
        }
        let attr = String::from_str(rest.substring_char(0, e));
        (id, Some(attr))
    } else {
        (id, None)
    }
}

/// At `i` stands a separator of the argument list: a comma that does not
/// follow a backslash.
pub open spec fn separator_at(s: Seq<char>, i: int) -> bool {
    0 <= i < s.len() && s[i] == ',' && (i == 0 || s[i - 1] != '\\')
}

/// The pieces of `s` from the piece that begins at `start`, scanning for
/// separators from `i` on.
pub open spec fn arg_pieces_from(s: Seq<char>, start: int, i: int) -> Seq<Seq<char>>
    decreases s.len() - i,
{
    if i >= s.len() {
        seq![s.subrange(start, s.len() as int)]
    } else if separator_at(s, i) {
        seq![s.subrange(start, i)] + arg_pieces_from(s, i + 1, i + 1)
    } else {
        arg_pieces_from(s, start, i + 1)
    }
}

/// The pieces an argument list splits into.
pub open spec fn arg_pieces(s: Seq<char>) -> Seq<Seq<char>> {
    arg_pieces_from(s, 0, 0)
}

/// `s` without its backslashes.
pub open spec fn unescape(s: Seq<char>) -> Seq<char>
    decreases s.len(),
{
    if s.len() == 0 {
        Seq::empty()
    } else if s.last() == '\\' {
        unescape(s.drop_last())
    } else {
        unescape(s.drop_last()).push(s.last())
    }
}

/// Key of an argument piece: the text before its first colon.
pub open spec fn arg_key(p: Seq<char>) -> Seq<char> {
    p.subrange(0, find_char(p, ':'))
}

/// Value of an argument piece: the text after its first colon, without
/// backslashes; none without a colon.
pub open spec fn arg_value(p: Seq<char>) -> Option<Seq<char>> {
    let d = find_char(p, ':');
    if d < p.len() {
        Some(unescape(p.subrange(d + 1, p.len() as int)))
    } else {
        None
    }
}

/// One argument of a message.
pub struct MessageArg {
    pub key: String,
    pub value: Option<String>,
}

impl MessageArg {
    /// This argument is the one that piece `p` of an argument list gives.
    pub open spec fn from_piece(self, p: Seq<char>) -> bool {
        &&& self.key@ == arg_key(p)
        &&& match self.value {
            Some(v) => arg_value(p) == Some(v@),
            None => arg_value(p) is None,
        }
    }
}

/// Drops every backslash of `s`.
pub fn remove_backslashes(s: &str) -> (r: String)
    ensures
        r@ == unescape(s@),
{
    let n = s.unicode_len();
    let mut out = String::new();
    let mut seg: usize = 0;
    let mut i: usize = 0;
    while i < n
        invariant
            n == s@.len(),
            seg <= i <= n,
            out@ + s@.subrange(seg as int, i as int) == unescape(s@.subrange(0, i as int)),
        decreases n - i,
    {
        let ghost prefix = s@.subrange(0, i + 1);
        assert(prefix.drop_last() =~= s@.subrange(0, i as int));
        if s.get_char(i) == '\\' {
            out.append(s.substring_char(seg, i));
            seg = i + 1;
            assert(s@.subrange(seg as int, i + 1) =~= Seq::<char>::empty());
            assert(out@ + s@.subrange(seg as int, i + 1) =~= out@);
        } else {
            assert(s@.subrange(seg as int, i + 1) =~= s@.subrange(seg as int, i as int).push(s@[i as int]));
            assert(out@ + s@.subrange(seg as int, i + 1) =~= (out@ + s@.subrange(seg as int, i as int)).push(s@[i as int]));
        }
        i += 1;
    }
    out.append(s.substring_char(seg, n));
    assert(s@.subrange(0, n as int) =~= s@);
    out
}

fn make_arg(piece: &str) -> (r: MessageArg)
    ensures
        r.from_piece(piece@),
{
    let n = piece.unicode_len();
    let d = find_char_in(piece, ':');
    proof {
        lemma_find_char_bounds(piece@, ':');
    }
    let key = String::from_str(piece.substring_char(0, d));
    if d < n {
        MessageArg { key, value: Some(remove_backslashes(piece.substring_char(d + 1, n))) }
    } else {
        MessageArg { key, value: None }
    }
}

/// Parses a message's argument list: nothing for a blank list, else one
/// argument for each piece between separators, read as `key:value`.
pub fn parse_args(args_str: &str) -> (r: Vec<MessageArg>)
    ensures
        blank(args_str@) ==> r@.len() == 0,
        !blank(args_str@) ==> r@.len() == arg_pieces(args_str@).len() && forall|i: int|
            0 <= i < r@.len() ==> (#[trigger] r@[i]).from_piece(arg_pieces(args_str@)[i]),
{
    if is_blank(args_str) {
        return Vec::new();
    }
    let s = args_str;
    let n = s.unicode_len();
    let mut out: Vec<MessageArg> = Vec::new();
    let ghost mut done: Seq<Seq<char>> = Seq::empty();
    let mut start: usize = 0;
    let mut i: usize = 0;
    while i < n
        invariant
            n == s@.len(),
            start <= i <= n,
            done + arg_pieces_from(s@, start as int, i as int) == arg_pieces(s@),
            out@.len() == done.len(),
            forall|j: int| 0 <= j < out@.len() ==> (#[trigger] out@[j]).from_piece(done[j]),
        decreases n - i,
    {
        if s.get_char(i) == ',' && (i == 0 || s.get_char(i - 1) != '\\') {
            let piece = s.substring_char(start, i);
            out.push(make_arg(piece));
            proof {
                assert(separator_at(s@, i as int));
                assert(done.push(piece@) + arg_pieces_from(s@, i + 1, i + 1) =~= done
                    + arg_pieces_from(s@, start as int, i as int));
                done = done.push(piece@);
            }
            i = i + 1;
            start = i;
        } else {
            assert(!separator_at(s@, i as int));
            i = i + 1;
        }
    }
    let last = s.substring_char(start, n);
    out.push(make_arg(last));
    proof {
        assert(done.push(last@) =~= done + arg_pieces_from(s@, start as int, i as int));
        done = done.push(last@);
    }
    out
}

/// Title-cased form of a text, as the `titlecase` crate computes it.
pub uninterp spec fn titlecase_of(s: Seq<char>) -> Seq<char>;

/// Relies on `titlecase::titlecase`, which returns its input in title case;
/// what it returns depends on the input text alone.
#[verifier::external_body]
fn title_case(s: &str) -> (r: String)
    ensures
        r@ == titlecase_of(s@),
{
    titlecase::titlecase(s)
}

/// `text`, followed by three dots when `ellipsis` is set.
pub open spec fn ellipsized(text: Seq<char>, ellipsis: bool) -> Seq<char> {
    if ellipsis {
        text + "..."@
    } else {
        text
    }
}

/// The text a message shows: its text, or nothing when there is none,
/// title-cased when asked, and followed by an ellipsis when asked.
pub open spec fn displayed_text(text: Option<String>, autocapitalize: bool, ellipsis: bool) -> Seq<
    char,
> {
    let base = match text {
        Some(t) => t@,
        None => Seq::empty(),
    };
    ellipsized(
        if autocapitalize {
            titlecase_of(base)
        } else {
            base
        },
        ellipsis,
    )
}

/// Appends three dots to `text` when `ellipsis` is set.
pub fn with_ellipsis(text: String, ellipsis: bool) -> (r: String)
    ensures
        r@ == ellipsized(text@, ellipsis),
{
    let mut text = text;
    if ellipsis {
        text.append("...");
    }
    text
}

/// The text a message shows; see [`displayed_text`].
pub fn message_text(text: &Option<String>, autocapitalize: bool, ellipsis: bool) -> (r: String)
    ensures
        r@ == displayed_text(*text, autocapitalize, ellipsis),
{
    let base = match text {
        Some(t) => t.clone(),
        None => String::new(),
    };
    let shown = if autocapitalize {
        title_case(base.as_str())
    } else {
        base
    };
    with_ellipsis(shown, ellipsis)
}

} // verus!
