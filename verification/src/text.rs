//! Small questions about text: equality, blankness, and whether a string can
//! stand as an identifier.

use vstd::prelude::*;

verus! {

/// What `str::trim` leaves of a string: the text without its leading and
/// trailing whitespace.
pub uninterp spec fn trimmed(s: Seq<char>) -> Seq<char>;

/// Whether `c` has the Unicode property `XID_Start`.
pub uninterp spec fn xid_start(c: char) -> bool;

/// Whether `c` has the Unicode property `XID_Continue`.
pub uninterp spec fn xid_continue(c: char) -> bool;

/// An ASCII character.
pub open spec fn ascii(c: char) -> bool {
    c <= '\x7f'
}

/// The ASCII characters that are whitespace: space, tab, line feed,
/// vertical tab, form feed, carriage return.
pub open spec fn ascii_space(c: char) -> bool {
    c == ' ' || ('\t' <= c && c <= '\r')
}

pub open spec fn ascii_letter(c: char) -> bool {
    ('a' <= c && c <= 'z') || ('A' <= c && c <= 'Z')
}

pub open spec fn ascii_digit(c: char) -> bool {
    '0' <= c && c <= '9'
}

/// Text made of ASCII characters only.
pub open spec fn ascii_text(s: Seq<char>) -> bool {
    vstd::utf8::is_ascii_chars(s)
}

/// Text made of ASCII whitespace only; the empty text is.
pub open spec fn all_ascii_space(s: Seq<char>) -> bool {
    forall|i: int| 0 <= i < s.len() ==> ascii_space(#[trigger] s[i])
}

/// Text with an ASCII character that is no whitespace.
pub open spec fn has_ascii_ink(s: Seq<char>) -> bool {
    exists|i: int| 0 <= i < s.len() && ascii(#[trigger] s[i]) && !ascii_space(s[i])
}

/// A string is blank when nothing is left of it after trimming. ASCII
/// characters settle it where they can: one that is no whitespace makes the
/// string not blank, and a string of ASCII whitespace only is blank.
pub open spec fn blank(s: Seq<char>) -> bool {
    if has_ascii_ink(s) {
        false
    } else if all_ascii_space(s) {
        true
    } else {
        trimmed(s).len() == 0
    }
}

/// A character that may open an identifier: among ASCII characters the
/// letters and the underscore, among the others those with `XID_Start`.
pub open spec fn ident_start(c: char) -> bool {
    if ascii(c) {
        c == '_' || ascii_letter(c)
    } else {
        xid_start(c)
    }
}

/// A character that may follow the first one of an identifier: among ASCII
/// characters the letters, the digits and the underscore, among the others
/// those with `XID_Continue`.
pub open spec fn ident_continue(c: char) -> bool {
    if ascii(c) {
        c == '_' || ascii_letter(c) || ascii_digit(c)
    } else {
        xid_continue(c)
    }
}

/// Text that can be the name of an identifier: not empty, one opening
/// character, then only continuing characters.
pub open spec fn ident_text(s: Seq<char>) -> bool {
    &&& s.len() > 0
    &&& ident_start(s[0])
    &&& forall|i: int| 1 <= i < s.len() ==> ident_continue(#[trigger] s[i])
}

/// `str::trim`: the slice that is left once leading and trailing whitespace
/// is removed. The contract gives that slice its name, and says what ASCII
/// characters settle: nothing is left of ASCII whitespace, and an ASCII
/// character that is no whitespace is never removed.
#[verifier::external_body]
fn trim(s: &str) -> (r: &str)
    ensures
        r@ == trimmed(s@),
        all_ascii_space(s@) ==> r@.len() == 0,
        has_ascii_ink(s@) ==> r@.len() > 0,
{
    s.trim()
}

/// `unicode_ident::is_xid_start`: a lookup in the crate's table of the
/// `XID_Start` property.
#[verifier::external_body]
fn is_xid_start(c: char) -> (r: bool)
    ensures
        r == xid_start(c),
{
    unicode_ident::is_xid_start(c)
}

/// `unicode_ident::is_xid_continue`: a lookup in the crate's table of the
/// `XID_Continue` property.
#[verifier::external_body]
fn is_xid_continue(c: char) -> (r: bool)
    ensures
        r == xid_continue(c),
{
    unicode_ident::is_xid_continue(c)
}

/// Whether two strings hold the same characters.
pub fn same_text(a: &str, b: &str) -> (r: bool)
    ensures
        r == (a@ == b@),
{
    let n: usize = a.unicode_len();
    if n != b.unicode_len() {
        return false;
    }
    let mut i: usize = 0;
    while i < n
        invariant
            i <= n,
            n == a@.len(),
            n == b@.len(),
            forall|j: int| 0 <= j < i ==> a@[j] == b@[j],
        decreases n - i,
    {
        if a.get_char(i) != b.get_char(i) {
            return false;
        }
        i = i + 1;
    }
    assert(a@ =~= b@);
    true
}

/// Whether a string is empty or holds whitespace only.
pub fn is_blank(value: &str) -> (r: bool)
    ensures
        r == blank(value@),
{
    trim(value).is_empty()
}

fn is_ascii_letter(c: char) -> (r: bool)
    ensures
        r == ascii_letter(c),
{
    ('a' <= c && c <= 'z') || ('A' <= c && c <= 'Z')
}

fn is_ident_start(c: char) -> (r: bool)
    ensures
        r == ident_start(c),
{
    if c <= '\x7f' {
        c == '_' || is_ascii_letter(c)
    } else {
        is_xid_start(c)
    }
}

fn is_ident_continue(c: char) -> (r: bool)
    ensures
        r == ident_continue(c),
{
    if c <= '\x7f' {
        c == '_' || is_ascii_letter(c) || ('0' <= c && c <= '9')
    } else {
        is_xid_continue(c)
    }
}

/// Whether a string holds ASCII characters only.
pub fn is_ascii_text(value: &str) -> (r: bool)
    ensures
        r == ascii_text(value@),
{
    value.is_ascii()
}

/// Whether a string can be the name of an identifier.
pub fn is_ident_text(value: &str) -> (r: bool)
    ensures
        r == ident_text(value@),
{
    let n: usize = value.unicode_len();
    if n == 0 {
        return false;
    }
    if !is_ident_start(value.get_char(0)) {
        return false;
    }
    let mut i: usize = 1;
    while i < n
        invariant
            1 <= i <= n,
            n == value@.len(),
            forall|j: int| 1 <= j < i ==> ident_continue(#[trigger] value@[j]),
        decreases n - i,
    {
        if !is_ident_continue(value.get_char(i)) {
            return false;
        }
        i = i + 1;
    }
    true
}

} // verus!
