//! Small verified operations on text.
use vstd::prelude::*;

verus! {

/// Calls `String::push`: the string with the character added at its end.
#[verifier::external_body]
pub fn push_char(s: &mut String, c: char)
    ensures
        final(s)@ == old(s)@.push(c),
{
    s.push(c);
}

/// Whether two strings are equal.
pub fn str_eq(a: &str, b: &str) -> (res: bool)
    ensures
        res == (a@ == b@),
{
    let n = a.unicode_len();
    if n != b.unicode_len() {
        return false;
    }
    for i in 0..n
        invariant
            n == a@.len(),
            n == b@.len(),
            forall|j: int| 0 <= j < i ==> a@[j] == b@[j],
    {
        if a.get_char(i) != b.get_char(i) {
            return false;
        }
    }
    assert(a@ =~= b@);
    true
}

/// The text with every double quote `"` taken out.
pub open spec fn strip_quotes(s: Seq<char>) -> Seq<char>
    decreases s.len(),
{
    if s.len() == 0 {
        Seq::empty()
    } else if s.last() == '"' {
        strip_quotes(s.drop_last())
    } else {
        strip_quotes(s.drop_last()).push(s.last())
    }
}

/// The text with every double quote `"` taken out, as [`strip_quotes`]
/// states it.
pub fn remove_quotes(s: &str) -> (res: String)
    ensures
        res@ == strip_quotes(s@),
{
    let n = s.unicode_len();
    let mut res = String::new();
    assert(s@.take(0) =~= Seq::<char>::empty());
    for i in 0..n
        invariant
            n == s@.len(),
            res@ == strip_quotes(s@.take(i as int)),
    {
        let c = s.get_char(i);
        assert(s@.take(i + 1).drop_last() =~= s@.take(i as int));
        if c != '"' {
            push_char(&mut res, c);
        }
    }
    assert(s@.take(n as int) =~= s@);
    res
}

/// The digit character for a number below ten.
pub open spec fn digit(d: nat) -> char {
    (d + 48) as char
}

/// A number written in decimal.
pub open spec fn decimal(n: nat) -> Seq<char>
    decreases n,
{
    if n < 10 {
        seq![digit(n)]
    } else {
        decimal(n / 10).push(digit(n % 10))
    }
}

/// Writes a number in decimal at the end of a string.
pub fn append_decimal(s: &mut String, n: usize)
    ensures
        final(s)@ == old(s)@ + decimal(n as nat),
    decreases n,
{
    if n >= 10 {
        append_decimal(s, n / 10);
    }
    let d = (n % 10) as u8;
    let c = (48u8 + d) as char;
    let ghost before = s@;
    push_char(s, c);
    assert(s@ =~= old(s)@ + decimal(n as nat));
}

/// Whether a character has the Unicode property `XID_Start`.
pub uninterp spec fn xid_start(c: char) -> bool;

/// Whether a character has the Unicode property `XID_Continue`.
pub uninterp spec fn xid_continue(c: char) -> bool;

/// A character of the ASCII range.
pub open spec fn is_ascii_char(c: char) -> bool {
    (c as u32) < 128
}

/// An ASCII letter.
pub open spec fn ascii_letter(c: char) -> bool {
    ('a' <= c && c <= 'z') || ('A' <= c && c <= 'Z')
}

/// An ASCII decimal digit.
pub open spec fn ascii_digit(c: char) -> bool {
    '0' <= c && c <= '9'
}

/// Calls `unicode_ident::is_xid_start`: whether the character has the
/// Unicode property `XID_Start`, named by [`xid_start`]. In the ASCII range
/// the crate answers from its table `ASCII_START`, which holds the letters
/// and nothing else.
#[verifier::external_body]
fn is_xid_start(c: char) -> (res: bool)
    ensures
        res == xid_start(c),
        is_ascii_char(c) ==> (res == ascii_letter(c)),
{
    unicode_ident::is_xid_start(c)
}

/// Calls `unicode_ident::is_xid_continue`: whether the character has the
/// Unicode property `XID_Continue`, named by [`xid_continue`]. In the ASCII
/// range the crate answers from its table `ASCII_CONTINUE`, which holds the
/// letters, the digits and `_`, and nothing else.
#[verifier::external_body]
fn is_xid_continue(c: char) -> (res: bool)
    ensures
        res == xid_continue(c),
        is_ascii_char(c) ==> (res == (ascii_letter(c) || ascii_digit(c) || c == '_')),
{
    unicode_ident::is_xid_continue(c)
}

/// A character that may begin an identifier: `_`, or one with the property
/// `XID_Start`, which in the ASCII range are the letters.
pub open spec fn ident_start(c: char) -> bool {
    c == '_' || if is_ascii_char(c) {
        ascii_letter(c)
    } else {
        xid_start(c)
    }
}

/// A character that may follow in an identifier: one with the property
/// `XID_Continue`, which in the ASCII range are the letters, the digits and
/// `_`.
pub open spec fn ident_continue(c: char) -> bool {
    if is_ascii_char(c) {
        ascii_letter(c) || ascii_digit(c) || c == '_'
    } else {
        xid_continue(c)
    }
}

/// The text is an identifier as `proc_macro2::Ident::new` accepts one: not
/// empty, its first character `_` or `XID_Start`, the others
/// `XID_Continue`. (`Ident::new` panics on any other text.)
pub open spec fn valid_ident(s: Seq<char>) -> bool {
    &&& s.len() > 0
    &&& ident_start(s[0])
    &&& forall|k: int| 1 <= k < s.len() ==> ident_continue(#[trigger] s[k])
}

/// Whether the text is an identifier, as [`valid_ident`] states it.
pub fn is_valid_ident(s: &str) -> (res: bool)
    ensures
        res == valid_ident(s@),
{
    let n = s.unicode_len();
    if n == 0 {
        return false;
    }
    let first = s.get_char(0);
    if !(first == '_' || is_xid_start(first)) {
        return false;
    }
    for k in 1..n
        invariant
            n == s@.len(),
            forall|x: int| 1 <= x < k ==> ident_continue(#[trigger] s@[x]),
    {
        if !is_xid_continue(s.get_char(k)) {
            return false;
        }
    }
    true
}

/// An identifier written in ASCII: a letter or `_`, then letters, digits
/// and `_`, as `snake_case` names are.
pub open spec fn ascii_ident(s: Seq<char>) -> bool {
    &&& s.len() > 0
    &&& (s[0] == '_' || ascii_letter(s[0]))
    &&& forall|k: int| 1 <= k < s.len() ==> {
        let c = #[trigger] s[k];
        ascii_letter(c) || ascii_digit(c) || c == '_'
    }
}

/// A text of ASCII characters is an identifier exactly when it begins with
/// a letter or `_` and goes on with letters, digits and `_`: so `env_var`
/// and `arg2` are identifiers, `2arg`, `-v` and the empty text are not.
pub proof fn law_ascii_identifiers(s: Seq<char>)
    requires
        forall|k: int| 0 <= k < s.len() ==> is_ascii_char(#[trigger] s[k]),
    ensures
        valid_ident(s) == ascii_ident(s),
{
    if s.len() > 0 {
        assert(is_ascii_char(s[0]));
    }
    assert(valid_ident(s) ==> ascii_ident(s));
    assert(ascii_ident(s) ==> valid_ident(s));
}

/// A text occurs in another: some stretch of `t` starting at `k` is `p`.
pub open spec fn occurs_at(t: Seq<char>, p: Seq<char>, k: int) -> bool {
    0 <= k && k + p.len() <= t.len() && t.subrange(k, k + p.len()) == p
}

/// The text `t` holds the text `p` somewhere.
pub open spec fn contains_text(t: Seq<char>, p: Seq<char>) -> bool {
    exists|k: int| #[trigger] occurs_at(t, p, k)
}

/// A text holds each of the parts it is written from.
pub proof fn lemma_contains_middle(a: Seq<char>, p: Seq<char>, b: Seq<char>)
    ensures
        contains_text(a + p + b, p),
{
    assert((a + p + b).subrange(a.len() as int, a.len() + p.len() as int) =~= p);
    assert(occurs_at(a + p + b, p, a.len() as int));
}

/// Writing text before or after a text keeps what it holds.
pub proof fn lemma_contains_extend(a: Seq<char>, t: Seq<char>, b: Seq<char>, p: Seq<char>)
    requires
        contains_text(t, p),
    ensures
        contains_text(a + t + b, p),
{
    let k = choose|k: int| occurs_at(t, p, k);
    let u = a + t + b;
    assert(u.subrange(a.len() + k, a.len() + k + p.len()) =~= t.subrange(k, k + p.len()));
    assert(occurs_at(u, p, a.len() + k));
}

/// What a part of a text holds, the text holds.
pub proof fn lemma_contains_trans(t: Seq<char>, u: Seq<char>, p: Seq<char>)
    requires
        contains_text(t, u),
        contains_text(u, p),
    ensures
        contains_text(t, p),
{
    let k = choose|k: int| occurs_at(t, u, k);
    let j = choose|j: int| occurs_at(u, p, j);
    assert(t.subrange(k + j, k + j + p.len()) =~= u.subrange(j, j + p.len()));
    assert(occurs_at(t, p, k + j));
}

} // verus!
