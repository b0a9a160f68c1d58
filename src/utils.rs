//! File-name sanitising.

use vstd::prelude::*;

verus! {

/// A character that file systems refuse in a name: `/ ? < > \ : * | "`.
pub open spec fn illegal_char(c: char) -> bool {
    c == '/' || c == '?' || c == '<' || c == '>' || c == '\\' || c == ':' || c == '*' || c
        == '|' || c == '"'
}

/// A control character: U+0000 to U+001F and U+0080 to U+009F.
pub open spec fn control_char(c: char) -> bool {
    (c as u32) <= 0x1f || (0x80 <= (c as u32) && (c as u32) <= 0x9f)
}

/// A character that may stand in a sanitised name.
pub open spec fn kept_char(c: char) -> bool {
    !illegal_char(c) && !control_char(c)
}

/// The name without its illegal and control characters.
pub open spec fn cleaned(name: Seq<char>) -> Seq<char> {
    name.filter(|c: char| kept_char(c))
}

/// A name made of dots alone (`.`, `..`, ...), which names no file of its own.
pub open spec fn all_dots(s: Seq<char>) -> bool {
    s.len() > 0 && forall|i: int| 0 <= i < s.len() ==> s[i] == '.'
}

/// The number of bytes that UTF-8 takes for `c`.
pub open spec fn utf8_width(c: char) -> nat {
    let n = c as u32;
    if n < 0x80 {
        1
    } else if n < 0x800 {
        2
    } else if n < 0x10000 {
        3
    } else {
        4
    }
}

/// The number of bytes that UTF-8 takes for `s`.
pub open spec fn utf8_len(s: Seq<char>) -> nat
    decreases s.len(),
{
    if s.len() == 0 {
        0
    } else {
        utf8_len(s.drop_last()) + utf8_width(s.last())
    }
}

/// The longest beginning of `s` that takes at most `max` bytes.
pub open spec fn cut_to_bytes(s: Seq<char>, max: nat) -> Seq<char>
    decreases s.len(),
{
    if utf8_len(s) <= max || s.len() == 0 {
        s
    } else {
        cut_to_bytes(s.drop_last(), max)
    }
}

/// The longest name that a file system takes, in bytes.
pub open spec fn max_name_bytes() -> nat {
    255
}

/// The name made safe as one path component: illegal and control characters
/// dropped, a name of dots alone emptied, and, where `truncate` holds, the
/// result cut to its longest beginning of at most 255 bytes.
pub open spec fn plain_sanitized(name: Seq<char>, truncate: bool) -> Seq<char> {
    let kept = cleaned(name);
    let named = if all_dots(kept) {
        Seq::empty()
    } else {
        kept
    };
    if truncate {
        cut_to_bytes(named, max_name_bytes())
    } else {
        named
    }
}

/// Relies on `sanitize_filename::sanitize_with_options` (0.6): outside
/// Windows mode and with an empty replacement, its three regex passes drop
/// every character of `[/\?<>\\:\*\|":]` and of `[\x00-\x1f\x80-\x9f]` and
/// empty a name matching `^\.+$`; with `truncate`, a name longer than 255
/// bytes is then cut at the last char boundary at or before byte 255. Nothing
/// is promised for other options (a replacement may hold `$` references).
#[verifier::external_body]
fn sanitize_with(name: &str, windows: bool, truncate: bool, replacement: &str) -> (r: String)
    ensures
        !windows && replacement@.len() == 0 ==> r@ == plain_sanitized(name@, truncate),
{
    let options = sanitize_filename::Options { windows, truncate, replacement };
    sanitize_filename::sanitize_with_options(name, options)
}

/// The name made safe as one path component (see [`plain_sanitized`]).
pub open spec fn safe_name(name: Seq<char>) -> Seq<char> {
    plain_sanitized(name, true)
}

proof fn lemma_cut_is_prefix(s: Seq<char>, max: nat)
    ensures
        cut_to_bytes(s, max).len() <= s.len(),
        cut_to_bytes(s, max) == s.take(cut_to_bytes(s, max).len() as int),
    decreases s.len(),
{
    if !(utf8_len(s) <= max || s.len() == 0) {
        let d = s.drop_last();
        lemma_cut_is_prefix(d, max);
        let c = cut_to_bytes(d, max);
        assert(c =~= s.take(c.len() as int));
    } else {
        assert(s =~= s.take(s.len() as int));
    }
}

/// Every character of a safe name may stand in a name: none is illegal
/// (so none is `/`) and none is a control character.
pub proof fn lemma_safe_name_chars(name: Seq<char>)
    ensures
        forall|i: int| 0 <= i < safe_name(name).len() ==> kept_char(#[trigger] safe_name(name)[i]),
{
    let kept = cleaned(name);
    let named = if all_dots(kept) {
        Seq::<char>::empty()
    } else {
        kept
    };
    lemma_cut_is_prefix(named, max_name_bytes());
    let r = safe_name(name);
    assert forall|i: int| 0 <= i < r.len() implies kept_char(#[trigger] r[i]) by {
        assert(r[i] == named[i]);
        name.lemma_filter_pred(|c: char| kept_char(c), i);
    }
}

/// `file_name` made safe as one path component (see [`plain_sanitized`]);
/// the result never holds a `/`.
pub fn sanitize_filename(file_name: &str) -> (r: String)
    ensures
        r@ == safe_name(file_name@),
        !r@.contains('/'),
{
    let none = "";
    proof {
        reveal_strlit("");
        assert(none@ =~= Seq::<char>::empty());
        lemma_safe_name_chars(file_name@);
    }
    let r = sanitize_with(file_name, false, true, none);
    proof {
        if r@.contains('/') {
            let k = choose|k: int| 0 <= k < r@.len() && r@[k] == '/';
            assert(r@[k] == safe_name(file_name@)[k]);
            assert(kept_char(r@[k]));
        }
    }
    r
}

} // verus!
