//! Derivation of snake_case method names from PascalCase identifiers.
use vstd::prelude::*;
use vstd::string::*;

verus! {

/// Whether `c` has the Unicode `Uppercase` property.
pub uninterp spec fn upper_of(c: char) -> bool;

/// The first character of the lowercase mapping of `c`.
pub uninterp spec fn lower_of(c: char) -> char;

/// Relies on `char::is_uppercase`: its answer depends on the character alone.
#[verifier::external_body]
fn is_upper(c: char) -> (r: bool)
    ensures
        r == upper_of(c),
{
    c.is_uppercase()
}

/// Relies on `char::to_lowercase`, which yields one or more characters for
/// every input: the first of them is taken.
#[verifier::external_body]
fn first_lowercase(c: char) -> (r: char)
    ensures
        r == lower_of(c),
{
    c.to_lowercase().next().unwrap_or(c)
}

/// Relies on `String::push`: appends one character at the end.
#[verifier::external_body]
fn push_char(s: &mut String, c: char)
    ensures
        final(s)@ == old(s)@.push(c),
{
    s.push(c)
}

/// The snake_case form of `s`, where `upper[i]` tells whether `s[i]` is
/// uppercase and `lower[i]` is its lowercase form: each uppercase character
/// is replaced by its lowercase form, and one that is not the first
/// character is preceded by an underscore.
pub open spec fn snake_with(s: Seq<char>, upper: Seq<bool>, lower: Seq<char>) -> Seq<char>
    decreases s.len(),
{
    if s.len() == 0 {
        Seq::empty()
    } else {
        let n = s.len() - 1;
        let prefix = snake_with(s.take(n), upper, lower);
        if upper[n] {
            if n > 0 {
                prefix.push('_').push(lower[n])
            } else {
                prefix.push(lower[n])
            }
        } else {
            prefix.push(s[n])
        }
    }
}

/// Whether each character of `s` is uppercase.
pub open spec fn upper_flags(s: Seq<char>) -> Seq<bool> {
    Seq::new(s.len(), |i: int| upper_of(s[i]))
}

/// The lowercase form of each character of `s`.
pub open spec fn lower_forms(s: Seq<char>) -> Seq<char> {
    Seq::new(s.len(), |i: int| lower_of(s[i]))
}

/// The snake_case form of `s` under Unicode case rules.
pub open spec fn snake_of(s: Seq<char>) -> Seq<char> {
    snake_with(s, upper_flags(s), lower_forms(s))
}

/// Renaming is a no-op on a name in which no character is flagged
/// uppercase: such a name maps to itself, so applying the conversion to its
/// own output changes nothing further.
pub proof fn lemma_snake_fixes_lowercase(s: Seq<char>, upper: Seq<bool>, lower: Seq<char>)
    requires
        upper.len() >= s.len(),
        forall|i: int| 0 <= i < s.len() ==> !#[trigger] upper[i],
    ensures
        snake_with(s, upper, lower) == s,
        snake_with(snake_with(s, upper, lower), upper, lower) == snake_with(s, upper, lower),
    decreases s.len(),
{
    if s.len() > 0 {
        let n = s.len() - 1;
        lemma_snake_fixes_lowercase(s.take(n), upper, lower);
        assert(snake_with(s.take(n), upper, lower).push(s[n]) =~= s);
    }
}

/// Whether no character of `s` is uppercase.
pub open spec fn has_no_upper(s: Seq<char>) -> bool {
    forall|i: int| 0 <= i < s.len() ==> !upper_of(#[trigger] s[i])
}

/// A name without uppercase characters, such as one already in
/// snake_case, converts to itself; converting it again changes nothing.
pub proof fn lemma_snake_of_fixes_lowercase(s: Seq<char>)
    requires
        has_no_upper(s),
    ensures
        snake_of(s) == s,
        snake_of(snake_of(s)) == snake_of(s),
{
    assert forall|i: int| 0 <= i < s.len() implies !#[trigger] upper_flags(s)[i] by {
        assert(!upper_of(s[i]));
    }
    lemma_snake_fixes_lowercase(s, upper_flags(s), lower_forms(s));
}

/// Converts `s` to snake_case, given for each character whether it is
/// uppercase (`upper`) and its lowercase form (`lower`).
pub fn snake_case_with(s: &str, upper: &Vec<bool>, lower: &Vec<char>) -> (r: String)
    requires
        upper@.len() == s@.len(),
        lower@.len() == s@.len(),
    ensures
        r@ == snake_with(s@, upper@, lower@),
{
    let mut result = String::new();
    let n = s.unicode_len();
    let mut i: usize = 0;
    while i < n
        invariant
            n == s@.len(),
            n == upper@.len(),
            n == lower@.len(),
            i <= n,
            result@ == snake_with(s@.take(i as int), upper@, lower@),
        decreases n - i,
    {
        let ch = s.get_char(i);
        proof {
            let next = s@.take(i + 1);
            assert(next.take(i as int) =~= s@.take(i as int));
            assert(next[i as int] == ch);
        }
        if upper[i] {
            if i > 0 {
                push_char(&mut result, '_');
            }
            push_char(&mut result, lower[i]);
        } else {
            push_char(&mut result, ch);
        }
        i = i + 1;
    }
    assert(s@.take(n as int) =~= s@);
    result
}

/// Converts a PascalCase identifier to snake_case, under Unicode case rules.
pub fn to_snake_case(s: &str) -> (r: String)
    ensures
        r@ == snake_of(s@),
{
    let n = s.unicode_len();
    let mut upper: Vec<bool> = Vec::with_capacity(n);
    let mut lower: Vec<char> = Vec::with_capacity(n);
    let mut i: usize = 0;
    while i < n
        invariant
            n == s@.len(),
            i <= n,
            upper@ == upper_flags(s@).take(i as int),
            lower@ == lower_forms(s@).take(i as int),
        decreases n - i,
    {
        let ch = s.get_char(i);
        upper.push(is_upper(ch));
        lower.push(first_lowercase(ch));
        assert(upper@ =~= upper_flags(s@).take(i + 1));
        assert(lower@ =~= lower_forms(s@).take(i + 1));
        i = i + 1;
    }
    assert(upper@ =~= upper_flags(s@));
    assert(lower@ =~= lower_forms(s@));
    snake_case_with(s, &upper, &lower)
}

} // verus!
