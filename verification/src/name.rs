//! Derivation of a macro name from a type name.
//!
//! The transform folds the type's declared casing into lowercase words joined
//! by underscores. Word boundaries lie where the casing implies them: before
//! a capital that follows a lowercase letter or a digit, and before the last
//! capital of a run of capitals that is followed by a lowercase letter. Every
//! character that is not an ASCII letter or digit acts as a separator;
//! separators never reach the output, and no derived name starts or ends
//! with an underscore or holds two underscores in a row. The transform is a
//! pure function of the name and is idempotent.

use vstd::prelude::*;
use vstd::string::StrSliceExecFns;

verus! {

/// An ASCII capital letter.
pub open spec fn is_upper(c: char) -> bool {
    65 <= c as u32 <= 90
}

/// An ASCII lowercase letter.
pub open spec fn is_lower(c: char) -> bool {
    97 <= c as u32 <= 122
}

/// An ASCII digit.
pub open spec fn is_digit(c: char) -> bool {
    48 <= c as u32 <= 57
}

/// A character that can stand inside a word of a derived name.
pub open spec fn is_word_char(c: char) -> bool {
    is_upper(c) || is_lower(c) || is_digit(c)
}

/// The case fold of one character: a capital letter turns into its lowercase
/// counterpart; every other character is left as it is.
pub open spec fn fold_char(c: char) -> char {
    if is_upper(c) {
        (((c as u32) + 32) as u8) as char
    } else {
        c
    }
}

/// Whether a word break lies just before position `i` of `s`. Meaningful
/// when `s[i]` is a word character.
pub open spec fn boundary(s: Seq<char>, i: int) -> bool
    recommends
        0 <= i < s.len(),
        is_word_char(s[i]),
{
    i > 0 && {
        ||| !is_word_char(s[i - 1])
        ||| is_upper(s[i]) && (is_lower(s[i - 1]) || is_digit(s[i - 1]))
        ||| is_upper(s[i - 1]) && is_upper(s[i]) && i + 1 < s.len() && is_lower(s[i + 1])
    }
}

/// The transform from position `i` on, with `acc` holding what the positions
/// before `i` produced.
pub open spec fn snake_from(s: Seq<char>, i: int, acc: Seq<char>) -> Seq<char>
    decreases s.len() - i,
{
    if i < 0 || i >= s.len() {
        acc
    } else if !is_word_char(s[i]) {
        snake_from(s, i + 1, acc)
    } else if acc.len() > 0 && boundary(s, i) {
        snake_from(s, i + 1, acc.push('_').push(fold_char(s[i])))
    } else {
        snake_from(s, i + 1, acc.push(fold_char(s[i])))
    }
}

/// The case-fold/word-split transform that derives a macro name from a type
/// name.
pub open spec fn snake_of(s: Seq<char>) -> Seq<char> {
    snake_from(s, 0, Seq::empty())
}

/// True exactly on word characters.
fn word_char(c: char) -> (b: bool)
    ensures
        b == is_word_char(c),
{
    let u = c as u32;
    (65 <= u && u <= 90) || (97 <= u && u <= 122) || (48 <= u && u <= 57)
}

/// Case-fold one character.
fn lower_char(c: char) -> (r: char)
    ensures
        r == fold_char(c),
{
    let u = c as u32;
    if 65 <= u && u <= 90 {
        ((u + 32) as u8) as char
    } else {
        c
    }
}

/// Relies on `String::push`: appends exactly the given character at the end.
#[verifier::external_body]
pub(crate) fn push_char(s: &mut String, c: char)
    ensures
        final(s)@ == old(s)@.push(c),
{
    s.push(c)
}

/// Whether a word break lies just before position `i` of `name`.
fn boundary_at(name: &str, i: usize, n: usize) -> (b: bool)
    requires
        i < name@.len(),
        n == name@.len(),
    ensures
        b == boundary(name@, i as int),
{
    if i == 0 {
        return false;
    }
    let prev = name.get_char(i - 1);
    if !word_char(prev) {
        return true;
    }
    let cur = name.get_char(i);
    let pu = prev as u32;
    let cu = cur as u32;
    if 65 <= cu && cu <= 90 && ((97 <= pu && pu <= 122) || (48 <= pu && pu <= 57)) {
        return true;
    }
    if 65 <= pu && pu <= 90 && 65 <= cu && cu <= 90 && i + 1 < n {
        let next = name.get_char(i + 1);
        let nu = next as u32;
        return 97 <= nu && nu <= 122;
    }
    false
}

/// Derive the macro name for a type name: the case-fold/word-split
/// transform of the name.
pub fn derive_macro_name(name: &str) -> (r: String)
    ensures
        r@ == snake_of(name@),
{
    let n = name.unicode_len();
    let mut out = String::new();
    let mut empty = true;
    let mut i: usize = 0;
    while i < n
        invariant
            n == name@.len(),
            i <= n,
            empty == (out@.len() == 0),
            snake_of(name@) == snake_from(name@, i as int, out@),
        decreases n - i,
    {
        let c = name.get_char(i);
        if word_char(c) {
            if !empty && boundary_at(name, i, n) {
                push_char(&mut out, '_');
            }
            push_char(&mut out, lower_char(c));
            empty = false;
        }
        i = i + 1;
    }
    out
}

/// The shape of every derived name: only lowercase letters, digits and
/// underscores; no leading, trailing or doubled underscore.
pub open spec fn is_snake(t: Seq<char>) -> bool {
    &&& forall|i: int|
        0 <= i < t.len() ==> is_lower(#[trigger] t[i]) || is_digit(t[i]) || t[i] == '_'
    &&& t.len() > 0 ==> t[0] != '_'
    &&& t.len() > 0 ==> t[t.len() - 1] != '_'
    &&& forall|i: int| 0 < i < t.len() && #[trigger] t[i] == '_' ==> t[i - 1] != '_'
}

proof fn lemma_snake_from_shape(s: Seq<char>, i: int, acc: Seq<char>)
    requires
        is_snake(acc),
    ensures
        is_snake(snake_from(s, i, acc)),
    decreases s.len() - i,
{
    if i < 0 || i >= s.len() {
    } else if !is_word_char(s[i]) {
        lemma_snake_from_shape(s, i + 1, acc);
    } else {
        let w = fold_char(s[i]);
        assert(is_lower(w) || is_digit(w));
        if acc.len() > 0 && boundary(s, i) {
            let acc2 = acc.push('_').push(w);
            assert(is_snake(acc2));
            lemma_snake_from_shape(s, i + 1, acc2);
        } else {
            let acc2 = acc.push(w);
            assert(is_snake(acc2));
            lemma_snake_from_shape(s, i + 1, acc2);
        }
    }
}

/// Every derived name has the snake shape: lowercase words joined by single
/// underscores, with no underscore at either end.
pub proof fn lemma_snake_shape(s: Seq<char>)
    ensures
        is_snake(snake_of(s)),
{
    lemma_snake_from_shape(s, 0, Seq::empty());
}

proof fn lemma_snake_from_fixed(t: Seq<char>, i: int)
    requires
        is_snake(t),
        0 <= i <= t.len(),
    ensures
        (i == 0 || t[i - 1] != '_') ==> snake_from(t, i, t.take(i)) == t,
        (i > 0 && t[i - 1] == '_') ==> snake_from(t, i, t.take(i - 1)) == t,
    decreases t.len() - i,
{
    if i == t.len() {
        assert(t.take(i) =~= t);
    } else {
        lemma_snake_from_fixed(t, i + 1);
        let c = t[i];
        assert(is_lower(c) || is_digit(c) || c == '_');
        if i == 0 || t[i - 1] != '_' {
            let acc = t.take(i);
            if c == '_' {
                assert(snake_from(t, i, acc) == snake_from(t, i + 1, acc));
                assert(t.take(i + 1 - 1) =~= acc);
            } else {
                assert(is_word_char(c));
                assert(fold_char(c) == c);
                assert(!boundary(t, i));
                assert(acc.push(c) =~= t.take(i + 1));
                assert(snake_from(t, i, acc) == snake_from(t, i + 1, t.take(i + 1)));
            }
        } else {
            // t[i - 1] == '_', so the pending separator is re-emitted here.
            let acc = t.take(i - 1);
            assert(c != '_');
            assert(is_word_char(c));
            assert(fold_char(c) == c);
            assert(boundary(t, i));
            assert(t[0] != '_');
            assert(i >= 2);
            assert(acc.len() > 0);
            assert(acc.push('_').push(c) =~= t.take(i + 1));
            assert(snake_from(t, i, acc) == snake_from(t, i + 1, t.take(i + 1)));
        }
    }
}

/// A name of the snake shape is a fixed point of the transform.
pub proof fn lemma_snake_fixed(t: Seq<char>)
    requires
        is_snake(t),
    ensures
        snake_of(t) == t,
{
    lemma_snake_from_fixed(t, 0);
    assert(t.take(0) =~= Seq::<char>::empty());
}

/// Applying the name transform twice gives the same name as applying it
/// once: the transform is idempotent.
pub proof fn lemma_snake_idempotent(s: Seq<char>)
    ensures
        snake_of(snake_of(s)) == snake_of(s),
{
    lemma_snake_shape(s);
    lemma_snake_fixed(snake_of(s));
}

} // verus!
