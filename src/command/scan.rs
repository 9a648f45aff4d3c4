//! A scanner for `key=value` arguments, each key found at the start of a
//! word, with the value in one of a few fixed shapes.
use vstd::prelude::*;

use crate::text::is_digit;

verus! {

/// Whether `char::is_alphanumeric` holds of a character: it is alphabetic
/// or numeric in Unicode.
pub uninterp spec fn alphanumeric(c: char) -> bool;

/// Relies on `char::is_alphanumeric`: whether the character is Unicode
/// alphabetic or numeric, which depends on the character alone.
#[verifier::external_body]
fn is_alphanumeric(c: char) -> (r: bool)
    ensures
        r == alphanumeric(c),
{
    c.is_alphanumeric()
}

/// Characters that make up words: ASCII letters and digits, `_`, and the
/// letters and digits outside ASCII.
pub open spec fn is_word_char(c: char) -> bool {
    ||| 'a' <= c <= 'z'
    ||| 'A' <= c <= 'Z'
    ||| '0' <= c <= '9'
    ||| c == '_'
    ||| (c as u32 >= 128 && alphanumeric(c))
}

fn is_word(c: char) -> (r: bool)
    ensures
        r == is_word_char(c),
{
    ('a' <= c && c <= 'z') || ('A' <= c && c <= 'Z') || ('0' <= c && c <= '9') || c == '_' || (c
        as u32 >= 128 && is_alphanumeric(c))
}

/// End of the run of ASCII digits that starts at `p`.
pub open spec fn digit_run_end(s: Seq<char>, p: nat) -> nat
    decreases s.len() - p,
{
    if p < s.len() && is_digit(s[p as int]) {
        digit_run_end(s, p + 1)
    } else {
        p
    }
}

/// End of the run of word characters that starts at `p`.
pub open spec fn word_run_end(s: Seq<char>, p: nat) -> nat
    decreases s.len() - p,
{
    if p < s.len() && is_word_char(s[p as int]) {
        word_run_end(s, p + 1)
    } else {
        p
    }
}

/// Whether a word ends before position `q`: `q` is the end of the text or
/// holds no word character.
pub open spec fn boundary_at(s: Seq<char>, q: nat) -> bool {
    q >= s.len() || !is_word_char(s[q as int])
}

/// The shapes a value can take.
#[derive(Clone, Copy, Debug, PartialEq, Eq, Structural)]
pub enum ValueKind {
    /// Digits, then optionally a point and digits.
    Number,
    /// One or two digits, `-`, one or two digits, `-`, four digits.
    DashedDate,
    /// One word.
    Word,
    /// Words separated by commas.
    WordList,
}

/// End of a comma-separated list of words that continues at `q`.
pub open spec fn list_end(s: Seq<char>, q: nat) -> nat
    decreases s.len() - q,
{
    if q < s.len() && s[q as int] == ',' && word_run_end(s, q + 1) > q + 1 && word_run_end(s, q + 1)
        <= s.len() {
        list_end(s, word_run_end(s, q + 1))
    } else {
        q
    }
}

/// End of the value of the given shape that starts at `p`, where one does;
/// the value must end where a word ends.
pub open spec fn value_end(s: Seq<char>, p: nat, kind: ValueKind) -> Option<nat> {
    match kind {
        ValueKind::Number => {
            let e = digit_run_end(s, p);
            if e == p {
                None
            } else if e < s.len() && s[e as int] == '.' && digit_run_end(s, e + 1) > e + 1
                && boundary_at(s, digit_run_end(s, e + 1)) {
                Some(digit_run_end(s, e + 1))
            } else if boundary_at(s, e) {
                Some(e)
            } else {
                None
            }
        },
        ValueKind::DashedDate => {
            let e1 = digit_run_end(s, p);
            let e2 = digit_run_end(s, e1 + 1);
            let e3 = digit_run_end(s, e2 + 1);
            if 1 <= e1 - p <= 2 && e1 < s.len() && s[e1 as int] == '-' && 1 <= e2 - (e1 + 1) <= 2
                && e2 < s.len() && s[e2 as int] == '-' && e3 - (e2 + 1) == 4 && boundary_at(s, e3) {
                Some(e3)
            } else {
                None
            }
        },
        ValueKind::Word => {
            let e = word_run_end(s, p);
            if e > p {
                Some(e)
            } else {
                None
            }
        },
        ValueKind::WordList => {
            let e = word_run_end(s, p);
            if e > p {
                Some(list_end(s, e))
            } else {
                None
            }
        },
    }
}

/// Whether `key` stands at position `i` at the start of a word.
pub open spec fn key_at(s: Seq<char>, i: nat, key: Seq<char>) -> bool {
    &&& i + key.len() <= s.len()
    &&& s.subrange(i as int, (i + key.len()) as int) == key
    &&& (i == 0 || !is_word_char(s[i - 1]))
}

/// Where the value of the first occurrence of `key`, from position `i` on,
/// that is followed by a value of the given shape begins and ends.
pub open spec fn first_value(s: Seq<char>, key: Seq<char>, kind: ValueKind, i: nat) -> Option<(nat, nat)>
    decreases s.len() + 1 - i,
{
    if i > s.len() {
        None
    } else if key_at(s, i, key) && value_end(s, i + key.len(), kind) is Some {
        Some((i + key.len(), value_end(s, i + key.len(), kind)->0))
    } else {
        first_value(s, key, kind, i + 1)
    }
}

pub proof fn lemma_digit_run_end(s: Seq<char>, p: nat)
    requires
        p <= s.len(),
    ensures
        p <= digit_run_end(s, p) <= s.len(),
        forall|k: int| p <= k < digit_run_end(s, p) ==> is_digit(#[trigger] s[k]),
        digit_run_end(s, p) < s.len() ==> !is_digit(s[digit_run_end(s, p) as int]),
    decreases s.len() - p,
{
    if p < s.len() && is_digit(s[p as int]) {
        lemma_digit_run_end(s, p + 1);
    }
}

pub proof fn lemma_word_run_end(s: Seq<char>, p: nat)
    requires
        p <= s.len(),
    ensures
        p <= word_run_end(s, p) <= s.len(),
        forall|k: int| p <= k < word_run_end(s, p) ==> is_word_char(#[trigger] s[k]),
    decreases s.len() - p,
{
    if p < s.len() && is_word_char(s[p as int]) {
        lemma_word_run_end(s, p + 1);
    }
}

pub proof fn lemma_list_end(s: Seq<char>, q: nat)
    requires
        q <= s.len(),
    ensures
        q <= list_end(s, q) <= s.len(),
    decreases s.len() - q,
{
    lemma_word_run_end(s, q);
    if q < s.len() && s[q as int] == ',' && word_run_end(s, q + 1) > q + 1 {
        lemma_word_run_end(s, q + 1);
        lemma_list_end(s, word_run_end(s, q + 1));
    }
}

pub fn digit_run(v: &Vec<char>, p: usize) -> (r: usize)
    requires
        p <= v@.len(),
    ensures
        r == digit_run_end(v@, p as nat),
{
    let mut q = p;
    while q < v.len() && '0' <= v[q] && v[q] <= '9'
        invariant
            p <= q <= v@.len(),
            digit_run_end(v@, p as nat) == digit_run_end(v@, q as nat),
        decreases v@.len() - q,
    {
        q = q + 1;
    }
    q
}

fn word_run(v: &Vec<char>, p: usize) -> (r: usize)
    requires
        p <= v@.len(),
    ensures
        r == word_run_end(v@, p as nat),
{
    let mut q = p;
    while q < v.len() && is_word(v[q])
        invariant
            p <= q <= v@.len(),
            word_run_end(v@, p as nat) == word_run_end(v@, q as nat),
        decreases v@.len() - q,
    {
        q = q + 1;
    }
    q
}

fn boundary(v: &Vec<char>, q: usize) -> (r: bool)
    ensures
        r == boundary_at(v@, q as nat),
{
    q >= v.len() || !is_word(v[q])
}

fn list_run(v: &Vec<char>, q: usize) -> (r: usize)
    requires
        q <= v@.len(),
    ensures
        r == list_end(v@, q as nat),
{
    let mut e = q;
    loop
        invariant
            q <= e <= v@.len(),
            list_end(v@, q as nat) == list_end(v@, e as nat),
        decreases v@.len() - e,
    {
        if e < v.len() && v[e] == ',' {
            let w = word_run(v, e + 1);
            proof {
                lemma_word_run_end(v@, (e + 1) as nat);
            }
            if w > e + 1 {
                e = w;
            } else {
                return e;
            }
        } else {
            return e;
        }
    }
}

fn value_end_at(v: &Vec<char>, p: usize, kind: ValueKind) -> (r: Option<usize>)
    requires
        p <= v@.len(),
    ensures
        r matches Some(e) ==> value_end(v@, p as nat, kind) == Some(e as nat),
        r is None ==> value_end(v@, p as nat, kind) is None,
{
    match kind {
        ValueKind::Number => {
            let e = digit_run(v, p);
            proof {
                lemma_digit_run_end(v@, p as nat);
            }
            if e == p {
                return None;
            }
            if e < v.len() && v[e] == '.' {
                let f = digit_run(v, e + 1);
                proof {
                    lemma_digit_run_end(v@, (e + 1) as nat);
                }
                if f > e + 1 && boundary(v, f) {
                    return Some(f);
                }
            }
            if boundary(v, e) {
                Some(e)
            } else {
                None
            }
        },
        ValueKind::DashedDate => {
            let e1 = digit_run(v, p);
            proof {
                lemma_digit_run_end(v@, p as nat);
            }
            if !(e1 - p >= 1 && e1 - p <= 2 && e1 < v.len() && v[e1] == '-') {
                return None;
            }
            let e2 = digit_run(v, e1 + 1);
            proof {
                lemma_digit_run_end(v@, (e1 + 1) as nat);
            }
            if !(e2 - (e1 + 1) >= 1 && e2 - (e1 + 1) <= 2 && e2 < v.len() && v[e2] == '-') {
                return None;
            }
            let e3 = digit_run(v, e2 + 1);
            proof {
                lemma_digit_run_end(v@, (e2 + 1) as nat);
            }
            if e3 - (e2 + 1) == 4 && boundary(v, e3) {
                Some(e3)
            } else {
                None
            }
        },
        ValueKind::Word => {
            let e = word_run(v, p);
            proof {
                lemma_word_run_end(v@, p as nat);
            }
            if e > p {
                Some(e)
            } else {
                None
            }
        },
        ValueKind::WordList => {
            let e = word_run(v, p);
            proof {
                lemma_word_run_end(v@, p as nat);
            }
            if e > p {
                Some(list_run(v, e))
            } else {
                None
            }
        },
    }
}

fn key_matches_at(v: &Vec<char>, i: usize, key: &Vec<char>) -> (r: bool)
    requires
        i <= v@.len(),
    ensures
        r == key_at(v@, i as nat, key@),
{
    if key.len() > v.len() - i {
        return false;
    }
    if i > 0 && is_word(v[i - 1]) {
        return false;
    }
    let mut k: usize = 0;
    while k < key.len()
        invariant
            i + key@.len() <= v@.len(),
            i <= v@.len(),
            v@.len() <= usize::MAX,
            k <= key@.len(),
            forall|j: int| 0 <= j < k ==> v@[i + j] == key@[j],
        decreases key@.len() - k,
    {
        if v[i + k] != key[k] {
            assert(v@.subrange(i as int, i + key@.len())[k as int] != key@[k as int]);
            return false;
        }
        k = k + 1;
    }
    assert(v@.subrange(i as int, i + key@.len()) =~= key@);
    true
}

/// Where the value of the first occurrence of `key` with a value of the
/// given shape begins and ends.
pub fn find_value(v: &Vec<char>, key: &Vec<char>, kind: ValueKind) -> (r: Option<(usize, usize)>)
    ensures
        r matches Some((a, b)) ==> first_value(v@, key@, kind, 0) == Some((a as nat, b as nat)),
        r is None ==> first_value(v@, key@, kind, 0) is None,
        r matches Some((a, b)) ==> a <= b <= v@.len(),
{
    let mut i: usize = 0;
    while i <= v.len()
        invariant
            i <= v@.len() + 1,
            first_value(v@, key@, kind, 0) == first_value(v@, key@, kind, i as nat),
        decreases v@.len() + 1 - i,
    {
        if key_matches_at(v, i, key) {
            if let Some(e) = value_end_at(v, i + key.len(), kind) {
                proof {
                    lemma_value_end_bounds(v@, (i + key@.len()) as nat, kind);
                }
                return Some((i + key.len(), e));
            }
        }
        if i == v.len() {
            assert(first_value(v@, key@, kind, (i + 1) as nat) is None);
            return None;
        }
        i = i + 1;
    }
    None
}

pub proof fn lemma_value_end_bounds(s: Seq<char>, p: nat, kind: ValueKind)
    requires
        p <= s.len(),
    ensures
        value_end(s, p, kind) matches Some(e) ==> p <= e <= s.len(),
{
    lemma_digit_run_end(s, p);
    lemma_word_run_end(s, p);
    let e = digit_run_end(s, p);
    if e < s.len() {
        lemma_digit_run_end(s, e + 1);
        let e2 = digit_run_end(s, e + 1);
        if e2 < s.len() {
            lemma_digit_run_end(s, e2 + 1);
        }
    }
    let w = word_run_end(s, p);
    lemma_list_end(s, w);
}

} // verus!
