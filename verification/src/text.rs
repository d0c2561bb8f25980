//! Character-level string operations used for names of executables,
//! containers and generated files: lowercasing, separator replacement,
//! prefix stripping and decimal rendering of preset indices.

use vstd::prelude::*;
use vstd::string::StrSliceExecFns;

verus! {

/// The lowercase form of a string, as `str::to_lowercase` computes it.
pub uninterp spec fn lower_of(s: Seq<char>) -> Seq<char>;

/// Relies on `str::to_lowercase`: the result depends on the input
/// characters alone (Unicode lowercasing), and an empty input stays empty.
#[verifier::external_body]
pub fn lowercase(s: &str) -> (r: String)
    ensures
        r@ == lower_of(s@),
        s@.len() == 0 ==> r@.len() == 0,
{
    s.to_lowercase()
}

/// Relies on `String`'s `FromIterator<char>` impl: collecting characters
/// yields the string of exactly those characters, in order.
#[verifier::external_body]
pub fn string_from_chars(v: &Vec<char>) -> (r: String)
    ensures
        r@ == v@,
{
    v.iter().collect()
}

/// Every space replaced by an underscore.
pub open spec fn space_to_underscore(s: Seq<char>) -> Seq<char> {
    s.map_values(|c: char| if c == ' ' { '_' } else { c })
}

/// Every space and every slash replaced by an underscore.
pub open spec fn slug_of(s: Seq<char>) -> Seq<char> {
    s.map_values(|c: char| if c == ' ' || c == '/' { '_' } else { c })
}

/// Every dot replaced by an underscore.
pub open spec fn dots_to_underscores(s: Seq<char>) -> Seq<char> {
    s.map_values(|c: char| if c == '.' { '_' } else { c })
}

/// The string with every question mark removed.
pub open spec fn without_question_marks(s: Seq<char>) -> Seq<char> {
    s.filter(|c: char| c != '?')
}

pub fn replace_spaces(s: &str) -> (r: String)
    ensures
        r@ == space_to_underscore(s@),
{
    let n = s.unicode_len();
    let mut v: Vec<char> = Vec::new();
    let mut i: usize = 0;
    while i < n
        invariant
            n == s@.len(),
            i <= n,
            v@ =~= space_to_underscore(s@.subrange(0, i as int)),
        decreases n - i,
    {
        let c = s.get_char(i);
        v.push(if c == ' ' { '_' } else { c });
        proof {
            assert(v@ =~= space_to_underscore(s@.subrange(0, i + 1 as int)));
        }
        i += 1;
    }
    proof {
        assert(s@.subrange(0, n as int) =~= s@);
    }
    string_from_chars(&v)
}

pub fn replace_separators(s: &str) -> (r: String)
    ensures
        r@ == slug_of(s@),
{
    let n = s.unicode_len();
    let mut v: Vec<char> = Vec::new();
    let mut i: usize = 0;
    while i < n
        invariant
            n == s@.len(),
            i <= n,
            v@ =~= slug_of(s@.subrange(0, i as int)),
        decreases n - i,
    {
        let c = s.get_char(i);
        v.push(if c == ' ' || c == '/' { '_' } else { c });
        proof {
            assert(v@ =~= slug_of(s@.subrange(0, i + 1 as int)));
        }
        i += 1;
    }
    proof {
        assert(s@.subrange(0, n as int) =~= s@);
    }
    string_from_chars(&v)
}

pub fn replace_dots(s: &str) -> (r: String)
    ensures
        r@ == dots_to_underscores(s@),
{
    let n = s.unicode_len();
    let mut v: Vec<char> = Vec::new();
    let mut i: usize = 0;
    while i < n
        invariant
            n == s@.len(),
            i <= n,
            v@ =~= dots_to_underscores(s@.subrange(0, i as int)),
        decreases n - i,
    {
        let c = s.get_char(i);
        v.push(if c == '.' { '_' } else { c });
        proof {
            assert(v@ =~= dots_to_underscores(s@.subrange(0, i + 1 as int)));
        }
        i += 1;
    }
    proof {
        assert(s@.subrange(0, n as int) =~= s@);
    }
    string_from_chars(&v)
}

pub fn remove_question_marks(s: &str) -> (r: String)
    ensures
        r@ == without_question_marks(s@),
{
    let n = s.unicode_len();
    let mut v: Vec<char> = Vec::new();
    let mut i: usize = 0;
    proof {
        reveal(Seq::<_>::filter);
    }
    while i < n
        invariant
            n == s@.len(),
            i <= n,
            v@ =~= without_question_marks(s@.subrange(0, i as int)),
        decreases n - i,
    {
        let c = s.get_char(i);
        if c != '?' {
            v.push(c);
        }
        proof {
            reveal(Seq::<_>::filter);
            let pre = s@.subrange(0, i + 1 as int);
            assert(pre.drop_last() =~= s@.subrange(0, i as int));
            assert(v@ =~= without_question_marks(pre));
        }
        i += 1;
    }
    proof {
        assert(s@.subrange(0, n as int) =~= s@);
    }
    string_from_chars(&v)
}

/// Character-by-character string equality.
pub fn str_eq(a: &str, b: &str) -> (r: bool)
    ensures
        r == (a@ == b@),
{
    let na = a.unicode_len();
    let nb = b.unicode_len();
    if na != nb {
        return false;
    }
    let mut i: usize = 0;
    while i < na
        invariant
            i <= na,
            na == a@.len(),
            na == b@.len(),
            forall|j: int| 0 <= j < i ==> a@[j] == b@[j],
        decreases na - i,
    {
        if a.get_char(i) != b.get_char(i) {
            return false;
        }
        i += 1;
    }
    proof {
        assert(a@ =~= b@);
    }
    true
}

/// Whether `p` is a prefix of `s`.
pub open spec fn has_prefix(s: Seq<char>, p: Seq<char>) -> bool {
    s.len() >= p.len() && s.subrange(0, p.len() as int) == p
}

/// The string after a required prefix, or `None` where the prefix is absent.
pub fn strip_prefix_str(s: &str, prefix: &str) -> (r: Option<String>)
    ensures
        has_prefix(s@, prefix@) ==> (r matches Some(rest) && rest@ == s@.skip(
            prefix@.len() as int,
        )),
        !has_prefix(s@, prefix@) ==> r is None,
{
    let n = s.unicode_len();
    let np = prefix.unicode_len();
    if n < np {
        return None;
    }
    let mut i: usize = 0;
    while i < np
        invariant
            i <= np,
            np <= n,
            n == s@.len(),
            np == prefix@.len(),
            forall|j: int| 0 <= j < i ==> s@[j] == prefix@[j],
        decreases np - i,
    {
        if s.get_char(i) != prefix.get_char(i) {
            proof {
                assert(!has_prefix(s@, prefix@)) by {
                    if s@.subrange(0, prefix@.len() as int) == prefix@ {
                        assert(s@.subrange(0, prefix@.len() as int)[i as int] == s@[i as int]);
                    }
                }
            }
            return None;
        }
        i += 1;
    }
    proof {
        assert(s@.subrange(0, prefix@.len() as int) =~= prefix@);
    }
    let rest = s.substring_char(np, n);
    proof {
        assert(rest@ =~= s@.skip(prefix@.len() as int));
    }
    Some(rest.to_owned())
}

/// The part of a path after its last slash: the file's own name.
pub open spec fn after_last_slash(s: Seq<char>) -> Seq<char>
    decreases s.len(),
{
    if s.len() == 0 {
        s
    } else if s.last() == '/' {
        Seq::empty()
    } else {
        after_last_slash(s.drop_last()).push(s.last())
    }
}

/// The file-name component of a slash-separated path.
pub fn file_name_component(path: &str) -> (r: String)
    ensures
        r@ == after_last_slash(path@),
{
    let n = path.unicode_len();
    let mut v: Vec<char> = Vec::new();
    let mut i: usize = 0;
    while i < n
        invariant
            i <= n,
            n == path@.len(),
            v@ =~= after_last_slash(path@.subrange(0, i as int)),
        decreases n - i,
    {
        let c = path.get_char(i);
        if c == '/' {
            v.clear();
        } else {
            v.push(c);
        }
        proof {
            let pre = path@.subrange(0, i + 1 as int);
            assert(pre.drop_last() =~= path@.subrange(0, i as int));
            assert(v@ =~= after_last_slash(pre));
        }
        i += 1;
    }
    proof {
        assert(path@.subrange(0, n as int) =~= path@);
    }
    string_from_chars(&v)
}

/// The digit character for one decimal digit.
pub open spec fn digit_char(d: nat) -> char
    recommends
        d < 10,
{
    ((48 + d) as u8) as char
}

/// The decimal rendering of a natural number, most significant digit first.
pub open spec fn dec_digits(n: nat) -> Seq<char>
    decreases n,
{
    if n < 10 {
        seq![digit_char(n)]
    } else {
        dec_digits(n / 10).push(digit_char(n % 10))
    }
}

/// The numeric value of one digit character.
pub open spec fn digit_val(c: char) -> nat {
    ((c as u32) - 48) as nat
}

/// The number a digit string denotes, read left to right.
pub open spec fn undec(s: Seq<char>) -> nat
    decreases s.len(),
{
    if s.len() == 0 {
        0
    } else {
        undec(s.drop_last()) * 10 + digit_val(s.last())
    }
}

/// Reading a decimal rendering back gives the number it was made from.
pub proof fn lemma_undec_dec(n: nat)
    ensures
        undec(dec_digits(n)) == n,
    decreases n,
{
    if n < 10 {
        let s = dec_digits(n);
        assert(s =~= seq![digit_char(n)]);
        assert(s.drop_last() =~= Seq::<char>::empty());
        assert(undec(s.drop_last()) == 0);
        assert((48 + n) as u8 as char as u32 == 48 + n);
        assert(digit_val(digit_char(n)) == n);
    } else {
        lemma_undec_dec(n / 10);
        let s = dec_digits(n);
        assert(s.drop_last() =~= dec_digits(n / 10));
        assert(digit_val(digit_char(n % 10)) == n % 10);
        assert(n / 10 * 10 + n % 10 == n) by {
            vstd::arithmetic::div_mod::lemma_fundamental_div_mod(n as int, 10);
        }
    }
}

/// Distinct numbers have distinct decimal renderings.
pub proof fn lemma_dec_digits_injective(a: nat, b: nat)
    requires
        dec_digits(a) == dec_digits(b),
    ensures
        a == b,
{
    lemma_undec_dec(a);
    lemma_undec_dec(b);
}

fn digit_char_exec(d: usize) -> (c: char)
    requires
        d < 10,
    ensures
        c == digit_char(d as nat),
{
    ((48 + d) as u8) as char
}

/// Appends the decimal rendering of `n` to `v`.
pub fn push_decimal(n: usize, v: &mut Vec<char>)
    ensures
        final (v)@ == old(v)@ + dec_digits(n as nat),
    decreases n,
{
    if n < 10 {
        v.push(digit_char_exec(n));
        proof {
            assert(v@ =~= old(v)@ + dec_digits(n as nat));
        }
    } else {
        push_decimal(n / 10, v);
        v.push(digit_char_exec(n % 10));
        proof {
            assert(v@ =~= old(v)@ + dec_digits(n as nat));
        }
    }
}

} // verus!
