//! Verified text helpers: exact and ASCII-case-insensitive string
//! comparison, decimal formatting, splitting on commas and joining with
//! a comma separator. These are the string operations the adapters, the
//! reconciler and the debug printers are specified with.
use vstd::prelude::*;
use vstd::string::{StrSliceExecFns, StringExecFns};

verus! {

/// An optional text field, defaulted to the empty string.
pub open spec fn opt_or_empty(o: Option<Seq<char>>) -> Seq<char> {
    match o {
        Some(s) => s,
        None => Seq::empty(),
    }
}

/// An optional text field, defaulted to the given string.
pub open spec fn opt_or_default(o: Option<Seq<char>>, d: Seq<char>) -> Seq<char> {
    match o {
        Some(s) => s,
        None => d,
    }
}

/// An optional text field as an owned string, empty when absent.
pub fn opt_string_or_empty(o: &Option<String>) -> (r: String)
    ensures
        r@ == opt_or_empty(o.deep_view()),
{
    match o {
        Some(s) => s.clone(),
        None => String::new(),
    }
}

/// An optional text field as an owned string, the given default when
/// absent.
pub fn opt_string_or(o: &Option<String>, d: &str) -> (r: String)
    ensures
        r@ == opt_or_default(o.deep_view(), d@),
{
    match o {
        Some(s) => s.clone(),
        None => d.to_owned(),
    }
}

/// Exact character-for-character string equality.
pub fn str_eq(a: &str, b: &str) -> (r: bool)
    ensures
        r == (a@ == b@),
{
    let la = a.unicode_len();
    let lb = b.unicode_len();
    if la != lb {
        return false;
    }
    let mut i: usize = 0;
    while i < la
        invariant
            la == a@.len(),
            lb == b@.len(),
            la == lb,
            i <= la,
            forall|j: int| 0 <= j < i ==> a@[j] == b@[j],
        decreases la - i,
    {
        if a.get_char(i) != b.get_char(i) {
            return false;
        }
        i += 1;
    }
    proof {
        assert(a@ =~= b@);
    }
    true
}

/// Two characters match ignoring ASCII case: equal outright, or one is an
/// ASCII capital letter and the other its lowercase form.
pub open spec fn ieq_char(a: char, b: char) -> bool {
    ||| a == b
    ||| (65 <= a as u32 && a as u32 <= 90 && a as u32 + 32 == b as u32)
    ||| (65 <= b as u32 && b as u32 <= 90 && b as u32 + 32 == a as u32)
}

/// Whole-string ASCII-case-insensitive equality.
pub open spec fn str_ieq(a: Seq<char>, b: Seq<char>) -> bool {
    a.len() == b.len() && (forall|i: int| 0 <= i < a.len() ==> ieq_char(a[i], b[i]))
}

/// A marketplace row is eligible for publishing when its status equals
/// "active" ignoring ASCII case.
pub open spec fn spec_is_active(s: Seq<char>) -> bool {
    str_ieq(s, "active"@)
}

fn char_ieq(a: char, b: char) -> (r: bool)
    ensures
        r == ieq_char(a, b),
{
    if a == b {
        return true;
    }
    let au = a as u32;
    let bu = b as u32;
    (65 <= au && au <= 90 && au + 32 == bu) || (65 <= bu && bu <= 90 && bu + 32 == au)
}

/// Case-insensitive eligibility test on a status field.
pub fn is_active_status(s: &str) -> (r: bool)
    ensures
        r == spec_is_active(s@),
{
    let pat = "active";
    proof {
        assert(pat@ =~= "active"@);
    }
    let n = s.unicode_len();
    let pn = pat.unicode_len();
    if n != pn {
        return false;
    }
    let mut i: usize = 0;
    while i < n
        invariant
            n == s@.len(),
            pn == pat@.len(),
            pat@ == "active"@,
            n == pn,
            i <= n,
            forall|j: int| 0 <= j < i ==> ieq_char(s@[j], pat@[j]),
        decreases n - i,
    {
        if !char_ieq(s.get_char(i), pat.get_char(i)) {
            proof {
                assert(!ieq_char(s@[i as int], "active"@[i as int]));
            }
            return false;
        }
        i += 1;
    }
    true
}

/// The decimal digit character for a value below ten.
pub open spec fn spec_dec_digit(d: nat) -> char
    recommends
        d < 10,
{
    if d == 0 {
        '0'
    } else if d == 1 {
        '1'
    } else if d == 2 {
        '2'
    } else if d == 3 {
        '3'
    } else if d == 4 {
        '4'
    } else if d == 5 {
        '5'
    } else if d == 6 {
        '6'
    } else if d == 7 {
        '7'
    } else if d == 8 {
        '8'
    } else {
        '9'
    }
}

/// The usual decimal rendering of a natural number, no sign, no leading
/// zeros (except for zero itself).
pub open spec fn spec_dec(n: nat) -> Seq<char>
    decreases n,
{
    if n < 10 {
        seq![spec_dec_digit(n)]
    } else {
        spec_dec(n / 10).push(spec_dec_digit(n % 10))
    }
}

fn dec_digit_str(d: u32) -> (r: &'static str)
    requires
        d < 10,
    ensures
        r@ =~= seq![spec_dec_digit(d as nat)],
{
    if d == 0 {
        proof {
            reveal_strlit("0");
        }
        "0"
    } else if d == 1 {
        proof {
            reveal_strlit("1");
        }
        "1"
    } else if d == 2 {
        proof {
            reveal_strlit("2");
        }
        "2"
    } else if d == 3 {
        proof {
            reveal_strlit("3");
        }
        "3"
    } else if d == 4 {
        proof {
            reveal_strlit("4");
        }
        "4"
    } else if d == 5 {
        proof {
            reveal_strlit("5");
        }
        "5"
    } else if d == 6 {
        proof {
            reveal_strlit("6");
        }
        "6"
    } else if d == 7 {
        proof {
            reveal_strlit("7");
        }
        "7"
    } else if d == 8 {
        proof {
            reveal_strlit("8");
        }
        "8"
    } else {
        proof {
            reveal_strlit("9");
        }
        "9"
    }
}

/// Renders an unsigned number in decimal.
pub fn u32_dec(n: u32) -> (r: String)
    ensures
        r@ == spec_dec(n as nat),
    decreases n,
{
    if n < 10 {
        dec_digit_str(n).to_owned()
    } else {
        let mut s = u32_dec(n / 10);
        s.append(dec_digit_str(n % 10));
        proof {
            assert(spec_dec((n / 10) as nat).push(spec_dec_digit((n % 10) as nat)) =~= spec_dec(
                (n / 10) as nat,
            ) + seq![spec_dec_digit((n % 10) as nat)]);
        }
        s
    }
}

/// What Rust's `split(',')` produces: the (possibly empty) stretches of
/// the string between commas, in order. The empty string splits into one
/// empty piece.
pub open spec fn spec_split_commas(s: Seq<char>) -> Seq<Seq<char>>
    decreases s.len(),
{
    if s.len() == 0 {
        seq![Seq::<char>::empty()]
    } else if s.last() == ',' {
        spec_split_commas(s.drop_last()).push(Seq::empty())
    } else {
        let r = spec_split_commas(s.drop_last());
        r.update(r.len() - 1, r.last().push(s.last()))
    }
}

/// Splits a string at every comma, keeping empty pieces.
pub fn split_commas(s: &str) -> (r: Vec<String>)
    ensures
        r.deep_view() == spec_split_commas(s@),
{
    let n = s.unicode_len();
    let mut out: Vec<String> = Vec::new();
    let mut start: usize = 0;
    let mut i: usize = 0;
    proof {
        assert(out.deep_view().push(s@.subrange(0, 0)) =~~= spec_split_commas(s@.take(0)));
    }
    while i < n
        invariant
            n == s@.len(),
            start <= i <= n,
            out.deep_view().push(s@.subrange(start as int, i as int)) == spec_split_commas(
                s@.take(i as int),
            ),
        decreases n - i,
    {
        let ghost prev = out.deep_view();
        let ghost piece = s@.subrange(start as int, i as int);
        proof {
            assert(s@.take(i as int + 1).drop_last() =~= s@.take(i as int));
            assert(s@.take(i as int + 1).last() == s@[i as int]);
        }
        let c = s.get_char(i);
        if c == ',' {
            let piece_str = s.substring_char(start, i);
            out.push(piece_str.to_owned());
            start = i + 1;
            proof {
                assert(out.deep_view() =~~= prev.push(piece));
                assert(spec_split_commas(s@.take(i as int + 1)) == prev.push(piece).push(
                    Seq::empty(),
                ));
                assert(s@.subrange(start as int, i as int + 1) =~= Seq::<char>::empty());
                assert(out.deep_view().push(s@.subrange(start as int, i as int + 1))
                    =~~= spec_split_commas(s@.take(i as int + 1)));
            }
        } else {
            proof {
                let r0 = spec_split_commas(s@.take(i as int));
                assert(r0 == prev.push(piece));
                assert(r0.len() >= 1);
                assert(r0.update(r0.len() - 1, r0.last().push(s@[i as int])) =~~= prev.push(
                    piece.push(s@[i as int]),
                ));
                assert(piece.push(s@[i as int]) =~= s@.subrange(start as int, i as int + 1));
                assert(out.deep_view().push(s@.subrange(start as int, i as int + 1))
                    =~~= spec_split_commas(s@.take(i as int + 1)));
            }
        }
        i += 1;
    }
    let last_piece = s.substring_char(start, n);
    let ghost prev = out.deep_view();
    out.push(last_piece.to_owned());
    proof {
        assert(s@.take(n as int) =~= s@);
        assert(out.deep_view() =~~= prev.push(s@.subrange(start as int, n as int)));
    }
    out
}

/// Joining a sequence of labels, writing each label followed by a comma
/// and a space, so a trailing separator remains — the form the
/// storefront adapter stores its category field in.
pub open spec fn spec_join_comma_space(items: Seq<Seq<char>>) -> Seq<char>
    decreases items.len(),
{
    if items.len() == 0 {
        Seq::empty()
    } else {
        spec_join_comma_space(items.drop_last()) + items.last() + ", "@
    }
}

/// Joins labels with a trailing ", " after each one.
pub fn join_comma_space(items: &Vec<String>) -> (r: String)
    ensures
        r@ == spec_join_comma_space(items.deep_view()),
{
    let mut out = String::new();
    let mut i: usize = 0;
    while i < items.len()
        invariant
            i <= items@.len(),
            out@ =~= spec_join_comma_space(items.deep_view().take(i as int)),
        decreases items@.len() - i,
    {
        out.append(items[i].as_str());
        out.append(", ");
        proof {
            assert(items.deep_view().take(i as int + 1).drop_last() =~= items.deep_view().take(
                i as int,
            ));
            assert(items.deep_view().take(i as int + 1).last() == items[i as int]@);
        }
        i += 1;
    }
    proof {
        assert(items.deep_view().take(items@.len() as int) =~= items.deep_view());
    }
    out
}

} // verus!
