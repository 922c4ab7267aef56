//! Canonical textual form of the element types a dataset can hold.
//!
//! The heart of the module is a verified decimal formatter: [`u64_to_text`]
//! and [`i64_to_text`] produce exactly the digit sequences described by the
//! spec functions [`dec_nat`] and [`dec_int`]. The [`Stringifiable`] trait
//! then gives every supported element type a canonical string form.

use vstd::prelude::*;

verus! {

/// The character for one decimal digit value.
pub open spec fn digit_char(d: int) -> char {
    if d == 0 {
        '0'
    } else if d == 1 {
        '1'
    } else if d == 2 {
        '2'
    } else if d == 3 {
        '3'
    } else if d == 4 {
        '4'
    } else if d == 5 {
        '5'
    } else if d == 6 {
        '6'
    } else if d == 7 {
        '7'
    } else if d == 8 {
        '8'
    } else {
        '9'
    }
}

/// The canonical decimal rendering of a natural number: no sign, no leading
/// zeros (except for the number zero itself, rendered as "0").
pub open spec fn dec_nat(n: nat) -> Seq<char>
    decreases n,
{
    if n < 10 {
        seq![digit_char(n as int)]
    } else {
        dec_nat(n / 10).push(digit_char((n % 10) as int))
    }
}

/// The canonical decimal rendering of an integer: a '-' sign for negative
/// numbers, then the rendering of the magnitude.
pub open spec fn dec_int(n: int) -> Seq<char> {
    if n < 0 {
        seq!['-'] + dec_nat((-n) as nat)
    } else {
        dec_nat(n as nat)
    }
}

/// The single-character string for one decimal digit value.
fn digit_str(d: u64) -> (r: &'static str)
    requires
        d < 10,
    ensures
        r@ == seq![digit_char(d as int)],
{
    proof {
        reveal_strlit("0");
        reveal_strlit("1");
        reveal_strlit("2");
        reveal_strlit("3");
        reveal_strlit("4");
        reveal_strlit("5");
        reveal_strlit("6");
        reveal_strlit("7");
        reveal_strlit("8");
        reveal_strlit("9");
    }
    match d {
        0 => "0",
        1 => "1",
        2 => "2",
        3 => "3",
        4 => "4",
        5 => "5",
        6 => "6",
        7 => "7",
        8 => "8",
        _ => "9",
    }
}

proof fn lemma_reverse_push<A>(s: Seq<A>, x: A)
    ensures
        s.push(x).reverse() == seq![x] + s.reverse(),
{
    assert(s.push(x).reverse() =~= seq![x] + s.reverse());
}

/// The canonical decimal form of an unsigned number.
pub fn u64_to_text(n: u64) -> (r: String)
    ensures
        r@ == dec_nat(n as nat),
{
    let mut digits: Vec<u64> = Vec::new();
    let mut m: u64 = n;
    loop
        invariant_except_break
            dec_nat(n as nat) == dec_nat(m as nat) + digits@.map_values(
                |d: u64| digit_char(d as int),
            ).reverse(),
            forall|i: int| 0 <= i < digits@.len() ==> digits@[i] < 10,
        ensures
            dec_nat(n as nat) == digits@.map_values(|d: u64| digit_char(d as int)).reverse(),
            forall|i: int| 0 <= i < digits@.len() ==> digits@[i] < 10,
        decreases m,
    {
        let d: u64 = m % 10;
        let ghost cs = digits@.map_values(|dd: u64| digit_char(dd as int));
        digits.push(d);
        proof {
            let cs2 = digits@.map_values(|dd: u64| digit_char(dd as int));
            assert(cs2 =~= cs.push(digit_char(d as int)));
            lemma_reverse_push(cs, digit_char(d as int));
        }
        if m < 10 {
            proof {
                assert(dec_nat(m as nat) =~= seq![digit_char(d as int)]);
                assert(dec_nat(n as nat) =~= digits@.map_values(
                    |dd: u64| digit_char(dd as int),
                ).reverse());
            }
            break;
        }
        proof {
            let cs2 = digits@.map_values(|dd: u64| digit_char(dd as int));
            assert(dec_nat(m as nat) == dec_nat((m / 10) as nat).push(
                digit_char((m % 10) as int),
            ));
            assert(dec_nat(m as nat) + cs.reverse() =~= dec_nat((m / 10) as nat)
                + cs2.reverse());
        }
        m = m / 10;
    }
    let ghost chars = digits@.map_values(|dd: u64| digit_char(dd as int));
    let mut s = String::new();
    let mut j: usize = digits.len();
    while j > 0
        invariant
            j <= digits@.len(),
            forall|i: int| 0 <= i < digits@.len() ==> digits@[i] < 10,
            chars == digits@.map_values(|dd: u64| digit_char(dd as int)),
            s@ == chars.reverse().take(digits@.len() - j),
        decreases j,
    {
        j = j - 1;
        let d: u64 = digits[j];
        s.append(digit_str(d));
        proof {
            let len = digits@.len() as int;
            assert(chars.reverse()[len - 1 - j] == chars[j as int]);
            assert(chars.reverse().take(len - j) =~= chars.reverse().take(len - j - 1).push(
                chars.reverse()[len - 1 - j],
            ));
        }
    }
    proof {
        assert(s@ =~= chars.reverse());
    }
    s
}

/// The canonical decimal form of a signed number.
pub fn i64_to_text(n: i64) -> (r: String)
    ensures
        r@ == dec_int(n as int),
{
    if n >= 0 {
        u64_to_text(n as u64)
    } else {
        let mag: u64 = ((-(n + 1)) as u64) + 1;
        proof {
            reveal_strlit("-");
        }
        let mut s = String::from_str("-");
        let rest = u64_to_text(mag);
        s.append(rest.as_str());
        proof {
            assert(mag as int == -(n as int));
            assert(s@ =~= dec_int(n as int));
        }
        s
    }
}

/// A type with a canonical, total string form.
pub trait Stringifiable {
    /// The canonical text of the value.
    spec fn text(&self) -> Seq<char>;

    /// Render the value as its canonical text.
    fn to_text(&self) -> (r: String)
        ensures
            r@ == self.text(),
    ;
}

impl Stringifiable for u64 {
    open spec fn text(&self) -> Seq<char> {
        dec_nat(*self as nat)
    }

    fn to_text(&self) -> (r: String) {
        u64_to_text(*self)
    }
}

impl Stringifiable for i64 {
    open spec fn text(&self) -> Seq<char> {
        dec_int(*self as int)
    }

    fn to_text(&self) -> (r: String) {
        i64_to_text(*self)
    }
}

impl Stringifiable for u32 {
    open spec fn text(&self) -> Seq<char> {
        dec_nat(*self as nat)
    }

    fn to_text(&self) -> (r: String) {
        u64_to_text(*self as u64)
    }
}

impl Stringifiable for i32 {
    open spec fn text(&self) -> Seq<char> {
        dec_int(*self as int)
    }

    fn to_text(&self) -> (r: String) {
        i64_to_text(*self as i64)
    }
}

impl Stringifiable for u16 {
    open spec fn text(&self) -> Seq<char> {
        dec_nat(*self as nat)
    }

    fn to_text(&self) -> (r: String) {
        u64_to_text(*self as u64)
    }
}

impl Stringifiable for i16 {
    open spec fn text(&self) -> Seq<char> {
        dec_int(*self as int)
    }

    fn to_text(&self) -> (r: String) {
        i64_to_text(*self as i64)
    }
}

impl Stringifiable for u8 {
    open spec fn text(&self) -> Seq<char> {
        dec_nat(*self as nat)
    }

    fn to_text(&self) -> (r: String) {
        u64_to_text(*self as u64)
    }
}

impl Stringifiable for i8 {
    open spec fn text(&self) -> Seq<char> {
        dec_int(*self as int)
    }

    fn to_text(&self) -> (r: String) {
        i64_to_text(*self as i64)
    }
}

impl Stringifiable for usize {
    open spec fn text(&self) -> Seq<char> {
        dec_nat(*self as nat)
    }

    fn to_text(&self) -> (r: String) {
        u64_to_text(*self as u64)
    }
}

impl Stringifiable for isize {
    open spec fn text(&self) -> Seq<char> {
        dec_int(*self as int)
    }

    fn to_text(&self) -> (r: String) {
        i64_to_text(*self as i64)
    }
}

impl Stringifiable for bool {
    open spec fn text(&self) -> Seq<char> {
        if *self {
            "true"@
        } else {
            "false"@
        }
    }

    fn to_text(&self) -> (r: String) {
        if *self {
            String::from_str("true")
        } else {
            String::from_str("false")
        }
    }
}

/// Relies on `String::from` for `char`: the allocated string holds exactly
/// the one given character.
#[verifier::external_body]
pub(crate) fn char_to_string(c: char) -> (r: String)
    ensures
        r@ == seq![c],
{
    String::from(c)
}

impl Stringifiable for char {
    open spec fn text(&self) -> Seq<char> {
        seq![*self]
    }

    fn to_text(&self) -> (r: String) {
        char_to_string(*self)
    }
}

impl Stringifiable for String {
    open spec fn text(&self) -> Seq<char> {
        self@
    }

    fn to_text(&self) -> (r: String) {
        self.clone()
    }
}

impl Stringifiable for &str {
    open spec fn text(&self) -> Seq<char> {
        (*self)@
    }

    fn to_text(&self) -> (r: String) {
        (*self).to_owned()
    }
}

} // verus!
