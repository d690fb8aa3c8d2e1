//! Decimal numerals as they appear in probe output.
//!
//! Counters (`64`, `117`) are read into `u32`, and written back out as
//! text. Measurements with a fractional part (`0.8`, `12.345`) are kept as
//! validated text in a [`Decimal`], so that no precision is lost before a
//! caller picks a numeric type for them.

use vstd::prelude::*;
use vstd::string::StringExecFns;

verus! {

/// `c` is one of the ten ASCII digits.
pub open spec fn is_digit(c: char) -> bool {
    '0' <= c <= '9'
}

/// The number a digit stands for.
pub open spec fn digit_value(c: char) -> nat {
    (c as u32 - '0' as u32) as nat
}

/// Every character of `s` is an ASCII digit.
pub open spec fn all_digits(s: Seq<char>) -> bool {
    forall|i: int| 0 <= i < s.len() ==> is_digit(#[trigger] s[i])
}

/// The number written by a sequence of digits, most significant first.
pub open spec fn decimal_value(s: Seq<char>) -> nat
    decreases s.len(),
{
    if s.len() == 0 {
        0
    } else {
        decimal_value(s.drop_last()) * 10 + digit_value(s.last())
    }
}

/// What a counter field reads as: the digits' value when the text is a
/// non-empty run of ASCII digits that fits in 32 bits, nothing otherwise.
pub open spec fn counter_of(s: Seq<char>) -> Option<u32> {
    if s.len() > 0 && all_digits(s) && decimal_value(s) <= u32::MAX {
        Some(decimal_value(s) as u32)
    } else {
        None
    }
}

/// How many decimal points `s` holds.
pub open spec fn point_count(s: Seq<char>) -> nat
    decreases s.len(),
{
    if s.len() == 0 {
        0
    } else {
        point_count(s.drop_last()) + if s.last() == '.' { 1nat } else { 0nat }
    }
}

/// How many ASCII digits `s` holds.
pub open spec fn digit_count(s: Seq<char>) -> nat
    decreases s.len(),
{
    if s.len() == 0 {
        0
    } else {
        digit_count(s.drop_last()) + if is_digit(s.last()) { 1nat } else { 0nat }
    }
}

/// Every character of `s` is an ASCII digit or a decimal point.
pub open spec fn digits_and_points(s: Seq<char>) -> bool {
    forall|i: int| 0 <= i < s.len() ==> is_digit(#[trigger] s[i]) || s[i] == '.'
}

/// `s` is a plain decimal numeral: ASCII digits with at most one decimal
/// point among them, and at least one digit (`3`, `0.8`, `5.`, `.5`).
pub open spec fn is_decimal(s: Seq<char>) -> bool {
    &&& digits_and_points(s)
    &&& point_count(s) <= 1
    &&& digit_count(s) >= 1
}

/// Growing a digit string never lowers its value.
proof fn lemma_value_grows(s: Seq<char>, k: int)
    requires
        0 <= k <= s.len(),
    ensures
        decimal_value(s.take(k)) <= decimal_value(s),
    decreases s.len() - k,
{
    if k == s.len() {
        assert(s.take(k) =~= s);
    } else {
        lemma_value_grows(s.drop_last(), k);
        assert(s.drop_last().take(k) =~= s.take(k));
    }
}

/// Reads a counter field.
pub fn parse_counter(text: &str) -> (value: Option<u32>)
    ensures
        value == counter_of(text@),
{
    let mut acc: u64 = 0;
    let mut seen: bool = false;
    for c in it: text.chars()
        invariant
            it.seq() == text@,
            all_digits(text@.take(it.index() as int)),
            acc == decimal_value(text@.take(it.index() as int)),
            acc <= u32::MAX,
            seen == (it.index() > 0),
    {
        let ghost before = text@.take(it.index() as int);
        let ghost after = text@.take(it.index() + 1);
        proof {
            assert(c == text@[it.index() as int]);
            assert(after.drop_last() =~= before);
            assert(after.last() == c);
        }
        if !(c >= '0' && c <= '9') {
            assert(!is_digit(text@[it.index() as int]));
            return None;
        }
        let next: u64 = acc * 10 + (c as u32 - '0' as u32) as u64;
        proof {
            assert(next == decimal_value(after));
            assert(forall|i: int| 0 <= i < after.len() ==> is_digit(#[trigger] after[i])) by {
                assert(forall|i: int| 0 <= i < before.len() ==> before[i] == after[i]);
            }
        }
        if next > u32::MAX as u64 {
            proof {
                lemma_value_grows(text@, it.index() + 1);
            }
            return None;
        }
        acc = next;
        seen = true;
    }
    assert(text@.take(text@.len() as int) =~= text@);
    if seen {
        Some(acc as u32)
    } else {
        None
    }
}

/// A measurement as it was printed: a plain decimal numeral.
#[derive(Debug)]
pub struct Decimal {
    text: String,
}

impl View for Decimal {
    type V = Seq<char>;

    closed spec fn view(&self) -> Seq<char> {
        self.text@
    }
}

impl Decimal {
    #[verifier::type_invariant]
    spec fn well_formed(&self) -> bool {
        is_decimal(self.text@)
    }

    /// Reads a measurement field: the text itself when it is a plain
    /// decimal numeral, nothing otherwise.
    pub fn parse(text: &str) -> (value: Option<Decimal>)
        ensures
            value is Some <==> is_decimal(text@),
            value matches Some(d) ==> d@ == text@,
    {
        let mut points: usize = 0;
        let mut digits: bool = false;
        for c in it: text.chars()
            invariant
                it.seq() == text@,
                digits_and_points(text@.take(it.index() as int)),
                points == point_count(text@.take(it.index() as int)),
                points <= 1,
                digits == (digit_count(text@.take(it.index() as int)) >= 1),
        {
            let ghost before = text@.take(it.index() as int);
            let ghost after = text@.take(it.index() + 1);
            proof {
                assert(c == text@[it.index() as int]);
                assert(after.drop_last() =~= before);
                assert(after.last() == c);
                assert(forall|i: int| 0 <= i < before.len() ==> before[i] == after[i]);
            }
            if c == '.' {
                if points == 1 {
                    proof {
                        lemma_points_grow(text@, it.index() + 1);
                    }
                    return None;
                }
                points = points + 1;
            } else if c >= '0' && c <= '9' {
                digits = true;
            } else {
                assert(!(is_digit(text@[it.index() as int]) || text@[it.index() as int] == '.'));
                return None;
            }
        }
        assert(text@.take(text@.len() as int) =~= text@);
        if digits {
            Some(Decimal { text: text.to_owned() })
        } else {
            None
        }
    }

    /// The numeral as printed.
    pub fn as_str(&self) -> (text: &str)
        ensures
            text@ == self@,
            is_decimal(self@),
    {
        proof {
            use_type_invariant(self);
        }
        self.text.as_str()
    }
}

/// Growing a string never lowers its number of decimal points.
proof fn lemma_points_grow(s: Seq<char>, k: int)
    requires
        0 <= k <= s.len(),
    ensures
        point_count(s.take(k)) <= point_count(s),
    decreases s.len() - k,
{
    if k == s.len() {
        assert(s.take(k) =~= s);
    } else {
        lemma_points_grow(s.drop_last(), k);
        assert(s.drop_last().take(k) =~= s.take(k));
    }
}

/// The digit that stands for a number below ten.
pub open spec fn digit_char(d: nat) -> char {
    if d == 0 {
        '0'
    } else if d == 1 {
        '1'
    } else if d == 2 {
        '2'
    } else if d == 3 {
        '3'
    } else if d == 4 {
        '4'
    } else if d == 5 {
        '5'
    } else if d == 6 {
        '6'
    } else if d == 7 {
        '7'
    } else if d == 8 {
        '8'
    } else {
        '9'
    }
}

/// A number written in decimal digits, without leading zeros.
pub open spec fn decimal_text(n: nat) -> Seq<char>
    decreases n,
{
    if n < 10 {
        seq![digit_char(n)]
    } else {
        decimal_text(n / 10).push(digit_char(n % 10))
    }
}

fn digit_text(d: u32) -> (text: &'static str)
    requires
        d < 10,
    ensures
        text@ == seq![digit_char(d as nat)],
{
    proof {
        reveal_strlit("0");
        reveal_strlit("1");
        reveal_strlit("2");
        reveal_strlit("3");
        reveal_strlit("4");
        reveal_strlit("5");
        reveal_strlit("6");
        reveal_strlit("7");
        reveal_strlit("8");
        reveal_strlit("9");
    }
    let text = if d == 0 {
        "0"
    } else if d == 1 {
        "1"
    } else if d == 2 {
        "2"
    } else if d == 3 {
        "3"
    } else if d == 4 {
        "4"
    } else if d == 5 {
        "5"
    } else if d == 6 {
        "6"
    } else if d == 7 {
        "7"
    } else if d == 8 {
        "8"
    } else {
        "9"
    };
    assert(text@ =~= seq![digit_char(d as nat)]);
    text
}

/// Writes a counter in decimal digits.
pub fn counter_text(n: u32) -> (text: String)
    ensures
        text@ == decimal_text(n as nat),
    decreases n,
{
    if n < 10 {
        digit_text(n).to_owned()
    } else {
        let mut text = counter_text(n / 10);
        text.append(digit_text(n % 10));
        assert(text@ =~= decimal_text(n as nat / 10).push(digit_char(n as nat % 10)));
        text
    }
}

/// A counter that is written out reads back as itself.
pub proof fn lemma_counter_text_reads_back(n: u32)
    ensures
        counter_of(decimal_text(n as nat)) == Some(n),
{
    lemma_decimal_text_value(n as nat);
}

/// The digits of a number are digits, and their value is the number.
proof fn lemma_decimal_text_value(n: nat)
    ensures
        decimal_text(n).len() > 0,
        all_digits(decimal_text(n)),
        decimal_value(decimal_text(n)) == n,
    decreases n,
{
    let text = decimal_text(n);
    if n < 10 {
        assert(text.drop_last() =~= Seq::<char>::empty());
        assert(text.last() == digit_char(n));
        assert(decimal_value(text.drop_last()) == 0);
    } else {
        lemma_decimal_text_value(n / 10);
        let head = decimal_text(n / 10);
        assert(text.drop_last() =~= head);
        assert(text.last() == digit_char(n % 10));
        assert forall|i: int| 0 <= i < text.len() implies is_digit(#[trigger] text[i]) by {
            if i < head.len() {
                assert(text[i] == head[i]);
            }
        }
    }
}

} // verus!
