//! The date column of the password list: a calendar date written as
//! `%Y-%m-%d`, the way chrono's formatter writes it.
use vstd::prelude::*;

verus! {

/// The calendar date on which a password file was last changed.
#[derive(Clone, Copy, Debug)]
pub struct UpdateDate {
    pub year: i32,
    pub month: u32,
    pub day: u32,
}

/// The character of a decimal digit.
pub open spec fn digit_char(d: nat) -> char {
    if d == 0 { '0' }
    else if d == 1 { '1' }
    else if d == 2 { '2' }
    else if d == 3 { '3' }
    else if d == 4 { '4' }
    else if d == 5 { '5' }
    else if d == 6 { '6' }
    else if d == 7 { '7' }
    else if d == 8 { '8' }
    else { '9' }
}

/// The decimal digits of `n`, most significant first, without leading zeros.
pub open spec fn decimal(n: nat) -> Seq<char>
    decreases n,
{
    if n < 10 {
        seq![digit_char(n)]
    } else {
        decimal(n / 10).push(digit_char(n % 10))
    }
}

/// `k` copies of the character `c`.
pub open spec fn repeat_char(c: char, k: nat) -> Seq<char> {
    Seq::new(k, |_i: int| c)
}

/// `digits` with zeros in front, up to `width` characters (`{:0width$}`).
pub open spec fn zero_padded(digits: Seq<char>, width: nat) -> Seq<char> {
    if digits.len() < width {
        repeat_char('0', (width - digits.len()) as nat) + digits
    } else {
        digits
    }
}

/// `%Y`: four digits for the years 0 to 9999; any other year carries its sign
/// and at least four digits.
pub open spec fn year_text(year: int) -> Seq<char> {
    if 0 <= year < 10000 {
        zero_padded(decimal(year as nat), 4)
    } else if year >= 10000 {
        seq!['+'] + zero_padded(decimal(year as nat), 4)
    } else {
        seq!['-'] + zero_padded(decimal((-year) as nat), 4)
    }
}

/// `%Y-%m-%d` for a date.
pub open spec fn date_text(d: UpdateDate) -> Seq<char> {
    year_text(d.year as int) + seq!['-'] + zero_padded(decimal(d.month as nat), 2) + seq!['-']
        + zero_padded(decimal(d.day as nat), 2)
}

proof fn lemma_decimal_len_small(n: nat)
    requires
        n < 10000,
    ensures
        decimal(n).len() <= 4,
{
    reveal_with_fuel(decimal, 5);
}

proof fn lemma_decimal_nonempty(n: nat)
    ensures
        decimal(n).len() >= 1,
    decreases n,
{
    if n >= 10 {
        lemma_decimal_nonempty(n / 10);
    }
}

/// A date of the years 0 to 9999, with month and day below 100 (as every
/// calendar date has), is written with exactly ten characters.
pub proof fn lemma_date_text_len(d: UpdateDate)
    requires
        0 <= d.year <= 9999,
        d.month < 100,
        d.day < 100,
    ensures
        date_text(d).len() == 10,
{
    lemma_decimal_len_small(d.year as nat);
    lemma_decimal_len_small(d.month as nat);
    lemma_decimal_len_small(d.day as nat);
    lemma_decimal_nonempty(d.month as nat);
    lemma_decimal_nonempty(d.day as nat);
    reveal_with_fuel(decimal, 3);
    assert(decimal(d.month as nat).len() <= 2);
    assert(decimal(d.day as nat).len() <= 2);
}

/// The digit characters are `'0'` to `'9'`, in order.
pub proof fn lemma_digit_char(d: nat)
    requires
        d < 10,
    ensures
        digit_char(d) as int == '0' as int + d,
{
}

proof fn lemma_two_digits(n: nat)
    requires
        n < 100,
    ensures
        zero_padded(decimal(n), 2) == seq![digit_char(n / 10), digit_char(n % 10)],
{
    reveal_with_fuel(decimal, 2);
    if n < 10 {
        assert(zero_padded(decimal(n), 2) =~= seq!['0', digit_char(n)]);
    } else {
        assert(decimal(n) =~= seq![digit_char(n / 10), digit_char(n % 10)]);
    }
}

proof fn lemma_four_digits(n: nat)
    requires
        n < 10000,
    ensures
        zero_padded(decimal(n), 4) == seq![
            digit_char(n / 1000),
            digit_char((n / 100) % 10),
            digit_char((n / 10) % 10),
            digit_char(n % 10),
        ],
{
    reveal_with_fuel(decimal, 4);
    if n < 10 {
        assert(zero_padded(decimal(n), 4) =~= seq!['0', '0', '0', digit_char(n)]);
    } else if n < 100 {
        assert(decimal(n / 10) == seq![digit_char(n / 10)]);
        assert(decimal(n) =~= seq![digit_char(n / 10), digit_char(n % 10)]);
        assert(zero_padded(decimal(n), 4) =~= seq!['0', '0', digit_char(n / 10), digit_char(n % 10)]);
    } else if n < 1000 {
        assert(decimal(n / 100) == seq![digit_char(n / 100)]);
        assert(decimal(n / 10) =~= seq![digit_char(n / 100), digit_char((n / 10) % 10)]);
        assert(decimal(n) =~= seq![digit_char(n / 100), digit_char((n / 10) % 10), digit_char(n % 10)]);
        assert(zero_padded(decimal(n), 4) =~= seq![
            '0',
            digit_char(n / 100),
            digit_char((n / 10) % 10),
            digit_char(n % 10),
        ]);
    } else {
        assert(decimal(n / 1000) == seq![digit_char(n / 1000)]);
        assert((n / 10) / 10 == n / 100);
        assert((n / 100) / 10 == n / 1000);
        assert(decimal(n / 100) =~= seq![digit_char(n / 1000), digit_char((n / 100) % 10)]);
        assert(decimal(n / 10) =~= seq![
            digit_char(n / 1000),
            digit_char((n / 100) % 10),
            digit_char((n / 10) % 10),
        ]);
        assert(decimal(n) =~= seq![
            digit_char(n / 1000),
            digit_char((n / 100) % 10),
            digit_char((n / 10) % 10),
            digit_char(n % 10),
        ]);
    }
}

/// For a date of the years 0 to 9999 (and month and day below 100, as every
/// calendar date has), the text is the year's four digits, a dash, the
/// month's two digits, a dash and the day's two digits: the month always
/// stands in the middle and the day at the end.
pub proof fn lemma_date_digits(d: UpdateDate)
    requires
        0 <= d.year <= 9999,
        d.month < 100,
        d.day < 100,
    ensures
        date_text(d) == seq![
            digit_char((d.year / 1000) as nat),
            digit_char(((d.year / 100) % 10) as nat),
            digit_char(((d.year / 10) % 10) as nat),
            digit_char((d.year % 10) as nat),
            '-',
            digit_char((d.month / 10) as nat),
            digit_char((d.month % 10) as nat),
            '-',
            digit_char((d.day / 10) as nat),
            digit_char((d.day % 10) as nat),
        ],
{
    lemma_four_digits(d.year as nat);
    lemma_two_digits(d.month as nat);
    lemma_two_digits(d.day as nat);
    assert(date_text(d) =~= seq![
        digit_char((d.year / 1000) as nat),
        digit_char(((d.year / 100) % 10) as nat),
        digit_char(((d.year / 10) % 10) as nat),
        digit_char((d.year % 10) as nat),
        '-',
        digit_char((d.month / 10) as nat),
        digit_char((d.month % 10) as nat),
        '-',
        digit_char((d.day / 10) as nat),
        digit_char((d.day % 10) as nat),
    ]);
}

fn digit_str(d: u64) -> (r: &'static str)
    requires
        d < 10,
    ensures
        r@ == seq![digit_char(d as nat)],
{
    if d == 0 {
        proof { reveal_strlit("0"); }
        "0"
    } else if d == 1 {
        proof { reveal_strlit("1"); }
        "1"
    } else if d == 2 {
        proof { reveal_strlit("2"); }
        "2"
    } else if d == 3 {
        proof { reveal_strlit("3"); }
        "3"
    } else if d == 4 {
        proof { reveal_strlit("4"); }
        "4"
    } else if d == 5 {
        proof { reveal_strlit("5"); }
        "5"
    } else if d == 6 {
        proof { reveal_strlit("6"); }
        "6"
    } else if d == 7 {
        proof { reveal_strlit("7"); }
        "7"
    } else if d == 8 {
        proof { reveal_strlit("8"); }
        "8"
    } else {
        proof { reveal_strlit("9"); }
        "9"
    }
}

/// Appends the decimal digits of `n`.
fn push_decimal(s: &mut String, n: u64)
    ensures
        final(s)@ == old(s)@ + decimal(n as nat),
    decreases n,
{
    if n >= 10 {
        push_decimal(s, n / 10);
    }
    s.append(digit_str(n % 10));
    proof {
        if n >= 10 {
            assert(decimal(n as nat) == decimal((n / 10) as nat).push(digit_char((n % 10) as nat)));
        } else {
            assert(decimal(n as nat) == seq![digit_char(n as nat)]);
        }
    }
}

/// Appends `k` copies of the one-character string `c`.
pub(crate) fn push_repeated(s: &mut String, c: &str, k: usize)
    requires
        c@.len() == 1,
    ensures
        final(s)@ == old(s)@ + repeat_char(c@[0], k as nat),
{
    let mut i: usize = 0;
    while i < k
        invariant
            i <= k,
            c@.len() == 1,
            s@ == old(s)@ + repeat_char(c@[0], i as nat),
        decreases k - i,
    {
        s.append(c);
        i = i + 1;
        assert(repeat_char(c@[0], i as nat) == repeat_char(c@[0], (i - 1) as nat).push(c@[0]));
    }
}

/// Appends the decimal digits of `n` with zeros in front up to `width` characters.
fn push_zero_padded(s: &mut String, n: u64, width: usize)
    ensures
        final(s)@ == old(s)@ + zero_padded(decimal(n as nat), width as nat),
{
    let mut digits = String::new();
    push_decimal(&mut digits, n);
    assert(digits@ == decimal(n as nat));
    let len = digits.as_str().unicode_len();
    if len < width {
        proof { reveal_strlit("0"); }
        push_repeated(s, "0", width - len);
    }
    s.append(digits.as_str());
}

/// Writes a date as `%Y-%m-%d`.
pub fn format_date(d: &UpdateDate) -> (r: String)
    ensures
        r@ == date_text(*d),
        (0 <= d.year <= 9999 && d.month < 100 && d.day < 100) ==> r@ == seq![
            digit_char((d.year / 1000) as nat),
            digit_char(((d.year / 100) % 10) as nat),
            digit_char(((d.year / 10) % 10) as nat),
            digit_char((d.year % 10) as nat),
            '-',
            digit_char((d.month / 10) as nat),
            digit_char((d.month % 10) as nat),
            '-',
            digit_char((d.day / 10) as nat),
            digit_char((d.day % 10) as nat),
        ],
        d.year >= 10000 ==> r@[0] == '+',
        d.year < 0 ==> r@[0] == '-',
{
    proof {
        if 0 <= d.year <= 9999 && d.month < 100 && d.day < 100 {
            lemma_date_digits(*d);
        }
    }
    let mut s = String::new();
    let y: i64 = d.year as i64;
    if 0 <= y && y < 10000 {
        push_zero_padded(&mut s, y as u64, 4);
    } else if y >= 10000 {
        proof { reveal_strlit("+"); }
        s.append("+");
        push_zero_padded(&mut s, y as u64, 4);
    } else {
        proof { reveal_strlit("-"); }
        s.append("-");
        push_zero_padded(&mut s, (-y) as u64, 4);
    }
    assert(s@ == year_text(d.year as int));
    proof { reveal_strlit("-"); }
    s.append("-");
    push_zero_padded(&mut s, d.month as u64, 2);
    s.append("-");
    push_zero_padded(&mut s, d.day as u64, 2);
    s
}

} // verus!
