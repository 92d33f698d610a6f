//! Calendar dates and their `YYYY-MM-DD` form.
use vstd::prelude::*;
use chrono::Datelike;

verus! {

/// A date of the proleptic Gregorian calendar.
#[derive(Clone, Copy, Debug, PartialEq, Eq)]
pub struct CalendarDate {
    pub year: i32,
    pub month: u32,
    pub day: u32,
}

impl CalendarDate {
    /// A month of the year and a day of a month.
    pub open spec fn wf(&self) -> bool {
        1 <= self.month <= 12 && 1 <= self.day <= 31
    }
}

/// The decimal digit for `d` in `0..10`.
pub open spec fn digit_char(d: int) -> char {
    "0123456789"@[d]
}

/// The decimal digits of `n`, without leading zeros.
pub open spec fn decimal(n: nat) -> Seq<char>
    decreases n,
{
    if n < 10 {
        seq![digit_char(n as int)]
    } else {
        decimal(n / 10).push(digit_char((n % 10) as int))
    }
}

/// The decimal digits of `n`, with zeros in front up to `width` characters.
pub open spec fn padded(n: nat, width: nat) -> Seq<char> {
    let d = decimal(n);
    if d.len() < width {
        Seq::new((width - d.len()) as nat, |_i: int| '0') + d
    } else {
        d
    }
}

/// A year as `%Y` writes it: four digits within `0..=9999`, else a sign and
/// at least four digits.
pub open spec fn year_text(y: int) -> Seq<char> {
    if y < 0 {
        seq!['-'] + padded((-y) as nat, 4)
    } else if y > 9999 {
        seq!['+'] + decimal(y as nat)
    } else {
        padded(y as nat, 4)
    }
}

/// The `YYYY-MM-DD` form of a date.
pub open spec fn iso_text(d: CalendarDate) -> Seq<char> {
    year_text(d.year as int) + seq!['-'] + padded(d.month as nat, 2) + seq!['-'] + padded(
        d.day as nat,
        2,
    )
}

/// Today's date in the local time zone.
///
/// Relies on `chrono::Local::now` and `chrono::Datelike`: `month` lies in
/// `1..=12` and `day` in `1..=31`, as their documentation states.
#[verifier::external_body]
pub(crate) fn local_today() -> (r: CalendarDate)
    ensures
        r.wf(),
{
    let now = chrono::Local::now();
    CalendarDate { year: now.year(), month: now.month(), day: now.day() }
}

fn push_decimal(out: &mut String, n: u32)
    ensures
        final(out)@ == old(out)@ + decimal(n as nat),
    decreases n,
{
    let digits = "0123456789";
    proof {
        reveal_strlit("0123456789");
    }
    if n >= 10 {
        push_decimal(out, n / 10);
    }
    let d = (n % 10) as usize;
    let c = digits.substring_char(d, d + 1);
    assert(c@ =~= seq![digit_char(d as int)]);
    out.append(c);
    assert(n >= 10 ==> decimal(n as nat) == decimal((n / 10) as nat).push(digit_char((n % 10) as int)));
    assert(old(out)@ + decimal(n as nat) =~= final(out)@);
}

proof fn lemma_decimal_len(n: nat)
    ensures
        n < 10 ==> decimal(n).len() == 1,
        10 <= n < 100 ==> decimal(n).len() == 2,
        100 <= n < 1000 ==> decimal(n).len() == 3,
        1000 <= n < 10000 ==> decimal(n).len() == 4,
        1000 <= n ==> decimal(n).len() >= 4,
    decreases n,
{
    if n >= 10 {
        lemma_decimal_len(n / 10);
    }
}

fn push_padded(out: &mut String, n: u32, width: usize)
    requires
        width <= 4,
        n < 10000,
    ensures
        final(out)@ == old(out)@ + padded(n as nat, width as nat),
{
    proof {
        lemma_decimal_len(n as nat);
    }
    let len: usize = if n < 10 {
        1
    } else if n < 100 {
        2
    } else if n < 1000 {
        3
    } else {
        4
    };
    let ghost start = out@;
    if len < width {
        let mut k: usize = len;
        while k < width
            invariant
                len <= k <= width,
                out@ == start + Seq::new((k - len) as nat, |_i: int| '0'),
            decreases width - k,
        {
            proof {
                reveal_strlit("0");
            }
            out.append("0");
            k = k + 1;
            assert(out@ =~= start + Seq::new((k - len) as nat, |_i: int| '0'));
        }
    }
    push_decimal(out, n);
    if len < width {
        assert(out@ =~= start + padded(n as nat, width as nat));
    } else {
        assert(out@ =~= start + padded(n as nat, width as nat));
    }
}

impl CalendarDate {
    /// The date as `YYYY-MM-DD`, as chrono's `%Y-%m-%d` writes it.
    pub fn iso_string(&self) -> (r: String)
        requires
            self.wf(),
        ensures
            r@ == iso_text(*self),
    {
        let mut out = String::new();
        if self.year < 0 {
            out.append("-");
            let abs: u32 = (0i64 - self.year as i64) as u32;
            if abs < 10000 {
                push_padded(&mut out, abs, 4);
            } else {
                push_decimal(&mut out, abs);
                proof {
                    lemma_decimal_len(abs as nat);
                }
            }
        } else if self.year > 9999 {
            out.append("+");
            push_decimal(&mut out, self.year as u32);
        } else {
            push_padded(&mut out, self.year as u32, 4);
        }
        out.append("-");
        push_padded(&mut out, self.month, 2);
        out.append("-");
        push_padded(&mut out, self.day, 2);
        proof {
            reveal_strlit("-");
            reveal_strlit("+");
        }
        assert(out@ =~= iso_text(*self));
        out
    }

    /// Today's date in the local time zone.
    pub fn today() -> (r: CalendarDate)
        ensures
            r.wf(),
    {
        local_today()
    }
}

} // verus!
