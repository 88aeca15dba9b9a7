//! What the calendar and the times on it come to.

use crate::clock::{
    date_exists, days_in_month, effective_name, four_digits, is_leap_year, two_digits, year_text,
    CivilTime,
};
use crate::text_laws::{decimal_reads_back, digit_reads_back, is_digit, number};
use vstd::prelude::*;

verus! {

/// How many leap years there are from the year zero on up to and with a year.
pub open spec fn leap_years_up_to(year: int) -> int {
    year / 4 - year / 100 + year / 400
}

/// A year is a leap year exactly where it adds one to the count, so that there are
/// ninety-seven in any four hundred years; February has a day more then.
pub proof fn leap_years_are_counted(year: int)
    ensures
        leap_years_up_to(year) - leap_years_up_to(year - 1) == if is_leap_year(year) {
            1int
        } else {
            0
        },
        leap_years_up_to(year + 400) - leap_years_up_to(year) == 97,
        days_in_month(year, 2) == 28 + leap_years_up_to(year) - leap_years_up_to(year - 1),
{
    lemma_multiples(year);
    assert((year + 400) / 4 == year / 4 + 100);
    assert((year + 400) / 100 == year / 100 + 4);
    assert((year + 400) / 400 == year / 400 + 1);
}

proof fn lemma_multiples(year: int)
    ensures
        leap_years_up_to(year) - leap_years_up_to(year - 1) == if is_leap_year(year) {
            1int
        } else {
            0
        },
{
    assert(year / 4 - (year - 1) / 4 == if year % 4 == 0 {
        1int
    } else {
        0
    });
    assert(year / 100 - (year - 1) / 100 == if year % 100 == 0 {
        1int
    } else {
        0
    });
    assert(year / 400 - (year - 1) / 400 == if year % 400 == 0 {
        1int
    } else {
        0
    });
    assert(year % 400 == 0 ==> year % 100 == 0);
    assert(year % 100 == 0 ==> year % 4 == 0);
}

/// Beside February, months of 31 and of 30 days take turns, but that July and August
/// both are long; a year has 365 days, and a leap year one more.
pub proof fn months_take_turns(year: int, month: int)
    requires
        1 <= month <= 12,
    ensures
        month != 2 ==> days_in_month(year, month) == 30 + (month + month / 8) % 2,
        days_in_month(year, 1) + days_in_month(year, 2) + days_in_month(year, 3) + days_in_month(
            year,
            4,
        ) + days_in_month(year, 5) + days_in_month(year, 6) + days_in_month(year, 7)
            + days_in_month(year, 8) + days_in_month(year, 9) + days_in_month(year, 10)
            + days_in_month(year, 11) + days_in_month(year, 12) == 365 + leap_years_up_to(year)
            - leap_years_up_to(year - 1),
{
    lemma_multiples(year);
}

/// Within a month every day up to the last exists, and no other.
pub proof fn days_are_counted_from_one(year: int, month: int, day: int)
    ensures
        date_exists(year, month, day) ==> date_exists(year, month, 1) && -262143 <= year <= 262142
            && 1 <= month <= 12,
        -262143 <= year <= 262142 && 1 <= month <= 12 ==> date_exists(year, month, 1)
            && date_exists(year, month, days_in_month(year, month)),
        date_exists(year, month, 1) ==> (date_exists(year, month, day) <==> 1 <= day
            <= days_in_month(year, month)),
{
}

/// Two digits that stand for a number.
pub open spec fn stand_for(text: Seq<char>, from: int, n: int) -> bool {
    &&& 0 <= from && from + 2 <= text.len()
    &&& is_digit(text[from]) && is_digit(text[from + 1])
    &&& 10 * (text[from] as int - '0' as int) + (text[from + 1] as int - '0' as int) == n
}

proof fn lemma_two_digits(n: int)
    requires
        0 <= n < 100,
    ensures
        two_digits(n).len() == 2,
        stand_for(two_digits(n), 0, n),
{
    digit_reads_back((n / 10) as nat);
    digit_reads_back((n % 10) as nat);
}

/// A year in full: at least four digits, which stand for it, with a sign in front of
/// those that do not fit.
pub open spec fn tells_year(text: Seq<char>, year: int) -> bool {
    let digits = if 0 <= year <= 9999 {
        text
    } else {
        text.skip(1)
    };
    &&& digits.len() >= 4
    &&& 0 <= year <= 9999 ==> text.len() == 4
    &&& forall|i: int| 0 <= i < digits.len() ==> is_digit(#[trigger] digits[i])
    &&& number(digits) == if year < 0 {
        -year
    } else {
        year
    }
    &&& year < 0 ==> text[0] == '-'
    &&& year > 9999 ==> text[0] == '+'
}

proof fn lemma_four_digits(n: int)
    requires
        0 <= n,
    ensures
        four_digits(n).len() >= 4,
        n <= 9999 ==> four_digits(n).len() == 4,
        forall|i: int| 0 <= i < four_digits(n).len() ==> is_digit(#[trigger] four_digits(n)[i]),
        number(four_digits(n)) == n,
{
    let text = four_digits(n);
    if n >= 10000 {
        decimal_reads_back(n as nat);
        reveal_with_fuel(crate::text::decimal, 5);
        lemma_at_least_one(n as nat / 10000);
    } else {
        lemma_two_digits(n / 100);
        lemma_two_digits(n % 100);
        reveal_with_fuel(number, 5);
        assert(text[0] == two_digits(n / 100)[0] && text[1] == two_digits(n / 100)[1]);
        assert(text[2] == two_digits(n % 100)[0] && text[3] == two_digits(n % 100)[1]);
        let three = text.drop_last();
        let two = three.drop_last();
        let one = two.drop_last();
        assert(one.drop_last().len() == 0);
        assert(number(one) == text[0] as int - '0' as int);
        assert(number(two) == n / 100);
        assert(number(text) == 100 * number(two) + n % 100);
    }
}

proof fn lemma_at_least_one(n: nat)
    ensures
        crate::text::decimal(n).len() > 0,
{
    decimal_reads_back(n);
}

proof fn lemma_year(year: int)
    ensures
        tells_year(year_text(year), year),
{
    if year < 0 {
        lemma_four_digits(-year);
        assert(year_text(year).skip(1) =~= four_digits(-year));
    } else {
        lemma_four_digits(year);
        if year > 9999 {
            assert(year_text(year).skip(1) =~= four_digits(year));
        }
    }
}

/// Every field of a time can be read off its timestamp: the year, and two digits each
/// for the month, the day, the hour, the minute and the second, in this order.
pub proof fn timestamp_tells_every_field(time: CivilTime)
    requires
        time.is_valid(),
    ensures
        ({
            let text = time.timestamp();
            let end = text.len() - 15;
            &&& end >= 4
            &&& tells_year(text.take(end), time.year)
            &&& text[end] == '-' && stand_for(text, end + 1, time.month)
            &&& text[end + 3] == '-' && stand_for(text, end + 4, time.day)
            &&& text[end + 6] == '_' && stand_for(text, end + 7, time.hour)
            &&& text[end + 9] == '-' && stand_for(text, end + 10, time.minute)
            &&& text[end + 12] == '-' && stand_for(text, end + 13, time.second)
        }),
{
    let text = time.timestamp();
    let year = year_text(time.year);
    lemma_year(time.year);
    lemma_two_digits(time.month);
    lemma_two_digits(time.day);
    lemma_two_digits(time.hour);
    lemma_two_digits(time.minute);
    lemma_two_digits(time.second);
    assert(text.len() == year.len() + 15);
    let end = year.len() as int;
    assert(text.take(end) =~= year);
    assert(text[end + 1] == two_digits(time.month)[0] && text[end + 2] == two_digits(time.month)[1]);
    assert(text[end + 4] == two_digits(time.day)[0] && text[end + 5] == two_digits(time.day)[1]);
    assert(text[end + 7] == two_digits(time.hour)[0] && text[end + 8] == two_digits(time.hour)[1]);
    assert(text[end + 10] == two_digits(time.minute)[0] && text[end + 11] == two_digits(
        time.minute,
    )[1]);
    assert(text[end + 13] == two_digits(time.second)[0] && text[end + 14] == two_digits(
        time.second,
    )[1]);
}

/// A meeting that was given a name keeps it, whenever it starts; one that was given none
/// is called "Meeting" and the timestamp of its start.
pub proof fn a_given_name_is_kept(name: Seq<char>, start: CivilTime)
    ensures
        effective_name(Some(name), start) == name,
        effective_name(None, start).take("Meeting "@.len() as int) == "Meeting "@,
        effective_name(None, start).skip("Meeting "@.len() as int) == start.timestamp(),
{
    let all = effective_name(None, start);
    assert(all.take("Meeting "@.len() as int) =~= "Meeting "@);
    assert(all.skip("Meeting "@.len() as int) =~= start.timestamp());
}

} // verus!
