//! Masked typing of dates in `DD-MM-YYYY` form: the key-by-key entry of the
//! terminal form and the re-formatting of the desktop date fields.
use crate::text::{
    digit_value, digits_in_prefix, digits_of, is_ascii_digit, is_digit, lemma_digits_of_are_digits,
    push_char,
};
use vstd::prelude::*;

verus! {

// ---------------------------------------------------------------------------
// Typing one character into a date field
// ---------------------------------------------------------------------------

/// Characters appended to a date field when `c` is typed and the field
/// already holds the digits `d`: a day may get a leading zero and, once
/// complete (1..=31), a dash; likewise a month (1..=12); then up to four
/// year digits. Non-digits, a ninth digit, or a digit that would make the
/// day or month impossible append nothing.
pub open spec fn typed_date_suffix(d: Seq<char>, c: char) -> Seq<char> {
    if !is_digit(c) || d.len() >= 8 {
        seq![]
    } else if d.len() == 0 {
        if '0' <= c <= '3' {
            seq![c]
        } else {
            seq!['0', c]
        }
    } else if d.len() == 1 {
        let day = 10 * digit_value(d[0]) + digit_value(c);
        if 1 <= day <= 31 {
            seq![c, '-']
        } else {
            seq![]
        }
    } else if d.len() == 2 {
        if c == '0' || c == '1' {
            seq![c]
        } else {
            seq!['0', c]
        }
    } else if d.len() == 3 {
        let month = 10 * digit_value(d[2]) + digit_value(c);
        if 1 <= month <= 12 {
            seq![c, '-']
        } else {
            seq![]
        }
    } else {
        seq![c]
    }
}

/// Types `c` into a date field.
pub fn push_date_digit(field: &mut String, c: char)
    ensures
        final(field)@ == old(field)@ + typed_date_suffix(digits_of(old(field)@), c),
{
    if !is_ascii_digit(c) {
        return ;
    }
    let n = field.as_str().unicode_len();
    let digits = digits_in_prefix(field.as_str(), n);
    proof {
        assert(old(field)@.take(n as int) =~= old(field)@);
        lemma_digits_of_are_digits(old(field)@);
    }
    let count = digits.len();
    if count >= 8 {
        return ;
    }
    if count == 0 {
        if '0' <= c && c <= '3' {
            push_char(field, c);
        } else {
            push_char(field, '0');
            push_char(field, c);
        }
    } else if count == 1 {
        let first = digits[0];
        let day = (first as u32 - '0' as u32) * 10 + (c as u32 - '0' as u32);
        if 1 <= day && day <= 31 {
            push_char(field, c);
            push_char(field, '-');
        }
    } else if count == 2 {
        if c == '0' || c == '1' {
            push_char(field, c);
        } else {
            push_char(field, '0');
            push_char(field, c);
        }
    } else if count == 3 {
        let third = digits[2];
        let month = (third as u32 - '0' as u32) * 10 + (c as u32 - '0' as u32);
        if 1 <= month && month <= 12 {
            push_char(field, c);
            push_char(field, '-');
        }
    } else {
        push_char(field, c);
    }
    assert(field@ =~= old(field)@ + typed_date_suffix(digits_of(old(field)@), c));
}

// ---------------------------------------------------------------------------
// Erasing from a date field
// ---------------------------------------------------------------------------

/// `s` without its last character, if any.
pub open spec fn drop_one(s: Seq<char>) -> Seq<char> {
    if s.len() > 0 {
        s.drop_last()
    } else {
        s
    }
}

/// `s` without its trailing dashes.
pub open spec fn strip_dashes(s: Seq<char>) -> Seq<char>
    decreases s.len(),
{
    if s.len() > 0 && s.last() == '-' {
        strip_dashes(s.drop_last())
    } else {
        s
    }
}

/// Date field after a backspace: its last character goes, and so does any
/// dash that is then left at the end.
pub open spec fn after_date_backspace(s: Seq<char>) -> Seq<char> {
    strip_dashes(drop_one(s))
}

/// Erases the last character of a date field, as the backspace key of the
/// terminal form does, and any dash that this leaves at the end.
pub fn backspace_date(field: &mut String)
    ensures
        final(field)@ == after_date_backspace(old(field)@),
{
    let ghost s = field@;
    let len = field.as_str().unicode_len();
    let mut n: usize = len;
    if n > 0 {
        n = n - 1;
    }
    proof {
        assert(s.take(n as int) =~= drop_one(s));
    }
    while n > 0 && field.as_str().get_char(n - 1) == '-'
        invariant
            n <= len,
            len == s.len(),
            field@ == s,
            strip_dashes(s.take(n as int)) == strip_dashes(drop_one(s)),
        decreases n,
    {
        proof {
            assert(s.take(n as int).drop_last() =~= s.take(n - 1));
        }
        n = n - 1;
    }
    proof {
        assert(strip_dashes(s.take(n as int)) == s.take(n as int));
        assert(s.subrange(0, n as int) =~= s.take(n as int));
    }
    let kept = String::from_str(field.as_str().substring_char(0, n));
    *field = kept;
}

// ---------------------------------------------------------------------------
// Re-formatting a whole date field
// ---------------------------------------------------------------------------

/// Text after the `i`-th of the digits `d` is processed, given the text
/// `prev` before it. An impossible day restarts the text from a zero-padded
/// day.
pub open spec fn filter_step(d: Seq<char>, i: int, prev: Seq<char>) -> Seq<char> {
    if i == 0 {
        if '0' <= d[0] <= '3' {
            prev.push(d[0])
        } else {
            prev + seq!['0', d[0]]
        }
    } else if i == 1 {
        let day = 10 * digit_value(d[0]) + digit_value(d[1]);
        if 1 <= day <= 31 {
            prev + seq![d[1], '-']
        } else {
            seq!['0', d[1], '-']
        }
    } else if i == 2 {
        if d[2] == '0' || d[2] == '1' {
            prev.push(d[2])
        } else {
            prev + seq!['0', d[2]]
        }
    } else if i == 3 {
        prev + seq![d[3], '-']
    } else {
        prev.push(d[i])
    }
}

/// Text after the first `k` digits of `d` are processed; processing stops
/// once the text has ten characters.
pub open spec fn filtered_prefix(d: Seq<char>, k: nat) -> Seq<char>
    decreases k,
{
    if k == 0 {
        seq![]
    } else {
        let prev = filtered_prefix(d, (k - 1) as nat);
        if prev.len() >= 10 {
            prev
        } else {
            filter_step(d, k - 1, prev)
        }
    }
}

/// The `DD-MM-YYYY` text a date field shows for what was typed into it.
pub open spec fn filtered_date(raw: Seq<char>) -> Seq<char> {
    let d = digits_of(raw);
    filtered_prefix(d, d.len())
}

/// Once the text is ten characters long, further digits change nothing.
proof fn lemma_filtered_stops(d: Seq<char>, i: nat, k: nat)
    requires
        i <= k,
        filtered_prefix(d, i).len() >= 10,
    ensures
        filtered_prefix(d, k) == filtered_prefix(d, i),
    decreases k - i,
{
    if i < k {
        lemma_filtered_stops(d, i, (k - 1) as nat);
    }
}

/// Re-formats what was typed into a date field of the desktop form: keeps
/// the digits and lays them out as `DD-MM-YYYY`, zero-padding a day or a
/// month that cannot take a second digit.
pub fn filter_date_input(raw: &str) -> (r: String)
    ensures
        r@ == filtered_date(raw@),
{
    let n = raw.unicode_len();
    let digits = digits_in_prefix(raw, n);
    proof {
        assert(raw@.take(n as int) =~= raw@);
        lemma_digits_of_are_digits(raw@);
    }
    let count = digits.len();
    let mut result = String::new();
    let mut written: usize = 0;
    let mut i: usize = 0;
    while i < count && written < 10
        invariant
            i <= count,
            count == digits@.len(),
            digits@ == digits_of(raw@),
            forall|j: int| 0 <= j < count ==> is_digit(#[trigger] digits@[j]),
            result@ == filtered_prefix(digits@, i as nat),
            written == result@.len(),
            i > 0 ==> written >= 1,
            i <= 4 ==> written <= 2 * i,
            i >= 4 ==> written <= i + 4,
            written <= 10,
        decreases count - i,
    {
        let ch = digits[i];
        let ghost prev = result@;
        if i == 0 {
            if '0' <= ch && ch <= '3' {
                push_char(&mut result, ch);
                written = written + 1;
            } else {
                push_char(&mut result, '0');
                push_char(&mut result, ch);
                written = written + 2;
            }
        } else if i == 1 {
            let first = digits[0];
            let day = (first as u32 - '0' as u32) * 10 + (ch as u32 - '0' as u32);
            if 1 <= day && day <= 31 {
                push_char(&mut result, ch);
                push_char(&mut result, '-');
                written = written + 2;
            } else {
                result = String::new();
                push_char(&mut result, '0');
                push_char(&mut result, ch);
                push_char(&mut result, '-');
                written = 3;
            }
        } else if i == 2 {
            if ch == '0' || ch == '1' {
                push_char(&mut result, ch);
                written = written + 1;
            } else {
                push_char(&mut result, '0');
                push_char(&mut result, ch);
                written = written + 2;
            }
        } else if i == 3 {
            push_char(&mut result, ch);
            push_char(&mut result, '-');
            written = written + 2;
        } else {
            push_char(&mut result, ch);
            written = written + 1;
        }
        assert(result@ =~= filter_step(digits@, i as int, prev));
        i = i + 1;
    }
    proof {
        if i < count {
            lemma_filtered_stops(digits@, i as nat, count as nat);
        }
    }
    result
}

// ---------------------------------------------------------------------------
// Laws
// ---------------------------------------------------------------------------

/// The digits of a concatenation are the digits of its parts.
pub proof fn lemma_digits_of_concat(a: Seq<char>, b: Seq<char>)
    ensures
        digits_of(a + b) == digits_of(a) + digits_of(b),
    decreases b.len(),
{
    if b.len() == 0 {
        assert(a + b =~= a);
        assert(digits_of(a) + digits_of(b) =~= digits_of(a));
    } else {
        lemma_digits_of_concat(a, b.drop_last());
        assert((a + b).drop_last() =~= a + b.drop_last());
        assert(digits_of(a) + digits_of(b) =~= if is_digit(b.last()) {
            (digits_of(a) + digits_of(b.drop_last())).push(b.last())
        } else {
            digits_of(a) + digits_of(b.drop_last())
        });
    }
}

/// Typing into a date field never takes it past the eight digits of a
/// `DD-MM-YYYY` date.
pub proof fn typing_keeps_at_most_eight_digits(s: Seq<char>, c: char)
    requires
        digits_of(s).len() <= 8,
    ensures
        digits_of(s + typed_date_suffix(digits_of(s), c)).len() <= 8,
{
    let suffix = typed_date_suffix(digits_of(s), c);
    lemma_digits_of_concat(s, suffix);
    lemma_digits_of_are_digits(suffix);
}

/// Shape of a re-formatted date field: at most ten characters, each a digit
/// or a dash.
pub proof fn filtered_prefix_shape(d: Seq<char>, k: nat)
    requires
        k <= d.len(),
        forall|j: int| 0 <= j < d.len() ==> is_digit(#[trigger] d[j]),
    ensures
        filtered_prefix(d, k).len() <= 10,
        k <= 4 ==> filtered_prefix(d, k).len() <= 2 * k,
        k >= 4 ==> filtered_prefix(d, k).len() <= k + 4,
        forall|j: int|
            0 <= j < filtered_prefix(d, k).len() ==> is_digit(#[trigger] filtered_prefix(d, k)[j])
                || filtered_prefix(d, k)[j] == '-',
    decreases k,
{
    if k > 0 {
        filtered_prefix_shape(d, (k - 1) as nat);
    }
}

/// Re-formatting a date field yields at most ten characters, each a digit or
/// a dash.
pub proof fn filtered_date_shape(raw: Seq<char>)
    ensures
        filtered_date(raw).len() <= 10,
        forall|j: int|
            0 <= j < filtered_date(raw).len() ==> is_digit(#[trigger] filtered_date(raw)[j])
                || filtered_date(raw)[j] == '-',
{
    lemma_digits_of_are_digits(raw);
    filtered_prefix_shape(digits_of(raw), digits_of(raw).len());
}


/// A text of digits only is its own digits.
proof fn lemma_digits_of_digits(s: Seq<char>)
    requires
        forall|i: int| 0 <= i < s.len() ==> is_digit(#[trigger] s[i]),
    ensures
        digits_of(s) == s,
    decreases s.len(),
{
    if s.len() > 0 {
        lemma_digits_of_digits(s.drop_last());
        assert(s.drop_last().push(s.last()) =~= s);
    }
}

/// The digits of a dash-separated date text are its day, month and year
/// digits.
proof fn lemma_digits_of_date_text(dd: Seq<char>, mm: Seq<char>, yyyy: Seq<char>)
    requires
        forall|i: int| 0 <= i < dd.len() ==> is_digit(#[trigger] dd[i]),
        forall|i: int| 0 <= i < mm.len() ==> is_digit(#[trigger] mm[i]),
        forall|i: int| 0 <= i < yyyy.len() ==> is_digit(#[trigger] yyyy[i]),
    ensures
        digits_of(dd + seq!['-'] + mm + seq!['-'] + yyyy) == dd + mm + yyyy,
{
    lemma_digits_of_digits(dd);
    lemma_digits_of_digits(mm);
    lemma_digits_of_digits(yyyy);
    let dash = seq!['-'];
    assert(digits_of(dash) =~= seq![]) by {
        assert(dash.drop_last() =~= Seq::<char>::empty());
        assert(digits_of(Seq::<char>::empty()) =~= Seq::<char>::empty());
        assert(!is_digit(dash.last()));
    }
    lemma_digits_of_concat(dd, dash);
    lemma_digits_of_concat(dd + dash, mm);
    lemma_digits_of_concat(dd + dash + mm, dash);
    lemma_digits_of_concat(dd + dash + mm + dash, yyyy);
    assert(dd + seq![] =~= dd);
    assert(dd + mm + seq![] =~= dd + mm);
}

/// The `DD-MM-YYYY` text of a day `d1 d2`, a month `m1 m2` and a year
/// `y1 y2 y3 y4`.
pub open spec fn date_text(
    d1: char,
    d2: char,
    m1: char,
    m2: char,
    y1: char,
    y2: char,
    y3: char,
    y4: char,
) -> Seq<char> {
    seq![d1, d2, '-', m1, m2, '-', y1, y2, y3, y4]
}

/// The eight digits are a day of the month (01 to 31), a month (01 to 12)
/// and a four-digit year.
pub open spec fn is_date_digits(
    d1: char,
    d2: char,
    m1: char,
    m2: char,
    y1: char,
    y2: char,
    y3: char,
    y4: char,
) -> bool {
    &&& is_digit(d1) && is_digit(d2) && is_digit(m1) && is_digit(m2)
    &&& is_digit(y1) && is_digit(y2) && is_digit(y3) && is_digit(y4)
    &&& 1 <= 10 * digit_value(d1) + digit_value(d2) <= 31
    &&& 1 <= 10 * digit_value(m1) + digit_value(m2) <= 12
}

/// The first digit of a day of the month is 0 to 3, and the first digit
/// of a month is 0 or 1.
proof fn lemma_leading_digits(
    d1: char,
    d2: char,
    m1: char,
    m2: char,
    y1: char,
    y2: char,
    y3: char,
    y4: char,
)
    requires
        is_date_digits(d1, d2, m1, m2, y1, y2, y3, y4),
    ensures
        '0' <= d1 <= '3',
        m1 == '0' || m1 == '1',
{
}

/// Re-formatting the eight digits `DDMMYYYY` of a date gives `DD-MM-YYYY`,
/// and re-formatting a `DD-MM-YYYY` text leaves it as it is: every day from
/// 01 to 31 and every month from 01 to 12 can be entered in a desktop date
/// field.
pub proof fn date_digits_reformat_to_the_date(
    d1: char,
    d2: char,
    m1: char,
    m2: char,
    y1: char,
    y2: char,
    y3: char,
    y4: char,
)
    requires
        is_date_digits(d1, d2, m1, m2, y1, y2, y3, y4),
    ensures
        filtered_date(seq![d1, d2, m1, m2, y1, y2, y3, y4]) == date_text(
            d1,
            d2,
            m1,
            m2,
            y1,
            y2,
            y3,
            y4,
        ),
        filtered_date(date_text(d1, d2, m1, m2, y1, y2, y3, y4)) == date_text(
            d1,
            d2,
            m1,
            m2,
            y1,
            y2,
            y3,
            y4,
        ),
{
    let d = seq![d1, d2, m1, m2, y1, y2, y3, y4];
    lemma_leading_digits(d1, d2, m1, m2, y1, y2, y3, y4);
    lemma_digits_of_digits(d);
    assert(d[0] == d1 && d[1] == d2 && d[2] == m1 && d[3] == m2);
    assert(d[4] == y1 && d[5] == y2 && d[6] == y3 && d[7] == y4);
    lemma_digits_of_date_text(seq![d1, d2], seq![m1, m2], seq![y1, y2, y3, y4]);
    assert(seq![d1, d2] + seq!['-'] + seq![m1, m2] + seq!['-'] + seq![y1, y2, y3, y4] =~= date_text(
        d1,
        d2,
        m1,
        m2,
        y1,
        y2,
        y3,
        y4,
    ));
    assert(seq![d1, d2] + seq![m1, m2] + seq![y1, y2, y3, y4] =~= d);
    assert(filtered_prefix(d, 0) =~= Seq::<char>::empty());
    assert(filtered_prefix(d, 1) =~= seq![d1]);
    assert(filtered_prefix(d, 2) =~= seq![d1, d2, '-']);
    assert(filtered_prefix(d, 3) =~= seq![d1, d2, '-', m1]);
    assert(filtered_prefix(d, 4) =~= seq![d1, d2, '-', m1, m2, '-']);
    assert(filtered_prefix(d, 5) =~= seq![d1, d2, '-', m1, m2, '-', y1]);
    assert(filtered_prefix(d, 6) =~= seq![d1, d2, '-', m1, m2, '-', y1, y2]);
    assert(filtered_prefix(d, 7) =~= seq![d1, d2, '-', m1, m2, '-', y1, y2, y3]);
    assert(filtered_prefix(d, 8) =~= date_text(d1, d2, m1, m2, y1, y2, y3, y4));
}

/// What a date field of the terminal form shows after the keys `keys` are
/// typed into it, one after the other, starting from an empty field.
pub open spec fn typed_keys(keys: Seq<char>) -> Seq<char>
    decreases keys.len(),
{
    if keys.len() == 0 {
        seq![]
    } else {
        let s = typed_keys(keys.drop_last());
        s + typed_date_suffix(digits_of(s), keys.last())
    }
}

/// Typing the eight digits `DDMMYYYY` of a date into an empty date field of
/// the terminal form shows `DD-MM-YYYY`: the mask adds the two dashes and
/// every day from 01 to 31 and month from 01 to 12 can be typed.
pub proof fn typing_date_digits_shows_the_date(
    d1: char,
    d2: char,
    m1: char,
    m2: char,
    y1: char,
    y2: char,
    y3: char,
    y4: char,
)
    requires
        is_date_digits(d1, d2, m1, m2, y1, y2, y3, y4),
    ensures
        typed_keys(seq![d1, d2, m1, m2, y1, y2, y3, y4]) == date_text(
            d1,
            d2,
            m1,
            m2,
            y1,
            y2,
            y3,
            y4,
        ),
{
    let k = seq![d1, d2, m1, m2, y1, y2, y3, y4];
    lemma_leading_digits(d1, d2, m1, m2, y1, y2, y3, y4);
    assert(digits_of(Seq::<char>::empty()) =~= Seq::<char>::empty());
    let t1 = seq![d1];
    let t2 = seq![d1, d2, '-'];
    let t3 = seq![d1, d2, '-', m1];
    let t4 = seq![d1, d2, '-', m1, m2, '-'];
    let t5 = seq![d1, d2, '-', m1, m2, '-', y1];
    let t6 = seq![d1, d2, '-', m1, m2, '-', y1, y2];
    let t7 = seq![d1, d2, '-', m1, m2, '-', y1, y2, y3];
    let t8 = date_text(d1, d2, m1, m2, y1, y2, y3, y4);
    lemma_digits_of_digits(t1);
    lemma_digits_of_date_text(seq![d1, d2], seq![], seq![]);
    assert(seq![d1, d2] + seq!['-'] + seq![] + seq!['-'] + seq![] =~= seq![d1, d2, '-', '-']);
    assert(digits_of(t2) == seq![d1, d2]) by {
        assert(seq![d1, d2, '-', '-'].drop_last() =~= t2);
        assert(seq![d1, d2] + Seq::<char>::empty() + Seq::<char>::empty() =~= seq![d1, d2]);
    }
    assert(digits_of(t3) == seq![d1, d2, m1]) by {
        assert(t3.drop_last() =~= t2);
    }
    lemma_digits_of_date_text(seq![d1, d2], seq![m1, m2], seq![]);
    assert(digits_of(t4) == seq![d1, d2, m1, m2]) by {
        assert(seq![d1, d2] + seq!['-'] + seq![m1, m2] + seq!['-'] + seq![] =~= t4);
        assert(seq![d1, d2] + seq![m1, m2] + Seq::<char>::empty() =~= seq![d1, d2, m1, m2]);
    }
    assert(digits_of(t5) == seq![d1, d2, m1, m2, y1]) by {
        assert(t5.drop_last() =~= t4);
    }
    assert(digits_of(t6) == seq![d1, d2, m1, m2, y1, y2]) by {
        assert(t6.drop_last() =~= t5);
    }
    assert(digits_of(t7) == seq![d1, d2, m1, m2, y1, y2, y3]) by {
        assert(t7.drop_last() =~= t6);
    }
    assert(typed_keys(Seq::<char>::empty()) =~= Seq::<char>::empty());
    assert(typed_keys(seq![d1]) =~= t1) by {
        assert(seq![d1].drop_last() =~= Seq::<char>::empty());
    }
    assert(typed_keys(seq![d1, d2]) =~= t2) by {
        assert(seq![d1, d2].drop_last() =~= seq![d1]);
    }
    assert(typed_keys(seq![d1, d2, m1]) =~= t3) by {
        assert(seq![d1, d2, m1].drop_last() =~= seq![d1, d2]);
    }
    assert(typed_keys(seq![d1, d2, m1, m2]) =~= t4) by {
        assert(seq![d1, d2, m1, m2].drop_last() =~= seq![d1, d2, m1]);
    }
    assert(typed_keys(seq![d1, d2, m1, m2, y1]) =~= t5) by {
        assert(seq![d1, d2, m1, m2, y1].drop_last() =~= seq![d1, d2, m1, m2]);
    }
    assert(typed_keys(seq![d1, d2, m1, m2, y1, y2]) =~= t6) by {
        assert(seq![d1, d2, m1, m2, y1, y2].drop_last() =~= seq![d1, d2, m1, m2, y1]);
    }
    assert(typed_keys(seq![d1, d2, m1, m2, y1, y2, y3]) =~= t7) by {
        assert(seq![d1, d2, m1, m2, y1, y2, y3].drop_last() =~= seq![d1, d2, m1, m2, y1, y2]);
    }
    assert(typed_keys(k) =~= t8) by {
        assert(k.drop_last() =~= seq![d1, d2, m1, m2, y1, y2, y3]);
    }
}

} // verus!
