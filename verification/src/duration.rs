//! The lexical form of `xsd:duration`, which SIRI uses for delays, headways,
//! intervals and waiting times: an optional minus sign, `P`, then fields such as
//! `1Y`, `2M`, `3D`, and after a `T` fields such as `4H`, `5M`, `6.5S`.

use vstd::prelude::*;
use vstd::string::*;

verus! {

/// Whether `c` is an ASCII decimal digit.
pub open spec fn is_digit(c: char) -> bool {
    '0' <= c && c <= '9'
}

/// Whether `s` is a non-empty run of digits.
pub open spec fn is_digits(s: Seq<char>) -> bool {
    s.len() > 0 && forall|i: int| 0 <= i < s.len() ==> is_digit(#[trigger] s[i])
}

/// Whether `s` is the value of a field: a run of digits, or, where a fraction is
/// allowed, a run of digits, a point and a second run of digits.
pub open spec fn is_field_value(s: Seq<char>, fraction_allowed: bool) -> bool {
    ||| is_digits(s)
    ||| fraction_allowed && exists|k: int|
        0 < k < s.len() && #[trigger] s[k] == '.' && is_digits(s.take(k)) && is_digits(
            s.skip(k + 1),
        )
}

/// Whether `s` is a list of fields, each a value followed by its designator, with
/// the designators in the order `designators` lists them and none twice. Only the
/// field designated `fractional` may have a fraction.
pub open spec fn is_fields(s: Seq<char>, designators: Seq<char>, fractional: char) -> bool
    decreases designators.len(),
{
    if designators.len() == 0 {
        s.len() == 0
    } else {
        let d = designators[0];
        let later = designators.drop_first();
        ||| is_fields(s, later, fractional)
        ||| exists|k: int|
            0 < k < s.len() && s[k] == d && is_field_value(#[trigger] s.take(k), d == fractional)
                && is_fields(s.skip(k + 1), later, fractional)
    }
}

/// The designators of the date fields, in order: years, months, days.
pub open spec fn date_designators() -> Seq<char> {
    seq!['Y', 'M', 'D']
}

/// The designators of the time fields, in order: hours, minutes, seconds.
pub open spec fn time_designators() -> Seq<char> {
    seq!['H', 'M', 'S']
}

/// Whether `fields`, the text after `P`, lists the fields of a duration: date
/// fields, then optionally `T` and at least one time field, and at least one
/// field in all. Only seconds may have a fraction.
pub open spec fn is_duration_fields(fields: Seq<char>) -> bool {
    ||| fields.len() > 0 && is_fields(fields, date_designators(), 'S')
    ||| exists|k: int|
        0 <= k < fields.len() - 1 && #[trigger] fields[k] == 'T' && is_fields(
            fields.take(k),
            date_designators(),
            'S',
        ) && is_fields(fields.skip(k + 1), time_designators(), 'S')
}

/// Whether `text` is an `xsd:duration` in lexical form, e.g. `PT2M`, `-P1DT12H`
/// or `PT0.5S`.
pub open spec fn is_duration(text: Seq<char>) -> bool {
    let body = if text.len() > 0 && text[0] == '-' {
        text.drop_first()
    } else {
        text
    };
    body.len() > 0 && body[0] == 'P' && is_duration_fields(body.drop_first())
}

/// A character that can stand in no field value.
spec fn is_separator(c: char) -> bool {
    !is_digit(c) && c != '.'
}

/// Fields never hold a character that is neither a digit, a point nor one of
/// their designators.
proof fn lemma_fields_alphabet(s: Seq<char>, designators: Seq<char>, fractional: char, c: char)
    requires
        is_fields(s, designators, fractional),
        is_separator(c),
        !designators.contains(c),
    ensures
        !s.contains(c),
    decreases designators.len(),
{
    if designators.len() > 0 {
        let d = designators[0];
        let later = designators.drop_first();
        assert(!later.contains(c)) by {
            if later.contains(c) {
                let j = choose|j: int| 0 <= j < later.len() && later[j] == c;
                assert(designators[j + 1] == c);
            }
        }
        if is_fields(s, later, fractional) {
            lemma_fields_alphabet(s, later, fractional, c);
        } else {
            let k = choose|k: int|
                0 < k < s.len() && s[k] == d && is_field_value(#[trigger] s.take(k), d == fractional)
                    && is_fields(s.skip(k + 1), later, fractional);
            lemma_fields_alphabet(s.skip(k + 1), later, fractional, c);
            assert(d != c) by {
                assert(designators[0] == d);
            }
            let v = s.take(k);
            assert forall|i: int| 0 <= i < s.len() implies s[i] != c by {
                if i < k {
                    assert(v[i] == s[i]);
                    if is_digits(v) {
                        assert(is_digit(v[i]));
                    } else {
                        let m = choose|m: int|
                            0 < m < v.len() && #[trigger] v[m] == '.' && is_digits(v.take(m))
                                && is_digits(v.skip(m + 1));
                        if i < m {
                            assert(v.take(m)[i] == v[i]);
                        } else if i > m {
                            assert(v.skip(m + 1)[i - m - 1] == v[i]);
                        }
                    }
                } else if i > k {
                    assert(s.skip(k + 1)[i - k - 1] == s[i]);
                }
            }
        }
    }
}

/// Whether `c` is an ASCII decimal digit.
fn is_ascii_digit(c: char) -> (digit: bool)
    ensures
        digit == is_digit(c),
{
    '0' <= c && c <= '9'
}

/// The characters of `text`, one by one.
fn chars_of(text: &str) -> (chars: Vec<char>)
    ensures
        chars@ == text@,
{
    let n = text.unicode_len();
    let mut chars: Vec<char> = Vec::new();
    let mut i: usize = 0;
    while i < n
        invariant
            i <= n,
            n == text@.len(),
            chars@ == text@.take(i as int),
        decreases n - i,
    {
        chars.push(text.get_char(i));
        i += 1;
        assert(chars@ =~= text@.take(i as int));
    }
    assert(chars@ =~= text@);
    chars
}

/// Where the run of digits that starts at `from` ends, looking no further than `to`.
fn digits_end(chars: &Vec<char>, from: usize, to: usize) -> (end: usize)
    requires
        from <= to <= chars.len(),
    ensures
        from <= end <= to,
        forall|i: int| from <= i < end ==> is_digit(#[trigger] chars@[i]),
        end == to || !is_digit(chars@[end as int]),
{
    let mut end = from;
    while end < to && is_ascii_digit(chars[end])
        invariant
            from <= end <= to,
            to <= chars.len(),
            forall|i: int| from <= i < end ==> is_digit(#[trigger] chars@[i]),
        decreases to - end,
    {
        end += 1;
    }
    end
}

/// Where the first `c` at or after `from` stands, or `to` where there is none
/// before `to`.
fn find_char(chars: &Vec<char>, from: usize, to: usize, c: char) -> (at: usize)
    requires
        from <= to <= chars.len(),
    ensures
        from <= at <= to,
        forall|i: int| from <= i < at ==> #[trigger] chars@[i] != c,
        at == to || chars@[at as int] == c,
{
    let mut at = from;
    while at < to && chars[at] != c
        invariant
            from <= at <= to,
            to <= chars.len(),
            forall|i: int| from <= i < at ==> #[trigger] chars@[i] != c,
        decreases to - at,
    {
        at += 1;
    }
    at
}

/// A field found at the front of `s`, its designator at `k`, begins with the run
/// of digits that ends at `whole`, and that run is either the whole value or is
/// followed by a point and the digits of a fraction.
proof fn lemma_field_shape(s: Seq<char>, d: char, fraction_allowed: bool, k: int, whole: int)
    requires
        is_separator(d),
        0 < k < s.len(),
        s[k] == d,
        is_field_value(s.take(k), fraction_allowed),
        0 <= whole <= s.len(),
        forall|i: int| 0 <= i < whole ==> is_digit(#[trigger] s[i]),
        whole == s.len() || !is_digit(s[whole]),
    ensures
        0 < whole <= k,
        whole < k ==> {
            &&& fraction_allowed
            &&& s[whole] == '.'
            &&& whole + 1 < k
            &&& forall|i: int| whole + 1 <= i < k ==> is_digit(#[trigger] s[i])
        },
{
    let v = s.take(k);
    if is_digits(v) {
        assert forall|i: int| 0 <= i < k implies is_digit(#[trigger] s[i]) by {
            assert(v[i] == s[i]);
        }
        if whole < k {
            assert(is_digit(s[whole]));
        }
    } else {
        let m = choose|m: int|
            0 < m < v.len() && #[trigger] v[m] == '.' && is_digits(v.take(m)) && is_digits(
                v.skip(m + 1),
            );
        assert forall|i: int| 0 <= i < m implies is_digit(#[trigger] s[i]) by {
            assert(v.take(m)[i] == s[i]);
        }
        assert forall|i: int| m + 1 <= i < k implies is_digit(#[trigger] s[i]) by {
            assert(v.skip(m + 1)[i - m - 1] == s[i]);
        }
        assert(v[m] == s[m]);
        if whole < m {
            assert(is_digit(s[whole]));
        }
        if whole > m {
            assert(is_digit(s[m]));
        }
        assert(whole == m);
    }
}

/// The value that `whole` and `end` delimit at the front of `s` is a field value.
proof fn lemma_field_value(s: Seq<char>, fraction_allowed: bool, whole: int, end: int)
    requires
        0 < whole <= end <= s.len(),
        forall|i: int| 0 <= i < whole ==> is_digit(#[trigger] s[i]),
        whole < end ==> {
            &&& fraction_allowed
            &&& s[whole] == '.'
            &&& whole + 1 < end
            &&& forall|i: int| whole + 1 <= i < end ==> is_digit(#[trigger] s[i])
        },
    ensures
        is_field_value(s.take(end), fraction_allowed),
{
    let v = s.take(end);
    if whole == end {
        assert(forall|i: int| 0 <= i < end ==> v[i] == s[i]);
        assert(is_digits(v));
    } else {
        assert(v.take(whole) =~= s.take(whole));
        assert(v.skip(whole + 1) =~= s.subrange(whole + 1, end));
        assert(is_digits(v.take(whole)));
        assert(is_digits(v.skip(whole + 1)));
        assert(v[whole] == '.');
    }
}

/// Whether the characters from `from` to `to` are fields designated, in order,
/// by `designators` from index `next` on.
fn fields_within(
    chars: &Vec<char>,
    from: usize,
    to: usize,
    designators: &Vec<char>,
    next: usize,
    fractional: char,
) -> (fields: bool)
    requires
        from <= to <= chars.len(),
        next <= designators.len(),
        forall|i: int| 0 <= i < designators.len() ==> is_separator(#[trigger] designators@[i]),
    ensures
        fields == is_fields(
            chars@.subrange(from as int, to as int),
            designators@.skip(next as int),
            fractional,
        ),
    decreases designators.len() - next,
{
    let ghost s = chars@.subrange(from as int, to as int);
    let ghost ds = designators@.skip(next as int);
    if next == designators.len() {
        assert(ds.len() == 0);
        return from == to;
    }
    let d = designators[next];
    let ghost f = d == fractional;
    let ghost later = designators@.skip(next as int + 1);
    proof {
        assert(ds.drop_first() =~= later);
        assert(ds[0] == d);
        assert(is_separator(designators@[next as int]));
    }
    let absent = fields_within(chars, from, to, designators, next + 1, fractional);
    let whole_end = digits_end(chars, from, to);
    let ghost whole = whole_end - from;
    proof {
        assert forall|i: int| 0 <= i < whole implies is_digit(#[trigger] s[i]) by {
            assert(s[i] == chars@[from + i]);
        }
        if whole_end < to {
            assert(s[whole] == chars@[whole_end as int]);
        }
    }
    let mut value_end = whole_end;
    let mut value_ok = whole_end > from;
    if value_ok && d == fractional && whole_end < to && chars[whole_end] == '.' {
        let fraction_end = digits_end(chars, whole_end + 1, to);
        value_ok = fraction_end > whole_end + 1;
        value_end = fraction_end;
        proof {
            assert forall|i: int| whole + 1 <= i < fraction_end - from implies is_digit(
                #[trigger] s[i],
            ) by {
                assert(s[i] == chars@[from + i]);
            }
            assert(s[whole] == chars@[whole_end as int]);
            if fraction_end < to {
                assert(s[fraction_end - from] == chars@[fraction_end as int]);
            }
        }
    }
    let present = if value_ok && value_end < to && chars[value_end] == d {
        fields_within(chars, value_end + 1, to, designators, next + 1, fractional)
    } else {
        false
    };
    proof {
        let k0 = value_end - from;
        if present {
            lemma_field_value(s, f, whole, k0);
            assert(s[k0] == chars@[value_end as int]);
            assert(s.skip(k0 + 1) =~= chars@.subrange(value_end + 1, to as int));
        }
        if exists|k: int|
            0 < k < s.len() && s[k] == d && is_field_value(#[trigger] s.take(k), f) && is_fields(
                s.skip(k + 1),
                later,
                fractional,
            ) {
            let k = choose|k: int|
                0 < k < s.len() && s[k] == d && is_field_value(#[trigger] s.take(k), f)
                    && is_fields(s.skip(k + 1), later, fractional);
            lemma_field_shape(s, d, f, k, whole);
            assert(s[k] == chars@[from + k]);
            if whole < k {
                assert(s[whole] == chars@[whole_end as int]);
                assert(s[whole + 1] == chars@[whole_end + 1]);
            }
            assert(value_end == from + k);
            assert(s.skip(k + 1) =~= chars@.subrange(value_end + 1, to as int));
        }
    }
    present || absent
}

/// An `xsd:duration`, kept in the lexical form it was written in, e.g. `PT2M`.
#[derive(Debug, PartialEq, Eq, Hash)]
pub struct Duration(String);

impl View for Duration {
    type V = Seq<char>;

    closed spec fn view(&self) -> Seq<char> {
        self.0@
    }
}

impl Clone for Duration {
    fn clone(&self) -> (copy: Self)
        ensures
            copy@ == self@,
    {
        proof {
            use_type_invariant(self);
        }
        Duration(self.0.clone())
    }
}

impl Duration {
    /// A duration is always written in the lexical form of `xsd:duration`.
    #[verifier::type_invariant]
    spec fn well_formed(self) -> bool {
        is_duration(self.0@)
    }

    /// Reads a duration in the lexical form of `xsd:duration`, e.g. `PT2M`; `None`
    /// where `text` is not one.
    pub fn parse(text: &str) -> (duration: Option<Duration>)
        ensures
            duration is Some <==> is_duration(text@),
            duration matches Some(d) ==> d@ == text@,
    {
        let chars = chars_of(text);
        let n = chars.len();
        let start: usize = if n > 0 && chars[0] == '-' {
            1
        } else {
            0
        };
        let ghost body = if text@.len() > 0 && text@[0] == '-' {
            text@.drop_first()
        } else {
            text@
        };
        proof {
            assert(body =~= text@.skip(start as int));
        }
        if start >= n || chars[start] != 'P' {
            return None;
        }
        let first = start + 1;
        let ghost fields = body.drop_first();
        assert(fields =~= chars@.subrange(first as int, n as int));
        let date: Vec<char> = vec!['Y', 'M', 'D'];
        let time: Vec<char> = vec!['H', 'M', 'S'];
        assert(date@ =~= date_designators());
        assert(time@ =~= time_designators());
        assert(date@.skip(0) =~= date@);
        assert(time@.skip(0) =~= time@);
        let t = find_char(&chars, first, n, 'T');
        let ok = if t == n {
            first < n && fields_within(&chars, first, n, &date, 0, 'S')
        } else {
            t + 1 < n && fields_within(&chars, first, t, &date, 0, 'S') && fields_within(
                &chars,
                t + 1,
                n,
                &time,
                0,
                'S',
            )
        };
        proof {
            let k0 = t - first;
            if t == n {
                assert forall|k: int| 0 <= k < fields.len() implies fields[k] != 'T' by {
                    assert(fields[k] == chars@[first + k]);
                }
            } else {
                assert(fields[k0] == 'T');
                assert(fields.contains('T'));
                assert(!date_designators().contains('T')) by {
                    if date_designators().contains('T') {
                        let j = choose|j: int| 0 <= j < 3 && date_designators()[j] == 'T';
                    }
                }
                if fields.len() > 0 && is_fields(fields, date_designators(), 'S') {
                    lemma_fields_alphabet(fields, date_designators(), 'S', 'T');
                }
                assert(fields.take(k0) =~= chars@.subrange(first as int, t as int));
                assert(fields.skip(k0 + 1) =~= chars@.subrange(t + 1, n as int));
                if exists|k: int|
                    0 <= k < fields.len() - 1 && #[trigger] fields[k] == 'T' && is_fields(
                        fields.take(k),
                        date_designators(),
                        'S',
                    ) && is_fields(fields.skip(k + 1), time_designators(), 'S') {
                    let k = choose|k: int|
                        0 <= k < fields.len() - 1 && #[trigger] fields[k] == 'T' && is_fields(
                            fields.take(k),
                            date_designators(),
                            'S',
                        ) && is_fields(fields.skip(k + 1), time_designators(), 'S');
                    if k > k0 {
                        lemma_fields_alphabet(fields.take(k), date_designators(), 'S', 'T');
                        assert(fields.take(k)[k0] == 'T');
                    }
                    if k < k0 {
                        assert(chars@[first + k] == fields[k]);
                    }
                }
            }
        }
        if ok {
            Some(Duration(text.to_owned()))
        } else {
            None
        }
    }

    /// The duration as written.
    pub fn as_str(&self) -> (text: &str)
        ensures
            text@ == self@,
            is_duration(text@),
    {
        proof {
            use_type_invariant(self);
        }
        self.0.as_str()
    }
}

} // verus!
