//! Character-level helpers on strings: whitespace trimming, ASCII case
//! folding, comparison, joining, and the literal grammars of the attribute
//! values (integers, booleans, decimal numbers).

use vstd::prelude::*;

verus! {

/// Whether `c` has the Unicode property `White_Space`.
pub open spec fn is_whitespace(c: char) -> bool {
    ||| '\u{9}' <= c <= '\u{d}'
    ||| c == ' '
    ||| c == '\u{85}'
    ||| c == '\u{a0}'
    ||| c == '\u{1680}'
    ||| '\u{2000}' <= c <= '\u{200a}'
    ||| c == '\u{2028}'
    ||| c == '\u{2029}'
    ||| c == '\u{202f}'
    ||| c == '\u{205f}'
    ||| c == '\u{3000}'
}

/// `s` without its leading whitespace.
pub open spec fn trim_start(s: Seq<char>) -> Seq<char>
    decreases s.len(),
{
    if s.len() > 0 && is_whitespace(s[0]) {
        trim_start(s.drop_first())
    } else {
        s
    }
}

/// `s` without its trailing whitespace.
pub open spec fn trim_end(s: Seq<char>) -> Seq<char>
    decreases s.len(),
{
    if s.len() > 0 && is_whitespace(s.last()) {
        trim_end(s.drop_last())
    } else {
        s
    }
}

/// `s` without leading and trailing whitespace.
pub open spec fn trimmed(s: Seq<char>) -> Seq<char> {
    trim_end(trim_start(s))
}

/// The lower-case form of an ASCII capital letter; any other character itself.
pub open spec fn ascii_lower(c: char) -> char {
    if 'A' <= c <= 'Z' {
        ((c as u32) + 32) as char
    } else {
        c
    }
}

/// `s` with every ASCII capital letter replaced by its lower-case form.
pub open spec fn ascii_lowercase(s: Seq<char>) -> Seq<char> {
    Seq::new(s.len(), |i: int| ascii_lower(s[i]))
}

/// Whether `a` and `b` are equal up to the case of ASCII letters.
pub open spec fn eq_ignoring_case(a: Seq<char>, b: Seq<char>) -> bool {
    ascii_lowercase(a) == ascii_lowercase(b)
}

/// Whether `c` is one of the ten ASCII digits.
pub open spec fn is_digit(c: char) -> bool {
    '0' <= c <= '9'
}

/// Whether `s` consists of ASCII digits only.
pub open spec fn all_digits(s: Seq<char>) -> bool {
    forall|i: int| 0 <= i < s.len() ==> is_digit(#[trigger] s[i])
}

/// The number that the digit `c` denotes.
pub open spec fn digit_value(c: char) -> int {
    (c as u32) - ('0' as u32)
}

/// The number that a sequence of digits denotes in base ten.
pub open spec fn decimal_value(digits: Seq<char>) -> int
    decreases digits.len(),
{
    if digits.len() == 0 {
        0
    } else {
        decimal_value(digits.drop_last()) * 10 + digit_value(digits.last())
    }
}

/// The integer that `s` denotes: an optional sign, then one or more digits.
pub open spec fn integer_literal(s: Seq<char>) -> Option<int> {
    if s.len() == 0 {
        None
    } else {
        let digits = if s[0] == '-' || s[0] == '+' {
            s.skip(1)
        } else {
            s
        };
        if digits.len() == 0 || !all_digits(digits) {
            None
        } else if s[0] == '-' {
            Some(-decimal_value(digits))
        } else {
            Some(decimal_value(digits))
        }
    }
}

/// The integer that `s` denotes, where it fits the machine's signed word.
pub open spec fn parse_integer(s: Seq<char>) -> Option<int> {
    match integer_literal(s) {
        Some(v) => if isize::MIN <= v <= isize::MAX {
            Some(v)
        } else {
            None
        },
        None => None,
    }
}

/// The truth value that `s` denotes: exactly `true` or `false`.
pub open spec fn parse_boolean(s: Seq<char>) -> Option<bool> {
    if s == "true"@ {
        Some(true)
    } else if s == "false"@ {
        Some(false)
    } else {
        None
    }
}

/// The first position at or after `i` that holds no digit.
pub open spec fn digits_end(s: Seq<char>, i: int) -> int
    decreases s.len() - i,
{
    if 0 <= i < s.len() && is_digit(s[i]) {
        digits_end(s, i + 1)
    } else {
        i
    }
}

/// Whether `s` is an exponent: `e` or `E`, an optional sign, one or more
/// digits.
pub open spec fn is_exponent(s: Seq<char>) -> bool {
    &&& s.len() >= 2
    &&& (s[0] == 'e' || s[0] == 'E')
    &&& {
        let digits = if s[1] == '+' || s[1] == '-' {
            s.skip(2)
        } else {
            s.skip(1)
        };
        digits.len() >= 1 && all_digits(digits)
    }
}

/// Whether `s` from position `i` on is empty or an exponent.
pub open spec fn is_number_tail(s: Seq<char>, i: int) -> bool {
    i == s.len() || is_exponent(s.skip(i))
}

/// Whether `s` is an unsigned decimal number: digits with at most one point
/// among them, at least one digit in all, and an optional exponent.
pub open spec fn is_decimal_number(s: Seq<char>) -> bool {
    let a = digits_end(s, 0);
    if a < s.len() && s[a] == '.' {
        let b = digits_end(s, a + 1);
        a + (b - (a + 1)) >= 1 && is_number_tail(s, b)
    } else {
        a >= 1 && is_number_tail(s, a)
    }
}

/// Whether `s` names infinity or not-a-number, in any case of letters.
pub open spec fn is_special_number(s: Seq<char>) -> bool {
    ||| eq_ignoring_case(s, "inf"@)
    ||| eq_ignoring_case(s, "infinity"@)
    ||| eq_ignoring_case(s, "nan"@)
}

/// Whether `s` is a number literal: an optional sign, then a decimal number
/// or one of the special names.
pub open spec fn is_number_literal(s: Seq<char>) -> bool {
    let body = if s.len() > 0 && (s[0] == '+' || s[0] == '-') {
        s.skip(1)
    } else {
        s
    };
    body.len() > 0 && (is_decimal_number(body) || is_special_number(body))
}

/// The texts as sequences of characters.
pub open spec fn strings_view(strings: Seq<String>) -> Seq<Seq<char>> {
    Seq::new(strings.len(), |i: int| strings[i]@)
}

/// The parts joined into one text, with `separator` between neighbours.
pub open spec fn joined(parts: Seq<Seq<char>>, separator: Seq<char>) -> Seq<char>
    decreases parts.len(),
{
    if parts.len() == 0 {
        Seq::empty()
    } else if parts.len() == 1 {
        parts[0]
    } else {
        joined(parts.drop_last(), separator) + separator + parts.last()
    }
}

/// The parts concatenated.
pub open spec fn concatenated(parts: Seq<Seq<char>>) -> Seq<char>
    decreases parts.len(),
{
    if parts.len() == 0 {
        Seq::empty()
    } else {
        concatenated(parts.drop_last()) + parts.last()
    }
}

/// The text that `Debug` formatting writes for a string whose characters are
/// `s`: the string in double quotes, with the characters that cannot stand
/// there as they are written as escapes.
pub uninterp spec fn debug_text(s: Seq<char>) -> Seq<char>;

/// `<str as Debug>::fmt`, collected into a `String`. The contract names what
/// `std` writes for `s` and claims only that it depends on the characters of
/// `s` alone.
#[verifier::external_body]
pub(crate) fn debug_string(s: &str) -> (r: String)
    ensures
        r@ == debug_text(s@),
{
    format!("{:?}", s)
}

/// Whether `c` is whitespace.
pub fn char_is_whitespace(c: char) -> (r: bool)
    ensures
        r == is_whitespace(c),
{
    ('\u{9}' <= c && c <= '\u{d}') || c == ' ' || c == '\u{85}' || c == '\u{a0}' || c == '\u{1680}'
        || ('\u{2000}' <= c && c <= '\u{200a}') || c == '\u{2028}' || c == '\u{2029}' || c
        == '\u{202f}' || c == '\u{205f}' || c == '\u{3000}'
}

/// Whether `c` is one of the ten ASCII digits.
pub fn char_is_digit(c: char) -> (r: bool)
    ensures
        r == is_digit(c),
{
    '0' <= c && c <= '9'
}

/// The lower-case form of an ASCII capital letter; any other character itself.
pub fn char_ascii_lower(c: char) -> (r: char)
    ensures
        r == ascii_lower(c),
{
    if 'A' <= c && c <= 'Z' {
        let n: u32 = c as u32;
        let m: u32 = n + 32;
        m as u8 as char
    } else {
        c
    }
}

/// The characters of `s`, in order.
pub fn chars_of(s: &str) -> (v: Vec<char>)
    ensures
        v@ == s@,
{
    let mut v: Vec<char> = Vec::new();
    for c in it: s.chars()
        invariant
            v@ == it.seq().take(it.index() as int),
            it.seq() == s@,
    {
        v.push(c);
    }
    v
}

/// Whether two strings hold the same characters.
pub fn str_eq(a: &str, b: &str) -> (r: bool)
    ensures
        r == (a@ == b@),
{
    let x = chars_of(a);
    let y = chars_of(b);
    if x.len() != y.len() {
        return false;
    }
    let mut i: usize = 0;
    while i < x.len()
        invariant
            i <= x.len(),
            x.len() == y.len(),
            x@ == a@,
            y@ == b@,
            forall|j: int| 0 <= j < i ==> x@[j] == y@[j],
        decreases x.len() - i,
    {
        if x[i] != y[i] {
            return false;
        }
        i = i + 1;
    }
    assert(a@ =~= b@);
    true
}

/// Whether two strings are equal up to the case of ASCII letters.
pub fn str_eq_ignore_ascii_case(a: &str, b: &str) -> (r: bool)
    ensures
        r == eq_ignoring_case(a@, b@),
{
    let x = chars_of(a);
    let y = chars_of(b);
    if x.len() != y.len() {
        assert(ascii_lowercase(a@).len() != ascii_lowercase(b@).len());
        return false;
    }
    let mut i: usize = 0;
    while i < x.len()
        invariant
            i <= x.len(),
            x.len() == y.len(),
            x@ == a@,
            y@ == b@,
            forall|j: int| 0 <= j < i ==> ascii_lower(x@[j]) == ascii_lower(y@[j]),
        decreases x.len() - i,
    {
        if char_ascii_lower(x[i]) != char_ascii_lower(y[i]) {
            assert(ascii_lowercase(a@)[i as int] != ascii_lowercase(b@)[i as int]);
            return false;
        }
        i = i + 1;
    }
    assert(ascii_lowercase(a@) =~= ascii_lowercase(b@));
    true
}

/// `s` without leading and trailing whitespace.
pub fn trim(s: &str) -> (r: &str)
    ensures
        r@ == trimmed(s@),
{
    let v = chars_of(s);
    let n = v.len();
    let mut start: usize = 0;
    assert(s@.skip(0) =~= s@);
    while start < n && char_is_whitespace(v[start])
        invariant
            start <= n,
            n == s@.len(),
            v@ == s@,
            trim_start(s@) == trim_start(s@.skip(start as int)),
        decreases n - start,
    {
        assert(s@.skip(start as int).drop_first() =~= s@.skip(start as int + 1));
        start = start + 1;
    }
    let mut end: usize = n;
    while end > start && char_is_whitespace(v[end - 1])
        invariant
            start <= end <= n,
            n == s@.len(),
            v@ == s@,
            trimmed(s@) == trim_end(s@.subrange(start as int, end as int)),
        decreases end,
    {
        assert(s@.subrange(start as int, end as int).drop_last() =~= s@.subrange(
            start as int,
            end as int - 1,
        ));
        end = end - 1;
    }
    s.substring_char(start, end)
}

/// How many characters of whitespace `s` begins with.
pub open spec fn leading_whitespace(s: Seq<char>) -> nat
    decreases s.len(),
{
    if s.len() > 0 && is_whitespace(s[0]) {
        1 + leading_whitespace(s.drop_first())
    } else {
        0
    }
}

/// How many characters of whitespace `s` ends with.
pub open spec fn trailing_whitespace(s: Seq<char>) -> nat
    decreases s.len(),
{
    if s.len() > 0 && is_whitespace(s.last()) {
        1 + trailing_whitespace(s.drop_last())
    } else {
        0
    }
}

/// `s` without its leading whitespace is what follows the whitespace that
/// `s` begins with, and does not begin with whitespace itself.
pub proof fn lemma_trim_start(s: Seq<char>)
    ensures
        leading_whitespace(s) <= s.len(),
        trim_start(s) == s.skip(leading_whitespace(s) as int),
        forall|i: int| 0 <= i < leading_whitespace(s) ==> is_whitespace(#[trigger] s[i]),
        leading_whitespace(s) < s.len() ==> !is_whitespace(s[leading_whitespace(s) as int]),
    decreases s.len(),
{
    if s.len() > 0 && is_whitespace(s[0]) {
        let rest = s.drop_first();
        lemma_trim_start(rest);
        assert forall|i: int| 0 <= i < leading_whitespace(s) implies is_whitespace(
            #[trigger] s[i],
        ) by {
            if i > 0 {
                assert(s[i] == rest[i - 1]);
            }
        }
    }
}

/// `s` without its trailing whitespace is what comes before the whitespace
/// that `s` ends with, and does not end with whitespace itself.
pub proof fn lemma_trim_end(s: Seq<char>)
    ensures
        trailing_whitespace(s) <= s.len(),
        trim_end(s) == s.take(s.len() - trailing_whitespace(s)),
        forall|i: int|
            s.len() - trailing_whitespace(s) <= i < s.len() ==> is_whitespace(#[trigger] s[i]),
        trailing_whitespace(s) < s.len() ==> !is_whitespace(
            s[s.len() - trailing_whitespace(s) - 1],
        ),
    decreases s.len(),
{
    if s.len() > 0 && is_whitespace(s.last()) {
        let rest = s.drop_last();
        lemma_trim_end(rest);
        assert forall|i: int|
            s.len() - trailing_whitespace(s) <= i < s.len() implies is_whitespace(
            #[trigger] s[i],
        ) by {
            if i < s.len() - 1 {
                assert(s[i] == rest[i]);
            }
        }
    }
}

/// Trimming cuts a piece out of `s`: all that is cut off before it and
/// after it is whitespace, and the piece neither begins nor ends with
/// whitespace.
pub proof fn lemma_trimmed(s: Seq<char>)
    ensures
        ({
            let from = leading_whitespace(s) as int;
            let to = s.len() - trailing_whitespace(s.skip(from));
            &&& 0 <= from <= to <= s.len()
            &&& trimmed(s) == s.subrange(from, to)
            &&& forall|i: int| 0 <= i < from ==> is_whitespace(#[trigger] s[i])
            &&& forall|i: int| to <= i < s.len() ==> is_whitespace(#[trigger] s[i])
            &&& from < to ==> !is_whitespace(s[from]) && !is_whitespace(s[to - 1])
        }),
{
    let from = leading_whitespace(s) as int;
    lemma_trim_start(s);
    let rest = s.skip(from);
    lemma_trim_end(rest);
    let to = s.len() - trailing_whitespace(rest);
    assert forall|i: int| to <= i < s.len() implies is_whitespace(#[trigger] s[i]) by {
        assert(s[i] == rest[i - from]);
    }
}

/// Two runs of parts concatenated are the first run concatenated, then the
/// second.
pub proof fn lemma_concatenated_append(a: Seq<Seq<char>>, b: Seq<Seq<char>>)
    ensures
        concatenated(a + b) == concatenated(a) + concatenated(b),
    decreases b.len(),
{
    if b.len() > 0 {
        lemma_concatenated_append(a, b.drop_last());
        assert((a + b).drop_last() =~= a + b.drop_last());
    }
}

/// A prefix of a digit sequence denotes no more than the whole, and no digit
/// sequence denotes a negative number.
pub proof fn lemma_decimal_value_prefix(digits: Seq<char>, k: int)
    requires
        all_digits(digits),
        0 <= k <= digits.len(),
    ensures
        0 <= decimal_value(digits.take(k)) <= decimal_value(digits),
    decreases digits.len(),
{
    if digits.len() > 0 {
        if k == digits.len() {
            assert(digits.take(k) =~= digits);
            lemma_decimal_value_prefix(digits.drop_last(), k - 1);
        } else {
            lemma_decimal_value_prefix(digits.drop_last(), k);
            assert(digits.drop_last().take(k) =~= digits.take(k));
        }
    }
}

/// The integer that `s` denotes in base ten, with an optional sign before its
/// digits; `None` where `s` is no such literal or the number does not fit.
pub fn parse_isize(s: &str) -> (r: Option<isize>)
    ensures
        match r {
            Some(v) => parse_integer(s@) == Some(v as int),
            None => parse_integer(s@) is None,
        },
{
    let v = chars_of(s);
    let n = v.len();
    if n == 0 {
        return None;
    }
    let negative = v[0] == '-';
    let first: usize = if v[0] == '-' || v[0] == '+' {
        1
    } else {
        0
    };
    if first == n {
        return None;
    }
    let ghost digits = if s@[0] == '-' || s@[0] == '+' {
        s@.skip(1)
    } else {
        s@
    };
    let mut acc: isize = 0;
    let mut i: usize = first;
    while i < n
        invariant
            first <= i <= n,
            first <= 1,
            v@ == s@,
            n == s@.len(),
            n > 0,
            negative == (s@[0] == '-'),
            first == 1 <==> s@[0] == '-' || s@[0] == '+',
            digits == if s@[0] == '-' || s@[0] == '+' {
                s@.skip(1)
            } else {
                s@
            },
            all_digits(digits.take(i - first)),
            negative ==> acc == -decimal_value(digits.take(i - first)),
            !negative ==> acc == decimal_value(digits.take(i - first)),
        decreases n - i,
    {
        let c = v[i];
        let ghost k = i - first;
        if !char_is_digit(c) {
            return None;
        }
        let d: isize = (c as u32 - '0' as u32) as isize;
        proof {
            assert(digits.take(k + 1).drop_last() =~= digits.take(k));
            if all_digits(digits) {
                lemma_decimal_value_prefix(digits, k + 1);
            }
            lemma_decimal_value_prefix(digits.take(k), k);
        }
        let scaled = acc.checked_mul(10);
        let next = match scaled {
            Some(m) => if negative {
                m.checked_sub(d)
            } else {
                m.checked_add(d)
            },
            None => None,
        };
        match next {
            Some(x) => {
                acc = x;
            },
            None => {
                return None;
            },
        }
        i = i + 1;
    }
    assert(digits.take(n - first) =~= digits);
    Some(acc)
}

/// The truth value that `s` spells: `true` or `false`, and nothing else.
pub fn parse_bool(s: &str) -> (r: Option<bool>)
    ensures
        r == parse_boolean(s@),
{
    if str_eq(s, "true") {
        Some(true)
    } else if str_eq(s, "false") {
        Some(false)
    } else {
        None
    }
}

/// From `i` on there are digits only exactly when the digits that start at
/// `i` end where `s` ends.
pub proof fn lemma_digits_to_the_end(s: Seq<char>, i: int)
    requires
        0 <= i <= s.len(),
    ensures
        i <= digits_end(s, i) <= s.len(),
        all_digits(s.skip(i)) <==> digits_end(s, i) == s.len(),
    decreases s.len() - i,
{
    if i < s.len() {
        lemma_digits_to_the_end(s, i + 1);
        if is_digit(s[i]) {
            if all_digits(s.skip(i + 1)) {
                assert forall|j: int| 0 <= j < s.skip(i).len() implies is_digit(
                    #[trigger] s.skip(i)[j],
                ) by {
                    if j > 0 {
                        assert(s.skip(i)[j] == s.skip(i + 1)[j - 1]);
                    }
                }
            }
            if all_digits(s.skip(i)) {
                assert forall|j: int| 0 <= j < s.skip(i + 1).len() implies is_digit(
                    #[trigger] s.skip(i + 1)[j],
                ) by {
                    assert(s.skip(i + 1)[j] == s.skip(i)[j + 1]);
                }
            }
        } else {
            assert(s.skip(i)[0] == s[i]);
        }
    }
}

/// The end of the digits that start at `from`.
fn scan_digits(v: &Vec<char>, from: usize) -> (end: usize)
    requires
        from <= v.len(),
    ensures
        end == digits_end(v@, from as int),
        from <= end <= v.len(),
{
    let mut i: usize = from;
    while i < v.len() && char_is_digit(v[i])
        invariant
            from <= i <= v.len(),
            digits_end(v@, from as int) == digits_end(v@, i as int),
        decreases v.len() - i,
    {
        i = i + 1;
    }
    i
}

/// Whether the characters from `from` on are empty or form an exponent.
fn number_tail(v: &Vec<char>, from: usize) -> (r: bool)
    requires
        from <= v.len(),
    ensures
        r == is_number_tail(v@, from as int),
{
    let n = v.len();
    if from == n {
        return true;
    }
    if n - from < 2 {
        return false;
    }
    if v[from] != 'e' && v[from] != 'E' {
        return false;
    }
    let start: usize = if v[from + 1] == '+' || v[from + 1] == '-' {
        from + 2
    } else {
        from + 1
    };
    proof {
        assert(v@.skip(from as int).skip(2) =~= v@.skip(from as int + 2));
        assert(v@.skip(from as int).skip(1) =~= v@.skip(from as int + 1));
        lemma_digits_to_the_end(v@, start as int);
    }
    if start == n {
        return false;
    }
    scan_digits(v, start) == n
}

/// Whether the characters form an unsigned decimal number.
fn decimal_number(v: &Vec<char>) -> (r: bool)
    ensures
        r == is_decimal_number(v@),
{
    let a = scan_digits(v, 0);
    if a < v.len() && v[a] == '.' {
        let b = scan_digits(v, a + 1);
        a + (b - (a + 1)) >= 1 && number_tail(v, b)
    } else {
        a >= 1 && number_tail(v, a)
    }
}

/// Whether `s` is a number literal: an optional sign, then either digits with
/// at most one point among them and an optional exponent, or one of the names
/// `inf`, `infinity` and `nan` in any case of letters.
pub fn is_number(s: &str) -> (r: bool)
    ensures
        r == is_number_literal(s@),
{
    let v = chars_of(s);
    let n = v.len();
    let signed = n > 0 && (v[0] == '+' || v[0] == '-');
    let body: &str = if signed {
        s.substring_char(1, n)
    } else {
        s
    };
    let b = chars_of(body);
    if b.len() == 0 {
        return false;
    }
    decimal_number(&b) || str_eq_ignore_ascii_case(body, "inf") || str_eq_ignore_ascii_case(
        body,
        "infinity",
    ) || str_eq_ignore_ascii_case(body, "nan")
}

/// The strings joined into one, with `separator` between neighbours.
pub fn join_strings(parts: &Vec<String>, separator: &str) -> (r: String)
    ensures
        r@ == joined(strings_view(parts@), separator@),
{
    let ghost texts = strings_view(parts@);
    let mut out = String::new();
    let mut i: usize = 0;
    while i < parts.len()
        invariant
            i <= parts.len(),
            texts == strings_view(parts@),
            out@ == joined(texts.take(i as int), separator@),
        decreases parts.len() - i,
    {
        proof {
            assert(texts.take(i + 1).drop_last() =~= texts.take(i as int));
        }
        if i > 0 {
            out.append(separator);
        }
        out.append(parts[i].as_str());
        i = i + 1;
    }
    assert(texts.take(parts.len() as int) =~= texts);
    out
}

/// The strings concatenated.
pub fn concat_strings(parts: &Vec<String>) -> (r: String)
    ensures
        r@ == concatenated(strings_view(parts@)),
{
    let ghost texts = strings_view(parts@);
    let mut out = String::new();
    let mut i: usize = 0;
    while i < parts.len()
        invariant
            i <= parts.len(),
            texts == strings_view(parts@),
            out@ == concatenated(texts.take(i as int)),
        decreases parts.len() - i,
    {
        proof {
            assert(texts.take(i + 1).drop_last() =~= texts.take(i as int));
        }
        out.append(parts[i].as_str());
        i = i + 1;
    }
    assert(texts.take(parts.len() as int) =~= texts);
    out
}

} // verus!
