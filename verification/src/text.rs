//! Text handling shared by the git and forge logic: splitting, joining, line
//! breaking, trimming, and decimal numbers.

use vstd::prelude::*;

verus! {

/// The pieces of `s` between occurrences of `sep`, as `str::split` with a
/// `char` pattern gives them: always at least one piece.
pub open spec fn split_on(s: Seq<char>, sep: char) -> Seq<Seq<char>>
    decreases s.len(),
{
    if s.len() == 0 {
        seq![Seq::<char>::empty()]
    } else {
        let rest = split_on(s.drop_last(), sep);
        if s.last() == sep {
            rest.push(Seq::<char>::empty())
        } else {
            rest.update(rest.len() - 1, rest.last().push(s.last()))
        }
    }
}

pub proof fn lemma_split_on_nonempty(s: Seq<char>, sep: char)
    ensures
        split_on(s, sep).len() >= 1,
    decreases s.len(),
{
    if s.len() > 0 {
        lemma_split_on_nonempty(s.drop_last(), sep);
    }
}

/// Splits `s` at every `sep`, as `s.split(sep).map(ToString::to_string).collect()`.
pub fn split_char(s: &str, sep: char) -> (pieces: Vec<String>)
    ensures
        pieces@.map_values(|p: String| p@) == split_on(s@, sep),
{
    let n = s.unicode_len();
    let mut pieces: Vec<String> = Vec::new();
    let mut start: usize = 0;
    let mut i: usize = 0;
    proof {
        assert(s@.take(0) =~= Seq::<char>::empty());
    }
    while i < n
        invariant
            n == s@.len(),
            start <= i <= n,
            split_on(s@.take(i as int), sep) =~= pieces@.map_values(|p: String| p@).push(
                s@.subrange(start as int, i as int),
            ),
        decreases n - i,
    {
        let c = s.get_char(i);
        proof {
            assert(s@.take(i + 1).drop_last() =~= s@.take(i as int));
            assert(s@.take(i + 1).last() == c);
        }
        let ghost before = pieces@.map_values(|p: String| p@);
        if c == sep {
            let piece = String::from_str(s.substring_char(start, i));
            pieces.push(piece);
            start = i + 1;
            proof {
                assert(pieces@.map_values(|p: String| p@) =~= before.push(piece@));
                assert(s@.subrange(start as int, i + 1) =~= Seq::<char>::empty());
            }
        } else {
            proof {
                assert(s@.subrange(start as int, i + 1) =~= s@.subrange(start as int, i as int).push(c));
            }
        }
        i = i + 1;
    }
    let last = String::from_str(s.substring_char(start, n));
    pieces.push(last);
    proof {
        assert(s@.take(n as int) =~= s@);
    }
    pieces
}


/// The pieces of `v` with `sep` between each two of them, as `[String]::join`.
pub open spec fn join(v: Seq<Seq<char>>, sep: Seq<char>) -> Seq<char>
    decreases v.len(),
{
    if v.len() == 0 {
        Seq::<char>::empty()
    } else if v.len() == 1 {
        v[0]
    } else {
        join(v.drop_last(), sep) + sep + v.last()
    }
}

/// Joins `pieces` with `sep` between each two of them, as `pieces.join(sep)`.
pub fn join_strings(pieces: &Vec<String>, sep: &str) -> (joined: String)
    ensures
        joined@ == join(pieces@.map_values(|p: String| p@), sep@),
{
    let ghost views = pieces@.map_values(|p: String| p@);
    let mut joined = String::new();
    let mut i: usize = 0;
    while i < pieces.len()
        invariant
            i <= pieces.len(),
            views == pieces@.map_values(|p: String| p@),
            joined@ == join(views.take(i as int), sep@),
        decreases pieces.len() - i,
    {
        proof {
            assert(views.take(i + 1).drop_last() =~= views.take(i as int));
            assert(views.take(i + 1).last() == pieces@[i as int]@);
        }
        if i == 0 {
            joined.append(pieces[i].as_str());
        } else {
            joined.append(sep);
            joined.append(pieces[i].as_str());
        }
        i = i + 1;
    }
    proof {
        assert(views.take(pieces.len() as int) =~= views);
    }
    joined
}

/// The lines of `s`, as `str::lines` gives them: split at `\n`, one `\r`
/// before a `\n` dropped, and no empty line after a final `\n`.
pub open spec fn lines(s: Seq<char>) -> Seq<Seq<char>> {
    let pieces = split_on(s, '\n');
    let ended = pieces.drop_last().map_values(|l: Seq<char>| strip_cr(l));
    if pieces.last().len() == 0 {
        ended
    } else {
        ended.push(pieces.last())
    }
}

/// `l` without one trailing `\r`, if it has one.
pub open spec fn strip_cr(l: Seq<char>) -> Seq<char> {
    if l.len() > 0 && l.last() == '\r' {
        l.drop_last()
    } else {
        l
    }
}

fn strip_cr_exec(l: &str) -> (r: String)
    ensures
        r@ == strip_cr(l@),
{
    let n = l.unicode_len();
    if n > 0 && l.get_char(n - 1) == '\r' {
        proof {
            assert(l@.subrange(0, n - 1) =~= l@.drop_last());
        }
        String::from_str(l.substring_char(0, n - 1))
    } else {
        String::from_str(l)
    }
}

/// The lines of `s`, as `s.lines().map(ToString::to_string).collect()`.
pub fn split_lines(s: &str) -> (result: Vec<String>)
    ensures
        result@.map_values(|l: String| l@) == lines(s@),
{
    let pieces = split_char(s, '\n');
    let ghost pv = pieces@.map_values(|p: String| p@);
    proof {
        lemma_split_on_nonempty(s@, '\n');
    }
    let count = pieces.len();
    let mut result: Vec<String> = Vec::new();
    let mut i: usize = 0;
    while i + 1 < count
        invariant
            count == pieces.len(),
            count >= 1,
            i < count,
            pv == pieces@.map_values(|p: String| p@),
            result@.map_values(|l: String| l@) =~= pv.take(i as int).map_values(
                |l: Seq<char>| strip_cr(l),
            ),
        decreases count - i,
    {
        let line = strip_cr_exec(pieces[i].as_str());
        let ghost before = result@.map_values(|l: String| l@);
        result.push(line);
        proof {
            assert(result@.map_values(|l: String| l@) =~= before.push(line@));
            assert(pv.take(i + 1) =~= pv.take(i as int).push(pv[i as int]));
        }
        i = i + 1;
    }
    proof {
        assert(pv.take(i as int) =~= pv.drop_last());
    }
    let last = pieces[count - 1].as_str();
    if last.unicode_len() > 0 {
        let ghost before = result@.map_values(|l: String| l@);
        result.push(String::from_str(last));
        proof {
            assert(result@.map_values(|l: String| l@) =~= before.push(last@));
        }
    }
    result
}


/// Whether `c` has the Unicode `White_Space` property, as `char::is_whitespace`.
pub open spec fn is_whitespace(c: char) -> bool {
    ||| ('\t' <= c && c <= '\r')
    ||| c == ' '
    ||| c == '\u{85}'
    ||| c == '\u{a0}'
    ||| c == '\u{1680}'
    ||| ('\u{2000}' <= c && c <= '\u{200a}')
    ||| c == '\u{2028}'
    ||| c == '\u{2029}'
    ||| c == '\u{202f}'
    ||| c == '\u{205f}'
    ||| c == '\u{3000}'
}

fn is_whitespace_exec(c: char) -> (b: bool)
    ensures
        b == is_whitespace(c),
{
    ('\t' <= c && c <= '\r') || c == ' ' || c == '\u{85}' || c == '\u{a0}' || c == '\u{1680}'
        || ('\u{2000}' <= c && c <= '\u{200a}') || c == '\u{2028}' || c == '\u{2029}' || c
        == '\u{202f}' || c == '\u{205f}' || c == '\u{3000}'
}

/// `s` without its trailing whitespace, as `str::trim_end`.
pub open spec fn trim_end(s: Seq<char>) -> Seq<char>
    decreases s.len(),
{
    if s.len() > 0 && is_whitespace(s.last()) {
        trim_end(s.drop_last())
    } else {
        s
    }
}

/// `s` without its trailing whitespace, as `s.trim_end().to_string()`.
pub fn trim_end_string(s: &str) -> (r: String)
    ensures
        r@ == trim_end(s@),
{
    let mut end = s.unicode_len();
    assert(s@.take(end as int) =~= s@);
    while end > 0 && is_whitespace_exec(s.get_char(end - 1))
        invariant
            end <= s@.len(),
            trim_end(s@.take(end as int)) == trim_end(s@),
        decreases end,
    {
        assert(s@.take(end as int).drop_last() =~= s@.take(end - 1));
        end = end - 1;
    }
    assert(s@.subrange(0, end as int) =~= s@.take(end as int));
    String::from_str(s.substring_char(0, end))
}

/// The decimal digit `d`, for `0 <= d < 10`.
pub open spec fn digit_char(d: int) -> char {
    if d == 0 {
        '0'
    } else if d == 1 {
        '1'
    } else if d == 2 {
        '2'
    } else if d == 3 {
        '3'
    } else if d == 4 {
        '4'
    } else if d == 5 {
        '5'
    } else if d == 6 {
        '6'
    } else if d == 7 {
        '7'
    } else if d == 8 {
        '8'
    } else {
        '9'
    }
}

/// `n` written in decimal, without leading zeros.
pub open spec fn decimal(n: nat) -> Seq<char>
    decreases n,
{
    if n < 10 {
        seq![digit_char(n as int)]
    } else {
        decimal(n / 10).push(digit_char((n % 10) as int))
    }
}

/// `n` written in decimal, with a leading `-` when it is negative.
pub open spec fn signed_decimal(n: int) -> Seq<char> {
    if n < 0 {
        seq!['-'] + decimal((-n) as nat)
    } else {
        decimal(n as nat)
    }
}

fn digit_str(d: u64) -> (r: &'static str)
    requires
        d < 10,
    ensures
        r@ == seq![digit_char(d as int)],
{
    let digits = "0123456789";
    proof {
        reveal_strlit("0123456789");
    }
    let r = digits.substring_char(d as usize, (d + 1) as usize);
    proof {
        assert(r@ =~= seq![digits@[d as int]]);
        if d == 0 {} else if d == 1 {} else if d == 2 {} else if d == 3 {} else if d == 4 {
        } else if d == 5 {} else if d == 6 {} else if d == 7 {} else if d == 8 {} else {}
    }
    r
}

/// `n` in decimal, as `n.to_string()`.
pub fn decimal_string(n: u64) -> (r: String)
    ensures
        r@ == decimal(n as nat),
    decreases n,
{
    if n < 10 {
        String::from_str(digit_str(n))
    } else {
        let mut r = decimal_string(n / 10);
        r.append(digit_str(n % 10));
        r
    }
}

/// `n` in decimal with its sign, as `n.to_string()`.
pub fn signed_decimal_string(n: i64) -> (r: String)
    ensures
        r@ == signed_decimal(n as int),
{
    if n < 0 {
        let magnitude: u64 = (0 - (n as i128)) as u64;
        let mut r = String::from_str("-");
        proof {
            reveal_strlit("-");
        }
        r.append(decimal_string(magnitude).as_str());
        r
    } else {
        decimal_string(n as u64)
    }
}

/// Whether `c` is an ASCII decimal digit.
pub open spec fn is_digit(c: char) -> bool {
    '0' <= c && c <= '9'
}

/// The value of the decimal digits `s`.
pub open spec fn digits_value(s: Seq<char>) -> nat
    decreases s.len(),
{
    if s.len() == 0 {
        0
    } else {
        digits_value(s.drop_last()) * 10 + (s.last() as int - '0' as int) as nat
    }
}

/// Whether every element of `d` is an ASCII decimal digit.
pub open spec fn all_digits(d: Seq<char>) -> bool {
    forall|i: int| 0 <= i < d.len() ==> is_digit(#[trigger] d[i])
}

/// `s` without one leading `+`, if it has one.
pub open spec fn without_plus(s: Seq<char>) -> Seq<char> {
    if s.len() > 0 && s[0] == '+' {
        s.skip(1)
    } else {
        s
    }
}

/// What `s.parse::<u64>()` accepts: an optional `+`, then at least one
/// ASCII digit, for a value that fits in a `u64`.
pub open spec fn parse_u64(s: Seq<char>) -> Option<u64> {
    let digits = without_plus(s);
    if digits.len() > 0 && all_digits(digits) && digits_value(digits) <= u64::MAX {
        Some(digits_value(digits) as u64)
    } else {
        None
    }
}

proof fn lemma_digits_value_grows(s: Seq<char>, i: int)
    requires
        0 <= i <= s.len(),
        forall|k: int| 0 <= k < s.len() ==> is_digit(#[trigger] s[k]),
    ensures
        digits_value(s.take(i)) <= digits_value(s),
    decreases s.len() - i,
{
    if i < s.len() {
        lemma_digits_value_grows(s, i + 1);
        assert(s.take(i + 1).drop_last() =~= s.take(i));
    } else {
        assert(s.take(i) =~= s);
    }
}

/// Reads a `u64` as `s.parse::<u64>()` does.
pub fn parse_u64_exec(s: &str) -> (r: Option<u64>)
    ensures
        r == parse_u64(s@),
{
    let n = s.unicode_len();
    let mut start: usize = 0;
    if n > 0 && s.get_char(0) == '+' {
        start = 1;
    }
    let ghost digits = without_plus(s@);
    assert(digits =~= s@.subrange(start as int, n as int));
    if start == n {
        return None;
    }
    let mut value: u64 = 0;
    let mut i: usize = start;
    while i < n
        invariant
            n == s@.len(),
            start <= i <= n,
            start < n,
            digits == without_plus(s@),
            digits =~= s@.subrange(start as int, n as int),
            forall|k: int| 0 <= k < i - start ==> is_digit(#[trigger] digits[k]),
            value == digits_value(digits.take(i - start)),
        decreases n - i,
    {
        let c = s.get_char(i);
        proof {
            assert(digits[i - start] == c);
            assert(digits.take(i - start + 1).drop_last() =~= digits.take(i - start));
        }
        if !('0' <= c && c <= '9') {
            assert(!is_digit(digits[i - start]));
            return None;
        }
        let d: u64 = (c as u32 - '0' as u32) as u64;
        match value.checked_mul(10) {
            Some(scaled) => match scaled.checked_add(d) {
                Some(next) => {
                    value = next;
                },
                None => {
                    proof {
                        lemma_overflow_rejected(digits, i - start + 1);
                    }
                    return None;
                },
            },
            None => {
                proof {
                    lemma_overflow_rejected(digits, i - start + 1);
                }
                return None;
            },
        }
        i = i + 1;
    }
    assert(digits.take(n - start) =~= digits);
    Some(value)
}

proof fn lemma_overflow_rejected(digits: Seq<char>, i: int)
    requires
        0 < i <= digits.len(),
        forall|k: int| 0 <= k < i ==> is_digit(#[trigger] digits[k]),
        digits_value(digits.take(i)) > u64::MAX,
    ensures
        !all_digits(digits) || digits_value(digits) > u64::MAX,
{
    if all_digits(digits) {
        lemma_digits_value_grows(digits, i);
    }
}


proof fn lemma_join_update_last(v: Seq<Seq<char>>, sep: Seq<char>, x: char)
    requires
        v.len() >= 1,
    ensures
        join(v.update(v.len() - 1, v.last().push(x)), sep) == join(v, sep).push(x),
{
    let w = v.update(v.len() - 1, v.last().push(x));
    if v.len() == 1 {
    } else {
        assert(w.drop_last() =~= v.drop_last());
        assert((join(v.drop_last(), sep) + sep + v.last()).push(x) =~= join(v.drop_last(), sep)
            + sep + v.last().push(x));
    }
}

/// Joining the pieces that splitting at `sep` gives, with `sep` between them,
/// gives back the text.
pub proof fn law_join_split(s: Seq<char>, sep: char)
    ensures
        join(split_on(s, sep), seq![sep]) == s,
    decreases s.len(),
{
    if s.len() == 0 {
    } else {
        let rest = split_on(s.drop_last(), sep);
        law_join_split(s.drop_last(), sep);
        lemma_split_on_nonempty(s.drop_last(), sep);
        if s.last() == sep {
            let v = rest.push(Seq::<char>::empty());
            assert(v.drop_last() =~= rest);
            assert(join(rest, seq![sep]) + seq![sep] + Seq::<char>::empty() =~= s);
        } else {
            lemma_join_update_last(rest, seq![sep], s.last());
            assert(s.drop_last().push(s.last()) =~= s);
        }
    }
}

pub proof fn lemma_split_without_sep(s: Seq<char>, sep: char)
    requires
        !s.contains(sep),
    ensures
        split_on(s, sep) == seq![s],
    decreases s.len(),
{
    if s.len() > 0 {
        assert(!s.drop_last().contains(sep)) by {
            if s.drop_last().contains(sep) {
                let k = choose|k: int| 0 <= k < s.drop_last().len() && s.drop_last()[k] == sep;
                assert(s[k] == sep);
            }
        }
        lemma_split_without_sep(s.drop_last(), sep);
        assert(s[s.len() - 1] == s.last());
        assert(s.last() != sep);
        assert(s.drop_last().push(s.last()) =~= s);
        assert(split_on(s, sep) == seq![s.drop_last()].update(0, s.drop_last().push(s.last())));
        assert(seq![s.drop_last()].update(0, s.drop_last().push(s.last())) =~= seq![s]);
    } else {
        assert(s =~= Seq::<char>::empty());
    }
}

pub proof fn lemma_split_concat(a: Seq<char>, b: Seq<char>, sep: char)
    ensures
        split_on(a + seq![sep] + b, sep) == split_on(a, sep) + split_on(b, sep),
    decreases b.len(),
{
    lemma_split_on_nonempty(a, sep);
    if b.len() == 0 {
        assert((a + seq![sep] + b).drop_last() =~= a);
        assert(split_on(a, sep).push(Seq::<char>::empty()) =~= split_on(a, sep) + split_on(b, sep));
    } else {
        let whole = a + seq![sep] + b;
        assert(whole.drop_last() =~= a + seq![sep] + b.drop_last());
        lemma_split_concat(a, b.drop_last(), sep);
        lemma_split_on_nonempty(b.drop_last(), sep);
        let left = split_on(a, sep);
        let right = split_on(b.drop_last(), sep);
        assert(whole.last() == b.last());
        if b.last() == sep {
            assert((left + right).push(Seq::<char>::empty()) =~= left + right.push(
                Seq::<char>::empty(),
            ));
        } else {
            let joined = left + right;
            assert(joined.last() == right.last());
            assert(joined.update(joined.len() - 1, joined.last().push(b.last())) =~= left
                + right.update(right.len() - 1, right.last().push(b.last())));
        }
    }
}

/// Splitting at `sep` the pieces joined with `sep` gives back the pieces,
/// when there is at least one piece and none holds `sep`.
pub proof fn law_split_join(v: Seq<Seq<char>>, sep: char)
    requires
        v.len() >= 1,
        forall|i: int| 0 <= i < v.len() ==> !(#[trigger] v[i]).contains(sep),
    ensures
        split_on(join(v, seq![sep]), sep) == v,
    decreases v.len(),
{
    if v.len() == 1 {
        lemma_split_without_sep(v[0], sep);
        assert(seq![v[0]] =~= v);
    } else {
        law_split_join(v.drop_last(), sep);
        lemma_split_concat(join(v.drop_last(), seq![sep]), v.last(), sep);
        lemma_split_without_sep(v.last(), sep);
        assert(v.drop_last() + seq![v.last()] =~= v);
    }
}

proof fn lemma_digit_char(d: int)
    requires
        0 <= d < 10,
    ensures
        is_digit(digit_char(d)),
        digit_char(d) as int - '0' as int == d,
        !is_whitespace(digit_char(d)),
{
}

proof fn lemma_decimal_digits(n: nat)
    ensures
        decimal(n).len() > 0,
        all_digits(decimal(n)),
        digits_value(decimal(n)) == n,
        decimal(n)[0] != '+',
        !is_whitespace(decimal(n).last()),
    decreases n,
{
    if n < 10 {
        lemma_digit_char(n as int);
        let d = decimal(n);
        assert(d.drop_last() =~= Seq::<char>::empty());
        assert(d.last() == digit_char(n as int));
        assert(digits_value(d) == digits_value(d.drop_last()) * 10 + (d.last() as int
            - '0' as int) as nat);
    } else {
        lemma_decimal_digits(n / 10);
        lemma_digit_char((n % 10) as int);
        let d = decimal(n);
        assert(d.drop_last() =~= decimal(n / 10));
        assert forall|i: int| 0 <= i < d.len() implies is_digit(#[trigger] d[i]) by {
            if i < d.len() - 1 {
                assert(d[i] == decimal(n / 10)[i]);
            }
        }
        assert(d[0] == decimal(n / 10)[0]);
        assert(d.last() == digit_char((n % 10) as int));
        assert((n / 10) * 10 + n % 10 == n);
        assert(digits_value(d.drop_last()) == n / 10);
        assert(d.last() as int - '0' as int == n % 10);
        assert(digits_value(d) == digits_value(d.drop_last()) * 10 + (d.last() as int
            - '0' as int) as nat);
    }
}

/// What `to_string` writes of a `u64`, `parse` reads back, also after
/// trailing whitespace is trimmed away.
pub proof fn law_parse_decimal(n: u64, trailing: Seq<char>)
    requires
        forall|i: int| 0 <= i < trailing.len() ==> is_whitespace(#[trigger] trailing[i]),
    ensures
        parse_u64(decimal(n as nat)) == Some(n),
        trim_end(decimal(n as nat) + trailing) == decimal(n as nat),
    decreases trailing.len(),
{
    lemma_decimal_digits(n as nat);
    assert(without_plus(decimal(n as nat)) == decimal(n as nat));
    if trailing.len() > 0 {
        law_parse_decimal(n, trailing.drop_last());
        assert((decimal(n as nat) + trailing).drop_last() =~= decimal(n as nat)
            + trailing.drop_last());
        assert((decimal(n as nat) + trailing).last() == trailing[trailing.len() - 1]);
    } else {
        assert(decimal(n as nat) + trailing =~= decimal(n as nat));
    }
}


/// Trimming the end of a text removes exactly its trailing whitespace:
/// a text that does not end in whitespace comes back whole, with any
/// whitespace after it gone.
pub proof fn law_trim_end_drops_trailing(text: Seq<char>, trailing: Seq<char>)
    requires
        text.len() == 0 || !is_whitespace(text.last()),
        forall|i: int| 0 <= i < trailing.len() ==> is_whitespace(#[trigger] trailing[i]),
    ensures
        trim_end(text + trailing) == text,
    decreases trailing.len(),
{
    if trailing.len() > 0 {
        assert((text + trailing).drop_last() =~= text + trailing.drop_last());
        assert((text + trailing).last() == trailing[trailing.len() - 1]);
        law_trim_end_drops_trailing(text, trailing.drop_last());
    } else {
        assert(text + trailing =~= text);
    }
}

/// No piece of a text split at a separator holds the separator.
pub proof fn law_split_pieces_lack_separator(s: Seq<char>, sep: char)
    ensures
        forall|i: int| 0 <= i < split_on(s, sep).len() ==> !(#[trigger] split_on(s, sep)[i]).contains(sep),
    decreases s.len(),
{
    if s.len() > 0 {
        law_split_pieces_lack_separator(s.drop_last(), sep);
        lemma_split_on_nonempty(s.drop_last(), sep);
        let rest = split_on(s.drop_last(), sep);
        let pieces = split_on(s, sep);
        assert forall|i: int| 0 <= i < pieces.len() implies !(#[trigger] pieces[i]).contains(sep) by {
            if s.last() == sep {
                if i < rest.len() {
                    assert(pieces[i] == rest[i]);
                } else {
                    assert(pieces[i] =~= Seq::<char>::empty());
                }
            } else if i < rest.len() - 1 {
                assert(pieces[i] == rest[i]);
            } else {
                let grown = rest.last().push(s.last());
                assert(pieces[i] == grown);
                assert(!rest[rest.len() - 1].contains(sep));
                if grown.contains(sep) {
                    let k = choose|k: int| 0 <= k < grown.len() && grown[k] == sep;
                    if k < grown.len() - 1 {
                        assert(rest.last()[k] == sep);
                    }
                }
            }
        }
    } else {
        assert(split_on(s, sep)[0] =~= Seq::<char>::empty());
    }
}

/// No line of a text holds a line break.
pub proof fn law_lines_lack_breaks(s: Seq<char>)
    ensures
        forall|i: int| 0 <= i < lines(s).len() ==> !(#[trigger] lines(s)[i]).contains('\n'),
{
    let pieces = split_on(s, '\n');
    law_split_pieces_lack_separator(s, '\n');
    lemma_split_on_nonempty(s, '\n');
    let ls = lines(s);
    assert forall|i: int| 0 <= i < ls.len() implies !(#[trigger] ls[i]).contains('\n') by {
        if i < pieces.len() - 1 {
            let p = pieces[i];
            assert(ls[i] == strip_cr(p));
            if strip_cr(p).contains('\n') {
                let k = choose|k: int| 0 <= k < strip_cr(p).len() && strip_cr(p)[k] == '\n';
                assert(p[k] == '\n');
            }
        } else {
            assert(ls[i] == pieces[pieces.len() - 1]);
        }
    }
}

} // verus!
