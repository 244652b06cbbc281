//! The text exchanged with the outside fuzzy picker: one line per entry,
//! its index and its text separated by a tab; back come the indices that
//! were picked, one per line.

use vstd::prelude::*;
use crate::text::{decimal, decimal_text};

verus! {

/// Whether `c` is white space by Unicode's definition.
pub open spec fn is_white(c: char) -> bool {
    ||| ('\t' <= c && c <= '\r')
    ||| c == ' '
    ||| c == '\u{85}'
    ||| c == '\u{a0}'
    ||| c == '\u{1680}'
    ||| ('\u{2000}' <= c && c <= '\u{200a}')
    ||| c == '\u{2028}'
    ||| c == '\u{2029}'
    ||| c == '\u{202f}'
    ||| c == '\u{205f}'
    ||| c == '\u{3000}'
}

fn white(c: char) -> (r: bool)
    ensures
        r == is_white(c),
{
    ('\t' <= c && c <= '\r') || c == ' ' || c == '\u{85}' || c == '\u{a0}' || c == '\u{1680}'
        || ('\u{2000}' <= c && c <= '\u{200a}') || c == '\u{2028}' || c == '\u{2029}' || c == '\u{202f}'
        || c == '\u{205f}' || c == '\u{3000}'
}

/// The text with line breaks shown as ` -- `.
pub open spec fn flatten_lines(s: Seq<char>) -> Seq<char>
    decreases s.len(),
{
    if s.len() == 0 {
        Seq::empty()
    } else {
        flatten_lines(s.drop_last()) + if s.last() == '\n' {
            " -- "@
        } else {
            seq![s.last()]
        }
    }
}

/// The line that lists entry `index` with `text`: the index, a tab, and the
/// text on one line.
pub open spec fn entry_line(index: usize, text: Seq<char>) -> Seq<char> {
    decimal(index as int) + "\t"@ + flatten_lines(text)
}

/// Writes the line that lists entry `index` with `text`.
pub fn picker_line(index: usize, text: &str) -> (r: String)
    requires
        index <= i64::MAX,
    ensures
        r@ == entry_line(index, text@),
{
    proof {
        reveal_strlit("\t");
        reveal_strlit(" -- ");
    }
    let mut out = decimal_text(index as i64);
    out.append("\t");
    let ghost head = out@;
    let n = text.unicode_len();
    let mut i: usize = 0;
    while i < n
        invariant
            i <= n,
            n == text@.len(),
            out@ == head + flatten_lines(text@.subrange(0, i as int)),
        decreases n - i,
    {
        let c = text.get_char(i);
        assert(text@.subrange(0, i + 1).drop_last() =~= text@.subrange(0, i as int));
        if c == '\n' {
            out.append(" -- ");
        } else {
            let one = char_text(c);
            out.append(one.as_str());
        }
        i = i + 1;
    }
    assert(text@.subrange(0, n as int) =~= text@);
    out
}

/// Relies on `char::to_string`: the one-character string of `c`.
#[verifier::external_body]
fn char_text(c: char) -> (r: String)
    ensures
        r@ == seq![c],
{
    c.to_string()
}

/// The number of white space characters that start `s`.
pub open spec fn lead(s: Seq<char>) -> nat
    decreases s.len(),
{
    if s.len() > 0 && is_white(s[0]) {
        1 + lead(s.drop_first())
    } else {
        0
    }
}

/// The number of white space characters that end `s`.
pub open spec fn trail(s: Seq<char>) -> nat
    decreases s.len(),
{
    if s.len() > 0 && is_white(s.last()) {
        1 + trail(s.drop_last())
    } else {
        0
    }
}

/// `s` without the white space at its start and end.
pub open spec fn trim(s: Seq<char>) -> Seq<char> {
    let t = s.subrange(lead(s) as int, s.len() as int);
    t.subrange(0, t.len() - trail(t))
}

/// The value of a string of decimal digits.
pub open spec fn digits_value(d: Seq<char>) -> nat
    decreases d.len(),
{
    if d.len() == 0 {
        0
    } else {
        (digits_value(d.drop_last()) * 10 + (d.last() as int - '0' as int)) as nat
    }
}

/// Whether every character of `d` is a decimal digit.
pub open spec fn all_digits(d: Seq<char>) -> bool {
    forall|k: int| 0 <= k < d.len() ==> '0' <= #[trigger] d[k] && d[k] <= '9'
}

/// An unsigned number as text: an optional `+`, then one or more decimal
/// digits, whose value fits in `usize`.
pub open spec fn parse_index(t: Seq<char>) -> Option<usize> {
    let d = if t.len() > 0 && t[0] == '+' { t.drop_first() } else { t };
    if d.len() > 0 && all_digits(d) && digits_value(d) <= usize::MAX {
        Some(digits_value(d) as usize)
    } else {
        None
    }
}

/// What one line of the picker's output contributes: its index, if the
/// line holds one and nothing else besides white space.
pub open spec fn line_pick(line: Seq<char>) -> Seq<usize> {
    match parse_index(trim(line)) {
        Some(v) => seq![v],
        None => Seq::empty(),
    }
}

/// Reading output from the start: the indices of the finished lines, and
/// the line being read.
pub open spec fn scan(s: Seq<char>) -> (Seq<usize>, Seq<char>)
    decreases s.len(),
{
    if s.len() == 0 {
        (Seq::empty(), Seq::empty())
    } else {
        let (done, cur) = scan(s.drop_last());
        if s.last() == '\n' {
            (done + line_pick(cur), Seq::empty())
        } else {
            (done, cur.push(s.last()))
        }
    }
}

/// The indices picked, from the picker's whole output, line by line.
pub open spec fn picked(s: Seq<char>) -> Seq<usize> {
    scan(s).0 + line_pick(scan(s).1)
}

proof fn lemma_lead_step(s: Seq<char>, i: int)
    requires
        0 <= i < s.len(),
        is_white(s[i]),
    ensures
        lead(s.subrange(i, s.len() as int)) == 1 + lead(s.subrange(i + 1, s.len() as int)),
{
    assert(s.subrange(i, s.len() as int).drop_first() =~= s.subrange(i + 1, s.len() as int));
}

proof fn lemma_trail_step(s: Seq<char>, j: int)
    requires
        0 < j <= s.len(),
        is_white(s[j - 1]),
    ensures
        trail(s.subrange(0, j)) == 1 + trail(s.subrange(0, j - 1)),
{
    assert(s.subrange(0, j).drop_last() =~= s.subrange(0, j - 1));
}

/// The index that a line holds, if any.
fn pick_line(line: &Vec<char>) -> (r: Option<usize>)
    ensures
        match r {
            Some(v) => line_pick(line@) == seq![v],
            None => line_pick(line@) == Seq::<usize>::empty(),
        },
{
    let n = line.len();
    let mut a: usize = 0;
    assert(line@.subrange(0, n as int) =~= line@);
    while a < n && white(line[a])
        invariant
            a <= n,
            n == line@.len(),
            lead(line@) == a + lead(line@.subrange(a as int, n as int)),
        decreases n - a,
    {
        proof {
            lemma_lead_step(line@, a as int);
        }
        a = a + 1;
    }
    assert(lead(line@) == a) by {
        if a < n {
            assert(!is_white(line@.subrange(a as int, n as int)[0]));
        } else {
            assert(line@.subrange(a as int, n as int).len() == 0);
        }
    }
    let ghost t = line@.subrange(a as int, n as int);
    let mut b: usize = n;
    assert(t.subrange(0, (n - a) as int) =~= t);
    while b > a && white(line[b - 1])
        invariant
            a <= b <= n,
            n == line@.len(),
            t == line@.subrange(a as int, n as int),
            trail(t) == (n - b) + trail(t.subrange(0, b - a)),
        decreases b,
    {
        proof {
            lemma_trail_step(t, (b - a) as int);
        }
        b = b - 1;
    }
    assert(trail(t) == n - b) by {
        if b > a {
            assert(!is_white(t.subrange(0, b - a).last()));
        } else {
            assert(t.subrange(0, b - a).len() == 0);
        }
    }
    let ghost trimmed = line@.subrange(a as int, b as int);
    assert(trim(line@) =~= trimmed);
    let mut start = a;
    if start < b && line[start] == '+' {
        start = start + 1;
    }
    let ghost d = line@.subrange(start as int, b as int);
    assert(d =~= (if trimmed.len() > 0 && trimmed[0] == '+' { trimmed.drop_first() } else { trimmed }));
    assert(line_pick(line@) == (if d.len() > 0 && all_digits(d) && digits_value(d) <= usize::MAX {
        seq![digits_value(d) as usize]
    } else {
        Seq::<usize>::empty()
    }));
    if start >= b {
        return None;
    }
    let mut value: usize = 0;
    let mut k: usize = start;
    while k < b
        invariant
            start <= k <= b <= n,
            n == line@.len(),
            d == line@.subrange(start as int, b as int),
            line_pick(line@) == (if d.len() > 0 && all_digits(d) && digits_value(d) <= usize::MAX {
                seq![digits_value(d) as usize]
            } else {
                Seq::<usize>::empty()
            }),
            all_digits(line@.subrange(start as int, k as int)),
            value as nat == digits_value(line@.subrange(start as int, k as int)),
        decreases b - k,
    {
        let c = line[k];
        assert(line@.subrange(start as int, k + 1).drop_last() =~= line@.subrange(start as int, k as int));
        if c < '0' || c > '9' {
            assert(!all_digits(d)) by {
                assert(d[k - start] == c);
            }
            return None;
        }
        let digit = (c as u32 - '0' as u32) as usize;
        if value > (usize::MAX - digit) / 10 {
            assert(digits_value(line@.subrange(start as int, k + 1)) > usize::MAX) by (nonlinear_arith)
                requires
                    value > (usize::MAX - digit) / 10,
                    digit <= 9,
                    digits_value(line@.subrange(start as int, k + 1)) == value * 10 + digit,
            ;
            proof {
                if all_digits(d) {
                    lemma_value_grows(d, (k + 1 - start) as int);
                    assert(line@.subrange(start as int, k + 1) =~= d.subrange(0, (k + 1 - start) as int));
                }
            }
            return None;
        }
        value = value * 10 + digit;
        assert(all_digits(line@.subrange(start as int, k + 1))) by {
            assert forall|m: int| 0 <= m < k + 1 - start implies '0' <= #[trigger] line@.subrange(
                start as int,
                k + 1,
            )[m] && line@.subrange(start as int, k + 1)[m] <= '9' by {
                if m < k - start {
                    assert(line@.subrange(start as int, k + 1)[m] == line@.subrange(start as int, k as int)[m]);
                }
            }
        }
        k = k + 1;
    }
    assert(line@.subrange(start as int, b as int) == d);
    Some(value)
}

/// A prefix of a digit string has no greater value than the whole.
proof fn lemma_value_grows(d: Seq<char>, k: int)
    requires
        all_digits(d),
        0 <= k <= d.len(),
    ensures
        digits_value(d.subrange(0, k)) <= digits_value(d),
    decreases d.len() - k,
{
    if k < d.len() {
        lemma_value_grows(d, k + 1);
        assert(d.subrange(0, k + 1).drop_last() =~= d.subrange(0, k));
        assert('0' <= d[k]);
        assert(d.subrange(0, k + 1).last() == d[k]);
        assert(digits_value(d.subrange(0, k)) <= digits_value(d.subrange(0, k + 1))) by (nonlinear_arith)
            requires
                digits_value(d.subrange(0, k + 1)) == digits_value(d.subrange(0, k)) * 10 + (d[k] as int
                    - '0' as int),
                '0' <= d[k],
        ;
    } else {
        assert(d.subrange(0, k) =~= d);
    }
}

/// The indices the picker reported, line by line, in order.
pub fn parse_selection(output: &str) -> (r: Vec<usize>)
    ensures
        r@ == picked(output@),
{
    let n = output.unicode_len();
    let mut done: Vec<usize> = Vec::new();
    let mut cur: Vec<char> = Vec::new();
    let mut i: usize = 0;
    while i < n
        invariant
            i <= n,
            n == output@.len(),
            (done@, cur@) == scan(output@.subrange(0, i as int)),
        decreases n - i,
    {
        let c = output.get_char(i);
        assert(output@.subrange(0, i + 1).drop_last() =~= output@.subrange(0, i as int));
        if c == '\n' {
            match pick_line(&cur) {
                Some(v) => done.push(v),
                None => {},
            }
            cur = Vec::new();
            assert(cur@ =~= Seq::<char>::empty());
        } else {
            cur.push(c);
        }
        i = i + 1;
    }
    assert(output@.subrange(0, n as int) =~= output@);
    match pick_line(&cur) {
        Some(v) => done.push(v),
        None => {},
    }
    assert(done@ =~= picked(output@));
    done
}

} // verus!
