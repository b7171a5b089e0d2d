//! Text building blocks shared by the formatting rules.

use vstd::prelude::*;
use vstd::string::StringExecFns;

verus! {

/// `String::push` appends the given character to the end of the string.
pub assume_specification[ String::push ](s: &mut String, ch: char)
    ensures
        final(s)@ == old(s)@.push(ch),
;

/// The characters of `s` that are not a dash, in their order.
pub open spec fn strip_dashes(s: Seq<char>) -> Seq<char> {
    s.filter(|c: char| c != '-')
}

/// No dash is left in a text that was stripped of its dashes.
pub proof fn stripped_text_has_no_dash(s: Seq<char>)
    ensures
        forall|i: int| 0 <= i < strip_dashes(s).len() ==> strip_dashes(s)[i] != '-',
{
    let keep = |c: char| c != '-';
    assert forall|i: int| 0 <= i < strip_dashes(s).len() implies strip_dashes(s)[i] != '-' by {
        s.lemma_filter_pred(keep, i);
    }
}

/// A text that holds no dash is left as it is: nothing but the dash is ever
/// taken out.
pub proof fn text_without_dash_is_kept(s: Seq<char>)
    requires
        forall|i: int| 0 <= i < s.len() ==> s[i] != '-',
    ensures
        strip_dashes(s) == s,
    decreases s.len(),
{
    reveal(Seq::filter);
    if s.len() > 0 {
        text_without_dash_is_kept(s.drop_last());
        assert(s.drop_last().push(s.last()) == s);
    }
}

/// Copies `s` without its `-` characters; every other character stays.
pub fn without_dashes(s: &str) -> (r: String)
    ensures
        r@ == strip_dashes(s@),
{
    let mut out: String = String::new();
    proof {
        reveal(Seq::filter);
    }
    for c in it: s.chars()
        invariant
            it.seq() == s@,
            out@ == strip_dashes(s@.take(it.index() as int)),
    {
        proof {
            reveal(Seq::filter);
            assert(s@.take(it.index() + 1).drop_last() == s@.take(it.index() as int));
        }
        if c != '-' {
            out.push(c);
        }
    }
    proof {
        assert(s@.take(s@.len() as int) == s@);
    }
    out
}

/// The character of one decimal digit.
pub open spec fn digit_char(d: nat) -> char {
    if d == 0 {
        '0'
    } else if d == 1 {
        '1'
    } else if d == 2 {
        '2'
    } else if d == 3 {
        '3'
    } else if d == 4 {
        '4'
    } else if d == 5 {
        '5'
    } else if d == 6 {
        '6'
    } else if d == 7 {
        '7'
    } else if d == 8 {
        '8'
    } else {
        '9'
    }
}

/// The decimal digits of a natural number, most significant first, with no
/// leading zero.
pub open spec fn digits(n: nat) -> Seq<char>
    decreases n,
{
    if n < 10 {
        seq![digit_char(n)]
    } else {
        digits(n / 10).push(digit_char(n % 10))
    }
}

/// The decimal text of an integer: a minus sign before the digits of a
/// negative one.
pub open spec fn decimal(n: int) -> Seq<char> {
    if n < 0 {
        seq!['-'] + digits((-n) as nat)
    } else {
        digits(n as nat)
    }
}

fn digit(d: u64) -> (c: char)
    requires
        d < 10,
    ensures
        c == digit_char(d as nat),
{
    if d == 0 {
        '0'
    } else if d == 1 {
        '1'
    } else if d == 2 {
        '2'
    } else if d == 3 {
        '3'
    } else if d == 4 {
        '4'
    } else if d == 5 {
        '5'
    } else if d == 6 {
        '6'
    } else if d == 7 {
        '7'
    } else if d == 8 {
        '8'
    } else {
        '9'
    }
}

fn push_digits(out: &mut String, n: u64)
    ensures
        final(out)@ == old(out)@ + digits(n as nat),
    decreases n,
{
    if n >= 10 {
        push_digits(out, n / 10);
    }
    out.push(digit(n % 10));
}

/// Writes an integer in decimal.
pub fn decimal_text(n: i64) -> (r: String)
    ensures
        r@ == decimal(n as int),
{
    let mut out: String = String::new();
    if n < 0 {
        out.push('-');
        let magnitude: u64 = if n == i64::MIN {
            9223372036854775808u64
        } else {
            (-n) as u64
        };
        push_digits(&mut out, magnitude);
    } else {
        push_digits(&mut out, n as u64);
    }
    out
}

/// The lines of a listing in display order: the last of `lines` first, the
/// first of them last, each after `lead` and closed by a line feed.
pub open spec fn listing(lines: Seq<Seq<char>>, lead: Seq<char>) -> Seq<char>
    decreases lines.len(),
{
    if lines.len() == 0 {
        Seq::empty()
    } else {
        lead + lines.last() + seq!['\n'] + listing(lines.drop_last(), lead)
    }
}

/// The length of one line of a listing: the lead, the line and its line
/// feed.
pub open spec fn row_len(line: Seq<char>, lead: Seq<char>) -> int {
    (lead.len() + line.len() + 1) as int
}

/// Where the line made of `lines[k]` starts in the listing of `lines`.
pub open spec fn row_start(lines: Seq<Seq<char>>, lead: Seq<char>, k: int) -> int
    decreases lines.len(),
{
    if lines.len() == 0 || k >= lines.len() - 1 {
        0
    } else {
        row_len(lines.last(), lead) + row_start(lines.drop_last(), lead, k)
    }
}

/// The length of a listing is the sum of the lengths of its lines.
pub open spec fn listing_len(lines: Seq<Seq<char>>, lead: Seq<char>) -> int
    decreases lines.len(),
{
    if lines.len() == 0 {
        0
    } else {
        row_len(lines.last(), lead) + listing_len(lines.drop_last(), lead)
    }
}

/// A listing is as long as its lines together.
pub proof fn listing_has_len(lines: Seq<Seq<char>>, lead: Seq<char>)
    ensures
        listing(lines, lead).len() == listing_len(lines, lead),
    decreases lines.len(),
{
    if lines.len() > 0 {
        listing_has_len(lines.drop_last(), lead);
    }
}

/// Every line given stands in the listing, whole: at `row_start`, the lead,
/// the line itself and a line feed.
pub proof fn listing_holds_each_line(lines: Seq<Seq<char>>, lead: Seq<char>, k: int)
    requires
        0 <= k < lines.len(),
    ensures
        0 <= row_start(lines, lead, k),
        row_start(lines, lead, k) + row_len(lines[k], lead) <= listing(lines, lead).len(),
        listing(lines, lead).subrange(
            row_start(lines, lead, k),
            row_start(lines, lead, k) + row_len(lines[k], lead),
        ) == lead + lines[k] + seq!['\n'],
    decreases lines.len(),
{
    let whole = listing(lines, lead);
    let head = lead + lines.last() + seq!['\n'];
    let rest = listing(lines.drop_last(), lead);
    assert(whole == head + rest);
    if k == lines.len() - 1 {
        assert(whole.subrange(0, row_len(lines[k], lead)) == head);
    } else {
        listing_holds_each_line(lines.drop_last(), lead, k);
        let at = row_start(lines.drop_last(), lead, k);
        let len = row_len(lines[k], lead);
        assert(lines.drop_last()[k] == lines[k]);
        assert(whole.subrange(head.len() + at, head.len() + at + len) == rest.subrange(
            at,
            at + len,
        ));
    }
}

/// The lines of a listing stand in reverse of the order given: of two
/// lines, the one given later stands wholly before the one given earlier.
pub proof fn listing_reverses_the_order(lines: Seq<Seq<char>>, lead: Seq<char>, i: int, j: int)
    requires
        0 <= i < j < lines.len(),
    ensures
        row_start(lines, lead, j) + row_len(lines[j], lead) <= row_start(lines, lead, i),
    decreases lines.len(),
{
    if j == lines.len() - 1 {
        listing_holds_each_line(lines.drop_last(), lead, i);
    } else {
        listing_reverses_the_order(lines.drop_last(), lead, i, j);
        assert(lines.drop_last()[j] == lines[j]);
    }
}

/// Appends the listing of `lines` to `out`.
pub fn append_listing(out: &mut String, lines: &Vec<String>, lead: &str)
    ensures
        final(out)@ == old(out)@ + listing(lines.deep_view(), lead@),
{
    let ghost all: Seq<Seq<char>> = lines.deep_view();
    let mut i: usize = lines.len();
    proof {
        assert(all.take(i as int) == all);
    }
    while i > 0
        invariant
            i <= lines.len(),
            all == lines.deep_view(),
            old(out)@ + listing(all, lead@) == out@ + listing(all.take(i as int), lead@),
        decreases i,
    {
        proof {
            assert(all.take(i as int).drop_last() == all.take(i - 1));
            assert(all.take(i as int).last() == lines@[i - 1]@);
            reveal_strlit("\n");
            assert("\n"@ == seq!['\n']);
        }
        i = i - 1;
        out.append(lead);
        out.append(lines[i].as_str());
        out.append("\n");
    }
}

} // verus!
