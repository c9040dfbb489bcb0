use vstd::prelude::*;

verus! {

/// The character of a decimal digit.
pub open spec fn digit_char(d: nat) -> char {
    if d == 0 {
        '0'
    } else if d == 1 {
        '1'
    } else if d == 2 {
        '2'
    } else if d == 3 {
        '3'
    } else if d == 4 {
        '4'
    } else if d == 5 {
        '5'
    } else if d == 6 {
        '6'
    } else if d == 7 {
        '7'
    } else if d == 8 {
        '8'
    } else {
        '9'
    }
}

/// The decimal notation of `n`: no sign, no leading zeros, `"0"` for zero.
pub open spec fn decimal(n: nat) -> Seq<char>
    decreases n,
{
    if n < 10 {
        seq![digit_char(n)]
    } else {
        decimal(n / 10).push(digit_char(n % 10))
    }
}

/// Whether `c` is one of the digits `0` to `9`.
pub open spec fn is_digit(c: char) -> bool {
    0x30 <= (c as u32) <= 0x39
}

/// The value of a string of decimal digits, most significant first.
pub open spec fn digits_value(s: Seq<char>) -> int
    decreases s.len(),
{
    if s.len() == 0 {
        0
    } else {
        digits_value(s.drop_last()) * 10 + ((s.last() as u32) - 0x30)
    }
}

/// `s` is the decimal notation of `n`: digits only, whose value is `n`, and
/// no leading zero unless `n` is zero.
pub open spec fn is_decimal_notation(s: Seq<char>, n: nat) -> bool {
    &&& s.len() > 0
    &&& forall|i: int| 0 <= i < s.len() ==> is_digit(#[trigger] s[i])
    &&& digits_value(s) == n
    &&& s[0] == '0' ==> s.len() == 1
}

proof fn lemma_digit_char(d: nat)
    requires
        d < 10,
    ensures
        is_digit(digit_char(d)),
        (digit_char(d) as u32) - 0x30 == d,
        digit_char(d) == '0' <==> d == 0,
{
}

/// `decimal(n)` is the decimal notation of `n`.
pub proof fn lemma_decimal(n: nat)
    ensures
        is_decimal_notation(decimal(n), n),
        n > 0 ==> decimal(n)[0] != '0',
    decreases n,
{
    if n < 10 {
        lemma_digit_char(n);
        let d = decimal(n);
        assert(d == seq![digit_char(n)]);
        assert(d.drop_last() =~= Seq::<char>::empty());
        assert(digits_value(d) == digits_value(d.drop_last()) * 10 + ((d.last() as u32) - 0x30));
    } else {
        lemma_decimal(n / 10);
        let d = decimal(n);
        lemma_digit_char(n % 10);
        assert(d == decimal(n / 10).push(digit_char(n % 10)));
        assert forall|i: int| 0 <= i < d.len() implies is_digit(#[trigger] d[i]) by {
            if i < d.len() - 1 {
                assert(d[i] == decimal(n / 10)[i]);
            }
        }
        assert(d.drop_last() =~= decimal(n / 10));
        assert(d[0] == decimal(n / 10)[0]);
        assert(digits_value(d) == (n / 10) * 10 + n % 10);
    }
}

fn digit_str(d: u64) -> (s: &'static str)
    requires
        d < 10,
    ensures
        s@ == seq![digit_char(d as nat)],
{
    proof {
        reveal_strlit("0");
        reveal_strlit("1");
        reveal_strlit("2");
        reveal_strlit("3");
        reveal_strlit("4");
        reveal_strlit("5");
        reveal_strlit("6");
        reveal_strlit("7");
        reveal_strlit("8");
        reveal_strlit("9");
    }
    if d == 0 {
        "0"
    } else if d == 1 {
        "1"
    } else if d == 2 {
        "2"
    } else if d == 3 {
        "3"
    } else if d == 4 {
        "4"
    } else if d == 5 {
        "5"
    } else if d == 6 {
        "6"
    } else if d == 7 {
        "7"
    } else if d == 8 {
        "8"
    } else {
        "9"
    }
}

/// Appends the decimal notation of `n` to `out`.
pub fn push_decimal(out: &mut String, n: u64)
    ensures
        final(out)@ == old(out)@ + decimal(n as nat),
        is_decimal_notation(final(out)@.skip(old(out)@.len() as int), n as nat),
    decreases n,
{
    let ghost start = out@;
    if n < 10 {
        out.append(digit_str(n));
    } else {
        push_decimal(out, n / 10);
        out.append(digit_str(n % 10));
        assert(decimal(n as nat) == decimal((n / 10) as nat).push(digit_char((n % 10) as nat)));
    }
    proof {
        lemma_decimal(n as nat);
        assert(out@.skip(start.len() as int) =~= decimal(n as nat));
    }
}

/// The rows joined into one text, with `sep` between each two of them.
pub open spec fn join(rows: Seq<Seq<char>>, sep: Seq<char>) -> Seq<char>
    decreases rows.len(),
{
    if rows.len() == 0 {
        seq![]
    } else if rows.len() == 1 {
        rows[0]
    } else {
        join(rows.drop_last(), sep) + sep + rows.last()
    }
}

/// The pieces of a listing of the rows: the first row, then each further row
/// preceded by `sep`.
pub open spec fn separated(rows: Seq<Seq<char>>, sep: Seq<char>) -> Seq<Seq<char>> {
    Seq::new(rows.len(), |i: int| if i == 0 { rows[i] } else { sep + rows[i] })
}

/// Joining lists every row, in order, each but the first preceded by `sep`.
pub proof fn lemma_join_lists_every_row(rows: Seq<Seq<char>>, sep: Seq<char>)
    ensures
        join(rows, sep) == separated(rows, sep).flatten(),
    decreases rows.len(),
{
    let p = separated(rows, sep);
    p.lemma_flatten_and_flatten_alt_are_equivalent();
    if rows.len() == 0 {
        assert(p =~= Seq::<Seq<char>>::empty());
    } else if rows.len() == 1 {
        assert(p.drop_last() =~= Seq::<Seq<char>>::empty());
        assert(p.drop_last().flatten_alt() =~= Seq::<char>::empty());
        assert(p.flatten_alt() =~= rows[0]);
    } else {
        lemma_join_lists_every_row(rows.drop_last(), sep);
        let q = separated(rows.drop_last(), sep);
        q.lemma_flatten_and_flatten_alt_are_equivalent();
        assert(p.drop_last() =~= q);
        assert(p.last() == sep + rows.last());
        assert(join(rows, sep) =~= p.flatten_alt());
    }
}

/// Appends the rows to `out`, with `sep` between each two of them.
pub fn push_joined(out: &mut String, rows: &Vec<String>, sep: &str)
    ensures
        final(out)@ == old(out)@ + join(rows.deep_view(), sep@),
        final(out)@ == old(out)@ + separated(rows.deep_view(), sep@).flatten(),
{
    let ghost start = out@;
    let ghost all = rows.deep_view();
    let n = rows.len();
    let mut i: usize = 0;
    while i < n
        invariant
            n == rows.len(),
            all == rows.deep_view(),
            i <= n,
            out@ == start + join(all.take(i as int), sep@),
        decreases n - i,
    {
        assert(all.take(i + 1).drop_last() =~= all.take(i as int));
        if i > 0 {
            out.append(sep);
        }
        out.append(rows[i].as_str());
        proof {
            if i == 0 {
                assert(all.take(1) =~= seq![all[0]]);
            }
        }
        i = i + 1;
    }
    assert(all.take(n as int) =~= all);
    proof {
        lemma_join_lists_every_row(all, sep@);
    }
}

/// Whether `c` has the Unicode `White_Space` property (PropList.txt): the
/// controls U+0009 to U+000D, the space, U+0085, the no-break space, the
/// Ogham space mark, the spaces U+2000 to U+200A, the line and paragraph
/// separators, the narrow no-break space, the medium mathematical space and
/// the ideographic space.
pub open spec fn is_white_space(c: char) -> bool {
    let u = c as u32;
    ||| 0x09 <= u <= 0x0D
    ||| u == 0x20
    ||| u == 0x85
    ||| u == 0xA0
    ||| u == 0x1680
    ||| 0x2000 <= u <= 0x200A
    ||| u == 0x2028
    ||| u == 0x2029
    ||| u == 0x202F
    ||| u == 0x205F
    ||| u == 0x3000
}

/// Calls `char::is_whitespace`, which std documents as answering whether `c`
/// has the Unicode `White_Space` property.
#[verifier::external_body]
fn char_is_whitespace(c: char) -> (r: bool)
    ensures
        r == is_white_space(c),
{
    c.is_whitespace()
}

/// A text is blank when every character of it is white space (so that
/// trimming it leaves nothing).
pub open spec fn blank(s: Seq<char>) -> bool {
    forall|i: int| 0 <= i < s.len() ==> is_white_space(#[trigger] s[i])
}

/// Whether `s` holds nothing but white space.
pub fn is_blank(s: &str) -> (r: bool)
    ensures
        r == blank(s@),
{
    for c in it: s.chars()
        invariant
            it.seq() == s@,
            forall|j: int| 0 <= j < it.index() ==> is_white_space(#[trigger] s@[j]),
    {
        if !char_is_whitespace(c) {
            return false;
        }
    }
    true
}

/// The text of an optional string.
pub open spec fn opt_view(s: Option<String>) -> Option<Seq<char>> {
    match s {
        Some(t) => Some(t@),
        None => None,
    }
}

/// The texts of a sequence of optional strings.
pub open spec fn opts_view(s: Seq<Option<String>>) -> Seq<Option<Seq<char>>> {
    s.map_values(|t: Option<String>| opt_view(t))
}

} // verus!
