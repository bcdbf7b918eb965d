//! Text the transcript and the tools are made of.

use vstd::prelude::*;

verus! {

/// `n` spaces.
pub open spec fn spaces(n: nat) -> Seq<char> {
    Seq::new(n, |i: int| ' ')
}

/// `s`, filled up on the right with spaces to `width` characters.
pub open spec fn padded(s: Seq<char>, width: nat) -> Seq<char> {
    if s.len() < width {
        s + spaces((width - s.len()) as nat)
    } else {
        s
    }
}

/// The decimal digit of a number under ten.
pub open spec fn digit(d: nat) -> char {
    "0123456789"@[d as int]
}

/// A natural number in decimal, without leading zeros.
pub open spec fn decimal(n: nat) -> Seq<char>
    decreases n,
{
    if n < 10 {
        seq![digit(n)]
    } else {
        decimal(n / 10).push(digit(n % 10))
    }
}

/// A decimal holds digits alone, and at least one.
pub proof fn lemma_decimal(n: nat)
    ensures
        decimal(n).len() > 0,
        forall|i: int| 0 <= i < decimal(n).len() ==> #[trigger] decimal(n)[i] != '-',
    decreases n,
{
    reveal_strlit("0123456789");
    if n >= 10 {
        lemma_decimal(n / 10);
    }
}

/// Numbers with the same decimal are the same.
pub proof fn lemma_decimal_injective(m: nat, n: nat)
    requires
        decimal(m) == decimal(n),
    ensures
        m == n,
    decreases m,
{
    reveal_strlit("0123456789");
    lemma_decimal(m / 10);
    lemma_decimal(n / 10);
    assert(decimal(m).last() == digit(m % 10));
    assert(decimal(n).last() == digit(n % 10));
    if m >= 10 && n >= 10 {
        assert(decimal(m).drop_last() =~= decimal(m / 10));
        assert(decimal(n).drop_last() =~= decimal(n / 10));
        lemma_decimal_injective(m / 10, n / 10);
    }
}

/// An integer in decimal, with a leading minus sign where it is negative.
pub open spec fn signed_decimal(i: int) -> Seq<char> {
    if i < 0 {
        seq!['-'] + decimal((-i) as nat)
    } else {
        decimal(i as nat)
    }
}

/// The parts in order, with `sep` between neighbours.
pub open spec fn joined(parts: Seq<Seq<char>>, sep: Seq<char>) -> Seq<char>
    decreases parts.len(),
{
    if parts.len() == 0 {
        Seq::empty()
    } else if parts.len() == 1 {
        parts[0]
    } else {
        joined(parts.drop_last(), sep) + sep + parts.last()
    }
}

/// The characters of each string.
pub open spec fn views(parts: Seq<String>) -> Seq<Seq<char>> {
    parts.map_values(|p: String| p@)
}

/// Whether `text` begins with `prefix`.
pub open spec fn starts_with(text: Seq<char>, prefix: Seq<char>) -> bool {
    prefix.is_prefix_of(text)
}

/// Fills `s` up on the right with spaces to `width` characters.
pub fn pad(s: &str, width: usize) -> (r: String)
    ensures
        r@ == padded(s@, width as nat),
{
    let len: usize = s.unicode_len();
    let mut out = s.to_owned();
    let mut done: usize = len;
    while done < width
        invariant
            len == s@.len(),
            len <= done,
            done <= width || done == len,
            out@ == s@ + spaces((done - len) as nat),
        decreases width - done,
    {
        out.append(" ");
        done = done + 1;
        proof {
            reveal_strlit(" ");
            assert(out@ =~= s@ + spaces((done - len) as nat));
        }
    }
    proof {
        assert(s@ + spaces(0) =~= s@);
    }
    out
}

/// The digit character of a number under ten, as a string.
fn digit_text(d: u64) -> (r: &'static str)
    requires
        d < 10,
    ensures
        r@ == seq![digit(d as nat)],
{
    proof {
        reveal_strlit("0123456789");
        reveal_strlit("0");
        reveal_strlit("1");
        reveal_strlit("2");
        reveal_strlit("3");
        reveal_strlit("4");
        reveal_strlit("5");
        reveal_strlit("6");
        reveal_strlit("7");
        reveal_strlit("8");
        reveal_strlit("9");
    }
    match d {
        0 => "0",
        1 => "1",
        2 => "2",
        3 => "3",
        4 => "4",
        5 => "5",
        6 => "6",
        7 => "7",
        8 => "8",
        _ => "9",
    }
}

/// Writes a natural number in decimal.
pub fn decimal_text(n: u64) -> (r: String)
    ensures
        r@ == decimal(n as nat),
    decreases n,
{
    if n < 10 {
        digit_text(n).to_owned()
    } else {
        let mut out = decimal_text(n / 10);
        out.append(digit_text(n % 10));
        proof {
            assert(out@ =~= decimal((n / 10) as nat).push(digit((n % 10) as nat)));
        }
        out
    }
}

/// Writes an integer in decimal.
pub fn signed_decimal_text(i: i64) -> (r: String)
    ensures
        r@ == signed_decimal(i as int),
{
    if i < 0 {
        let magnitude: u64 = if i == i64::MIN {
            0x8000_0000_0000_0000
        } else {
            (-i) as u64
        };
        let mut out = "-".to_owned();
        let digits = decimal_text(magnitude);
        out.append(digits.as_str());
        proof {
            reveal_strlit("-");
            assert(out@ =~= seq!['-'] + decimal((-i) as nat));
        }
        out
    } else {
        decimal_text(i as u64)
    }
}

/// Joins the parts with `sep` between neighbours.
pub fn join(parts: &Vec<String>, sep: &str) -> (r: String)
    ensures
        r@ == joined(views(parts@), sep@),
{
    let mut out = String::new();
    let mut i: usize = 0;
    while i < parts.len()
        invariant
            i <= parts@.len(),
            out@ == joined(views(parts@).take(i as int), sep@),
        decreases parts@.len() - i,
    {
        if i > 0 {
            out.append(sep);
        }
        out.append(parts[i].as_str());
        proof {
            let all = views(parts@);
            let next = all.take(i as int + 1);
            assert(next.drop_last() =~= all.take(i as int));
            assert(next.last() == parts@[i as int]@);
            if i == 0 {
                assert(all.take(0) =~= Seq::<Seq<char>>::empty());
                assert(out@ =~= next[0]);
            }
        }
        i = i + 1;
    }
    proof {
        assert(views(parts@).take(i as int) =~= views(parts@));
    }
    out
}

/// Puts three pieces of text together.
pub fn concat3(a: &str, b: &str, c: &str) -> (r: String)
    ensures
        r@ == a@ + b@ + c@,
{
    let mut out = a.to_owned();
    out.append(b);
    out.append(c);
    out
}

/// Whether `text` begins with `prefix`.
pub fn begins_with(text: &str, prefix: &str) -> (r: bool)
    ensures
        r == starts_with(text@, prefix@),
{
    let n: usize = prefix.unicode_len();
    if text.unicode_len() < n {
        return false;
    }
    let mut i: usize = 0;
    while i < n
        invariant
            n == prefix@.len(),
            n <= text@.len(),
            i <= n,
            forall|j: int| 0 <= j < i ==> text@[j] == prefix@[j],
        decreases n - i,
    {
        if text.get_char(i) != prefix.get_char(i) {
            return false;
        }
        i = i + 1;
    }
    proof {
        assert(text@.take(n as int) =~= prefix@);
    }
    true
}

/// Whether two pieces of text are the same.
pub fn same(a: &str, b: &str) -> (r: bool)
    ensures
        r == (a@ == b@),
{
    let equal = begins_with(a, b) && a.unicode_len() == b.unicode_len();
    proof {
        if equal {
            assert(a@.take(b@.len() as int) =~= a@);
        }
    }
    equal
}

/// Where the first line feed stands, or the length of the text.
pub open spec fn line_end(text: Seq<char>) -> int
    decreases text.len(),
{
    if text.len() == 0 || text[0] == '\n' {
        0
    } else {
        1 + line_end(text.skip(1))
    }
}

/// The first line of a text, without the line feed that ends it or a carriage
/// return before that.
pub open spec fn first_line(text: Seq<char>) -> Seq<char> {
    let end = line_end(text);
    if 0 < end < text.len() && text[end - 1] == '\r' {
        text.take(end - 1)
    } else {
        text.take(end)
    }
}

/// The first line feed is at a place before which there is none.
proof fn lemma_line_end(text: Seq<char>, n: int)
    requires
        0 <= n <= text.len(),
        forall|i: int| 0 <= i < n ==> text[i] != '\n',
        n == text.len() || text[n] == '\n',
    ensures
        line_end(text) == n,
    decreases n,
{
    if n > 0 {
        assert forall|i: int| 0 <= i < n - 1 implies text.skip(1)[i] != '\n' by {
            assert(text.skip(1)[i] == text[i + 1]);
        }
        lemma_line_end(text.skip(1), n - 1);
    }
}

/// Copies the first line of a text.
pub fn take_first_line(text: &str) -> (r: String)
    ensures
        r@ == first_line(text@),
{
    let n: usize = text.unicode_len();
    let mut i: usize = 0;
    while i < n && text.get_char(i) != '\n'
        invariant
            n == text@.len(),
            i <= n,
            forall|j: int| 0 <= j < i ==> text@[j] != '\n',
        decreases n - i,
    {
        i = i + 1;
    }
    proof {
        lemma_line_end(text@, i as int);
    }
    let end: usize = if 0 < i && i < n && text.get_char(i - 1) == '\r' {
        i - 1
    } else {
        i
    };
    assert(text@.subrange(0, end as int) =~= text@.take(end as int));
    text.substring_char(0, end).to_owned()
}

}
