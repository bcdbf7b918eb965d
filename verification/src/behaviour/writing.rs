//! The text that lines and answers are made of.

use crate::text;
use vstd::prelude::*;

verus! {

/// Whether a character is a decimal digit, and of which number.
pub open spec fn is_digit(c: char, d: int) -> bool {
    0 <= d <= 9 && c as int == '0' as int + d
}

/// A padded text begins with the whole text, is as long as the width or the text,
/// whichever is longer, and holds nothing but spaces beyond the text.
pub proof fn law_padding_keeps_the_text(s: &str, width: usize, r: String)
    requires
        call_ensures(text::pad, (s, width), r),
    ensures
        s@.is_prefix_of(r@),
        r@.len() == if s@.len() < width {
            width as nat
        } else {
            s@.len()
        },
        forall|i: int| s@.len() <= i < r@.len() ==> #[trigger] r@[i] == ' ',
        r@ == text::padded(s@, width as nat),
{
    assert(r@.take(s@.len() as int) =~= s@);
}

/// The number that a decimal stands for.
pub open spec fn number_in(digits: Seq<char>) -> int
    decreases digits.len(),
{
    if digits.len() == 0 {
        0
    } else {
        10 * number_in(digits.drop_last()) + (digits.last() as int - '0' as int)
    }
}

/// A decimal reads back as its number, in digits alone, without a leading zero.
proof fn lemma_decimal_reads_back(n: nat)
    ensures
        number_in(text::decimal(n)) == n,
        text::decimal(n).len() > 0,
        forall|i: int|
            0 <= i < text::decimal(n).len() ==> is_digit(
                #[trigger] text::decimal(n)[i],
                text::decimal(n)[i] as int - '0' as int,
            ),
        n > 0 ==> text::decimal(n)[0] != '0',
        n == 0 ==> text::decimal(n).len() == 1,
    decreases n,
{
    reveal_strlit("0123456789");
    let digits = text::decimal(n);
    if n < 10 {
        assert(digits.drop_last() =~= Seq::empty());
        reveal_with_fuel(number_in, 2);
    } else {
        let front = text::decimal(n / 10);
        lemma_decimal_reads_back(n / 10);
        assert(digits.drop_last() =~= front);
        assert forall|i: int| 0 <= i < digits.len() implies is_digit(
            #[trigger] digits[i],
            digits[i] as int - '0' as int,
        ) by {
            if i < front.len() {
                assert(digits[i] == front[i]);
            }
        }
        assert(digits[0] == front[0]);
    }
}

/// A natural number is written in digits alone, without a leading zero, and reads back as
/// itself.
pub proof fn law_decimals_read_back(n: u64, r: String)
    requires
        call_ensures(text::decimal_text, (n,), r),
    ensures
        number_in(r@) == n,
        r@.len() > 0,
        forall|i: int|
            0 <= i < r@.len() ==> is_digit(#[trigger] r@[i], r@[i] as int - '0' as int),
        n > 0 ==> r@[0] != '0',
        n == 0 ==> r@.len() == 1,
        r@ == text::decimal(n as nat),
{
    lemma_decimal_reads_back(n as nat);
}

/// An integer is written as its magnitude, behind a minus sign exactly where it is
/// negative, and reads back as itself.
pub proof fn law_signed_decimals_read_back(i: i64, r: String)
    requires
        call_ensures(text::signed_decimal_text, (i,), r),
    ensures
        i < 0 ==> r@[0] == '-' && -number_in(r@.skip(1)) == i,
        i >= 0 ==> number_in(r@) == i && r@[0] != '-',
        r@ == text::signed_decimal(i as int),
{
    if i < 0 {
        lemma_decimal_reads_back((-i) as nat);
        assert(r@.skip(1) =~= text::decimal((-i) as nat));
    } else {
        lemma_decimal_reads_back(i as nat);
        assert(is_digit(r@[0], r@[0] as int - '0' as int));
    }
}

/// The two halves of a joined list are the halves joined, with the separator between.
proof fn lemma_joined_halves(left: Seq<Seq<char>>, right: Seq<Seq<char>>, sep: Seq<char>)
    requires
        left.len() > 0,
        right.len() > 0,
    ensures
        text::joined(left + right, sep) == text::joined(left, sep) + sep + text::joined(right, sep),
    decreases right.len(),
{
    let all = left + right;
    if right.len() == 1 {
        assert(all.drop_last() =~= left);
        assert(text::joined(all, sep) =~= text::joined(left, sep) + sep + text::joined(right, sep));
    } else {
        assert(all.drop_last() =~= left + right.drop_last());
        lemma_joined_halves(left, right.drop_last(), sep);
        assert(all.last() == right.last());
        assert(text::joined(all, sep) =~= text::joined(left, sep) + sep + text::joined(right, sep));
    }
}

/// Joining puts every part in its place with the separator between neighbours, and adds
/// nothing: no part gives nothing, one part gives itself, and wherever the parts are cut
/// in two, the halves are joined by one separator.
pub proof fn law_joining_keeps_the_parts(parts: &Vec<String>, sep: &str, cut: int, r: String)
    requires
        call_ensures(text::join, (parts, sep), r),
    ensures
        r@ == text::joined(text::views(parts@), sep@),
        parts@.len() == 0 ==> r@.len() == 0,
        parts@.len() == 1 ==> r@ == parts@[0]@,
        0 < cut < parts@.len() ==> r@ == text::joined(text::views(parts@).take(cut), sep@) + sep@
            + text::joined(text::views(parts@).skip(cut), sep@),
{
    let all = text::views(parts@);
    assert(all.len() == parts@.len());
    if 0 < cut < parts@.len() {
        assert(all =~= all.take(cut) + all.skip(cut));
        lemma_joined_halves(all.take(cut), all.skip(cut), sep@);
    }
}

/// Three pieces are put together in their order.
pub proof fn law_pieces_are_put_together(a: &str, b: &str, c: &str, r: String)
    requires
        call_ensures(text::concat3, (a, b, c), r),
    ensures
        r@ == a@ + b@ + c@,
        r@.len() == a@.len() + b@.len() + c@.len(),
        a@.is_prefix_of(r@),
{
    assert(r@.take(a@.len() as int) =~= a@);
}

/// A text begins with another exactly where there is a rest that completes it.
pub proof fn law_prefixes_are_completed(text: &str, prefix: &str, r: bool)
    requires
        call_ensures(text::begins_with, (text, prefix), r),
    ensures
        r <==> exists|rest: Seq<char>| text@ == #[trigger] (prefix@ + rest),
{
    let n = prefix@.len() as int;
    if r {
        assert(text@ =~= prefix@ + text@.skip(n));
    }
    if exists|rest: Seq<char>| text@ == #[trigger] (prefix@ + rest) {
        let rest = choose|rest: Seq<char>| text@ == #[trigger] (prefix@ + rest);
        assert((prefix@ + rest).take(n) =~= prefix@);
    }
}

/// Two texts are the same exactly where all their characters are.
pub proof fn law_same_texts_are_equal(a: &str, b: &str, r: bool)
    requires
        call_ensures(text::same, (a, b), r),
    ensures
        r <==> a@ == b@,
{
}

/// Where the first line ends: at the first line feed, or with the text.
proof fn lemma_line_end(text: Seq<char>)
    ensures
        0 <= text::line_end(text) <= text.len(),
        text::line_end(text) < text.len() ==> text[text::line_end(text)] == '\n',
        forall|i: int| 0 <= i < text::line_end(text) ==> #[trigger] text[i] != '\n',
    decreases text.len(),
{
    if text.len() > 0 && text[0] != '\n' {
        let rest = text.skip(1);
        lemma_line_end(rest);
        assert forall|i: int| 0 <= i < text::line_end(text) implies #[trigger] text[i] != '\n' by {
            if i > 0 {
                assert(rest[i - 1] == text[i]);
            }
        }
        if text::line_end(rest) < rest.len() {
            assert(rest[text::line_end(rest)] == text[text::line_end(rest) + 1]);
        }
    }
}

/// A first line begins its text, holds no line feed, and is all that stands before the
/// first line feed, or before the carriage return and the line feed; a text without a
/// line feed is its own first line.
pub proof fn law_first_lines_end_at_the_line_feed(text: &str, r: String)
    requires
        call_ensures(text::take_first_line, (text,), r),
    ensures
        r@.is_prefix_of(text@),
        forall|i: int| 0 <= i < r@.len() ==> #[trigger] r@[i] != '\n',
        r@ == text@ || ({
            &&& r@.len() < text@.len()
            &&& text@[r@.len() as int] == '\n' && (r@.len() > 0 ==> r@.last() != '\r') || (
            r@.len() + 1 < text@.len() && text@[r@.len() as int] == '\r' && text@[r@.len() as int
                + 1] == '\n')
        }),
        r@ == text::first_line(text@),
{
    let end = text::line_end(text@);
    lemma_line_end(text@);
    assert(text@.take(r@.len() as int) =~= r@);
    assert forall|i: int| 0 <= i < r@.len() implies #[trigger] r@[i] != '\n' by {
        assert(r@[i] == text@[i]);
    }
    if end == text@.len() {
        assert(r@ =~= text@);
    }
}

}
