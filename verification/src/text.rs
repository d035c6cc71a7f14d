//! Decimal numbers as text, and comparisons that take capital letters as small ones.

use vstd::prelude::*;
use vstd::string::{StrSliceExecFns, StringExecFns};

verus! {

/// The character of the decimal digit `d`.
pub open spec fn digit_char(d: nat) -> char {
    if d == 0 {
        '0'
    } else if d == 1 {
        '1'
    } else if d == 2 {
        '2'
    } else if d == 3 {
        '3'
    } else if d == 4 {
        '4'
    } else if d == 5 {
        '5'
    } else if d == 6 {
        '6'
    } else if d == 7 {
        '7'
    } else if d == 8 {
        '8'
    } else {
        '9'
    }
}

/// `n` in decimal, without leading zeros.
pub open spec fn decimal(n: nat) -> Seq<char>
    decreases n,
{
    if n < 10 {
        seq![digit_char(n)]
    } else {
        decimal(n / 10).push(digit_char(n % 10))
    }
}

/// `n` in decimal, filled up with zeros on the left to at least `width` characters.
pub open spec fn padded(n: nat, width: nat) -> Seq<char> {
    let plain = decimal(n);
    if plain.len() >= width {
        plain
    } else {
        Seq::new((width - plain.len()) as nat, |i: int| '0') + plain
    }
}

/// Appends one decimal digit.
fn push_digit(out: &mut String, d: u8)
    requires
        d < 10,
    ensures
        final(out)@ == old(out)@.push(digit_char(d as nat)),
{
    proof {
        reveal_strlit("0");
        reveal_strlit("1");
        reveal_strlit("2");
        reveal_strlit("3");
        reveal_strlit("4");
        reveal_strlit("5");
        reveal_strlit("6");
        reveal_strlit("7");
        reveal_strlit("8");
        reveal_strlit("9");
    }
    let ghost before = out@;
    let text: &str = if d == 0 {
        "0"
    } else if d == 1 {
        "1"
    } else if d == 2 {
        "2"
    } else if d == 3 {
        "3"
    } else if d == 4 {
        "4"
    } else if d == 5 {
        "5"
    } else if d == 6 {
        "6"
    } else if d == 7 {
        "7"
    } else if d == 8 {
        "8"
    } else {
        "9"
    };
    assert(text@ =~= seq![digit_char(d as nat)]);
    out.append(text);
    assert(out@ =~= before.push(digit_char(d as nat)));
}

/// Appends `n` in decimal.
pub fn push_decimal(out: &mut String, n: u128)
    ensures
        final(out)@ == old(out)@ + decimal(n as nat),
    decreases n,
{
    let ghost before = out@;
    let last: u128 = n % 10;
    if n >= 10 {
        push_decimal(out, n / 10);
    }
    push_digit(out, last as u8);
    assert(out@ =~= before + decimal(n as nat));
}

/// Number of decimal digits of `n`.
fn decimal_len(n: u128) -> (len: u32)
    ensures
        len == decimal(n as nat).len(),
        1 <= len <= 39,
{
    let mut rest: u128 = n;
    let mut len: u32 = 1;
    proof {
        lemma_decimal_len_bound(n as nat);
    }
    while rest >= 10
        invariant
            len - 1 + decimal(rest as nat).len() == decimal(n as nat).len(),
            decimal(n as nat).len() <= 39,
            len >= 1,
        decreases rest,
    {
        assert(decimal(rest as nat).len() >= 2) by {
            lemma_decimal_nonempty(rest as nat / 10);
        }
        rest = rest / 10;
        len = len + 1;
    }
    len
}

proof fn lemma_decimal_nonempty(n: nat)
    ensures
        decimal(n).len() >= 1,
    decreases n,
{
}

/// Ten to the power `k`.
spec fn ten_to(k: nat) -> nat
    decreases k,
{
    if k == 0 {
        1
    } else {
        10 * ten_to((k - 1) as nat)
    }
}

proof fn lemma_len_below(n: nat, k: nat)
    requires
        n < 10 * ten_to(k),
    ensures
        decimal(n).len() <= k + 1,
    decreases k,
{
    if n >= 10 {
        if k == 0 {
            assert(ten_to(0) == 1);
        } else {
            assert(n / 10 < ten_to(k));
            lemma_len_below(n / 10, (k - 1) as nat);
        }
    }
}

proof fn lemma_decimal_len_bound(n: nat)
    requires
        n <= u128::MAX,
    ensures
        decimal(n).len() <= 39,
{
    assert(10 * ten_to(38) > u128::MAX) by {
        reveal_with_fuel(ten_to, 39);
    }
    lemma_len_below(n, 38);
}

/// Appends `n` in decimal, filled up with zeros on the left to at least `width` characters.
pub fn push_padded(out: &mut String, n: u128, width: u32)
    ensures
        final(out)@ == old(out)@ + padded(n as nat, width as nat),
{
    let len: u32 = decimal_len(n);
    let ghost before = out@;
    let mut filled: u32 = len;
    assert(out@ =~= before + Seq::new(0, |i: int| '0'));
    while filled < width
        invariant
            len <= filled,
            filled <= width || filled == len,
            out@ == before + Seq::new((filled - len) as nat, |i: int| '0'),
        decreases width - filled,
    {
        let ghost zeros = Seq::new((filled - len) as nat, |i: int| '0');
        push_digit(out, 0);
        filled = filled + 1;
        assert(out@ =~= before + Seq::new((filled - len) as nat, |i: int| '0'));
    }
    push_decimal(out, n);
    assert(out@ =~= before + padded(n as nat, width as nat));
}

/// The code of a character, capital letters of the English alphabet taken as small ones.
pub open spec fn folded(c: char) -> int {
    if 'A' <= c <= 'Z' {
        c as int + 32
    } else {
        c as int
    }
}

/// The text is `word`, once its capital letters are taken as small ones.
pub open spec fn folds_to(text: Seq<char>, word: Seq<char>) -> bool {
    &&& text.len() == word.len()
    &&& forall|i: int| 0 <= i < word.len() ==> folded(#[trigger] text[i]) == word[i] as int
}

/// Whether the text begins with `word`, once its capital letters are taken as small ones.
pub fn starts_folded(text: &str, word: &str) -> (r: bool)
    ensures
        r == (word@.len() <= text@.len() && folds_to(text@.take(word@.len() as int), word@)),
{
    let n: usize = word.unicode_len();
    if n > text.unicode_len() {
        return false;
    }
    let mut i: usize = 0;
    while i < n
        invariant
            i <= n,
            n == word@.len(),
            n <= text@.len(),
            forall|j: int| 0 <= j < i ==> folded(#[trigger] text@[j]) == word@[j] as int,
        decreases n - i,
    {
        let c: char = text.get_char(i);
        let w: char = word.get_char(i);
        let code: u32 = if 'A' <= c && c <= 'Z' {
            c as u32 + 32
        } else {
            c as u32
        };
        if code != w as u32 {
            assert(folded(text@.take(n as int)[i as int]) != word@[i as int] as int);
            return false;
        }
        i = i + 1;
    }
    true
}

/// Whether the text is `word`, once its capital letters are taken as small ones.
pub fn matches_folded(text: &str, word: &str) -> (r: bool)
    ensures
        r == folds_to(text@, word@),
{
    if text.unicode_len() != word.unicode_len() {
        return false;
    }
    assert(text@.take(word@.len() as int) =~= text@);
    starts_folded(text, word)
}

/// The character is a decimal digit.
pub open spec fn is_digit(c: char) -> bool {
    '0' <= c <= '9'
}

/// The text is made of decimal digits, at least one.
pub open spec fn is_number(text: Seq<char>) -> bool {
    &&& text.len() > 0
    &&& forall|i: int| 0 <= i < text.len() ==> is_digit(#[trigger] text[i])
}

/// The number that a text of decimal digits stands for: each place counts ten times the one to its
/// right.
pub open spec fn reads(text: Seq<char>) -> int
    decreases text.len(),
{
    if text.len() == 0 {
        0
    } else {
        10 * reads(text.drop_last()) + (text.last() as int - '0' as int)
    }
}

/// A number that is written out reads back as itself, and begins with a zero only where it is zero.
pub proof fn law_decimal_reads_back(n: nat)
    ensures
        is_number(decimal(n)),
        reads(decimal(n)) == n,
        n > 0 ==> decimal(n)[0] != '0',
        n == 0 ==> decimal(n).len() == 1,
    decreases n,
{
    if n >= 10 {
        law_decimal_reads_back(n / 10);
        let text = decimal(n);
        assert(text.drop_last() =~= decimal(n / 10));
        assert(text.last() == digit_char(n % 10));
        assert forall|i: int| 0 <= i < text.len() implies is_digit(#[trigger] text[i]) by {
            if i < text.len() - 1 {
                assert(text[i] == decimal(n / 10)[i]);
            }
        }
    } else {
        let text = decimal(n);
        assert(text.drop_last() =~= Seq::<char>::empty());
        assert(text.last() == digit_char(n));
        assert(reads(text.drop_last()) == 0);
    }
}

/// Zeros on the left do not change what a text of digits reads as.
proof fn lemma_zeros_read_as_nothing(zeros: nat, text: Seq<char>)
    ensures
        reads(Seq::new(zeros, |i: int| '0') + text) == reads(text),
    decreases zeros + text.len(),
{
    let all = Seq::new(zeros, |i: int| '0') + text;
    if text.len() > 0 {
        lemma_zeros_read_as_nothing(zeros, text.drop_last());
        assert(all.drop_last() =~= Seq::new(zeros, |i: int| '0') + text.drop_last());
        assert(all.last() == text.last());
    } else if zeros > 0 {
        lemma_zeros_read_as_nothing((zeros - 1) as nat, text);
        assert(all.drop_last() =~= Seq::new((zeros - 1) as nat, |i: int| '0') + text);
        assert(all.last() == '0');
    } else {
        assert(all =~= text);
    }
}

/// A number that is filled up with zeros reads back as itself too, has at least the width that was
/// asked for, and has more only where the number needs it.
pub proof fn law_padded_reads_back(n: nat, width: nat)
    ensures
        is_number(padded(n, width)),
        reads(padded(n, width)) == n,
        padded(n, width).len() >= width,
        padded(n, width).len() > width ==> padded(n, width) == decimal(n),
{
    law_decimal_reads_back(n);
    let plain = decimal(n);
    if plain.len() < width {
        lemma_zeros_read_as_nothing((width - plain.len()) as nat, plain);
        let text = padded(n, width);
        assert forall|i: int| 0 <= i < text.len() implies is_digit(#[trigger] text[i]) by {
            if i >= width - plain.len() {
                assert(text[i] == plain[i - (width - plain.len())]);
            }
        }
    }
}

/// Capital letters count as the small ones at the same place of the alphabet; every other character
/// counts as itself.
pub proof fn law_capitals_count_as_small(c: char)
    ensures
        'A' <= c <= 'Z' ==> folded(c) - 'a' as int == c as int - 'A' as int,
        !('A' <= c <= 'Z') ==> folded(c) == c as int,
        'a' <= c <= 'z' ==> folded(c) == c as int,
{
}

/// A text is taken for a word exactly where they have the same length and each character is the one of
/// the word, or the capital of it.
pub proof fn law_folding_goes_letter_by_letter(text: Seq<char>, word: Seq<char>)
    requires
        forall|i: int| 0 <= i < word.len() ==> !('A' <= #[trigger] word[i] <= 'Z'),
    ensures
        folds_to(text, word) <==> text.len() == word.len() && forall|i: int|
            0 <= i < word.len() ==> #[trigger] text[i] == word[i] || ('A' <= text[i] <= 'Z'
                && text[i] as int - 'A' as int == word[i] as int - 'a' as int),
{
    if folds_to(text, word) {
        assert forall|i: int| 0 <= i < word.len() implies #[trigger] text[i] == word[i] || ('A'
            <= text[i] <= 'Z' && text[i] as int - 'A' as int == word[i] as int - 'a' as int) by {
            assert(folded(text[i]) == word[i] as int);
        }
    }
}

} // verus!
