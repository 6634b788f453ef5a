//! Text: decimal numbers and UTF-8.

use vstd::prelude::*;
use vstd::string::*;
use vstd::utf8::*;

verus! {

/// The character of one decimal digit.
pub open spec fn digit(d: nat) -> char {
    if d == 0 {
        '0'
    } else if d == 1 {
        '1'
    } else if d == 2 {
        '2'
    } else if d == 3 {
        '3'
    } else if d == 4 {
        '4'
    } else if d == 5 {
        '5'
    } else if d == 6 {
        '6'
    } else if d == 7 {
        '7'
    } else if d == 8 {
        '8'
    } else {
        '9'
    }
}

/// The decimal digits of a number, the most significant first, with no leading zero.
pub open spec fn decimal(n: nat) -> Seq<char>
    decreases n,
{
    if n < 10 {
        seq![digit(n)]
    } else {
        decimal(n / 10).push(digit(n % 10))
    }
}

/// What a sequence of bytes reads as, or `None` where it is not UTF-8.
pub open spec fn utf8_text(bytes: Seq<u8>) -> Option<Seq<char>> {
    if valid_utf8(bytes) {
        Some(decode_utf8(bytes))
    } else {
        None
    }
}

fn digit_str(d: u32) -> (s: &'static str)
    requires
        d < 10,
    ensures
        s@ == seq![digit(d as nat)],
{
    proof {
        reveal_strlit("0");
        reveal_strlit("1");
        reveal_strlit("2");
        reveal_strlit("3");
        reveal_strlit("4");
        reveal_strlit("5");
        reveal_strlit("6");
        reveal_strlit("7");
        reveal_strlit("8");
        reveal_strlit("9");
    }
    match d {
        0 => "0",
        1 => "1",
        2 => "2",
        3 => "3",
        4 => "4",
        5 => "5",
        6 => "6",
        7 => "7",
        8 => "8",
        _ => "9",
    }
}

/// Appends the decimal digits of `n` to `s`.
pub fn append_decimal(s: &mut String, n: u32)
    ensures
        final(s)@ == old(s)@ + decimal(n as nat),
    decreases n,
{
    if n >= 10 {
        append_decimal(s, n / 10);
    }
    s.append(digit_str(n % 10));
}

/// The two texts one after the other.
pub(crate) fn joined(first: &str, second: &str) -> (text: String)
    ensures
        text@ == first@ + second@,
{
    let mut text = String::from_str(first);
    text.append(second);
    text
}

/// `std::str::from_utf8`: the text that the bytes encode where they are valid UTF-8, and nothing
/// where they are not.
#[verifier::external_body]
pub(crate) fn from_utf8(bytes: &[u8]) -> (text: Option<&str>)
    ensures
        text is Some <==> valid_utf8(bytes@),
        text matches Some(s) ==> s@ == decode_utf8(bytes@),
{
    match std::str::from_utf8(bytes) {
        Ok(s) => Some(s),
        Err(_) => None,
    }
}

/// Different numbers have different decimal digits.
pub proof fn law_decimal_injective(a: nat, b: nat)
    requires
        decimal(a) == decimal(b),
    ensures
        a == b,
    decreases a,
{
    let (da, db) = (decimal(a), decimal(b));
    lemma_decimal_len(a);
    lemma_decimal_len(b);
    assert(da.last() == db.last());
    if a >= 10 {
        assert(da.drop_last() =~= decimal(a / 10));
        assert(db.drop_last() =~= decimal(b / 10));
        law_decimal_injective(a / 10, b / 10);
    }
}

proof fn lemma_decimal_len(n: nat)
    ensures
        decimal(n).len() >= 1,
        decimal(n).len() == 1 <==> n < 10,
    decreases n,
{
    if n >= 10 {
        lemma_decimal_len(n / 10);
    }
}

/// The number that a sequence of decimal digits reads as, from the code of each.
pub open spec fn number(digits: Seq<char>) -> int
    decreases digits.len(),
{
    if digits.len() == 0 {
        0
    } else {
        number(digits.drop_last()) * 10 + (digits.last() as int - '0' as int)
    }
}

/// The digits of a number read as that number, there is at least one, and there is no leading zero
/// before another digit.
pub proof fn law_decimal_reads_back(n: nat)
    ensures
        number(decimal(n)) == n,
        decimal(n).len() >= 1,
        forall|i: int| 0 <= i < decimal(n).len() ==> '0' <= #[trigger] decimal(n)[i] <= '9',
        decimal(n).len() > 1 ==> decimal(n)[0] != '0',
    decreases n,
{
    let digits = decimal(n);
    lemma_decimal_len(n);
    if n >= 10 {
        let before = decimal(n / 10);
        law_decimal_reads_back(n / 10);
        lemma_decimal_len(n / 10);
        assert(digits.drop_last() =~= before);
        assert(forall|i: int| 0 <= i < before.len() ==> #[trigger] digits[i] == before[i]);
        assert(digits[0] == before[0]);
    } else {
        assert(digits.drop_last() =~= Seq::<char>::empty());
        assert(number(Seq::<char>::empty()) == 0);
    }
}

/// Text that was encoded reads back as it was, and bytes that read as a text are the ones that the
/// text is encoded as; no other bytes read as anything.
pub proof fn law_utf8_reads_back(text: Seq<char>, bytes: Seq<u8>)
    ensures
        utf8_text(encode_utf8(text)) == Some(text),
        utf8_text(bytes) matches Some(read) ==> encode_utf8(read) == bytes,
        utf8_text(bytes) is None <==> !valid_utf8(bytes),
{
    encode_utf8_valid_utf8(text);
    encode_utf8_decode_utf8(text);
    if valid_utf8(bytes) {
        decode_utf8_encode_utf8(bytes);
    }
}

/// The digits that are appended come behind what was there, and read as the number.
pub proof fn law_a_number_is_appended(n: u32)
    ensures
        forall|text: &mut String, done: ()|
            #[trigger] call_ensures(append_decimal, (text, n), done) ==> {
                let (before, after) = ((*text)@, (*final(text))@);
                &&& after == before + after.skip(before.len() as int)
                &&& number(after.skip(before.len() as int)) == n
                &&& after.skip(before.len() as int) == decimal(n as nat)
            },
{
    law_decimal_reads_back(n as nat);
    assert forall|text: &mut String, done: ()| #[trigger]
        call_ensures(append_decimal, (text, n), done) implies {
        let (before, after) = ((*text)@, (*final(text))@);
        &&& after == before + after.skip(before.len() as int)
        &&& number(after.skip(before.len() as int)) == n
        &&& after.skip(before.len() as int) == decimal(n as nat)
    } by {
        let (before, after) = ((*text)@, (*final(text))@);
        assert(after.skip(before.len() as int) =~= decimal(n as nat));
    }
}

} // verus!
