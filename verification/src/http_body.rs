use vstd::prelude::*;

use crate::error::{ApiError, ApiErrorView};

verus! {

/// A JSON answer `{ "msg": .. }` with a payload under `data`.
pub struct MessageWithData<T> {
    pub msg: &'static str,
    pub data: T,
}

/// A JSON answer `{ "msg": .. }`.
pub struct Message {
    pub msg: &'static str,
}

impl Message {
    /// The plain success answer, `{ "msg": "OK" }`.
    pub fn ok() -> (r: Message)
        ensures
            r.msg@ == "OK"@,
    {
        Message { msg: "OK" }
    }
}

/// The character of a decimal digit.
pub open spec fn digit_char(d: nat) -> char
    recommends
        d < 10,
{
    ((d + 48) as u8) as char
}

/// The decimal digits of a natural number, most significant first, without
/// leading zeros ("0" for zero).
pub open spec fn decimal_digits(n: nat) -> Seq<char>
    decreases n,
{
    if n < 10 {
        seq![digit_char(n)]
    } else {
        decimal_digits(n / 10).push(digit_char(n % 10))
    }
}

/// The decimal form of an integer, with a leading '-' when it is negative.
pub open spec fn decimal_text(i: int) -> Seq<char> {
    if i < 0 {
        seq!['-'] + decimal_digits((-i) as nat)
    } else {
        decimal_digits(i as nat)
    }
}

/// The JSON text of an object whose one member `id` has the given JSON text
/// as its value, laid out as `{ "id":<value> }`.
pub open spec fn id_object(value: Seq<char>) -> Seq<char> {
    "{ \"id\":"@ + value + " }"@
}

/// The number that a run of decimal digits stands for (most significant
/// first; each character counts as its code minus the code of '0').
pub open spec fn digits_value(s: Seq<char>) -> int
    decreases s.len(),
{
    if s.len() == 0 {
        0
    } else {
        digits_value(s.drop_last()) * 10 + (s.last() as int - 48)
    }
}

/// The integer that a decimal text stands for, read with an optional
/// leading '-'.
pub open spec fn signed_value(s: Seq<char>) -> int {
    if s.len() > 0 && s[0] == '-' {
        -digits_value(s.drop_first())
    } else {
        digits_value(s)
    }
}

/// The value of the `id` member read back from a text laid out as
/// `{ "id":<value> }`: what stands between the 7-character opening and the
/// 2-character closing, read as a decimal integer.
pub open spec fn id_member_value(text: Seq<char>) -> int {
    signed_value(text.subrange(7, text.len() - 2))
}

/// A digit's character stands for that digit.
pub proof fn lemma_digit_char_value(d: nat)
    requires
        d < 10,
    ensures
        digit_char(d) as int == d + 48,
{
}

/// The decimal digits of a number are not empty, their first character is
/// not '-', and read back they give the number.
pub proof fn lemma_decimal_digits_read_back(n: nat)
    ensures
        decimal_digits(n).len() > 0,
        decimal_digits(n)[0] != '-',
        digits_value(decimal_digits(n)) == n,
    decreases n,
{
    if n < 10 {
        lemma_digit_char_value(n);
        let s = decimal_digits(n);
        assert(s.drop_last() =~= Seq::<char>::empty());
        assert(digits_value(s) == digits_value(s.drop_last()) * 10 + (s.last() as int - 48));
        assert(digits_value(Seq::<char>::empty()) == 0);
    } else {
        lemma_decimal_digits_read_back(n / 10);
        lemma_digit_char_value(n % 10);
        let s = decimal_digits(n);
        assert(s.drop_last() =~= decimal_digits(n / 10));
        assert(s[0] == decimal_digits(n / 10)[0]);
        assert(s.last() == digit_char(n % 10));
        assert(digits_value(s) == digits_value(s.drop_last()) * 10 + (s.last() as int - 48));
        assert(n == (n / 10) * 10 + n % 10);
    }
}

/// Writing an integer in decimal and reading the text back gives the integer.
pub proof fn lemma_decimal_text_read_back(i: int)
    ensures
        signed_value(decimal_text(i)) == i,
{
    if i < 0 {
        let m = (-i) as nat;
        lemma_decimal_digits_read_back(m);
        let t = seq!['-'] + decimal_digits(m);
        assert(t[0] == '-');
        assert(t.drop_first() =~= decimal_digits(m));
    } else {
        lemma_decimal_digits_read_back(i as nat);
    }
}

/// The `id` member read back from `{ "id":<decimal of i> }` is `i`.
pub proof fn lemma_id_object_read_back(i: int)
    ensures
        id_member_value(id_object(decimal_text(i))) == i,
{
    reveal_strlit("{ \"id\":");
    reveal_strlit(" }");
    let t = id_object(decimal_text(i));
    assert(t.subrange(7, t.len() - 2) =~= decimal_text(i));
    lemma_decimal_text_read_back(i);
}

/// The one-character text of a decimal digit.
fn digit_str(d: u64) -> (r: &'static str)
    requires
        d < 10,
    ensures
        r@ == seq![digit_char(d as nat)],
{
    proof {
        reveal_strlit("0");
        reveal_strlit("1");
        reveal_strlit("2");
        reveal_strlit("3");
        reveal_strlit("4");
        reveal_strlit("5");
        reveal_strlit("6");
        reveal_strlit("7");
        reveal_strlit("8");
        reveal_strlit("9");
    }
    match d {
        0 => "0",
        1 => "1",
        2 => "2",
        3 => "3",
        4 => "4",
        5 => "5",
        6 => "6",
        7 => "7",
        8 => "8",
        _ => "9",
    }
}

/// Appends the decimal digits of `n` to `s`.
fn push_decimal_digits(s: &mut String, n: u64)
    ensures
        final(s)@ == old(s)@ + decimal_digits(n as nat),
    decreases n,
{
    if n >= 10 {
        push_decimal_digits(s, n / 10);
    }
    s.append(digit_str(n % 10));
    proof {
        assert(old(s)@ + decimal_digits(n as nat) =~= s@);
    }
}

/// Writes an integer in decimal, as `Display` does.
pub fn integer_text(i: i64) -> (r: String)
    ensures
        r@ == decimal_text(i as int),
{
    let mut s = String::new();
    if i < 0 {
        s.append("-");
        let magnitude: u64 = (0i128 - (i as i128)) as u64;
        push_decimal_digits(&mut s, magnitude);
        proof {
            reveal_strlit("-");
            assert(s@ =~= decimal_text(i as int));
        }
    } else {
        push_decimal_digits(&mut s, i as u64);
        proof {
            assert(s@ =~= decimal_text(i as int));
        }
    }
    s
}

/// The JSON text `{ "id":<value> }` for the given value text.
pub fn id_object_text(value: &str) -> (r: String)
    ensures
        r@ == id_object(value@),
{
    let r = String::from_str("{ \"id\":").concat(value).concat(" }");
    r
}

/// The JSON text of the caller identity that the authentication guard left
/// on a request, from the debug form of its `id` header; a request without
/// that header is answered with "Header not found".
pub fn get_data_from_middleware(id_header: Option<String>) -> (r: Result<String, ApiError>)
    ensures
        id_header is None <==> r is Err,
        r matches Err(e) ==> e@ == ApiErrorView::NotFound("Header not found"@),
        r matches Ok(t) ==> t@ == id_object(id_header->0@),
{
    match id_header {
        Some(value) => Ok(id_object_text(value.as_str())),
        None => Err(ApiError::NotFound(String::from_str("Header not found"))),
    }
}

} // verus!
