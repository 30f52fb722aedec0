//! The pieces of text that reports and actor names are made of.

use vstd::prelude::*;

verus! {

/// The character of a decimal digit.
pub open spec fn digit_char(d: nat) -> char {
    (48 + d) as char
}

/// A number in decimal, most significant digit first, without leading zeros.
pub open spec fn decimal_text(n: nat) -> Seq<char>
    decreases n,
{
    if n < 10 {
        seq![digit_char(n)]
    } else {
        decimal_text(n / 10).push(digit_char(n % 10))
    }
}

/// The number that a sequence of decimal digits stands for.
pub open spec fn decimal_value(digits: Seq<char>) -> int
    decreases digits.len(),
{
    if digits.len() == 0 {
        0
    } else {
        decimal_value(digits.drop_last()) * 10 + (digits.last() as int - 48)
    }
}

/// Reading a decimal text back gives the number it was written from.
pub proof fn lemma_decimal_round_trip(n: nat)
    ensures
        decimal_value(decimal_text(n)) == n,
    decreases n,
{
    let digits = decimal_text(n);
    if n < 10 {
        assert(digits.drop_last() =~= Seq::<char>::empty());
        assert(decimal_value(Seq::<char>::empty()) == 0);
    } else {
        lemma_decimal_round_trip(n / 10);
        assert(digits.drop_last() =~= decimal_text(n / 10));
    }
}

/// Writes one decimal digit.
fn digit(d: u64) -> (r: &'static str)
    requires
        d < 10,
    ensures
        r@ == seq![digit_char(d as nat)],
{
    proof {
        reveal_strlit("0");
        reveal_strlit("1");
        reveal_strlit("2");
        reveal_strlit("3");
        reveal_strlit("4");
        reveal_strlit("5");
        reveal_strlit("6");
        reveal_strlit("7");
        reveal_strlit("8");
        reveal_strlit("9");
    }
    let r = match d {
        0 => "0",
        1 => "1",
        2 => "2",
        3 => "3",
        4 => "4",
        5 => "5",
        6 => "6",
        7 => "7",
        8 => "8",
        _ => "9",
    };
    assert(r@ =~= seq![digit_char(d as nat)]);
    r
}

/// Writes a number in decimal.
pub fn decimal(n: u64) -> (r: String)
    ensures
        r@ == decimal_text(n as nat),
    decreases n,
{
    if n < 10 {
        digit(n).to_owned()
    } else {
        let mut r = decimal(n / 10);
        r.append(digit(n % 10));
        assert(r@ =~= decimal_text(n as nat));
        r
    }
}

/// The quoted and escaped form of a string, as `std` prints it with `{:?}`.
pub uninterp spec fn quoted_text(s: Seq<char>) -> Seq<char>;

/// Quotes and escapes a string.
///
/// The text is what `<str as std::fmt::Debug>::fmt` writes, through `format!`. It is
/// taken to depend on the characters of the string alone; which characters are escaped,
/// and how, is left to `std`.
#[verifier::external_body]
pub(crate) fn quoted(s: &str) -> (r: String)
    ensures
        r@ == quoted_text(s@),
{
    format!("{:?}", s)
}

/// The characters of each string of a list.
pub open spec fn texts(strings: Seq<String>) -> Seq<Seq<char>> {
    strings.map_values(|s: String| s@)
}

/// The quoted form of each text of a list.
pub open spec fn quoted_texts(parts: Seq<Seq<char>>) -> Seq<Seq<char>> {
    parts.map_values(|s: Seq<char>| quoted_text(s))
}

/// The texts of a list one after the other, with `, ` between them.
pub open spec fn joined_text(parts: Seq<Seq<char>>) -> Seq<char>
    decreases parts.len(),
{
    if parts.len() == 0 {
        Seq::<char>::empty()
    } else if parts.len() == 1 {
        parts[0]
    } else {
        joined_text(parts.drop_last()) + ", "@ + parts.last()
    }
}

/// The texts of a list between square brackets.
pub open spec fn list_text(parts: Seq<Seq<char>>) -> Seq<char> {
    "["@ + joined_text(parts) + "]"@
}

/// Writes a list of texts between square brackets.
pub fn list(parts: &Vec<String>) -> (r: String)
    ensures
        r@ == list_text(texts(parts@)),
{
    let mut joined = String::new();
    let ghost all = texts(parts@);
    let mut i: usize = 0;
    assert(all.take(0) =~= Seq::<Seq<char>>::empty());
    while i < parts.len()
        invariant
            i <= parts.len(),
            all == texts(parts@),
            joined@ == joined_text(all.take(i as int)),
        decreases parts.len() - i,
    {
        let ghost before = all.take(i as int);
        let ghost after = all.take(i + 1);
        assert(after.drop_last() =~= before);
        assert(after.last() == parts@[i as int]@);
        if i > 0 {
            joined.append(", ");
        }
        joined.append(parts[i].as_str());
        assert(joined@ =~= joined_text(after));
        i += 1;
    }
    assert(all.take(i as int) =~= all);
    let mut r = "[".to_owned();
    r.append(joined.as_str());
    r.append("]");
    r
}

/// Copies a list of strings.
pub fn copied(strings: &[String]) -> (r: Vec<String>)
    ensures
        r@ == strings@,
{
    let mut r: Vec<String> = Vec::new();
    let mut i: usize = 0;
    while i < strings.len()
        invariant
            i <= strings.len(),
            r@ == strings@.take(i as int),
        decreases strings.len() - i,
    {
        r.push(strings[i].clone());
        assert(r@ =~= strings@.take(i + 1));
        i += 1;
    }
    assert(r@ =~= strings@);
    r
}

/// Quotes each string of a list.
pub fn quoted_list(strings: &Vec<String>) -> (r: Vec<String>)
    ensures
        texts(r@) == quoted_texts(texts(strings@)),
{
    let mut r: Vec<String> = Vec::new();
    let ghost all = quoted_texts(texts(strings@));
    let mut i: usize = 0;
    while i < strings.len()
        invariant
            i <= strings.len(),
            all == quoted_texts(texts(strings@)),
            texts(r@) == all.take(i as int),
        decreases strings.len() - i,
    {
        let ghost before = texts(r@);
        r.push(quoted(strings[i].as_str()));
        assert(texts(r@) =~= before.push(all[i as int]));
        assert(texts(r@) =~= all.take(i + 1));
        i += 1;
    }
    assert(all.take(i as int) =~= all);
    r
}

/// Copies bytes.
pub fn copied_bytes(bytes: &Vec<u8>) -> (r: Vec<u8>)
    ensures
        r@ == bytes@,
{
    let r = bytes.clone();
    assert(r@ =~= bytes@);
    r
}

} // verus!
