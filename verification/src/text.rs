//! Small verified text helpers: equality and prefix handling on string
//! slices, joining, decimal formatting, and the UUID text shape that subject
//! and resource identifiers must have.

use vstd::prelude::*;

verus! {

/// Decimal digits in order of value.
pub const DEC_DIGITS: [char; 10] = ['0', '1', '2', '3', '4', '5', '6', '7', '8', '9'];

/// Whether two string slices hold the same characters.
pub fn text_eq(a: &str, b: &str) -> (r: bool)
    ensures
        r == (a@ == b@),
{
    let owned_a: String = a.to_owned();
    let owned_b: String = b.to_owned();
    owned_a == owned_b
}

/// The token of an `Authorization` header in the `Bearer` scheme: the text
/// after the prefix `"Bearer "`, if the header starts with that prefix.
pub fn strip_bearer_prefix(header: &str) -> (r: Option<String>)
    ensures
        (header@.len() >= 7 && header@.subrange(0, 7) == "Bearer "@) <==> (r matches Some(t)
            && t@ == header@.skip(7)),
        r is Some ==> header@.len() >= 7 && header@.subrange(0, 7) == "Bearer "@,
{
    let n = header.unicode_len();
    if n < 7 {
        return None;
    }
    let prefix = header.substring_char(0, 7);
    if text_eq(prefix, "Bearer ") {
        let token = header.substring_char(7, n);
        Some(token.to_owned())
    } else {
        None
    }
}

/// The strings of `items` laid end to end with `sep` between each pair.
pub open spec fn join_text(items: Seq<Seq<char>>, sep: Seq<char>) -> Seq<char>
    decreases items.len(),
{
    if items.len() == 0 {
        Seq::<char>::empty()
    } else if items.len() == 1 {
        items[0]
    } else {
        items[0] + sep + join_text(items.skip(1), sep)
    }
}

/// Joins `items` with the separator `sep`, as the `join` of std does.
pub fn join_strings(items: &Vec<String>, sep: &str) -> (r: String)
    ensures
        r@ == join_text(items@.map_values(|s: String| s@), sep@),
{
    let ghost all = items@.map_values(|s: String| s@);
    let mut out = String::new();
    let mut i: usize = 0;
    while i < items.len()
        invariant
            i <= items.len(),
            all == items@.map_values(|s: String| s@),
            all.len() == items@.len(),
            i == 0 ==> out@ =~= Seq::<char>::empty(),
            0 < i <= all.len() ==> join_text(all, sep@) =~= out@ + prefix_sep_join(
                all.skip(i as int),
                sep@,
            ),
        decreases items.len() - i,
    {
        if i > 0 {
            out.append(sep);
        }
        out.append(items[i].as_str());
        proof {
            lemma_join_unfold(all, sep@, i as int);
        }
        i = i + 1;
    }
    proof {
        if all.len() > 0 {
            assert(all.skip(all.len() as int) =~= Seq::<Seq<char>>::empty());
        }
    }
    out
}

/// What remains of a join after a non-empty prefix of the items: a separator
/// before each remaining item.
pub open spec fn prefix_sep_join(items: Seq<Seq<char>>, sep: Seq<char>) -> Seq<char>
    decreases items.len(),
{
    if items.len() == 0 {
        Seq::<char>::empty()
    } else {
        sep + items[0] + prefix_sep_join(items.skip(1), sep)
    }
}

proof fn lemma_join_unfold(items: Seq<Seq<char>>, sep: Seq<char>, i: int)
    requires
        0 <= i < items.len(),
    ensures
        i == 0 ==> join_text(items, sep) =~= items[0] + prefix_sep_join(items.skip(1), sep),
        i > 0 ==> prefix_sep_join(items.skip(i), sep) =~= sep + items[i] + prefix_sep_join(
            items.skip(i + 1),
            sep,
        ),
    decreases items.len() - i,
{
    if i == 0 {
        lemma_join_as_prefix(items, sep);
    } else {
        assert(items.skip(i)[0] == items[i]);
        assert(items.skip(i).skip(1) =~= items.skip(i + 1));
    }
}

proof fn lemma_join_as_prefix(items: Seq<Seq<char>>, sep: Seq<char>)
    requires
        items.len() >= 1,
    ensures
        join_text(items, sep) =~= items[0] + prefix_sep_join(items.skip(1), sep),
    decreases items.len(),
{
    if items.len() == 1 {
        assert(items.skip(1) =~= Seq::<Seq<char>>::empty());
    } else {
        lemma_join_as_prefix(items.skip(1), sep);
        assert(items.skip(1)[0] == items[1]);
        assert(items.skip(1).skip(1) =~= items.skip(2));
    }
}

/// The decimal text of `n`, most significant digit first, no leading zeros.
pub open spec fn dec_text(n: nat) -> Seq<char>
    decreases n,
{
    if n < 10 {
        seq![DEC_DIGITS@[n as int]]
    } else {
        dec_text(n / 10) + seq![DEC_DIGITS@[(n % 10) as int]]
    }
}

fn digit_str(d: u32) -> (r: &'static str)
    requires
        d < 10,
    ensures
        r@ =~= seq![DEC_DIGITS@[d as int]],
{
    proof {
        reveal_strlit("0");
        reveal_strlit("1");
        reveal_strlit("2");
        reveal_strlit("3");
        reveal_strlit("4");
        reveal_strlit("5");
        reveal_strlit("6");
        reveal_strlit("7");
        reveal_strlit("8");
        reveal_strlit("9");
    }
    match d {
        0 => "0",
        1 => "1",
        2 => "2",
        3 => "3",
        4 => "4",
        5 => "5",
        6 => "6",
        7 => "7",
        8 => "8",
        _ => "9",
    }
}

/// The low-to-high digit values of `ds` read back high-to-low, as characters.
spec fn digits_rev_text(ds: Seq<u32>) -> Seq<char> {
    ds.map_values(|d: u32| DEC_DIGITS@[d as int]).reverse()
}

/// Formats `n` in decimal, as `to_string` of std does.
pub fn u32_to_string(n: u32) -> (r: String)
    ensures
        r@ == dec_text(n as nat),
{
    let mut m: u32 = n;
    let mut low_digits: Vec<u32> = Vec::new();
    while m >= 10
        invariant
            m <= n,
            forall|k: int| 0 <= k < low_digits@.len() ==> low_digits@[k] < 10,
            dec_text(n as nat) =~= dec_text(m as nat) + digits_rev_text(low_digits@),
        decreases m,
    {
        let d = m % 10;
        proof {
            let ds = low_digits@;
            let ds2 = ds.push(d);
            assert(ds2.map_values(|x: u32| DEC_DIGITS@[x as int]) =~= ds.map_values(
                |x: u32| DEC_DIGITS@[x as int],
            ).push(DEC_DIGITS@[d as int]));
            assert(digits_rev_text(ds2) =~= seq![DEC_DIGITS@[d as int]] + digits_rev_text(ds));
        }
        low_digits.push(d);
        m = m / 10;
    }
    let mut out: String = digit_str(m).to_owned();
    let mut j: usize = low_digits.len();
    while j > 0
        invariant
            j <= low_digits@.len(),
            forall|k: int| 0 <= k < low_digits@.len() ==> low_digits@[k] < 10,
            dec_text(n as nat) =~= dec_text(m as nat) + digits_rev_text(low_digits@),
            m < 10,
            out@ =~= dec_text(m as nat) + digits_rev_text(low_digits@.skip(j as int)),
        decreases j,
    {
        j = j - 1;
        proof {
            let tail = low_digits@.skip(j as int);
            assert(tail.map_values(|x: u32| DEC_DIGITS@[x as int]).reverse() =~= low_digits@.skip(
                j as int + 1,
            ).map_values(|x: u32| DEC_DIGITS@[x as int]).reverse() + seq![
                DEC_DIGITS@[low_digits@[j as int] as int],
            ]);
        }
        out.append(digit_str(low_digits[j]));
    }
    proof {
        assert(low_digits@.skip(0) =~= low_digits@);
    }
    out
}

/// Whether `c` is a hexadecimal digit.
pub open spec fn is_hex_char(c: char) -> bool {
    ('0' <= c && c <= '9') || ('a' <= c && c <= 'f') || ('A' <= c && c <= 'F')
}

/// The text shape of a UUID: 32 hexadecimal digits in five groups separated
/// by hyphens after the 8th, 12th, 16th and 20th digit. Only this canonical
/// hyphenated form is accepted, by choice: it is the form subject and
/// resource ids travel in on the wire; the bare 32-digit spelling is
/// rejected.
pub open spec fn is_uuid_text(s: Seq<char>) -> bool {
    &&& s.len() == 36
    &&& forall|i: int|
        0 <= i < 36 ==> (if i == 8 || i == 13 || i == 18 || i == 23 {
            s[i] == '-'
        } else {
            is_hex_char(s[i])
        })
}

fn exec_is_hex_char(c: char) -> (r: bool)
    ensures
        r == is_hex_char(c),
{
    ('0' <= c && c <= '9') || ('a' <= c && c <= 'f') || ('A' <= c && c <= 'F')
}

/// Whether `s` has the text shape of a UUID.
pub fn is_uuid_str(s: &str) -> (r: bool)
    ensures
        r == is_uuid_text(s@),
{
    let n = s.unicode_len();
    if n != 36 {
        return false;
    }
    let mut i: usize = 0;
    while i < 36
        invariant
            s@.len() == 36,
            i <= 36,
            forall|k: int|
                0 <= k < i ==> (if k == 8 || k == 13 || k == 18 || k == 23 {
                    s@[k] == '-'
                } else {
                    is_hex_char(s@[k])
                }),
        decreases 36 - i,
    {
        let c = s.get_char(i);
        if i == 8 || i == 13 || i == 18 || i == 23 {
            if c != '-' {
                return false;
            }
        } else {
            if !exec_is_hex_char(c) {
                return false;
            }
        }
        i = i + 1;
    }
    true
}

} // verus!
