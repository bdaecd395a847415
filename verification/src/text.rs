use vstd::prelude::*;

use vstd::utf8::encode_utf8;

verus! {

/// UTF-8 encoding of a concatenation is the concatenation of the encodings.
pub proof fn lemma_encode_utf8_concat(a: Seq<char>, b: Seq<char>)
    ensures
        encode_utf8(a + b) == encode_utf8(a) + encode_utf8(b),
    decreases a.len(),
{
    if a.len() == 0 {
        assert(a + b =~= b);
        assert(encode_utf8(a) + encode_utf8(b) =~= encode_utf8(b));
    } else {
        assert((a + b).drop_first() =~= a.drop_first() + b);
        assert((a + b)[0] == a[0]);
        lemma_encode_utf8_concat(a.drop_first(), b);
        assert(encode_utf8(a + b) =~= encode_utf8(a) + encode_utf8(b));
    }
}

/// ASCII text encodes to one byte per character.
pub proof fn lemma_encode_utf8_ascii_len(s: Seq<char>)
    requires
        forall|i: int| 0 <= i < s.len() ==> (#[trigger] s[i] as u32) < 0x80,
    ensures
        encode_utf8(s).len() == s.len(),
    decreases s.len(),
{
    if s.len() > 0 {
        assert forall|i: int| 0 <= i < s.drop_first().len() implies (#[trigger] s.drop_first()[i] as u32) < 0x80 by {
            assert(s.drop_first()[i] == s[i + 1]);
        }
        lemma_encode_utf8_ascii_len(s.drop_first());
    }
}


/// `c` is an ASCII decimal digit.
pub open spec fn is_digit_spec(c: char) -> bool {
    '0' <= c && c <= '9'
}

/// `c` is a lower-case hexadecimal digit.
pub open spec fn is_lower_hex_spec(c: char) -> bool {
    is_digit_spec(c) || ('a' <= c && c <= 'f')
}

/// The Unicode `White_Space` characters, which `char::is_whitespace` accepts.
pub open spec fn is_whitespace_spec(c: char) -> bool {
    ||| ('\u{9}' <= c && c <= '\u{d}')
    ||| c == ' '
    ||| c == '\u{85}'
    ||| c == '\u{a0}'
    ||| c == '\u{1680}'
    ||| ('\u{2000}' <= c && c <= '\u{200a}')
    ||| c == '\u{2028}'
    ||| c == '\u{2029}'
    ||| c == '\u{202f}'
    ||| c == '\u{205f}'
    ||| c == '\u{3000}'
}

/// The characters of general category `Cc`, which `char::is_control` accepts.
pub open spec fn is_control_spec(c: char) -> bool {
    c <= '\u{1f}' || ('\u{7f}' <= c && c <= '\u{9f}')
}

/// Characters that no stored label or replacement text may hold: control
/// characters and the Unicode line and paragraph separators.
pub open spec fn is_forbidden_text_char_spec(c: char) -> bool {
    is_control_spec(c) || c == '\u{2028}' || c == '\u{2029}'
}

/// Every character is whitespace, so that `trim()` leaves nothing.
pub open spec fn is_blank_spec(s: Seq<char>) -> bool {
    forall|i: int| 0 <= i < s.len() ==> is_whitespace_spec(#[trigger] s[i])
}

/// Some character is forbidden in stored text.
pub open spec fn has_forbidden_char_spec(s: Seq<char>) -> bool {
    exists|i: int| 0 <= i < s.len() && is_forbidden_text_char_spec(#[trigger] s[i])
}

/// Text that may stand as a stable label: non-empty, not only whitespace, and
/// free of forbidden characters.
pub open spec fn valid_label_text_spec(s: Seq<char>) -> bool {
    s.len() > 0 && !is_blank_spec(s) && !has_forbidden_char_spec(s)
}

/// `s` begins with `prefix`.
pub open spec fn has_prefix_spec(s: Seq<char>, prefix: Seq<char>) -> bool {
    prefix.len() <= s.len() && s.subrange(0, prefix.len() as int) == prefix
}

/// The digit character of a value below ten.
pub open spec fn digit_char_spec(d: nat) -> char {
    if d == 0 { '0' }
    else if d == 1 { '1' }
    else if d == 2 { '2' }
    else if d == 3 { '3' }
    else if d == 4 { '4' }
    else if d == 5 { '5' }
    else if d == 6 { '6' }
    else if d == 7 { '7' }
    else if d == 8 { '8' }
    else { '9' }
}

/// The value of an ASCII decimal digit.
pub open spec fn digit_value_spec(c: char) -> nat {
    ((c as u32) - ('0' as u32)) as nat
}

/// The shortest decimal numeral of `n`, as `format!("{n}")` writes it.
pub open spec fn decimal_spec(n: nat) -> Seq<char>
    decreases n,
{
    if n < 10 {
        seq![digit_char_spec(n)]
    } else {
        decimal_spec(n / 10).push(digit_char_spec(n % 10))
    }
}

/// The value of a string of decimal digits, read most significant first.
pub open spec fn decimal_value_spec(s: Seq<char>) -> nat
    decreases s.len(),
{
    if s.len() == 0 {
        0
    } else {
        decimal_value_spec(s.drop_last()) * 10 + digit_value_spec(s.last())
    }
}

/// Calls `String::push`, which appends one character at the end.
#[verifier::external_body]
pub(crate) fn push_char(s: &mut String, c: char)
    ensures
        final(s)@ == old(s)@.push(c),
{
    s.push(c);
}

/// The characters of `s`, in order.
pub fn chars_of(s: &str) -> (out: Vec<char>)
    ensures
        out@ == s@,
{
    let mut out: Vec<char> = Vec::new();
    for c in it: s.chars()
        invariant
            out@ == it.seq().take(it.index() as int),
            it.seq() == s@,
    {
        out.push(c);
    }
    proof {
        assert(out@ =~= s@);
    }
    out
}

/// An owned copy of `s`.
pub fn owned(s: &str) -> (out: String)
    ensures
        out@ == s@,
{
    String::from_str(s)
}

/// The string made of the characters of `chars`.
pub fn string_from_chars(chars: &Vec<char>) -> (out: String)
    ensures
        out@ == chars@,
{
    let mut out = String::new();
    let mut i: usize = 0;
    while i < chars.len()
        invariant
            i <= chars.len(),
            out@ == chars@.subrange(0, i as int),
        decreases chars.len() - i,
    {
        push_char(&mut out, chars[i]);
        i = i + 1;
        proof {
            assert(out@ =~= chars@.subrange(0, i as int));
        }
    }
    proof {
        assert(out@ =~= chars@);
    }
    out
}

/// `a + b`.
pub fn concat2(a: &str, b: &str) -> (out: String)
    ensures
        out@ == a@ + b@,
{
    let mut out = String::from_str(a);
    out.append(b);
    out
}

/// `a + b + c`.
pub fn concat3(a: &str, b: &str, c: &str) -> (out: String)
    ensures
        out@ == a@ + b@ + c@,
{
    let mut out = String::from_str(a);
    out.append(b);
    out.append(c);
    out
}

/// Whether two texts are equal.
pub fn str_eq(a: &str, b: &str) -> (r: bool)
    ensures
        r == (a@ == b@),
{
    String::from_str(a) == String::from_str(b)
}

/// Whether two character sequences are equal.
pub fn chars_eq(a: &Vec<char>, b: &Vec<char>) -> (r: bool)
    ensures
        r == (a@ == b@),
{
    if a.len() != b.len() {
        return false;
    }
    let mut i: usize = 0;
    while i < a.len()
        invariant
            i <= a.len(),
            a.len() == b.len(),
            a@.subrange(0, i as int) == b@.subrange(0, i as int),
        decreases a.len() - i,
    {
        if a[i] != b[i] {
            proof {
                assert(a@[i as int] != b@[i as int]);
            }
            return false;
        }
        i = i + 1;
        proof {
            assert(a@.subrange(0, i as int) =~= a@.subrange(0, i - 1).push(a@[i - 1]));
            assert(b@.subrange(0, i as int) =~= b@.subrange(0, i - 1).push(b@[i - 1]));
        }
    }
    proof {
        assert(a@ =~= a@.subrange(0, a@.len() as int));
        assert(b@ =~= b@.subrange(0, b@.len() as int));
    }
    true
}

/// Whether `c` is whitespace in the sense of `char::is_whitespace`.
pub fn is_whitespace(c: char) -> (r: bool)
    ensures
        r == is_whitespace_spec(c),
{
    ('\u{9}' <= c && c <= '\u{d}') || c == ' ' || c == '\u{85}' || c == '\u{a0}' || c == '\u{1680}'
        || ('\u{2000}' <= c && c <= '\u{200a}') || c == '\u{2028}' || c == '\u{2029}' || c
        == '\u{202f}' || c == '\u{205f}' || c == '\u{3000}'
}

/// Whether `c` is a control character or a line or paragraph separator.
pub fn is_forbidden_text_char(c: char) -> (r: bool)
    ensures
        r == is_forbidden_text_char_spec(c),
{
    c <= '\u{1f}' || ('\u{7f}' <= c && c <= '\u{9f}') || c == '\u{2028}' || c == '\u{2029}'
}

/// Whether `s.trim()` is empty.
pub fn is_blank(s: &str) -> (r: bool)
    ensures
        r == is_blank_spec(s@),
{
    let chars = chars_of(s);
    let mut i: usize = 0;
    while i < chars.len()
        invariant
            i <= chars.len(),
            chars@ == s@,
            forall|j: int| 0 <= j < i ==> is_whitespace_spec(#[trigger] chars@[j]),
        decreases chars.len() - i,
    {
        if !is_whitespace(chars[i]) {
            return false;
        }
        i = i + 1;
    }
    true
}

/// Whether `s` holds a control character or a line or paragraph separator.
pub fn has_forbidden_char(s: &str) -> (r: bool)
    ensures
        r == has_forbidden_char_spec(s@),
{
    let chars = chars_of(s);
    let mut i: usize = 0;
    while i < chars.len()
        invariant
            i <= chars.len(),
            chars@ == s@,
            forall|j: int| 0 <= j < i ==> !is_forbidden_text_char_spec(#[trigger] chars@[j]),
        decreases chars.len() - i,
    {
        if is_forbidden_text_char(chars[i]) {
            return true;
        }
        i = i + 1;
    }
    false
}

/// Whether `s` is non-empty, not only whitespace, and free of forbidden characters.
pub fn valid_label_text(s: &str) -> (r: bool)
    ensures
        r == valid_label_text_spec(s@),
{
    let empty = chars_of(s).len() == 0;
    !empty && !is_blank(s) && !has_forbidden_char(s)
}

/// The remainder of `s` after `prefix`, if `s` begins with it.
pub fn strip_prefix(s: &str, prefix: &str) -> (r: Option<Vec<char>>)
    ensures
        r.is_some() == has_prefix_spec(s@, prefix@),
        r.is_some() ==> r.unwrap()@ == s@.subrange(prefix@.len() as int, s@.len() as int),
{
    let sc = chars_of(s);
    let pc = chars_of(prefix);
    if pc.len() > sc.len() {
        return None;
    }
    let mut i: usize = 0;
    while i < pc.len()
        invariant
            i <= pc.len() <= sc.len(),
            sc@ == s@,
            pc@ == prefix@,
            sc@.subrange(0, i as int) == pc@.subrange(0, i as int),
        decreases pc.len() - i,
    {
        if sc[i] != pc[i] {
            proof {
                assert(sc@.subrange(0, pc@.len() as int)[i as int] == sc@[i as int]);
            }
            return None;
        }
        i = i + 1;
        proof {
            assert(sc@.subrange(0, i as int) =~= sc@.subrange(0, i - 1).push(sc@[i - 1]));
            assert(pc@.subrange(0, i as int) =~= pc@.subrange(0, i - 1).push(pc@[i - 1]));
        }
    }
    let mut rest: Vec<char> = Vec::new();
    let mut j: usize = pc.len();
    while j < sc.len()
        invariant
            pc.len() <= j <= sc.len(),
            sc@ == s@,
            rest@ == sc@.subrange(pc@.len() as int, j as int),
        decreases sc.len() - j,
    {
        rest.push(sc[j]);
        j = j + 1;
        proof {
            assert(rest@ =~= sc@.subrange(pc@.len() as int, j as int));
        }
    }
    proof {
        assert(pc@ =~= pc@.subrange(0, pc@.len() as int));
    }
    Some(rest)
}

/// `s` holds `part` as a contiguous run of characters.
pub open spec fn contains_text_spec(s: Seq<char>, part: Seq<char>) -> bool {
    exists|i: int| 0 <= i && i + part.len() <= s.len() && #[trigger] s.subrange(i, i + part.len()) == part
}

/// Whether `part` occurs in `s` starting at `start`.
fn occurs_at(s: &Vec<char>, part: &Vec<char>, start: usize) -> (r: bool)
    requires
        start + part.len() <= s.len(),
    ensures
        r == (s@.subrange(start as int, start + part.len()) == part@),
{
    let mut k: usize = 0;
    while k < part.len()
        invariant
            k <= part.len(),
            start + part.len() <= s.len(),
            forall|j: int| 0 <= j < k ==> s@[start + j] == part@[j],
        decreases part.len() - k,
    {
        if s[start + k] != part[k] {
            proof {
                assert(s@.subrange(start as int, start + part.len())[k as int] == s@[start + k]);
            }
            return false;
        }
        k = k + 1;
    }
    proof {
        assert(s@.subrange(start as int, start + part.len()) =~= part@);
    }
    true
}

/// Whether `part` occurs in `s`.
pub fn contains_text(s: &str, part: &str) -> (r: bool)
    ensures
        r == contains_text_spec(s@, part@),
{
    let sc = chars_of(s);
    let pc = chars_of(part);
    if pc.len() > sc.len() {
        return false;
    }
    let last = sc.len() - pc.len();
    let mut i: usize = 0;
    loop
        invariant
            sc@ == s@,
            pc@ == part@,
            pc.len() <= sc.len(),
            last == sc.len() - pc.len(),
            i <= last,
            forall|j: int| 0 <= j < i ==> #[trigger] s@.subrange(j, j + part@.len()) != part@,
        decreases last - i,
    {
        if occurs_at(&sc, &pc, i) {
            proof {
                assert(s@.subrange(i as int, i + part@.len()) == part@);
            }
            return true;
        }
        if i == last {
            return false;
        }
        i = i + 1;
    }
}

/// The digit character of a value below ten.
pub fn digit_char(d: usize) -> (c: char)
    requires
        d < 10,
    ensures
        c == digit_char_spec(d as nat),
{
    if d == 0 { '0' }
    else if d == 1 { '1' }
    else if d == 2 { '2' }
    else if d == 3 { '3' }
    else if d == 4 { '4' }
    else if d == 5 { '5' }
    else if d == 6 { '6' }
    else if d == 7 { '7' }
    else if d == 8 { '8' }
    else { '9' }
}

/// Appends the decimal numeral of `n` to `out`.
pub fn push_decimal(out: &mut String, n: usize)
    ensures
        final(out)@ == old(out)@ + decimal_spec(n as nat),
    decreases n,
{
    if n < 10 {
        push_char(out, digit_char(n));
        proof {
            assert(decimal_spec(n as nat) =~= seq![digit_char_spec(n as nat)]);
        }
    } else {
        push_decimal(out, n / 10);
        push_char(out, digit_char(n % 10));
        proof {
            assert(final(out)@ =~= old(out)@ + decimal_spec(n as nat));
        }
    }
}

/// The decimal numeral of `n`.
pub fn decimal(n: usize) -> (out: String)
    ensures
        out@ == decimal_spec(n as nat),
{
    let mut out = String::new();
    push_decimal(&mut out, n);
    proof {
        assert(out@ =~= decimal_spec(n as nat));
    }
    out
}


/// Appends the decimal numeral of a wide number to `out`.
pub fn push_decimal_wide(out: &mut String, n: u128)
    ensures
        final(out)@ == old(out)@ + decimal_spec(n as nat),
    decreases n,
{
    if n < 10 {
        push_char(out, digit_char(n as usize));
        proof {
            assert(decimal_spec(n as nat) =~= seq![digit_char_spec(n as nat)]);
        }
    } else {
        push_decimal_wide(out, n / 10);
        push_char(out, digit_char((n % 10) as usize));
        proof {
            assert(final(out)@ =~= old(out)@ + decimal_spec(n as nat));
        }
    }
}

/// The decimal numeral of a wide number.
pub fn decimal_wide(n: u128) -> (out: String)
    ensures
        out@ == decimal_spec(n as nat),
{
    let mut out = String::new();
    push_decimal_wide(&mut out, n);
    proof {
        assert(out@ =~= decimal_spec(n as nat));
    }
    out
}

/// The texts joined with the separator between each two.
pub open spec fn join_spec(v: Seq<Seq<char>>, sep: Seq<char>) -> Seq<char>
    decreases v.len(),
{
    if v.len() == 0 {
        Seq::empty()
    } else if v.len() == 1 {
        v[0]
    } else {
        join_spec(v.drop_last(), sep) + sep + v.last()
    }
}

/// The texts joined with the separator between each two.
pub fn join(v: &Vec<String>, sep: &str) -> (out: String)
    ensures
        out@ == join_spec(crate::model::vec_view(v@), sep@),
{
    let ghost vv = crate::model::vec_view(v@);
    let mut out = String::new();
    let mut i: usize = 0;
    proof {
        assert(vv.take(0).len() == 0);
    }
    while i < v.len()
        invariant
            i <= v.len(),
            vv == crate::model::vec_view(v@),
            out@ == join_spec(vv.take(i as int), sep@),
        decreases v.len() - i,
    {
        proof {
            assert(vv.take(i + 1).drop_last() =~= vv.take(i as int));
            assert(vv.take(i + 1).last() == v@[i as int]@);
        }
        if i == 0 {
            out = v[0].clone();
            proof {
                assert(join_spec(vv.take(1), sep@) == vv.take(1)[0]);
            }
        } else {
            let joined = concat3(out.as_str(), sep, v[i].as_str());
            out = joined;
        }
        i = i + 1;
    }
    proof {
        assert(vv.take(i as int) =~= vv);
    }
    out
}

/// The number of bytes in the UTF-8 encoding of `chars`.
pub fn utf8_byte_len(chars: &Vec<char>) -> (n: u128)
    ensures
        n == encode_utf8(chars@).len(),
{
    let mut acc: u128 = 0;
    let mut i: usize = chars.len();
    proof {
        assert(chars@.skip(i as int) =~= Seq::<char>::empty());
    }
    while i > 0
        invariant
            i <= chars.len(),
            acc == encode_utf8(chars@.skip(i as int)).len(),
            acc <= 4 * (chars.len() - i),
        decreases i,
    {
        let c = chars[i - 1];
        let v = c as u32;
        let w: u128 = if v <= 0x7f {
            1
        } else if v <= 0x7ff {
            2
        } else if v <= 0xffff && !(0xd800 <= v && v <= 0xdfff) {
            3
        } else {
            4
        };
        proof {
            let t = chars@.skip(i - 1);
            assert(t.drop_first() =~= chars@.skip(i as int));
            assert(t[0] == c);
            assert(vstd::utf8::encode_scalar(v).len() == w);
        }
        acc = acc + w;
        i = i - 1;
    }
    proof {
        assert(chars@.skip(0) =~= chars@);
    }
    acc
}

} // verus!
