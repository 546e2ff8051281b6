//! Text: numbers as digits, trimming, file names, and UTF-16 for Windows.

use vstd::prelude::*;

verus! {

/// The hexadecimal digit, in upper case, of a number below 16.
pub open spec fn digit_char(d: int) -> char {
    if d == 0 {
        '0'
    } else if d == 1 {
        '1'
    } else if d == 2 {
        '2'
    } else if d == 3 {
        '3'
    } else if d == 4 {
        '4'
    } else if d == 5 {
        '5'
    } else if d == 6 {
        '6'
    } else if d == 7 {
        '7'
    } else if d == 8 {
        '8'
    } else if d == 9 {
        '9'
    } else if d == 10 {
        'A'
    } else if d == 11 {
        'B'
    } else if d == 12 {
        'C'
    } else if d == 13 {
        'D'
    } else if d == 14 {
        'E'
    } else {
        'F'
    }
}

/// A number in decimal, without leading zeros.
pub open spec fn decimal(n: nat) -> Seq<char>
    decreases n,
{
    if n < 10 {
        seq![digit_char(n as int)]
    } else {
        decimal(n / 10).push(digit_char((n % 10) as int))
    }
}

/// The last `count` hexadecimal digits of a number.
pub open spec fn hexadecimal(n: nat, count: nat) -> Seq<char>
    decreases count,
{
    if count == 0 {
        seq![]
    } else {
        hexadecimal(n / 16, (count - 1) as nat).push(digit_char((n % 16) as int))
    }
}

fn digit_str(d: u32) -> (digit: &'static str)
    requires
        d < 16,
    ensures
        digit@ == seq![digit_char(d as int)],
{
    proof {
        reveal_strlit("0");
        reveal_strlit("1");
        reveal_strlit("2");
        reveal_strlit("3");
        reveal_strlit("4");
        reveal_strlit("5");
        reveal_strlit("6");
        reveal_strlit("7");
        reveal_strlit("8");
        reveal_strlit("9");
        reveal_strlit("A");
        reveal_strlit("B");
        reveal_strlit("C");
        reveal_strlit("D");
        reveal_strlit("E");
        reveal_strlit("F");
    }
    match d {
        0 => "0",
        1 => "1",
        2 => "2",
        3 => "3",
        4 => "4",
        5 => "5",
        6 => "6",
        7 => "7",
        8 => "8",
        9 => "9",
        10 => "A",
        11 => "B",
        12 => "C",
        13 => "D",
        14 => "E",
        _ => "F",
    }
}

/// Writes a number in decimal.
pub fn decimal_text(n: u64) -> (text: String)
    ensures
        text@ == decimal(n as nat),
    decreases n,
{
    let mut text = if n < 10 {
        String::new()
    } else {
        decimal_text(n / 10)
    };
    text.append(digit_str((n % 10) as u32));
    text
}

/// Writes the last `count` hexadecimal digits of a number.
pub fn hexadecimal_text(n: u32, count: u32) -> (text: String)
    ensures
        text@ == hexadecimal(n as nat, count as nat),
    decreases count,
{
    if count == 0 {
        String::new()
    } else {
        let mut text = hexadecimal_text(n / 16, count - 1);
        text.append(digit_str(n % 16));
        text
    }
}

/// Two pieces of text, one after the other.
pub fn join2(a: &str, b: &str) -> (text: String)
    ensures
        text@ == a@ + b@,
{
    let mut text = a.to_owned();
    text.append(b);
    text
}

/// Three pieces of text, one after the other.
pub fn join3(a: &str, b: &str, c: &str) -> (text: String)
    ensures
        text@ == a@ + b@ + c@,
{
    let mut text = join2(a, b);
    text.append(c);
    text
}

/// Four pieces of text, one after the other.
pub fn join4(a: &str, b: &str, c: &str, d: &str) -> (text: String)
    ensures
        text@ == a@ + b@ + c@ + d@,
{
    let mut text = join3(a, b, c);
    text.append(d);
    text
}

/// The characters with the Unicode property `White_Space`.
pub open spec fn is_white_space(c: char) -> bool {
    let n = c as u32;
    ||| 0x9 <= n <= 0xD
    ||| n == 0x20
    ||| n == 0x85
    ||| n == 0xA0
    ||| n == 0x1680
    ||| 0x2000 <= n <= 0x200A
    ||| n == 0x2028
    ||| n == 0x2029
    ||| n == 0x202F
    ||| n == 0x205F
    ||| n == 0x3000
}

fn white_space(c: char) -> (yes: bool)
    ensures
        yes == is_white_space(c),
{
    let n: u32 = c as u32;
    (0x9 <= n && n <= 0xD) || n == 0x20 || n == 0x85 || n == 0xA0 || n == 0x1680 || (0x2000 <= n
        && n <= 0x200A) || n == 0x2028 || n == 0x2029 || n == 0x202F || n == 0x205F || n == 0x3000
}

/// Whether `t` is `s` without the white space at both ends.
pub open spec fn is_trimmed(s: Seq<char>, t: Seq<char>) -> bool {
    exists|from: int, to: int| #[trigger] trims(s, t, from, to)
}

/// Whether `t` is what `s` holds from `from` up to `to`, with nothing but white space
/// before and after, and no white space at either end.
pub open spec fn trims(s: Seq<char>, t: Seq<char>, from: int, to: int) -> bool {
    &&& 0 <= from <= to <= s.len()
    &&& t == s.subrange(from, to)
    &&& forall|i: int| 0 <= i < from ==> is_white_space(s[i])
    &&& forall|i: int| to <= i < s.len() ==> is_white_space(s[i])
    &&& t.len() > 0 ==> !is_white_space(t.first()) && !is_white_space(t.last())
}

/// Removes the white space at both ends.
pub fn trim(text: &str) -> (trimmed: String)
    ensures
        is_trimmed(text@, trimmed@),
{
    let length: usize = text.unicode_len();
    let mut from: usize = 0;
    while from < length && white_space(text.get_char(from))
        invariant
            from <= length,
            length == text@.len(),
            forall|i: int| 0 <= i < from ==> is_white_space(text@[i]),
        decreases length - from,
    {
        from = from + 1;
    }
    let mut to: usize = length;
    while from < to && white_space(text.get_char(to - 1))
        invariant
            from <= to <= length,
            length == text@.len(),
            forall|i: int| 0 <= i < from ==> is_white_space(text@[i]),
            forall|i: int| to <= i < length ==> is_white_space(text@[i]),
            from < length ==> !is_white_space(text@[from as int]),
        decreases to - from,
    {
        to = to - 1;
    }
    let trimmed = text.substring_char(from, to).to_owned();
    assert(trims(text@, trimmed@, from as int, to as int));
    trimmed
}

/// There is only one way to trim a text.
pub proof fn law_trimming_is_unique(s: Seq<char>, t1: Seq<char>, t2: Seq<char>)
    requires
        is_trimmed(s, t1),
        is_trimmed(s, t2),
    ensures
        t1 == t2,
{
    let (f1, e1): (int, int) = choose|from: int, to: int| #[trigger] trims(s, t1, from, to);
    let (f2, e2): (int, int) = choose|from: int, to: int| #[trigger] trims(s, t2, from, to);
    if t1.len() > 0 {
        assert(t1.first() == s[f1]);
        assert(t1.last() == s[e1 - 1]);
    }
    if t2.len() > 0 {
        assert(t2.first() == s[f2]);
        assert(t2.last() == s[e2 - 1]);
    }
    assert(t1 =~= t2);
}

/// Whether a character is an ASCII letter or digit.
pub open spec fn is_ascii_alphanumeric(c: char) -> bool {
    let n = c as u32;
    ||| 0x30 <= n <= 0x39
    ||| 0x41 <= n <= 0x5A
    ||| 0x61 <= n <= 0x7A
}

/// What a character of a name contributes to a file name: spaces and long dashes
/// become hyphens; hyphens, ASCII letters and digits stay; the rest is left out.
pub open spec fn slug_piece(c: char) -> Seq<char> {
    if c == ' ' || c == '—' {
        seq!['-']
    } else if c == '-' || is_ascii_alphanumeric(c) {
        seq![c]
    } else {
        seq![]
    }
}

/// A name reduced to characters that are safe in a file name.
pub open spec fn slug(name: Seq<char>) -> Seq<char>
    decreases name.len(),
{
    if name.len() == 0 {
        seq![]
    } else {
        slug(name.drop_last()) + slug_piece(name.last())
    }
}

/// Reduces a name to characters that are safe in a file name.
pub fn slug_text(name: &str) -> (safe: String)
    ensures
        safe@ == slug(name@),
{
    proof {
        reveal_strlit("-");
    }
    let length: usize = name.unicode_len();
    let mut safe = String::new();
    let mut i: usize = 0;
    while i < length
        invariant
            i <= length,
            length == name@.len(),
            "-"@ == seq!['-'],
            safe@ == slug(name@.take(i as int)),
        decreases length - i,
    {
        let c: char = name.get_char(i);
        let n: u32 = c as u32;
        assert(name@.take(i + 1).drop_last() =~= name@.take(i as int));
        if c == ' ' || c == '—' {
            safe.append("-");
        } else if c == '-' || (0x30 <= n && n <= 0x39) || (0x41 <= n && n <= 0x5A) || (0x61 <= n
            && n <= 0x7A) {
            safe.append(name.substring_char(i, i + 1));
            assert(name@.subrange(i as int, i + 1) =~= seq![c]);
        } else {
            assert(safe@ + Seq::<char>::empty() =~= safe@);
        }
        i = i + 1;
    }
    assert(name@.take(length as int) =~= name@);
    safe
}

/// A slug holds nothing but ASCII letters, digits and hyphens, so that it names a
/// file in the directory it is joined to and no other.
pub proof fn law_slug_is_safe(name: Seq<char>, i: int)
    requires
        0 <= i < slug(name).len(),
    ensures
        slug(name)[i] == '-' || is_ascii_alphanumeric(slug(name)[i]),
    decreases name.len(),
{
    let head = slug(name.drop_last());
    if i < head.len() {
        law_slug_is_safe(name.drop_last(), i);
    }
}

/// A slug is its own slug.
pub proof fn law_slug_is_stable(name: Seq<char>)
    ensures
        slug(slug(name)) == slug(name),
{
    let safe = slug(name);
    assert forall|i: int| 0 <= i < safe.len() implies slug_piece(#[trigger] safe[i]) == seq![
        safe[i],
    ] by {
        law_slug_is_safe(name, i);
    }
    lemma_slug_keeps(safe);
}

proof fn lemma_slug_keeps(s: Seq<char>)
    requires
        forall|i: int| 0 <= i < s.len() ==> slug_piece(#[trigger] s[i]) == seq![s[i]],
    ensures
        slug(s) == s,
    decreases s.len(),
{
    if s.len() > 0 {
        assert forall|i: int| 0 <= i < s.drop_last().len() implies slug_piece(
            #[trigger] s.drop_last()[i],
        ) == seq![s.drop_last()[i]] by {
            assert(s.drop_last()[i] == s[i]);
        }
        lemma_slug_keeps(s.drop_last());
        assert(slug_piece(s[s.len() - 1]) == seq![s[s.len() - 1]]);
    }
    assert(slug(s) =~= s);
}

/// Whether a text has no ASCII capital letter.
pub open spec fn has_no_capital(text: Seq<char>) -> bool {
    forall|i: int| 0 <= i < text.len() ==> !(0x41 <= #[trigger] text[i] as u32 <= 0x5A)
}

/// Whether a character may stand in the name of a picture's file: an ASCII letter in lower
/// case, a digit or a hyphen.
pub open spec fn is_stem_char(c: char) -> bool {
    let n = c as u32;
    ||| c == '-'
    ||| 0x30 <= n <= 0x39
    ||| 0x61 <= n <= 0x7A
}

/// The slug of a text without capital letters holds nothing but lower-case ASCII letters,
/// digits and hyphens: no separator, no dot, no capital letter.
pub proof fn law_lower_slug_is_a_stem(text: Seq<char>, i: int)
    requires
        has_no_capital(text),
        0 <= i < slug(text).len(),
    ensures
        is_stem_char(slug(text)[i]),
    decreases text.len(),
{
    let before = text.drop_last();
    assert forall|k: int| 0 <= k < before.len() implies !(0x41 <= #[trigger] before[k] as u32
        <= 0x5A) by {
        assert(before[k] == text[k]);
    }
    if i < slug(before).len() {
        law_lower_slug_is_a_stem(before, i);
    } else {
        assert(!(0x41 <= text[text.len() - 1] as u32 <= 0x5A));
    }
}

/// A text in lower case, as Unicode defines it.
pub uninterp spec fn lowercase(text: Seq<char>) -> Seq<char>;

/// Calls `str::to_lowercase`.
///
/// Not proved: that the result is a function of the text, `lowercase`, and that no ASCII
/// capital letter is left in it.
#[verifier::external_body]
fn to_lowercase(text: &str) -> (lowered: String)
    ensures
        lowered@ == lowercase(text@),
        has_no_capital(lowered@),
{
    text.to_lowercase()
}

/// The name of a file for a picture of the given name. Before its extension it holds nothing
/// but lower-case ASCII letters, digits and hyphens, so that it names a file in the directory
/// it is joined to and no other.
pub fn picture_file_name(name: &str) -> (file: String)
    ensures
        file@ == slug(lowercase(name@)) + ".jpg"@,
        forall|i: int|
            0 <= i < slug(lowercase(name@)).len() ==> is_stem_char(
                #[trigger] slug(lowercase(name@))[i],
            ),
{
    let lowered = to_lowercase(name);
    assert forall|i: int| 0 <= i < slug(lowered@).len() implies is_stem_char(
        #[trigger] slug(lowered@)[i],
    ) by {
        law_lower_slug_is_a_stem(lowered@, i);
    }
    join2(slug_text(lowered.as_str()).as_str(), ".jpg")
}

/// A character in UTF-16: itself, or two surrogates.
pub open spec fn utf16_units(c: char) -> Seq<u16> {
    let n = c as int;
    if n < 0x1_0000 {
        seq![n as u16]
    } else {
        seq![
            (0xD800 + (n - 0x1_0000) / 0x400) as u16,
            (0xDC00 + (n - 0x1_0000) % 0x400) as u16,
        ]
    }
}

/// A text in UTF-16.
pub open spec fn utf16(text: Seq<char>) -> Seq<u16>
    decreases text.len(),
{
    if text.len() == 0 {
        seq![]
    } else {
        utf16(text.drop_last()) + utf16_units(text.last())
    }
}

/// Encodes a text in UTF-16 with a zero after it.
pub fn wide_text(text: &str) -> (units: Vec<u16>)
    ensures
        units@ == utf16(text@).push(0),
{
    let length: usize = text.unicode_len();
    let mut units: Vec<u16> = Vec::new();
    let mut i: usize = 0;
    while i < length
        invariant
            i <= length,
            length == text@.len(),
            units@ == utf16(text@.take(i as int)),
        decreases length - i,
    {
        let c: char = text.get_char(i);
        let n: u32 = c as u32;
        assert(text@.take(i + 1).drop_last() =~= text@.take(i as int));
        let ghost before = units@;
        if n < 0x1_0000 {
            units.push(n as u16);
            assert(units@ =~= before + utf16_units(c));
        } else {
            units.push((0xD800 + (n - 0x1_0000) / 0x400) as u16);
            units.push((0xDC00 + (n - 0x1_0000) % 0x400) as u16);
            assert(units@ =~= before + utf16_units(c));
        }
        i = i + 1;
    }
    assert(text@.take(length as int) =~= text@);
    units.push(0);
    units
}

/// A text without a zero character has no zero in its UTF-16 form, so that a reader
/// who stops at the first zero reads all of it.
pub proof fn law_wide_text_ends_at_its_zero(text: Seq<char>, i: int)
    requires
        !text.contains('\u{0}'),
        0 <= i < utf16(text).push(0).len(),
    ensures
        utf16(text).push(0)[i] == 0 <==> i == utf16(text).len(),
{
    if i < utf16(text).len() {
        lemma_utf16_has_no_zero(text, i);
    }
}

proof fn lemma_utf16_has_no_zero(text: Seq<char>, i: int)
    requires
        !text.contains('\u{0}'),
        0 <= i < utf16(text).len(),
    ensures
        utf16(text)[i] != 0,
    decreases text.len(),
{
    let head = utf16(text.drop_last());
    if i < head.len() {
        assert forall|k: int| 0 <= k < text.drop_last().len() implies text.drop_last()[k]
            != '\u{0}' by {
            assert(text.contains(text[k]));
        }
        lemma_utf16_has_no_zero(text.drop_last(), i);
    } else {
        assert(text.contains(text[text.len() - 1]));
        lemma_units_are_not_zero(text.last());
    }
}

proof fn lemma_units_are_not_zero(c: char)
    requires
        c != '\u{0}',
    ensures
        forall|i: int| 0 <= i < utf16_units(c).len() ==> utf16_units(c)[i] != 0,
{
}

/// Different texts have different UTF-16 forms, so that different names name different
/// things to the system.
pub proof fn law_wide_text_tells_texts_apart(a: Seq<char>, b: Seq<char>)
    requires
        utf16(a).push(0) == utf16(b).push(0),
    ensures
        a == b,
{
    assert(utf16(a) =~= utf16(a).push(0).drop_last());
    assert(utf16(b) =~= utf16(b).push(0).drop_last());
    lemma_utf16_tells_apart(a, b);
}

proof fn lemma_utf16_tells_apart(a: Seq<char>, b: Seq<char>)
    requires
        utf16(a) == utf16(b),
    ensures
        a == b,
    decreases a.len(),
{
    if a.len() > 0 && b.len() > 0 {
        let units = utf16(a);
        let last_a = utf16_units(a.last());
        let last_b = utf16_units(b.last());
        lemma_units_end(a.last());
        lemma_units_end(b.last());
        assert(units.last() == last_a.last());
        assert(units.last() == last_b.last());
        assert(last_a =~= units.skip(units.len() - last_a.len()));
        assert(last_b =~= units.skip(units.len() - last_b.len()));
        lemma_units_tell_apart(a.last(), b.last());
        assert(utf16(a.drop_last()) =~= units.take(units.len() - last_a.len()));
        assert(utf16(b.drop_last()) =~= units.take(units.len() - last_b.len()));
        lemma_utf16_tells_apart(a.drop_last(), b.drop_last());
        assert(a =~= a.drop_last().push(a.last()));
        assert(b =~= b.drop_last().push(b.last()));
    } else {
        if a.len() > 0 {
            lemma_units_end(a.last());
            assert(utf16(a).len() > 0);
            assert(utf16(b).len() == 0);
        }
        if b.len() > 0 {
            lemma_units_end(b.last());
            assert(utf16(b).len() > 0);
            assert(utf16(a).len() == 0);
        }
        assert(a =~= b);
    }
}

/// The last unit of a character tells how many there are.
proof fn lemma_units_end(c: char)
    ensures
        1 <= utf16_units(c).len() <= 2,
        utf16_units(c).len() == 2 <==> 0xDC00 <= utf16_units(c).last() <= 0xDFFF,
{
}

proof fn lemma_units_tell_apart(c: char, d: char)
    requires
        utf16_units(c) == utf16_units(d),
    ensures
        c == d,
{
    let m = c as int;
    let n = d as int;
    assert(utf16_units(c).len() == utf16_units(d).len());
    assert(utf16_units(c)[0] == utf16_units(d)[0]);
    if m >= 0x1_0000 {
        assert(n >= 0x1_0000);
        assert(utf16_units(c)[1] == utf16_units(d)[1]);
        let x = m - 0x1_0000;
        let y = n - 0x1_0000;
        assert(x / 0x400 == y / 0x400);
        assert(x % 0x400 == y % 0x400);
        assert(x == 0x400 * (x / 0x400) + x % 0x400);
        assert(y == 0x400 * (y / 0x400) + y % 0x400);
    } else {
        assert(utf16_units(c).len() == 1);
        assert(n < 0x1_0000);
        assert(utf16_units(c)[0] == m);
        assert(utf16_units(d)[0] == n);
    }
}

/// The decimal form of a number is never empty.
pub proof fn law_decimal_is_not_empty(n: nat)
    ensures
        decimal(n).len() > 0,
    decreases n,
{
    if n >= 10 {
        law_decimal_is_not_empty(n / 10);
    }
}

/// Different numbers have different decimal forms.
pub proof fn law_decimal_tells_numbers_apart(m: nat, n: nat)
    requires
        decimal(m) == decimal(n),
    ensures
        m == n,
    decreases m,
{
    assert(decimal(m).last() == digit_char((m % 10) as int));
    assert(decimal(n).last() == digit_char((n % 10) as int));
    assert(decimal(m).drop_last() == decimal(n).drop_last());
    if m >= 10 {
        law_decimal_is_not_empty(m / 10);
        assert(decimal(m).drop_last() =~= decimal(m / 10));
    }
    if n >= 10 {
        law_decimal_is_not_empty(n / 10);
        assert(decimal(n).drop_last() =~= decimal(n / 10));
    }
    if m >= 10 && n >= 10 {
        law_decimal_tells_numbers_apart(m / 10, n / 10);
    }
}

/// The number that a text of digits stands for, with the given number of digits to count by.
pub open spec fn number_of(digits: Seq<char>, base: int) -> int
    decreases digits.len(),
{
    if digits.len() == 0 {
        0
    } else {
        let c = digits.last() as int;
        base * number_of(digits.drop_last(), base) + if c <= '9' as int {
            c - '0' as int
        } else {
            c - 'A' as int + 10
        }
    }
}

/// The digits of a number, read as a decimal number, give it back; there are only digits, and
/// no zero leads but that of zero itself.
pub proof fn law_decimal_reads_back(n: nat)
    ensures
        number_of(decimal(n), 10) == n,
        forall|i: int|
            0 <= i < decimal(n).len() ==> '0' as int <= #[trigger] decimal(n)[i] as int <= '9' as int,
        n > 0 ==> decimal(n)[0] != '0',
        n == 0 ==> decimal(n) == seq!['0'],
    decreases n,
{
    if n < 10 {
        assert(decimal(n).drop_last() =~= Seq::<char>::empty());
        reveal_with_fuel(number_of, 2);
    } else {
        law_decimal_reads_back(n / 10);
        law_decimal_is_not_empty(n / 10);
        assert(decimal(n).drop_last() =~= decimal(n / 10));
        assert forall|i: int| 0 <= i < decimal(n).len() implies '0' as int <= #[trigger] decimal(
            n,
        )[i] as int <= '9' as int by {
            if i < decimal(n / 10).len() {
                assert(decimal(n)[i] == decimal(n / 10)[i]);
            }
        }
        assert(decimal(n)[0] == decimal(n / 10)[0]);
    }
}

/// How many numbers have at most so many hexadecimal digits.
pub open spec fn sixteen_to_the(count: nat) -> nat
    decreases count,
{
    if count == 0 {
        1
    } else {
        16 * sixteen_to_the((count - 1) as nat)
    }
}

/// The hexadecimal digits of a number that has no more than those, read as one, give it back,
/// and there are as many as asked for.
pub proof fn law_hexadecimal_reads_back(n: nat, count: nat)
    requires
        n < sixteen_to_the(count),
    ensures
        number_of(hexadecimal(n, count), 16) == n,
        hexadecimal(n, count).len() == count,
    decreases count,
{
    if count > 0 {
        law_hexadecimal_reads_back(n / 16, (count - 1) as nat);
        assert(hexadecimal(n, count).drop_last() =~= hexadecimal(n / 16, (count - 1) as nat));
    }
}

/// The white space of Unicode: tab to carriage return, space, next line, the two no-break
/// spaces, the Ogham space, the spaces from en quad to hair space, the line and paragraph
/// separators, the mathematical space and the ideographic one; and nothing else.
pub proof fn law_white_space(c: char)
    ensures
        is_white_space(c) <==> ({
            ||| c == '\t'
            ||| c == '\n'
            ||| c == '\u{b}'
            ||| c == '\u{c}'
            ||| c == '\r'
            ||| c == ' '
            ||| c == '\u{85}'
            ||| c == '\u{a0}'
            ||| c == '\u{1680}'
            ||| '\u{2000}' as u32 <= c as u32 <= '\u{200a}' as u32
            ||| c == '\u{2028}'
            ||| c == '\u{2029}'
            ||| c == '\u{202f}'
            ||| c == '\u{205f}'
            ||| c == '\u{3000}'
        }),
{
}

/// A trimmed text has no white space at either end, and the text that it was trimmed from is
/// it with nothing but white space around.
pub proof fn law_trimming(s: Seq<char>, t: Seq<char>)
    requires
        is_trimmed(s, t),
    ensures
        t.len() > 0 ==> !is_white_space(t[0]) && !is_white_space(t[t.len() - 1]),
        exists|before: Seq<char>, after: Seq<char>| #[trigger]
            blank(before) && #[trigger] blank(after) && s == before + t + after,
{
    let (from, to): (int, int) = choose|from: int, to: int| #[trigger] trims(s, t, from, to);
    let before = s.take(from);
    let after = s.skip(to);
    assert(blank(before));
    assert(blank(after));
    assert(s =~= before + t + after);
}

/// Whether a text is nothing but white space.
pub open spec fn blank(text: Seq<char>) -> bool {
    forall|i: int| 0 <= i < text.len() ==> is_white_space(#[trigger] text[i])
}

/// The slug of two texts together is that of the first and that of the second, in order.
pub proof fn law_slug_goes_letter_by_letter(first: Seq<char>, second: Seq<char>)
    ensures
        slug(first + second) == slug(first) + slug(second),
        slug(seq![]).len() == 0,
    decreases second.len(),
{
    if second.len() == 0 {
        assert(first + second =~= first);
        assert(slug(first) + slug(second) =~= slug(first));
    } else {
        law_slug_goes_letter_by_letter(first, second.drop_last());
        assert((first + second).drop_last() =~= first + second.drop_last());
        assert((first + second).last() == second.last());
        assert(slug(first + second) =~= slug(first) + slug(second));
    }
}

/// The slug of a single character: a hyphen for a space, a long dash and a hyphen, an ASCII
/// letter or digit for itself, and nothing for any other.
pub proof fn law_slug_of_a_character(c: char)
    ensures
        c == ' ' || c == '—' || c == '-' ==> slug(seq![c]) == seq!['-'],
        ('a' as u32 <= c as u32 <= 'z' as u32) || ('A' as u32 <= c as u32 <= 'Z' as u32) || (
        '0' as u32 <= c as u32 <= '9' as u32) ==> slug(seq![c]) == seq![c],
        slug(seq![c]).len() == 0 || slug(seq![c]) == seq!['-'] || slug(seq![c]) == seq![c],
        slug(seq![c]).len() == 0 <==> !(c == ' ' || c == '—' || c == '-' || ('a' as u32 <= c as u32
            <= 'z' as u32) || ('A' as u32 <= c as u32 <= 'Z' as u32) || ('0' as u32 <= c as u32
            <= '9' as u32)),
{
    reveal_with_fuel(slug, 2);
    assert(seq![c].drop_last() =~= Seq::<char>::empty());
    assert(slug(seq![c]) =~= slug_piece(c));
}

/// The UTF-16 form of two texts together is that of the first and that of the second.
pub proof fn law_utf16_goes_letter_by_letter(first: Seq<char>, second: Seq<char>)
    ensures
        utf16(first + second) == utf16(first) + utf16(second),
        utf16(seq![]).len() == 0,
    decreases second.len(),
{
    if second.len() == 0 {
        assert(first + second =~= first);
        assert(utf16(first) + utf16(second) =~= utf16(first));
    } else {
        law_utf16_goes_letter_by_letter(first, second.drop_last());
        assert((first + second).drop_last() =~= first + second.drop_last());
        assert((first + second).last() == second.last());
        assert(utf16(first + second) =~= utf16(first) + utf16(second));
    }
}

/// The UTF-16 form of a single character reads back: one unit is the character itself, and
/// two are a high and a low surrogate that hold ten bits each of what it is beyond 0xFFFF.
pub proof fn law_utf16_of_a_character(c: char)
    ensures
        ({
            let units = utf16(seq![c]);
            let n = c as int;
            &&& n <= 0xFFFF ==> units.len() == 1 && units[0] == n
            &&& n > 0xFFFF ==> units.len() == 2 && 0xD800 <= units[0] <= 0xDBFF && 0xDC00
                <= units[1] <= 0xDFFF && n == 0x1_0000 + 0x400 * (units[0] - 0xD800) + (units[1]
                - 0xDC00)
        }),
{
    reveal_with_fuel(utf16, 2);
    assert(seq![c].drop_last() =~= Seq::<char>::empty());
    assert(utf16(seq![c]) =~= utf16_units(c));
}

} // verus!
