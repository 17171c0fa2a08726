//! Small string helpers, stated over sequences of characters.

use vstd::prelude::*;

verus! {

/// An optional string as contracts speak of it.
pub open spec fn opt_text(text: Option<String>) -> Option<Seq<char>> {
    match text {
        Some(s) => Some(s@),
        None => None,
    }
}

/// The characters of `s`, in order.
pub fn chars_of(s: &str) -> (r: Vec<char>)
    ensures
        r@ == s@,
{
    let mut out: Vec<char> = Vec::new();
    for c in it: s.chars()
        invariant
            it.seq() == s@,
            out@ == s@.take(it.index() as int),
    {
        out.push(c);
    }
    out
}

/// Whether two strings hold the same characters.
pub fn same_text(a: &str, b: &str) -> (r: bool)
    ensures
        r == (a@ == b@),
{
    a.to_owned() == b.to_owned()
}

/// `a` followed by `b`.
pub fn join(a: &str, b: &str) -> (r: String)
    ensures
        r@ == a@ + b@,
{
    let mut out = a.to_owned();
    out.append(b);
    out
}

/// The character that stands for the decimal digit `d`.
pub open spec fn digit(d: nat) -> char {
    (48 + d) as char
}

/// `n` in decimal, without leading zeros.
pub open spec fn decimal_text(n: nat) -> Seq<char>
    decreases n,
{
    if n < 10 {
        seq![digit(n)]
    } else {
        decimal_text(n / 10).push(digit(n % 10))
    }
}

/// `n` in decimal, with a minus sign if it is negative.
pub open spec fn signed_decimal_text(n: int) -> Seq<char> {
    if n < 0 {
        seq!['-'] + decimal_text((-n) as nat)
    } else {
        decimal_text(n as nat)
    }
}

fn digit_str(d: u64) -> (r: &'static str)
    requires
        d < 10,
    ensures
        r@ == seq![digit(d as nat)],
{
    proof {
        reveal_strlit("0");
        reveal_strlit("1");
        reveal_strlit("2");
        reveal_strlit("3");
        reveal_strlit("4");
        reveal_strlit("5");
        reveal_strlit("6");
        reveal_strlit("7");
        reveal_strlit("8");
        reveal_strlit("9");
    }
    let r = if d == 0 {
        "0"
    } else if d == 1 {
        "1"
    } else if d == 2 {
        "2"
    } else if d == 3 {
        "3"
    } else if d == 4 {
        "4"
    } else if d == 5 {
        "5"
    } else if d == 6 {
        "6"
    } else if d == 7 {
        "7"
    } else if d == 8 {
        "8"
    } else {
        "9"
    };
    assert(r@ =~= seq![digit(d as nat)]);
    r
}

/// Writes `n` in decimal.
pub fn decimal(n: u64) -> (r: String)
    ensures
        r@ == decimal_text(n as nat),
    decreases n,
{
    if n < 10 {
        digit_str(n).to_owned()
    } else {
        let mut out = decimal(n / 10);
        out.append(digit_str(n % 10));
        assert(out@ =~= decimal_text(n as nat));
        out
    }
}

/// Writes `n` in decimal, with its sign if it is negative.
pub fn signed_decimal(n: i64) -> (r: String)
    ensures
        r@ == signed_decimal_text(n as int),
{
    if n < 0 {
        proof {
            reveal_strlit("-");
        }
        let magnitude: u64 = (-(n as i128)) as u64;
        let r = join("-", decimal(magnitude).as_str());
        assert(r@ =~= seq!['-'] + decimal_text((-n) as nat));
        r
    } else {
        decimal(n as u64)
    }
}

/// The character that stands for the hexadecimal digit `d`, in lower case.
pub open spec fn hex_digit(d: nat) -> char {
    if d < 10 {
        digit(d)
    } else {
        (87 + d) as char
    }
}

/// The two hexadecimal digits of a byte.
pub open spec fn hex_text(byte: u8) -> Seq<char> {
    seq![hex_digit((byte / 16) as nat), hex_digit((byte % 16) as nat)]
}

fn hex_str(d: u8) -> (r: &'static str)
    requires
        d < 16,
    ensures
        r@ == seq![hex_digit(d as nat)],
{
    if d < 10 {
        return digit_str(d as u64);
    }
    proof {
        reveal_strlit("a");
        reveal_strlit("b");
        reveal_strlit("c");
        reveal_strlit("d");
        reveal_strlit("e");
        reveal_strlit("f");
    }
    let r = if d == 10 {
        "a"
    } else if d == 11 {
        "b"
    } else if d == 12 {
        "c"
    } else if d == 13 {
        "d"
    } else if d == 14 {
        "e"
    } else {
        "f"
    };
    assert(r@ =~= seq![hex_digit(d as nat)]);
    r
}

/// Writes a byte as two hexadecimal digits.
pub fn hex(byte: u8) -> (r: String)
    ensures
        r@ == hex_text(byte),
{
    let r = join(hex_str(byte / 16), hex_str(byte % 16));
    assert(r@ =~= hex_text(byte));
    r
}

/// Whether `c` has the Unicode property `White_Space`.
pub open spec fn is_white_space(c: char) -> bool {
    ||| '\u{9}' <= c <= '\u{d}'
    ||| c == '\u{20}'
    ||| c == '\u{85}'
    ||| c == '\u{a0}'
    ||| c == '\u{1680}'
    ||| '\u{2000}' <= c <= '\u{200a}'
    ||| c == '\u{2028}'
    ||| c == '\u{2029}'
    ||| c == '\u{202f}'
    ||| c == '\u{205f}'
    ||| c == '\u{3000}'
}

/// `s` without the white space it begins and ends with.
pub open spec fn trimmed(s: Seq<char>) -> Seq<char>
    decreases s.len(),
{
    if s.len() > 0 && is_white_space(s.first()) {
        trimmed(s.drop_first())
    } else if s.len() > 0 && is_white_space(s.last()) {
        trimmed(s.drop_last())
    } else {
        s
    }
}

fn white_space(c: char) -> (r: bool)
    ensures
        r == is_white_space(c),
{
    ('\u{9}' <= c && c <= '\u{d}') || c == '\u{20}' || c == '\u{85}' || c == '\u{a0}' || c
        == '\u{1680}' || ('\u{2000}' <= c && c <= '\u{200a}') || c == '\u{2028}' || c == '\u{2029}'
        || c == '\u{202f}' || c == '\u{205f}' || c == '\u{3000}'
}

/// `s` without the white space it begins and ends with.
pub fn trim(s: &str) -> (r: String)
    ensures
        r@ == trimmed(s@),
{
    let chars = chars_of(s);
    let mut from: usize = 0;
    let mut to: usize = chars.len();
    assert(s@.subrange(0, to as int) =~= s@);
    while from < to && white_space(chars[from])
        invariant
            from <= to == chars@.len(),
            chars@ == s@,
            trimmed(s@.subrange(from as int, to as int)) == trimmed(s@),
        decreases to - from,
    {
        assert(s@.subrange(from as int, to as int).drop_first() =~= s@.subrange(
            from + 1,
            to as int,
        ));
        from += 1;
    }
    while from < to && white_space(chars[to - 1])
        invariant
            from <= to <= chars@.len(),
            chars@ == s@,
            from < to ==> !is_white_space(chars@[from as int]),
            trimmed(s@.subrange(from as int, to as int)) == trimmed(s@),
        decreases to - from,
    {
        assert(s@.subrange(from as int, to as int).drop_last() =~= s@.subrange(
            from as int,
            to - 1,
        ));
        to -= 1;
    }
    s.substring_char(from, to).to_owned()
}

/// Whether `needle` stands in `hay` at position `i`.
pub open spec fn occurs_at(hay: Seq<char>, needle: Seq<char>, i: int) -> bool {
    &&& 0 <= i
    &&& i + needle.len() <= hay.len()
    &&& hay.subrange(i, i + needle.len()) == needle
}

fn occurs(hay: &Vec<char>, needle: &Vec<char>, at: usize) -> (r: bool)
    requires
        at + needle@.len() <= hay@.len(),
    ensures
        r == occurs_at(hay@, needle@, at as int),
{
    let hay_len: usize = hay.len();
    let mut k: usize = 0;
    while k < needle.len()
        invariant
            k <= needle@.len(),
            at + needle@.len() <= hay@.len() == hay_len,
            forall|j: int| 0 <= j < k ==> hay@[at + j] == needle@[j],
        decreases needle@.len() - k,
    {
        if hay[at + k] != needle[k] {
            assert(hay@.subrange(at as int, at + needle@.len())[k as int] != needle@[k as int]);
            return false;
        }
        k += 1;
    }
    assert(hay@.subrange(at as int, at + needle@.len()) =~= needle@);
    true
}

/// Where `needle` first stands in `hay`.
pub fn find(hay: &Vec<char>, needle: &Vec<char>) -> (r: Option<usize>)
    ensures
        match r {
            Some(i) => occurs_at(hay@, needle@, i as int) && forall|j: int|
                j < i ==> !occurs_at(hay@, needle@, j),
            None => forall|j: int| !occurs_at(hay@, needle@, j),
        },
{
    if needle.len() > hay.len() {
        return None;
    }
    let last: usize = hay.len() - needle.len();
    let mut i: usize = 0;
    while i <= last
        invariant
            last == hay@.len() - needle@.len(),
            i <= last + 1,
            forall|j: int| j < i ==> !occurs_at(hay@, needle@, j),
        decreases last + 1 - i,
    {
        if occurs(hay, needle, i) {
            return Some(i);
        }
        if i == last {
            return None;
        }
        i += 1;
    }
    None
}

/// Whether `s` begins with `prefix`.
pub fn starts_with(s: &Vec<char>, prefix: &Vec<char>) -> (r: bool)
    ensures
        r == prefix@.is_prefix_of(s@),
{
    if prefix.len() > s.len() {
        return false;
    }
    let r = occurs(s, prefix, 0);
    assert(s@.subrange(0, prefix@.len() as int) =~= s@.take(prefix@.len() as int));
    r
}

/// Whether `c` is `lower`, or the ASCII capital letter of `lower`.
pub open spec fn same_but_for_ascii_case(c: char, lower: char) -> bool {
    c == lower || ('A' <= c <= 'Z' && c as u32 + 32 == lower as u32)
}

/// Whether `needle`, written in ASCII capitals or not, stands in `hay` at `i`.
pub open spec fn occurs_ignoring_case(hay: Seq<char>, needle: Seq<char>, i: int) -> bool {
    &&& 0 <= i
    &&& i + needle.len() <= hay.len()
    &&& forall|k: int|
        0 <= k < needle.len() ==> same_but_for_ascii_case(hay[i + k], #[trigger] needle[k])
}

/// Whether the lower-case word `needle` stands in `hay`, in ASCII capitals or
/// not.
pub fn contains_ignoring_case(hay: &str, needle: &str) -> (r: bool)
    ensures
        r == exists|i: int| occurs_ignoring_case(hay@, needle@, i),
{
    let hay_chars = chars_of(hay);
    let needle_chars = chars_of(needle);
    if needle_chars.len() > hay_chars.len() {
        return false;
    }
    let last: usize = hay_chars.len() - needle_chars.len();
    let mut i: usize = 0;
    while i <= last
        invariant
            hay_chars@ == hay@,
            needle_chars@ == needle@,
            last == hay@.len() - needle@.len(),
            i <= last + 1,
            forall|j: int| j < i ==> !occurs_ignoring_case(hay@, needle@, j),
        decreases last + 1 - i,
    {
        let hay_len: usize = hay_chars.len();
        let mut k: usize = 0;
        let mut matches_here = true;
        while k < needle_chars.len() && matches_here
            invariant
                hay_chars@ == hay@,
                needle_chars@ == needle@,
                i + needle@.len() <= hay@.len() == hay_len,
                k <= needle@.len(),
                matches_here ==> forall|j: int|
                    0 <= j < k ==> same_but_for_ascii_case(hay@[i + j], #[trigger] needle@[j]),
                !matches_here ==> !occurs_ignoring_case(hay@, needle@, i as int),
            decreases
                needle@.len() - k + if matches_here {
                    1int
                } else {
                    0int
                },
        {
            let c: char = hay_chars[i + k];
            let lower: char = needle_chars[k];
            if c == lower || ('A' <= c && c <= 'Z' && c as u32 + 32 == lower as u32) {
                k += 1;
            } else {
                assert(!same_but_for_ascii_case(hay@[i + k], needle@[k as int]));
                matches_here = false;
            }
        }
        if matches_here {
            assert(occurs_ignoring_case(hay@, needle@, i as int));
            return true;
        }
        if i == last {
            return false;
        }
        i += 1;
    }
    false
}

/// Where the first line break of `s` stands, or the length of `s`.
pub open spec fn line_end(s: Seq<char>) -> nat
    decreases s.len(),
{
    if s.len() == 0 || s[0] == '\n' {
        0
    } else {
        1 + line_end(s.drop_first())
    }
}

/// A line without the carriage return that may stand before its line feed.
pub open spec fn without_return(line: Seq<char>) -> Seq<char> {
    if line.len() > 0 && line.last() == '\r' {
        line.drop_last()
    } else {
        line
    }
}

/// The lines of `s`: each ends in a line feed, with or without a carriage
/// return before it; the last one may also just end.
pub open spec fn lines_of(s: Seq<char>) -> Seq<Seq<char>>
    decreases s.len(),
{
    if s.len() == 0 {
        seq![]
    } else if line_end(s) >= s.len() {
        seq![s]
    } else {
        seq![without_return(s.take(line_end(s) as int))] + lines_of(s.skip(line_end(s) as int + 1))
    }
}

/// `parts` with `separator` between each two.
pub open spec fn joined(parts: Seq<Seq<char>>, separator: Seq<char>) -> Seq<char>
    decreases parts.len(),
{
    if parts.len() == 0 {
        seq![]
    } else if parts.len() == 1 {
        parts[0]
    } else {
        joined(parts.drop_last(), separator) + separator + parts.last()
    }
}

/// The texts of a run of strings.
pub open spec fn texts(strings: Seq<String>) -> Seq<Seq<char>> {
    strings.map_values(|s: String| s@)
}

proof fn lemma_line_end(s: Seq<char>, end: nat)
    requires
        end <= s.len(),
        forall|i: int| 0 <= i < end ==> s[i] != '\n',
        end < s.len() ==> s[end as int] == '\n',
    ensures
        line_end(s) == end,
    decreases s.len(),
{
    if s.len() > 0 && end > 0 {
        lemma_line_end(s.drop_first(), (end - 1) as nat);
    }
}

/// Splits `s` into its lines.
pub fn lines(s: &str) -> (r: Vec<String>)
    ensures
        texts(r@) == lines_of(s@),
{
    let chars = chars_of(s);
    let mut out: Vec<String> = Vec::new();
    let mut from: usize = 0;
    assert(s@.skip(0) =~= s@);
    assert(texts(out@) + lines_of(s@) =~= lines_of(s@));
    while from < chars.len()
        invariant
            chars@ == s@,
            from <= chars@.len(),
            texts(out@) + lines_of(s@.skip(from as int)) == lines_of(s@),
        decreases chars@.len() - from,
    {
        let ghost before = texts(out@);
        let ghost rest = s@.skip(from as int);
        let mut end: usize = from;
        while end < chars.len() && chars[end] != '\n'
            invariant
                chars@ == s@,
                from <= end <= chars@.len(),
                forall|i: int| from <= i < end ==> chars@[i] != '\n',
            decreases chars@.len() - end,
        {
            end += 1;
        }
        proof {
            lemma_line_end(rest, (end - from) as nat);
        }
        if end == chars.len() {
            let line = s.substring_char(from, end).to_owned();
            out.push(line);
            from = end;
            proof {
                assert(line@ =~= rest);
                assert(s@.skip(from as int) =~= seq![]);
                assert(texts(out@) =~= before.push(line@));
                assert(before.push(line@) =~= before + seq![rest]);
                assert(texts(out@) + lines_of(s@.skip(from as int)) =~= texts(out@));
            }
        } else {
            let to: usize = if end > from && chars[end - 1] == '\r' {
                end - 1
            } else {
                end
            };
            let line = s.substring_char(from, to).to_owned();
            out.push(line);
            proof {
                assert(rest.take(end - from) =~= s@.subrange(from as int, end as int));
                assert(line@ =~= without_return(rest.take(end - from)));
                assert(rest.skip(end - from + 1) =~= s@.skip(end + 1));
                assert(texts(out@) =~= before.push(line@));
                assert(before.push(line@) + lines_of(s@.skip(end + 1)) =~= before + (seq![line@]
                    + lines_of(s@.skip(end + 1))));
            }
            from = end + 1;
        }
    }
    assert(s@.skip(from as int) =~= seq![]);
    assert(texts(out@) + lines_of(s@.skip(from as int)) =~= texts(out@));
    out
}

/// Puts `parts` from index `from` on together, with `separator` between each
/// two.
pub fn join_all(parts: &Vec<String>, from: usize, separator: &str) -> (r: String)
    requires
        from <= parts@.len(),
    ensures
        r@ == joined(texts(parts@).skip(from as int), separator@),
{
    let ghost all = texts(parts@).skip(from as int);
    let mut out = String::new();
    let mut i: usize = from;
    while i < parts.len()
        invariant
            from <= i <= parts@.len(),
            all == texts(parts@).skip(from as int),
            out@ == joined(all.take(i - from), separator@),
        decreases parts@.len() - i,
    {
        let ghost before = all.take(i - from);
        let ghost now = all.take(i + 1 - from);
        assert(now.drop_last() =~= before);
        assert(now.last() == parts@[i as int]@);
        if i > from {
            out.append(separator);
        }
        out.append(parts[i].as_str());
        assert(out@ =~= joined(now, separator@));
        i += 1;
    }
    assert(all.take(i - from) =~= all);
    out
}

/// The number that decimal digits stand for.
pub open spec fn number_of(digits: Seq<char>) -> int
    decreases digits.len(),
{
    if digits.len() == 0 {
        0
    } else {
        10 * number_of(digits.drop_last()) + (digits.last() as u32 - 48)
    }
}

/// A number in decimal is made of digits, the first of which is not 0 unless it
/// is the only one, and reads as that number.
pub proof fn law_decimals_read_back(n: nat)
    ensures
        number_of(decimal_text(n)) == n,
        decimal_text(n).len() > 0,
        decimal_text(n).len() > 1 ==> decimal_text(n)[0] != '0',
        forall|i: int| 0 <= i < decimal_text(n).len() ==> '0' <= #[trigger] decimal_text(n)[i]
            <= '9',
    decreases n,
{
    reveal_with_fuel(decimal_text, 2);
    reveal_with_fuel(number_of, 2);
    if n >= 10 {
        law_decimals_read_back(n / 10);
        assert(decimal_text(n).drop_last() =~= decimal_text(n / 10));
        if decimal_text(n / 10).len() == 1 {
            let text = decimal_text(n / 10);
            assert(text.drop_last() =~= seq![]);
            assert(number_of(text) == text[0] as u32 - 48);
        }
        assert(decimal_text(n)[0] == decimal_text(n / 10)[0]);
    } else {
        assert(seq![digit(n)].drop_last() =~= seq![]);
    }
}

/// A negative number has a minus sign before what it is the negative of, and no
/// other number has one.
pub proof fn law_signs(n: int)
    ensures
        n >= 0 ==> number_of(signed_decimal_text(n)) == n && signed_decimal_text(n)[0] != '-',
        n < 0 ==> signed_decimal_text(n)[0] == '-' && number_of(
            signed_decimal_text(n).drop_first(),
        ) == -n,
{
    if n >= 0 {
        law_decimals_read_back(n as nat);
    } else {
        law_decimals_read_back((-n) as nat);
        assert(signed_decimal_text(n).drop_first() =~= decimal_text((-n) as nat));
    }
}

/// A byte in hexadecimal is two digits, the high half first, with letters in
/// lower case.
pub proof fn law_hexadecimals(byte: u8, k: int)
    requires
        0 <= k < 2,
    ensures
        hex_text(byte).len() == 2,
        ({
            let half = if k == 0 {
                byte / 16
            } else {
                byte % 16
            };
            &&& half < 10 ==> hex_text(byte)[k] as u32 == '0' as u32 + half
            &&& half >= 10 ==> hex_text(byte)[k] as u32 == 'a' as u32 + (half - 10)
        }),
{
}

/// Whether there is nothing but white space in a text.
pub open spec fn is_blank(s: Seq<char>) -> bool {
    forall|i: int| 0 <= i < s.len() ==> is_white_space(#[trigger] s[i])
}

proof fn lemma_trimmed_between(s: Seq<char>) -> (between: (int, int))
    ensures
        0 <= between.0 <= between.1 <= s.len(),
        trimmed(s) == s.subrange(between.0, between.1),
        is_blank(s.take(between.0)),
        is_blank(s.skip(between.1)),
    decreases s.len(),
{
    if s.len() > 0 && is_white_space(s.first()) {
        let rest = s.drop_first();
        let inner = lemma_trimmed_between(rest);
        let (a, b) = (inner.0 + 1, inner.1 + 1);
        assert(s.subrange(a, b) =~= rest.subrange(inner.0, inner.1));
        assert forall|i: int| 0 <= i < s.take(a).len() implies is_white_space(
            #[trigger] s.take(a)[i],
        ) by {
            if i > 0 {
                assert(rest.take(inner.0)[i - 1] == s.take(a)[i]);
            }
        }
        assert(s.skip(b) =~= rest.skip(inner.1));
        (a, b)
    } else if s.len() > 0 && is_white_space(s.last()) {
        let rest = s.drop_last();
        let inner = lemma_trimmed_between(rest);
        let (a, b) = inner;
        assert(s.subrange(a, b) =~= rest.subrange(a, b));
        assert(s.take(a) =~= rest.take(a));
        assert forall|i: int| 0 <= i < s.skip(b).len() implies is_white_space(
            #[trigger] s.skip(b)[i],
        ) by {
            if i < s.skip(b).len() - 1 {
                assert(rest.skip(b)[i] == s.skip(b)[i]);
            }
        }
        (a, b)
    } else {
        assert(s.subrange(0, s.len() as int) =~= s);
        (0, s.len() as int)
    }
}

/// To trim a text is to take white space off its two ends, all of it, and nothing
/// else.
pub proof fn law_trimming(s: Seq<char>)
    ensures
        exists|a: Seq<char>, b: Seq<char>|
            #[trigger] is_blank(a) && #[trigger] is_blank(b) && s == a + trimmed(s) + b,
        trimmed(s).len() > 0 ==> !is_white_space(trimmed(s).first()) && !is_white_space(
            trimmed(s).last(),
        ),
    decreases s.len(),
{
    let between = lemma_trimmed_between(s);
    let a = s.take(between.0);
    let b = s.skip(between.1);
    assert(is_blank(a) && is_blank(b) && s =~= a + trimmed(s) + b);
    if s.len() > 0 && is_white_space(s.first()) {
        law_trimming(s.drop_first());
    } else if s.len() > 0 && is_white_space(s.last()) {
        law_trimming(s.drop_last());
    }
}

/// A text is trimmed to nothing exactly if there is nothing but white space in
/// it.
pub proof fn law_only_white_space_is_blank(s: Seq<char>)
    ensures
        trimmed(s).len() == 0 <==> is_blank(s),
{
    let between = lemma_trimmed_between(s);
    if between.0 == between.1 {
        assert forall|i: int| 0 <= i < s.len() implies is_white_space(#[trigger] s[i]) by {
            if i < between.0 {
                assert(s.take(between.0)[i] == s[i]);
            } else {
                assert(s.skip(between.1)[i - between.1] == s[i]);
            }
        }
    } else {
        law_trimming(s);
        assert(trimmed(s).first() == s[between.0]);
    }
}

/// White space is what Unicode calls so: the blanks and breaks of ASCII, and the
/// spaces and separators beyond it. Letters, digits and signs are not.
pub proof fn law_white_space(c: char)
    ensures
        is_white_space(' ') && is_white_space('\t') && is_white_space('\n') && is_white_space(
            '\r',
        ),
        c as int <= 0x7f ==> (is_white_space(c) <==> c as int == 0x20 || 0x09 <= c as int <= 0x0d),
        c as int > 0x7f ==> (is_white_space(c) <==> c as int == 0x85 || c as int == 0xa0 || c as int
            == 0x1680 || 0x2000 <= c as int <= 0x200a || c as int == 0x2028 || c as int == 0x2029
            || c as int == 0x202f || c as int == 0x205f || c as int == 0x3000),
{
}

/// A separator comes between each two parts and nowhere else.
pub proof fn law_joining(first: Seq<char>, rest: Seq<Seq<char>>, separator: Seq<char>)
    ensures
        joined(seq![], separator).len() == 0,
        joined(seq![first], separator) == first,
        rest.len() > 0 ==> joined(seq![first] + rest, separator) == first + separator + joined(
            rest,
            separator,
        ),
    decreases rest.len(),
{
    reveal_with_fuel(joined, 3);
    let all = seq![first] + rest;
    if rest.len() == 1 {
        assert(all.drop_last() =~= seq![first]);
        assert(all.last() == rest[0]);
    } else if rest.len() > 1 {
        law_joining(first, rest.drop_last(), separator);
        assert(all.drop_last() =~= seq![first] + rest.drop_last());
        assert(all.last() == rest.last());
        assert(first + separator + joined(rest, separator) =~= first + separator + joined(
            rest.drop_last(),
            separator,
        ) + separator + rest.last());
    }
}

/// Whether a text holds no line feed.
pub open spec fn is_one_line(s: Seq<char>) -> bool {
    forall|i: int| 0 <= i < s.len() ==> s[i] != '\n'
}

/// A line that is put before a text, with a line feed or with a carriage return
/// and a line feed, is the first of its lines; a text without a line feed is its
/// only line.
pub proof fn law_lines(line: Seq<char>, rest: Seq<char>)
    requires
        is_one_line(line),
    ensures
        line.len() == 0 || line.last() != '\r' ==> lines_of(line + seq!['\n'] + rest) == seq![line]
            + lines_of(rest),
        lines_of(line + seq!['\r', '\n'] + rest) == seq![line] + lines_of(rest),
        line.len() > 0 ==> lines_of(line) == seq![line],
        lines_of(seq![]).len() == 0,
{
    let unix = line + seq!['\n'] + rest;
    lemma_line_end(unix, line.len());
    assert(unix.take(line.len() as int) =~= line);
    assert(unix.skip(line.len() as int + 1) =~= rest);
    let dos = line + seq!['\r', '\n'] + rest;
    lemma_line_end(dos, line.len() + 1);
    assert(dos.take(line.len() as int + 1) =~= line.push('\r'));
    assert(line.push('\r').drop_last() =~= line);
    assert(dos.skip(line.len() as int + 2) =~= rest);
    lemma_line_end(line, line.len());
}

/// A word in small letters stands in a text wherever each of its letters does, be
/// it small or a capital.
pub proof fn law_capitals_do_not_matter(hay: Seq<char>, needle: Seq<char>, i: int)
    requires
        forall|k: int| 0 <= k < needle.len() ==> 'a' <= #[trigger] needle[k] <= 'z',
    ensures
        occurs_ignoring_case(hay, needle, i) <==> 0 <= i && i + needle.len() <= hay.len() && (
        forall|k: int|
            #![trigger needle[k]]
            0 <= k < needle.len() ==> hay[i + k] == needle[k] || hay[i + k] as int + 32
                == needle[k] as int),
{
    assert forall|k: int|
        #![trigger needle[k]]
        0 <= k < needle.len() && 0 <= i && i + needle.len() <= hay.len() implies same_but_for_ascii_case(hay[i + k], needle[k]) == (hay[i + k]
        == needle[k] || hay[i + k] as int + 32 == needle[k] as int) by {
        let c: char = hay[i + k];
        let lower: char = needle[k];
        assert('a' <= lower <= 'z');
        assert(lower as u32 == lower as int);
        if c as int + 32 == lower as int {
            assert(65 <= c as int <= 90);
            assert(c as u32 == c as int);
        }
        if 'A' <= c <= 'Z' {
            assert(c as u32 == c as int);
        }
    }
}

/// A text stands where it was put.
pub proof fn law_texts_stand_where_they_were_put(
    before: Seq<char>,
    needle: Seq<char>,
    behind: Seq<char>,
    i: int,
)
    ensures
        occurs_at(before + needle + behind, needle, before.len() as int),
        occurs_at(before, needle, i) <==> 0 <= i && i + needle.len() <= before.len() && forall|k: int|
            0 <= k < needle.len() ==> before[i + k] == #[trigger] needle[k],
{
    let all = before + needle + behind;
    assert(all.subrange(before.len() as int, before.len() as int + needle.len()) =~= needle);
    if 0 <= i && i + needle.len() <= before.len() {
        let there = before.subrange(i, i + needle.len());
        assert forall|k: int| 0 <= k < needle.len() implies there[k] == before[i + k] by {}
        if there == needle {
            assert forall|k: int| 0 <= k < needle.len() implies before[i + k]
                == #[trigger] needle[k] by {
                assert(there[k] == needle[k]);
            }
        }
        if forall|k: int| 0 <= k < needle.len() ==> before[i + k] == #[trigger] needle[k] {
            assert(there =~= needle);
        }
    }
}

} // verus!
