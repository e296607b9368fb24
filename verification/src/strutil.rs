use vstd::prelude::*;

verus! {

/// Whether two string slices hold the same characters.
pub fn str_eq(a: &str, b: &str) -> (r: bool)
    ensures
        r == (a@ == b@),
{
    let n = a.unicode_len();
    let m = b.unicode_len();
    if n != m {
        return false;
    }
    let mut i: usize = 0;
    while i < n
        invariant
            n == a@.len(),
            n == b@.len(),
            0 <= i <= n,
            forall|j: int| 0 <= j < i ==> a@[j] == b@[j],
        decreases n - i,
    {
        if a.get_char(i) != b.get_char(i) {
            return false;
        }
        i = i + 1;
    }
    proof {
        assert(a@ =~= b@);
    }
    true
}

/// Whether an owned string holds the same characters as a slice.
pub fn string_eq_str(a: &String, b: &str) -> (r: bool)
    ensures
        r == (a@ == b@),
{
    str_eq(a.as_str(), b)
}

/// Relies on String::push: appends exactly the given character at the end.
#[verifier::external_body]
pub(crate) fn push_char(s: &mut String, c: char)
    ensures
        final(s)@ == old(s)@.push(c),
{
    s.push(c);
}

/// The characters of a string, one element each.
pub fn str_to_chars(s: &str) -> (r: Vec<char>)
    ensures
        r@ == s@,
{
    let n = s.unicode_len();
    let mut out: Vec<char> = Vec::new();
    let mut i: usize = 0;
    while i < n
        invariant
            n == s@.len(),
            0 <= i <= n,
            out@ == s@.subrange(0, i as int),
        decreases n - i,
    {
        out.push(s.get_char(i));
        proof {
            assert(out@ =~= s@.subrange(0, i + 1));
        }
        i = i + 1;
    }
    proof {
        assert(out@ =~= s@);
    }
    out
}

/// An equal duplicate of a list of characters.
pub fn copy_chars(v: &Vec<char>) -> (r: Vec<char>)
    ensures
        r@ == v@,
{
    let mut out: Vec<char> = Vec::new();
    let n = v.len();
    let mut i: usize = 0;
    while i < n
        invariant
            n == v@.len(),
            0 <= i <= n,
            out@ == v@.subrange(0, i as int),
        decreases n - i,
    {
        out.push(v[i]);
        proof {
            assert(out@ =~= v@.subrange(0, i + 1));
        }
        i = i + 1;
    }
    proof {
        assert(out@ =~= v@);
    }
    out
}

/// A string holding exactly the given characters.
pub fn chars_to_string(v: &Vec<char>) -> (r: String)
    ensures
        r@ == v@,
{
    let mut out = String::new();
    let n = v.len();
    let mut i: usize = 0;
    while i < n
        invariant
            n == v@.len(),
            0 <= i <= n,
            out@ == v@.subrange(0, i as int),
        decreases n - i,
    {
        push_char(&mut out, v[i]);
        proof {
            assert(out@ =~= v@.subrange(0, i + 1));
        }
        i = i + 1;
    }
    proof {
        assert(out@ =~= v@);
    }
    out
}

/// A string holding the given character `n` times.
pub fn repeat_char(c: char, n: usize) -> (r: String)
    ensures
        r@ == Seq::new(n as nat, |i: int| c),
{
    let mut out = String::new();
    let mut i: usize = 0;
    while i < n
        invariant
            0 <= i <= n,
            out@ == Seq::new(i as nat, |j: int| c),
        decreases n - i,
    {
        push_char(&mut out, c);
        proof {
            assert(out@ =~= Seq::new((i + 1) as nat, |j: int| c));
        }
        i = i + 1;
    }
    out
}

/// The decimal digit character for a value below ten.
pub open spec fn spec_digit_char(d: int) -> char {
    if d == 0 {
        '0'
    } else if d == 1 {
        '1'
    } else if d == 2 {
        '2'
    } else if d == 3 {
        '3'
    } else if d == 4 {
        '4'
    } else if d == 5 {
        '5'
    } else if d == 6 {
        '6'
    } else if d == 7 {
        '7'
    } else if d == 8 {
        '8'
    } else {
        '9'
    }
}

pub(crate) fn digit_char(d: u64) -> (c: char)
    requires
        d < 10,
    ensures
        c == spec_digit_char(d as int),
{
    if d == 0 {
        '0'
    } else if d == 1 {
        '1'
    } else if d == 2 {
        '2'
    } else if d == 3 {
        '3'
    } else if d == 4 {
        '4'
    } else if d == 5 {
        '5'
    } else if d == 6 {
        '6'
    } else if d == 7 {
        '7'
    } else if d == 8 {
        '8'
    } else {
        '9'
    }
}

/// The decimal digits of `n`, most significant first.
pub open spec fn spec_u64_digits(n: nat) -> Seq<char>
    decreases n,
{
    if n < 10 {
        seq![spec_digit_char(n as int)]
    } else {
        spec_u64_digits(n / 10).push(spec_digit_char((n % 10) as int))
    }
}

/// The decimal rendering of an unsigned number.
pub fn u64_to_string(n: u64) -> (r: String)
    ensures
        r@ == spec_u64_digits(n as nat),
    decreases n,
{
    if n < 10 {
        let mut out = String::new();
        push_char(&mut out, digit_char(n));
        proof {
            assert(out@ =~= seq![spec_digit_char(n as int)]);
        }
        out
    } else {
        let mut out = u64_to_string(n / 10);
        push_char(&mut out, digit_char(n % 10));
        out
    }
}

/// The decimal rendering of a signed number: a minus sign ahead of the
/// digits of its magnitude.
pub open spec fn spec_i64_digits(n: int) -> Seq<char> {
    if n >= 0 {
        spec_u64_digits(n as nat)
    } else {
        seq!['-'] + spec_u64_digits((-n) as nat)
    }
}

/// The decimal rendering of a signed number.
pub fn i64_to_string(n: i64) -> (r: String)
    ensures
        r@ == spec_i64_digits(n as int),
{
    if n >= 0 {
        u64_to_string(n as u64)
    } else {
        let mut out = String::new();
        push_char(&mut out, '-');
        let mag: u64 = if n == i64::MIN {
            9223372036854775808u64
        } else {
            (-n) as u64
        };
        let digits = u64_to_string(mag);
        out.append(digits.as_str());
        proof {
            assert(out@ =~= seq!['-'] + spec_u64_digits(mag as nat));
        }
        out
    }
}

/// The ASCII-lowercased form of a character: letters `A` through `Z` are
/// shifted to their lower-case form, every other character stays itself.
pub open spec fn spec_ascii_lower(c: char) -> char {
    if 'A' <= c && c <= 'Z' {
        (((c as u8) + 32) as char)
    } else {
        c
    }
}

/// ASCII-lowercases one character.
pub fn ascii_lower(c: char) -> (r: char)
    ensures
        r == spec_ascii_lower(c),
{
    if 'A' <= c && c <= 'Z' {
        ((c as u8) + 32) as char
    } else {
        c
    }
}

/// The ASCII-lowercased form of a character sequence.
pub open spec fn spec_ascii_lower_seq(s: Seq<char>) -> Seq<char> {
    s.map_values(|c: char| spec_ascii_lower(c))
}

/// ASCII-lowercases a string.
pub fn ascii_lower_string(s: &str) -> (r: String)
    ensures
        r@ == spec_ascii_lower_seq(s@),
{
    let n = s.unicode_len();
    let mut out = String::new();
    let mut i: usize = 0;
    while i < n
        invariant
            n == s@.len(),
            0 <= i <= n,
            out@ == spec_ascii_lower_seq(s@.subrange(0, i as int)),
        decreases n - i,
    {
        push_char(&mut out, ascii_lower(s.get_char(i)));
        proof {
            assert(out@ =~= spec_ascii_lower_seq(s@.subrange(0, i + 1)));
        }
        i = i + 1;
    }
    proof {
        assert(s@.subrange(0, n as int) =~= s@);
    }
    out
}

/// Whether a character is a decimal digit.
pub open spec fn spec_is_digit(c: char) -> bool {
    '0' <= c && c <= '9'
}

/// The value of a decimal digit character.
pub open spec fn spec_digit_value(c: char) -> int {
    c as int - 48
}

/// The value of a string of decimal digits, most significant first.
pub open spec fn spec_dec_value(s: Seq<char>) -> int
    decreases s.len(),
{
    if s.len() == 0 {
        0
    } else {
        spec_dec_value(s.drop_last()) * 10 + spec_digit_value(s.last())
    }
}

/// Whether every character of a string is a decimal digit.
pub open spec fn spec_all_digits(s: Seq<char>) -> bool {
    forall|i: int| 0 <= i < s.len() ==> spec_is_digit(s[i])
}

/// A string of digits never has a negative value.
pub proof fn lemma_dec_value_nonneg(s: Seq<char>)
    requires
        spec_all_digits(s),
    ensures
        spec_dec_value(s) >= 0,
    decreases s.len(),
{
    if s.len() > 0 {
        lemma_dec_value_nonneg(s.drop_last());
    }
}

/// A single digit's value stays below ten.
pub proof fn lemma_dec_value_le_9(s: Seq<char>)
    requires
        spec_all_digits(s),
        s.len() <= 1,
    ensures
        spec_dec_value(s) <= 9,
{
    if s.len() == 1 {
        assert(spec_is_digit(s[0]));
        assert(s.drop_last().len() == 0);
        assert(spec_dec_value(s.drop_last()) == 0);
        assert(s.last() == s[0]);
        assert(s[0] <= '9' && s[0] >= '0');
        assert('0' as int == 48 && '9' as int == 57);
        assert(spec_digit_value(s[0]) <= 9);
    }
}

/// Two digits' value stays below one hundred.
pub proof fn lemma_dec_value_le_99(s: Seq<char>)
    requires
        spec_all_digits(s),
        s.len() <= 2,
    ensures
        spec_dec_value(s) <= 99,
{
    if s.len() == 2 {
        assert(forall|j: int| 0 <= j < s.drop_last().len() ==> s.drop_last()[j] == s[j]);
        lemma_dec_value_le_9(s.drop_last());
        assert(spec_is_digit(s.last()));
    } else {
        lemma_dec_value_le_9(s);
    }
}

/// Parses a run of decimal digits whose value stays within `cap`; anything
/// else — an empty string, a stray character, a value over the cap — is
/// refused.
pub fn parse_dec_capped(s: &str, cap: u64) -> (r: Option<u64>)
    requires
        cap <= 1000000000000000000,
    ensures
        match r {
            Some(v) => s@.len() > 0 && spec_all_digits(s@) && spec_dec_value(s@) == v && v <= cap,
            None => s@.len() == 0 || !spec_all_digits(s@) || spec_dec_value(s@) > cap,
        },
{
    let n = s.unicode_len();
    if n == 0 {
        return None;
    }
    let sentinel = cap + 1;
    let mut acc: u64 = 0;
    let mut i: usize = 0;
    while i < n
        invariant
            n == s@.len(),
            0 <= i <= n,
            cap <= 1000000000000000000,
            sentinel == cap + 1,
            spec_all_digits(s@.subrange(0, i as int)),
            spec_dec_value(s@.subrange(0, i as int)) <= cap ==> acc == spec_dec_value(
                s@.subrange(0, i as int),
            ),
            spec_dec_value(s@.subrange(0, i as int)) > cap ==> acc == sentinel,
            acc <= sentinel,
        decreases n - i,
    {
        let c = s.get_char(i);
        if c < '0' || c > '9' {
            return None;
        }
        let d: u64 = (c as u64) - 48;
        proof {
            assert(s@.subrange(0, i + 1).drop_last() =~= s@.subrange(0, i as int));
            lemma_dec_value_nonneg(s@.subrange(0, i as int));
        }
        if acc > cap {
            acc = sentinel;
        } else {
            let next = acc * 10 + d;
            if next > cap {
                acc = sentinel;
            } else {
                acc = next;
            }
        }
        i = i + 1;
    }
    proof {
        assert(s@.subrange(0, n as int) =~= s@);
    }
    if acc > cap {
        None
    } else {
        Some(acc)
    }
}

/// What parsing a port number returns: the value of the digits, when the
/// string is nothing but digits and the value fits.
pub open spec fn spec_parse_u16(s: Seq<char>) -> Option<u16> {
    if s.len() > 0 && spec_all_digits(s) && spec_dec_value(s) <= 65535 {
        Some(spec_dec_value(s) as u16)
    } else {
        None
    }
}

/// Parses an unsigned sixteen-bit decimal number; nothing but digits is
/// accepted, and only a value that fits.
pub fn parse_u16(s: &str) -> (r: Option<u16>)
    ensures
        r == spec_parse_u16(s@),
{
    let n = s.unicode_len();
    if n == 0 {
        return None;
    }
    let mut acc: u32 = 0;
    let mut i: usize = 0;
    while i < n
        invariant
            n == s@.len(),
            0 <= i <= n,
            spec_all_digits(s@.subrange(0, i as int)),
            spec_dec_value(s@.subrange(0, i as int)) <= 65535 ==> acc == spec_dec_value(
                s@.subrange(0, i as int),
            ),
            spec_dec_value(s@.subrange(0, i as int)) > 65535 ==> acc == 65536,
            acc <= 65536,
        decreases n - i,
    {
        let c = s.get_char(i);
        if c < '0' || c > '9' {
            return None;
        }
        let d: u32 = (c as u32) - 48;
        proof {
            assert(s@.subrange(0, i + 1).drop_last() =~= s@.subrange(0, i as int));
            lemma_dec_value_nonneg(s@.subrange(0, i as int));
        }
        if acc > 65535 {
            acc = 65536;
        } else {
            let next = acc * 10 + d;
            if next > 65535 {
                acc = 65536;
            } else {
                acc = next;
            }
        }
        i = i + 1;
    }
    proof {
        assert(s@.subrange(0, n as int) =~= s@);
    }
    if acc > 65535 {
        None
    } else {
        Some(acc as u16)
    }
}

/// The parts of `s` on either side of the first occurrence of `sep`, when
/// there is one.
pub open spec fn spec_split_once(s: Seq<char>, sep: char) -> Option<(Seq<char>, Seq<char>)>
    decreases s.len(),
{
    if s.len() == 0 {
        None
    } else if s[0] == sep {
        Some((Seq::empty(), s.drop_first()))
    } else {
        match spec_split_once(s.drop_first(), sep) {
            Some(p) => Some((seq![s[0]] + p.0, p.1)),
            None => None,
        }
    }
}

/// `spec_split_once` splits at the first occurrence of the separator.
pub proof fn lemma_split_once_at(s: Seq<char>, sep: char, i: int)
    requires
        0 <= i < s.len(),
        s[i] == sep,
        forall|j: int| 0 <= j < i ==> s[j] != sep,
    ensures
        spec_split_once(s, sep) == Some((s.subrange(0, i), s.subrange(i + 1, s.len() as int))),
    decreases i,
{
    if i == 0 {
        assert(s.subrange(0, 0) =~= Seq::<char>::empty());
        assert(s.drop_first() =~= s.subrange(1, s.len() as int));
    } else {
        lemma_split_once_at(s.drop_first(), sep, i - 1);
        assert(seq![s[0]] + s.drop_first().subrange(0, i - 1) =~= s.subrange(0, i));
        assert(s.drop_first().subrange(i, s.len() - 1) =~= s.subrange(i + 1, s.len() as int));
    }
}

/// `spec_split_once` finds nothing when the separator never occurs.
pub proof fn lemma_split_once_none(s: Seq<char>, sep: char)
    requires
        forall|j: int| 0 <= j < s.len() ==> s[j] != sep,
    ensures
        spec_split_once(s, sep) is None,
    decreases s.len(),
{
    if s.len() > 0 {
        lemma_split_once_none(s.drop_first(), sep);
    }
}

/// Splits a string at the first occurrence of `sep`; the separator itself
/// belongs to neither part.
pub fn split_once_char(s: &str, sep: char) -> (r: Option<(String, String)>)
    ensures
        match r {
            Some(p) => spec_split_once(s@, sep) == Some((p.0@, p.1@)),
            None => spec_split_once(s@, sep) is None,
        },
{
    let n = s.unicode_len();
    let mut i: usize = 0;
    while i < n
        invariant
            n == s@.len(),
            0 <= i <= n,
            forall|j: int| 0 <= j < i ==> s@[j] != sep,
        decreases n - i,
    {
        if s.get_char(i) == sep {
            let left = s.substring_char(0, i).to_owned();
            let right = s.substring_char(i + 1, n).to_owned();
            proof {
                lemma_split_once_at(s@, sep, i as int);
            }
            return Some((left, right));
        }
        i = i + 1;
    }
    proof {
        lemma_split_once_none(s@, sep);
    }
    None
}

/// The parts of `s` on either side of the last occurrence of `sep`, when
/// there is one.
pub open spec fn spec_rsplit_once(s: Seq<char>, sep: char) -> Option<(Seq<char>, Seq<char>)>
    decreases s.len(),
{
    if s.len() == 0 {
        None
    } else if s.last() == sep {
        Some((s.drop_last(), Seq::empty()))
    } else {
        match spec_rsplit_once(s.drop_last(), sep) {
            Some(p) => Some((p.0, p.1 + seq![s.last()])),
            None => None,
        }
    }
}

/// `spec_rsplit_once` splits at the last occurrence of the separator.
pub proof fn lemma_rsplit_once_at(s: Seq<char>, sep: char, i: int)
    requires
        0 <= i < s.len(),
        s[i] == sep,
        forall|j: int| i < j < s.len() ==> s[j] != sep,
    ensures
        spec_rsplit_once(s, sep) == Some((s.subrange(0, i), s.subrange(i + 1, s.len() as int))),
    decreases s.len(),
{
    if i == s.len() - 1 {
        assert(s.drop_last() =~= s.subrange(0, i));
        assert(s.subrange(i + 1, s.len() as int) =~= Seq::<char>::empty());
    } else {
        lemma_rsplit_once_at(s.drop_last(), sep, i);
        assert(s.drop_last().subrange(0, i) =~= s.subrange(0, i));
        assert(s.drop_last().subrange(i + 1, s.len() - 1) + seq![s.last()] =~= s.subrange(
            i + 1,
            s.len() as int,
        ));
    }
}

/// `spec_rsplit_once` finds nothing when the separator never occurs.
pub proof fn lemma_rsplit_once_none(s: Seq<char>, sep: char)
    requires
        forall|j: int| 0 <= j < s.len() ==> s[j] != sep,
    ensures
        spec_rsplit_once(s, sep) is None,
    decreases s.len(),
{
    if s.len() > 0 {
        lemma_rsplit_once_none(s.drop_last(), sep);
    }
}

/// Splits a string at the last occurrence of `sep`; the separator itself
/// belongs to neither part.
pub fn rsplit_once_char(s: &str, sep: char) -> (r: Option<(String, String)>)
    ensures
        match r {
            Some(p) => spec_rsplit_once(s@, sep) == Some((p.0@, p.1@)),
            None => spec_rsplit_once(s@, sep) is None,
        },
{
    let n = s.unicode_len();
    let mut i: usize = n;
    while i > 0
        invariant
            n == s@.len(),
            0 <= i <= n,
            forall|j: int| i <= j < n ==> s@[j] != sep,
        decreases i,
    {
        i = i - 1;
        if s.get_char(i) == sep {
            let left = s.substring_char(0, i).to_owned();
            let right = s.substring_char(i + 1, n).to_owned();
            proof {
                lemma_rsplit_once_at(s@, sep, i as int);
            }
            return Some((left, right));
        }
    }
    proof {
        lemma_rsplit_once_none(s@, sep);
    }
    None
}

/// Whether a character counts as blank when inputs are split or trimmed:
/// the ASCII whitespace characters.
pub open spec fn spec_is_blank(c: char) -> bool {
    c == ' ' || c == '\t' || c == '\n' || c == '\r'
}

/// Whether a character counts as blank.
pub fn is_blank(c: char) -> (r: bool)
    ensures
        r == spec_is_blank(c),
{
    c == ' ' || c == '\t' || c == '\n' || c == '\r'
}

/// The views of a list of strings.
pub open spec fn strings_view(v: Seq<String>) -> Seq<Seq<char>> {
    v.map_values(|x: String| x@)
}

/// The words of a string: its maximal runs of non-blank characters, in
/// order.
pub open spec fn spec_split_ws(s: Seq<char>) -> Seq<Seq<char>>
    decreases s.len(),
{
    if s.len() == 0 {
        Seq::empty()
    } else {
        let rest = spec_split_ws(s.drop_last());
        let c = s.last();
        if spec_is_blank(c) {
            rest
        } else if s.len() >= 2 && !spec_is_blank(s[s.len() - 2]) {
            rest.update(rest.len() - 1, rest.last().push(c))
        } else {
            rest.push(seq![c])
        }
    }
}

/// Splits a string into its blank-separated words.
pub fn split_ws(s: &str) -> (r: Vec<String>)
    ensures
        strings_view(r@) == spec_split_ws(s@),
{
    let n = s.unicode_len();
    let mut words: Vec<String> = Vec::new();
    let mut current = String::new();
    let mut i: usize = 0;
    while i < n
        invariant
            n == s@.len(),
            0 <= i <= n,
            (current@.len() > 0) == (i > 0 && !spec_is_blank(s@[i - 1])),
            current@.len() == 0 ==> spec_split_ws(s@.subrange(0, i as int)) == strings_view(
                words@,
            ),
            current@.len() > 0 ==> spec_split_ws(s@.subrange(0, i as int)) == strings_view(
                words@,
            ).push(current@),
        decreases n - i,
    {
        let c = s.get_char(i);
        proof {
            assert(s@.subrange(0, i + 1).drop_last() =~= s@.subrange(0, i as int));
        }
        if is_blank(c) {
            if current.as_str().unicode_len() > 0 {
                words.push(current);
                current = String::new();
                proof {
                    assert(strings_view(words@) =~= strings_view(words@.drop_last()).push(
                        words@.last()@,
                    ));
                }
            }
        } else {
            if current.as_str().unicode_len() == 0 {
                push_char(&mut current, c);
                proof {
                    assert(current@ =~= seq![c]);
                }
            } else {
                push_char(&mut current, c);
                proof {
                    assert(spec_split_ws(s@.subrange(0, i + 1)) =~= strings_view(words@).push(
                        current@,
                    ));
                }
            }
        }
        i = i + 1;
    }
    if current.as_str().unicode_len() > 0 {
        words.push(current);
        proof {
            assert(strings_view(words@) =~= strings_view(words@.drop_last()).push(words@.last()@));
        }
    }
    proof {
        assert(s@.subrange(0, n as int) =~= s@);
    }
    words
}

} // verus!
