use base64::Engine;
use vstd::prelude::*;

verus! {

/// What one run of a compiled regular expression yields for the first
/// match: the text of its first capture group, when both exist.
#[derive(Debug, PartialEq, Eq, Clone)]
pub enum CaptureOutcome {
    BadPattern(String),
    NoMatch,
    NoGroup,
    Group(String),
}

/// What `regex` finds first in `text` under `pattern`.
pub uninterp spec fn capture_of(pattern: Seq<char>, text: Seq<char>) -> CaptureOutcome;

/// Relies on regex::Regex::new and Regex::captures: the first match's
/// first capture group is a function of the pattern and text alone.
#[verifier::external_body]
pub(crate) fn capture_first(pattern: &str, text: &str) -> (r: CaptureOutcome)
    ensures
        r == capture_of(pattern@, text@),
{
    match regex::Regex::new(pattern) {
        Err(e) => CaptureOutcome::BadPattern(e.to_string()),
        Ok(re) => match re.captures(text) {
            None => CaptureOutcome::NoMatch,
            Some(c) => match c.get(1) {
                None => CaptureOutcome::NoGroup,
                Some(m) => CaptureOutcome::Group(m.as_str().to_owned()),
            },
        },
    }
}

/// What `regex` finds across `text` under `pattern`: the first capture
/// group of every match, in order; nothing when the pattern is bad.
pub uninterp spec fn captures_of(pattern: Seq<char>, text: Seq<char>) -> Option<Seq<Seq<char>>>;

/// Relies on regex::Regex::new and Regex::captures_iter: the group-1
/// texts of all matches are a function of the pattern and text alone.
#[verifier::external_body]
pub(crate) fn capture_all(pattern: &str, text: &str) -> (r: Option<Vec<String>>)
    ensures
        match r {
            Some(v) => captures_of(pattern@, text@) == Some(v@.map_values(|s: String| s@)),
            None => captures_of(pattern@, text@) is None,
        },
{
    match regex::Regex::new(pattern) {
        Err(_) => None,
        Ok(re) => Some(
            re.captures_iter(text).filter_map(|c| c.get(1).map(|m| m.as_str().to_owned())).collect(),
        ),
    }
}

/// Unicode lower-casing, as `str::to_lowercase` defines it.
pub uninterp spec fn lower_of(s: Seq<char>) -> Seq<char>;

/// Relies on str::to_lowercase: the result depends on the characters
/// alone, and an empty text stays empty.
#[verifier::external_body]
pub(crate) fn lowercase(s: &str) -> (r: String)
    ensures
        r@ == lower_of(s@),
        s@.len() == 0 ==> r@.len() == 0,
{
    s.to_lowercase()
}

/// Unicode upper-casing, as `str::to_uppercase` defines it.
pub uninterp spec fn upper_of(s: Seq<char>) -> Seq<char>;

/// Relies on str::to_uppercase: the result depends on the characters
/// alone, and an empty text stays empty.
#[verifier::external_body]
pub(crate) fn uppercase(s: &str) -> (r: String)
    ensures
        r@ == upper_of(s@),
        s@.len() == 0 ==> r@.len() == 0,
{
    s.to_uppercase()
}

/// The standard base64 text of a byte string, with padding.
pub uninterp spec fn base64_of(bytes: Seq<u8>) -> Seq<char>;

/// Relies on base64's STANDARD engine: the encoding is a function of
/// the bytes alone, four characters for every started group of three.
#[verifier::external_body]
pub(crate) fn base64_encode(bytes: &Vec<u8>) -> (r: String)
    ensures
        r@ == base64_of(bytes@),
        bytes@.len() <= usize::MAX / 4 ==> r@.len() == 4 * ((bytes@.len() + 2) / 3),
{
    base64::engine::general_purpose::STANDARD.encode(bytes)
}

/// Whether `s` begins with `prefix`.
pub fn str_starts_with(s: &str, prefix: &str) -> (r: bool)
    ensures
        r == (s@.len() >= prefix@.len() && s@.subrange(0, prefix@.len() as int) == prefix@),
{
    let n = s.unicode_len();
    let m = prefix.unicode_len();
    if m > n {
        return false;
    }
    let mut i: usize = 0;
    while i < m
        invariant
            i <= m,
            m == prefix@.len(),
            n == s@.len(),
            m <= n,
            forall|j: int| 0 <= j < i ==> s@[j] == prefix@[j],
        decreases m - i,
    {
        if s.get_char(i) != prefix.get_char(i) {
            proof {
                assert(s@.subrange(0, m as int)[i as int] == s@[i as int]);
            }
            return false;
        }
        i += 1;
    }
    proof {
        assert(s@.subrange(0, m as int) =~= prefix@);
    }
    true
}

/// Whether `sep` occurs in `s` at position `i`.
pub open spec fn sub_at(s: Seq<char>, sep: Seq<char>, i: int) -> bool {
    0 <= i && i + sep.len() <= s.len() && s.subrange(i, i + sep.len() as int) == sep
}

/// Whether `sep` stands at position `i` of `s`.
fn match_at(s: &str, sep: &str, i: usize) -> (r: bool)
    requires
        i + sep@.len() <= s@.len(),
        s@.len() <= usize::MAX,
    ensures
        r == sub_at(s@, sep@, i as int),
{
    let m = sep.unicode_len();
    let mut k: usize = 0;
    while k < m
        invariant
            k <= m,
            m == sep@.len(),
            i + m <= s@.len(),
            s@.len() <= usize::MAX,
            forall|t: int| 0 <= t < k ==> s@[i + t] == sep@[t],
        decreases m - k,
    {
        if s.get_char(i + k) != sep.get_char(k) {
            proof {
                assert(s@.subrange(i as int, i + m as int)[k as int] == s@[i + k]);
            }
            return false;
        }
        k += 1;
    }
    proof {
        assert(s@.subrange(i as int, i + m as int) =~= sep@);
    }
    true
}

/// The position of the first occurrence of `sep` inside `s`.
pub fn find_sub(s: &str, sep: &str) -> (r: Option<usize>)
    ensures
        match r {
            Some(i) => sub_at(s@, sep@, i as int) && (forall|j: int|
                0 <= j < i ==> !sub_at(s@, sep@, j)),
            None => forall|j: int| !sub_at(s@, sep@, j),
        },
{
    let n = s.unicode_len();
    let m = sep.unicode_len();
    if m > n {
        return None;
    }
    if m == 0 {
        proof {
            assert(s@.subrange(0, 0) =~= sep@);
        }
        return Some(0);
    }
    let mut i: usize = 0;
    while i <= n - m
        invariant
            i <= n - m + 1,
            1 <= m <= n,
            n == s@.len(),
            m == sep@.len(),
            forall|j: int| 0 <= j < i ==> !sub_at(s@, sep@, j),
        decreases n - m + 1 - i,
    {
        if match_at(s, sep, i) {
            return Some(i);
        }
        i += 1;
    }
    None
}

pub open spec fn spec_digit_char(d: int) -> char {
    ((48 + d) as u8) as char
}

/// The decimal text of a number.
pub open spec fn spec_u64_string(n: int) -> Seq<char>
    decreases n,
{
    if n < 10 {
        seq![spec_digit_char(n)]
    } else {
        spec_u64_string(n / 10) + seq![spec_digit_char(n % 10)]
    }
}

fn append_digit(s: &mut String, d: u64)
    requires
        d < 10,
    ensures
        final(s)@ == old(s)@ + seq![spec_digit_char(d as int)],
{
    proof {
        reveal_strlit("0");
        reveal_strlit("1");
        reveal_strlit("2");
        reveal_strlit("3");
        reveal_strlit("4");
        reveal_strlit("5");
        reveal_strlit("6");
        reveal_strlit("7");
        reveal_strlit("8");
        reveal_strlit("9");
    }
    match d {
        0 => s.append("0"),
        1 => s.append("1"),
        2 => s.append("2"),
        3 => s.append("3"),
        4 => s.append("4"),
        5 => s.append("5"),
        6 => s.append("6"),
        7 => s.append("7"),
        8 => s.append("8"),
        _ => s.append("9"),
    }
}

fn push_u64_digits(s: &mut String, n: u64)
    ensures
        final(s)@ == old(s)@ + spec_u64_string(n as int),
    decreases n,
{
    if n < 10 {
        append_digit(s, n);
    } else {
        proof {
            assert(n / 10 < n) by (nonlinear_arith)
                requires
                    n >= 10,
            ;
        }
        push_u64_digits(s, n / 10);
        append_digit(s, n % 10);
    }
}

/// The decimal text of a number, as `spec_u64_string` states it.
pub fn u64_to_string(n: u64) -> (r: String)
    ensures
        r@ == spec_u64_string(n as int),
{
    let mut s = String::new();
    push_u64_digits(&mut s, n);
    s
}

/// The numeric value of a decimal text.
pub open spec fn spec_dec_value(s: Seq<char>) -> int
    decreases s.len(),
{
    if s.len() == 0 {
        0
    } else {
        spec_dec_value(s.drop_last()) * 10 + (s[s.len() - 1] as int - 48)
    }
}

pub open spec fn spec_is_digits(s: Seq<char>) -> bool {
    s.len() > 0 && forall|i: int| 0 <= i < s.len() ==> 48 <= (#[trigger] s[i]) as int <= 57
}

proof fn lemma_dec_value_grows(s: Seq<char>, i: int)
    requires
        0 <= i <= s.len(),
        forall|j: int| 0 <= j < s.len() ==> 48 <= (#[trigger] s[j]) as int <= 57,
        spec_dec_value(s.subrange(0, i)) >= 0,
    ensures
        spec_dec_value(s) >= spec_dec_value(s.subrange(0, i)),
        spec_dec_value(s) >= 0,
    decreases s.len() - i,
{
    if i == s.len() {
        assert(s.subrange(0, i) =~= s);
    } else {
        let p = s.subrange(0, i);
        let q = s.subrange(0, i + 1);
        assert(q.drop_last() =~= p);
        assert(q[q.len() - 1] == s[i]);
        assert(spec_dec_value(q) == spec_dec_value(p) * 10 + (s[i] as int - 48));
        assert(spec_dec_value(q) >= spec_dec_value(p)) by (nonlinear_arith)
            requires
                spec_dec_value(q) == spec_dec_value(p) * 10 + (s[i] as int - 48),
                spec_dec_value(p) >= 0,
                48 <= s[i] as int <= 57,
        ;
        lemma_dec_value_grows(s, i + 1);
    }
}

/// Reads a decimal text into a number: `None` when the text is empty,
/// holds a non-digit, or exceeds `u32::MAX`.
pub fn parse_u32(s: &str) -> (r: Option<u32>)
    ensures
        match r {
            Some(v) => spec_is_digits(s@) && v as int == spec_dec_value(s@),
            None => !spec_is_digits(s@) || spec_dec_value(s@) > u32::MAX,
        },
{
    let n = s.unicode_len();
    if n == 0 {
        return None;
    }
    let mut value: u64 = 0;
    let mut i: usize = 0;
    while i < n
        invariant
            i <= n,
            n == s@.len(),
            n > 0,
            forall|j: int| 0 <= j < i ==> 48 <= (#[trigger] s@[j]) as int <= 57,
            value as int == spec_dec_value(s@.subrange(0, i as int)),
            value <= u32::MAX,
        decreases n - i,
    {
        let c = s.get_char(i);
        let code: u32 = c as u32;
        if code < 48 || code > 57 {
            return None;
        }
        let d: u64 = (code - 48) as u64;
        proof {
            assert(s@.subrange(0, i + 1).drop_last() =~= s@.subrange(0, i as int));
        }
        let next: u64 = value * 10 + d;
        if next > u32::MAX as u64 {
            proof {
                if spec_is_digits(s@) {
                    lemma_dec_value_grows(s@, i + 1);
                }
            }
            return None;
        }
        value = next;
        i += 1;
    }
    proof {
        assert(s@.subrange(0, n as int) =~= s@);
    }
    Some(value as u32)
}

pub open spec fn spec_has_char(s: Seq<char>, c: char) -> bool {
    exists|i: int| 0 <= i < s.len() && s[i] == c
}

/// Everything before the last dot; meaningful when a dot exists.
pub open spec fn spec_stem(s: Seq<char>) -> Seq<char>
    decreases s.len(),
{
    if s.len() == 0 {
        s
    } else if s[s.len() - 1] == '.' {
        s.drop_last()
    } else {
        spec_stem(s.drop_last())
    }
}

/// The part of a file name that decides its type: everything before
/// the last dot when there is one, else the whole name.
pub open spec fn spec_ext_part(s: Seq<char>) -> Seq<char> {
    if spec_has_char(s, '.') {
        spec_stem(s)
    } else {
        s
    }
}

pub proof fn lemma_stem_at(s: Seq<char>, i: int)
    requires
        0 <= i < s.len(),
        s[i] == '.',
        forall|j: int| i < j < s.len() ==> s[j] != '.',
    ensures
        spec_stem(s) == s.subrange(0, i),
    decreases s.len(),
{
    if i == s.len() - 1 {
        assert(s.drop_last() =~= s.subrange(0, i));
    } else {
        assert(s[s.len() - 1] != '.');
        lemma_stem_at(s.drop_last(), i);
        assert(s.drop_last().subrange(0, i) =~= s.subrange(0, i));
    }
}

/// Everything after the last dot; the whole text when no dot exists.
pub open spec fn spec_ext_tail(s: Seq<char>) -> Seq<char>
    decreases s.len(),
{
    if s.len() == 0 {
        s
    } else if s[s.len() - 1] == '.' {
        Seq::empty()
    } else {
        spec_ext_tail(s.drop_last()) + seq![s[s.len() - 1]]
    }
}

pub proof fn lemma_ext_tail_at(s: Seq<char>, i: int)
    requires
        0 <= i < s.len(),
        s[i] == '.',
        forall|j: int| i < j < s.len() ==> s[j] != '.',
    ensures
        spec_ext_tail(s) == s.subrange(i + 1, s.len() as int),
    decreases s.len(),
{
    if i == s.len() - 1 {
        assert(s.subrange(i + 1, s.len() as int).len() == 0);
        assert(spec_ext_tail(s) =~= s.subrange(i + 1, s.len() as int));
    } else {
        assert(s[s.len() - 1] != '.');
        lemma_ext_tail_at(s.drop_last(), i);
        assert(s.drop_last().subrange(i + 1, s.len() - 1) + seq![s[s.len() - 1]] =~= s.subrange(
            i + 1,
            s.len() as int,
        ));
    }
}

pub proof fn lemma_ext_tail_nodot(s: Seq<char>)
    requires
        forall|j: int| 0 <= j < s.len() ==> s[j] != '.',
    ensures
        spec_ext_tail(s) == s,
    decreases s.len(),
{
    if s.len() != 0 {
        lemma_ext_tail_nodot(s.drop_last());
        assert(s.drop_last() + seq![s[s.len() - 1]] =~= s);
    }
}

/// The mime type a file name stands for: what follows its last dot
/// decides, as `guess_mime_type_by_ext` reads it.
pub fn mime_for_filename(filename: &str) -> (r: String)
    ensures
        r@ == spec_mime_text(spec_ext_part(spec_ext_tail(filename@))),
{
    let n = filename.unicode_len();
    let ext: &str = match rfind_char(filename, '.') {
        Some(i) => {
            proof {
                lemma_ext_tail_at(filename@, i as int);
            }
            filename.substring_char(i + 1, n)
        },
        None => {
            proof {
                lemma_ext_tail_nodot(filename@);
            }
            filename
        },
    };
    guess_mime_type_by_ext(ext)
}

/// The mime text an extension stands for: `jpg` and `jpeg` (in any
/// case) mean `image/jpeg`; anything else is `image/` plus the
/// extension as given.
pub open spec fn spec_mime_text(ext: Seq<char>) -> Seq<char> {
    if lower_of(ext) == "jpg"@ || lower_of(ext) == "jpeg"@ {
        "image/jpeg"@
    } else {
        "image/"@ + ext
    }
}

/// The mime decision on an extension whose lower-case text is given.
pub fn mime_from_lowered(ext: &str, lowered: &String) -> (r: String)
    requires
        lowered@ == lower_of(ext@),
    ensures
        r@ == spec_mime_text(ext@),
{
    let jpg = "jpg".to_owned();
    let jpeg = "jpeg".to_owned();
    if *lowered == jpg || *lowered == jpeg {
        "image/jpeg".to_owned()
    } else {
        "image/".to_owned().concat(ext)
    }
}

/// Guesses a mime type from a file name: the part before the last
/// dot (or the whole name without one), lower-cased, decides.
pub fn guess_mime_type_by_ext(filename: &str) -> (r: String)
    ensures
        r@ == spec_mime_text(spec_ext_part(filename@)),
{
    let ext_str: &str = match rfind_char(filename, '.') {
        Some(i) => {
            proof {
                lemma_stem_at(filename@, i as int);
            }
            filename.substring_char(0, i)
        },
        None => filename,
    };
    proof {
        assert(ext_str@ == spec_ext_part(filename@));
    }
    let lowered = lowercase(ext_str);
    mime_from_lowered(ext_str, &lowered)
}

/// The position of the last occurrence of `c` inside `s`.
pub fn rfind_char(s: &str, c: char) -> (r: Option<usize>)
    ensures
        match r {
            Some(i) => i < s@.len() && s@[i as int] == c && (forall|j: int|
                i < j < s@.len() ==> s@[j] != c),
            None => forall|j: int| 0 <= j < s@.len() ==> s@[j] != c,
        },
{
    let n = s.unicode_len();
    let mut i: usize = n;
    while i > 0
        invariant
            i <= n,
            n == s@.len(),
            forall|j: int| i <= j < s@.len() ==> s@[j] != c,
        decreases i,
    {
        i -= 1;
        if s.get_char(i) == c {
            return Some(i);
        }
    }
    None
}

} // verus!
