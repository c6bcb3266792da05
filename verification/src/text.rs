//! Text as the catalogue judges it: trimming (Unicode white space),
//! character counts, ASCII case-insensitive comparison, decimal numbers,
//! avatar letters and colours, and the laws about them.
use vstd::prelude::*;
use vstd::string::*;

verus! {

broadcast use vstd::string::group_string_axioms;

/// A character with the Unicode `White_Space` property.
pub open spec fn is_white_space(c: char) -> bool {
    let u = c as u32;
    ||| 0x09 <= u <= 0x0D
    ||| u == 0x20 || u == 0x85 || u == 0xA0 || u == 0x1680
    ||| 0x2000 <= u <= 0x200A
    ||| u == 0x2028 || u == 0x2029 || u == 0x202F || u == 0x205F || u == 0x3000
}

/// The text with its leading white space removed.
pub open spec fn trim_start_chars(s: Seq<char>) -> Seq<char>
    decreases s.len(),
{
    if s.len() > 0 && is_white_space(s[0]) {
        trim_start_chars(s.drop_first())
    } else {
        s
    }
}

/// The text with its trailing white space removed.
pub open spec fn trim_end_chars(s: Seq<char>) -> Seq<char>
    decreases s.len(),
{
    if s.len() > 0 && is_white_space(s.last()) {
        trim_end_chars(s.drop_last())
    } else {
        s
    }
}

/// The text with white space removed at both ends.
pub open spec fn trim_chars(s: Seq<char>) -> Seq<char> {
    trim_end_chars(trim_start_chars(s))
}

/// `str::trim` of the standard library: removes the leading and trailing
/// characters that have the Unicode `White_Space` property.  The contract
/// states this as `trim_chars` over the characters of the text.
#[verifier::external_body]
pub(crate) fn trim_str(s: &str) -> (r: &str)
    ensures
        r@ == trim_chars(s@),
{
    s.trim()
}

/// The number of characters in `s`.
pub fn char_count(s: &str) -> (n: usize)
    ensures
        n == s@.len(),
{
    s.unicode_len()
}

/// The characters of `s`, in order.
pub fn chars_of(s: &str) -> (v: Vec<char>)
    ensures
        v@ == s@,
{
    let mut v: Vec<char> = Vec::new();
    for c in it: s.chars()
        invariant
            v@ == it.seq().take(it.index() as int),
            it.seq() == s@,
    {
        v.push(c);
    }
    v
}

} // verus!

verus! {

/// The code of `c` after ASCII lower-casing (only `A`..=`Z` change).
pub open spec fn ascii_lower_code(c: char) -> u32 {
    let u = c as u32;
    if 65 <= u <= 90 {
        (u + 32) as u32
    } else {
        u
    }
}

/// Two texts that are equal once ASCII letters are lower-cased
/// (what `str::eq_ignore_ascii_case` decides).
pub open spec fn eq_ignore_ascii_case_chars(a: Seq<char>, b: Seq<char>) -> bool {
    &&& a.len() == b.len()
    &&& forall|i: int| 0 <= i < a.len() ==> #[trigger] ascii_lower_code(a[i]) == ascii_lower_code(b[i])
}

fn lower_code(c: char) -> (r: u32)
    ensures
        r == ascii_lower_code(c),
{
    let u = c as u32;
    if 65 <= u && u <= 90 {
        u + 32
    } else {
        u
    }
}

/// Whether `a` and `b` are equal up to the case of ASCII letters.
pub fn eq_ignore_ascii_case(a: &str, b: &str) -> (r: bool)
    ensures
        r == eq_ignore_ascii_case_chars(a@, b@),
{
    let va = chars_of(a);
    let vb = chars_of(b);
    if va.len() != vb.len() {
        return false;
    }
    let n = va.len();
    let mut i: usize = 0;
    while i < n
        invariant
            n == va@.len(),
            n == vb@.len(),
            va@ == a@,
            vb@ == b@,
            i <= n,
            forall|j: int| 0 <= j < i ==> #[trigger] ascii_lower_code(a@[j]) == ascii_lower_code(b@[j]),
        decreases n - i,
    {
        if lower_code(va[i]) != lower_code(vb[i]) {
            return false;
        }
        i = i + 1;
    }
    true
}

/// Whether `a` and `b` hold the same characters.
pub fn same_text(a: &str, b: &str) -> (r: bool)
    ensures
        r == (a@ == b@),
{
    let va = chars_of(a);
    let vb = chars_of(b);
    if va.len() != vb.len() {
        return false;
    }
    let n = va.len();
    let mut i: usize = 0;
    while i < n
        invariant
            n == va@.len(),
            n == vb@.len(),
            va@ == a@,
            vb@ == b@,
            i <= n,
            forall|j: int| 0 <= j < i ==> a@[j] == b@[j],
        decreases n - i,
    {
        if va[i] != vb[i] {
            return false;
        }
        i = i + 1;
    }
    assert(a@ =~= b@);
    true
}

/// What can be wrong with a required text field.
#[derive(Clone, Copy, Debug, PartialEq, Eq, Structural)]
pub enum TextProblem {
    /// Nothing but white space.
    Missing,
    /// More characters than allowed once trimmed.
    TooLong,
}

/// The problem of a required text of at most `max` characters, judged on
/// its trimmed value.
pub open spec fn text_problem(s: Seq<char>, max: nat) -> Option<TextProblem> {
    let t = trim_chars(s);
    if t.len() == 0 {
        Some(TextProblem::Missing)
    } else if t.len() > max {
        Some(TextProblem::TooLong)
    } else {
        None
    }
}

/// Checks a required text of at most `max` characters.
pub fn check_text(s: &str, max: usize) -> (r: Option<TextProblem>)
    ensures
        r == text_problem(s@, max as nat),
{
    let t = trim_str(s);
    let n = char_count(t);
    if n == 0 {
        Some(TextProblem::Missing)
    } else if n > max {
        Some(TextProblem::TooLong)
    } else {
        None
    }
}

/// Whether an optional text is longer than `max` characters once trimmed.
pub open spec fn too_long_trimmed(s: Seq<char>, max: nat) -> bool {
    trim_chars(s).len() > max
}

/// Checks an optional text against a limit of `max` trimmed characters.
pub fn exceeds_trimmed(s: &str, max: usize) -> (r: bool)
    ensures
        r == too_long_trimmed(s@, max as nat),
{
    char_count(trim_str(s)) > max
}

/// A copy of an optional text.
pub fn copy_opt(o: &Option<String>) -> (r: Option<String>)
    ensures
        r == *o,
{
    match o {
        Some(s) => Some(s.clone()),
        None => None,
    }
}

/// An owned copy of `s`.
pub fn owned(s: &str) -> (r: String)
    ensures
        r@ == s@,
{
    s.to_string()
}

} // verus!

verus! {

/// The characters of the Unicode upper-case mapping of `c` (what
/// `char::to_uppercase` yields).
pub uninterp spec fn uppercase_of(c: char) -> Seq<char>;

/// `char::to_uppercase` of the standard library, collected into a string.
/// The contract only names its result (`uppercase_of`); the Unicode case
/// tables it follows are not restated here.
#[verifier::external_body]
pub(crate) fn char_to_uppercase(c: char) -> (r: String)
    ensures
        r@ == uppercase_of(c),
{
    c.to_uppercase().collect::<String>()
}

/// The upper-cased first character of `s`, or `fallback` when `s` is empty.
pub open spec fn first_upper(s: Seq<char>, fallback: Seq<char>) -> Seq<char> {
    if s.len() > 0 {
        uppercase_of(s[0])
    } else {
        fallback
    }
}

/// Computes `first_upper(s, fallback)`.
pub fn first_upper_of(s: &str, fallback: &str) -> (r: String)
    ensures
        r@ == first_upper(s@, fallback@),
{
    let v = chars_of(s);
    if v.len() > 0 {
        char_to_uppercase(v[0])
    } else {
        owned(fallback)
    }
}

/// The sum of the bytes in `b`.
pub open spec fn byte_sum(b: Seq<u8>) -> nat
    decreases b.len(),
{
    if b.len() == 0 {
        0
    } else {
        byte_sum(b.drop_last()) + b.last() as nat
    }
}

/// The six avatar colours, indexed from zero.
pub open spec fn palette_color(i: nat) -> Seq<char> {
    if i == 0 {
        "#0E7C66"@
    } else if i == 1 {
        "#2563EB"@
    } else if i == 2 {
        "#D97706"@
    } else if i == 3 {
        "#7C3AED"@
    } else if i == 4 {
        "#DB2777"@
    } else {
        "#0891B2"@
    }
}

/// The avatar colour of a text: the palette entry at the sum of its UTF-8
/// bytes modulo the palette's size.
pub open spec fn color_of(s: &str) -> Seq<char> {
    palette_color(byte_sum(s.spec_bytes()) % 6)
}

/// Computes `color_of(s)`; the byte sum must fit in a `u32`, as the
/// summation overflows otherwise.
pub fn color_for(s: &str) -> (r: String)
    requires
        byte_sum(s.spec_bytes()) <= u32::MAX,
    ensures
        r@ == color_of(s),
{
    let bytes = s.as_bytes();
    let n = bytes.len();
    let mut sum: u32 = 0;
    let mut i: usize = 0;
    while i < n
        invariant
            n == bytes@.len(),
            bytes@ == s.spec_bytes(),
            byte_sum(s.spec_bytes()) <= u32::MAX,
            i <= n,
            sum == byte_sum(bytes@.take(i as int)),
        decreases n - i,
    {
        proof {
            assert(bytes@.take(i + 1).drop_last() =~= bytes@.take(i as int));
            lemma_byte_sum_prefix(bytes@, i as int + 1);
        }
        sum = sum + bytes[i] as u32;
        i = i + 1;
    }
    proof {
        assert(bytes@.take(n as int) =~= bytes@);
    }
    let k = sum % 6;
    if k == 0 {
        owned("#0E7C66")
    } else if k == 1 {
        owned("#2563EB")
    } else if k == 2 {
        owned("#D97706")
    } else if k == 3 {
        owned("#7C3AED")
    } else if k == 4 {
        owned("#DB2777")
    } else {
        owned("#0891B2")
    }
}

/// The sum of a prefix is at most the sum of the whole.
proof fn lemma_byte_sum_prefix(b: Seq<u8>, k: int)
    requires
        0 <= k <= b.len(),
    ensures
        byte_sum(b.take(k)) <= byte_sum(b),
    decreases b.len(),
{
    if k < b.len() {
        assert(b.drop_last().take(k) =~= b.take(k));
        lemma_byte_sum_prefix(b.drop_last(), k);
    } else {
        assert(b.take(k) =~= b);
    }
}

} // verus!

verus! {

/// The characters of an optional text.
pub open spec fn opt_view(o: Option<String>) -> Option<Seq<char>> {
    match o {
        Some(s) => Some(s@),
        None => None,
    }
}

/// The first refusal for a pair of required names of at most `max`
/// characters each, with the four messages in order: first name missing,
/// first name too long, second name missing, second name too long.
pub open spec fn two_names_error(
    name: Seq<char>,
    name_ar: Seq<char>,
    max: nat,
    msgs: (Seq<char>, Seq<char>, Seq<char>, Seq<char>),
) -> Option<Seq<char>> {
    match text_problem(name, max) {
        Some(TextProblem::Missing) => Some(msgs.0),
        Some(TextProblem::TooLong) => Some(msgs.1),
        None => match text_problem(name_ar, max) {
            Some(TextProblem::Missing) => Some(msgs.2),
            Some(TextProblem::TooLong) => Some(msgs.3),
            None => None,
        },
    }
}

/// Computes `two_names_error` with the given messages.
pub fn check_two_names(
    name: &str,
    name_ar: &str,
    max: usize,
    m0: &str,
    m1: &str,
    m2: &str,
    m3: &str,
) -> (r: Option<String>)
    ensures
        opt_view(r) == two_names_error(name@, name_ar@, max as nat, (m0@, m1@, m2@, m3@)),
{
    match check_text(name, max) {
        Some(TextProblem::Missing) => Some(owned(m0)),
        Some(TextProblem::TooLong) => Some(owned(m1)),
        None => match check_text(name_ar, max) {
            Some(TextProblem::Missing) => Some(owned(m2)),
            Some(TextProblem::TooLong) => Some(owned(m3)),
            None => None,
        },
    }
}

} // verus!

verus! {

/// Whether two optional texts are both absent or hold the same characters.
pub fn same_opt_text(a: &Option<String>, b: &Option<String>) -> (r: bool)
    ensures
        r == (opt_view(*a) == opt_view(*b)),
{
    match (a, b) {
        (Some(x), Some(y)) => same_text(x.as_str(), y.as_str()),
        (None, None) => true,
        _ => false,
    }
}

/// `o` if it holds a value, otherwise a copy of `fallback`.
pub fn or_copy(o: &Option<String>, fallback: &Option<String>) -> (r: Option<String>)
    ensures
        r == (if o is Some { *o } else { *fallback }),
{
    match o {
        Some(s) => Some(s.clone()),
        None => copy_opt(fallback),
    }
}

/// The text in `o` if there is one, otherwise `fallback`, owned.
pub fn text_or(o: &Option<String>, fallback: &String) -> (r: String)
    ensures
        r == (if o is Some { o->0 } else { *fallback }),
{
    match o {
        Some(s) => s.clone(),
        None => fallback.clone(),
    }
}

} // verus!

verus! {

/// The error of `str::parse` for integers.
#[verifier::external_type_specification]
#[verifier::external_body]
pub struct ExParseIntError(core::num::ParseIntError);

/// An ASCII decimal digit.
pub open spec fn is_decimal_digit(c: char) -> bool {
    48 <= (c as u32) <= 57
}

/// The value of a string of decimal digits.
pub open spec fn digits_value(d: Seq<char>) -> int
    decreases d.len(),
{
    if d.len() == 0 {
        0
    } else {
        digits_value(d.drop_last()) * 10 + (d.last() as u32 - 48)
    }
}

/// The `i64` that a text denotes as an optional `+` or `-` sign followed by
/// at least one decimal digit and nothing else, if it is in range.
pub open spec fn decimal_i64(s: Seq<char>) -> Option<i64> {
    let signed = s.len() > 0 && (s[0] == '-' || s[0] == '+');
    let d = if signed {
        s.drop_first()
    } else {
        s
    };
    let v = if signed && s[0] == '-' {
        -digits_value(d)
    } else {
        digits_value(d)
    };
    if d.len() == 0 || !(forall|i: int| 0 <= i < d.len() ==> is_decimal_digit(#[trigger] d[i])) {
        None
    } else if i64::MIN <= v <= i64::MAX {
        Some(v as i64)
    } else {
        None
    }
}

/// `str::parse::<i64>` of the standard library.  Its documentation
/// (`i64::from_str_radix`) accepts an optional sign followed by digits only;
/// the contract states that as `decimal_i64`.
#[verifier::external_body]
pub(crate) fn parse_i64(s: &str) -> (r: Result<i64, core::num::ParseIntError>)
    ensures
        match r {
            Ok(v) => decimal_i64(s@) == Some(v),
            Err(_) => decimal_i64(s@) is None,
        },
{
    s.parse::<i64>()
}

} // verus!

verus! {

/// The view of an optional borrowed text.
pub open spec fn opt_str_view(o: Option<&str>) -> Option<Seq<char>> {
    match o {
        Some(s) => Some(s@),
        None => None,
    }
}

/// The decimal digit character for `d` in `0..10`.
pub open spec fn digit_char(d: int) -> char {
    if d == 0 {
        '0'
    } else if d == 1 {
        '1'
    } else if d == 2 {
        '2'
    } else if d == 3 {
        '3'
    } else if d == 4 {
        '4'
    } else if d == 5 {
        '5'
    } else if d == 6 {
        '6'
    } else if d == 7 {
        '7'
    } else if d == 8 {
        '8'
    } else {
        '9'
    }
}

/// The decimal digits of `n`, without leading zeros.
pub open spec fn digits_text(n: nat) -> Seq<char>
    decreases n,
{
    if n < 10 {
        seq![digit_char(n as int)]
    } else {
        digits_text(n / 10).push(digit_char((n % 10) as int))
    }
}

/// The decimal text of `v`: a minus sign for a negative value, then the
/// digits of its magnitude.
pub open spec fn decimal_text(v: int) -> Seq<char> {
    if v < 0 {
        seq!['-'] + digits_text((-v) as nat)
    } else {
        digits_text(v as nat)
    }
}

/// `ToString::to_string` on an `i64`, whose `Display` writes the value in
/// decimal: a `-` for a negative value, then the digits without leading
/// zeros.  The contract states that as `decimal_text`.
#[verifier::external_body]
pub(crate) fn decimal_string(v: i64) -> (r: String)
    ensures
        r@ == decimal_text(v as int),
{
    v.to_string()
}

/// `a`, then `b`, then `c`, as one text.
pub fn join3(a: &str, b: &str, c: &str) -> (r: String)
    ensures
        r@ == a@ + b@ + c@,
{
    let mut r = String::from_str(a);
    r.append(b);
    r.append(c);
    r
}

/// `prefix`, the decimal text of `id`, then `suffix`.
pub fn with_id(prefix: &str, id: i64, suffix: &str) -> (r: String)
    ensures
        r@ == prefix@ + decimal_text(id as int) + suffix@,
{
    let digits = decimal_string(id);
    join3(prefix, digits.as_str(), suffix)
}

} // verus!

verus! {

/// Every character of `w` is white space.
pub open spec fn all_white_space(w: Seq<char>) -> bool {
    forall|i: int| 0 <= i < w.len() ==> is_white_space(#[trigger] w[i])
}

proof fn lemma_trim_start_skips(w: Seq<char>, s: Seq<char>)
    requires
        all_white_space(w),
    ensures
        trim_start_chars(w + s) == trim_start_chars(s),
    decreases w.len(),
{
    if w.len() == 0 {
        assert(w + s =~= s);
    } else {
        assert((w + s)[0] == w[0]);
        assert((w + s).drop_first() =~= w.drop_first() + s);
        lemma_trim_start_skips(w.drop_first(), s);
    }
}

proof fn lemma_trim_end_skips(s: Seq<char>, w: Seq<char>)
    requires
        all_white_space(w),
    ensures
        trim_end_chars(s + w) == trim_end_chars(s),
    decreases w.len(),
{
    if w.len() == 0 {
        assert(s + w =~= s);
    } else {
        assert((s + w).last() == w.last());
        assert((s + w).drop_last() =~= s + w.drop_last());
        lemma_trim_end_skips(s, w.drop_last());
    }
}

proof fn lemma_trim_start_append(s: Seq<char>, t: Seq<char>)
    ensures
        trim_start_chars(s).len() > 0 ==> trim_start_chars(s + t) == trim_start_chars(s) + t,
        trim_start_chars(s).len() == 0 ==> trim_start_chars(s + t) == trim_start_chars(t),
    decreases s.len(),
{
    if s.len() == 0 {
        assert(s + t =~= t);
    } else {
        assert((s + t)[0] == s[0]);
        if is_white_space(s[0]) {
            assert((s + t).drop_first() =~= s.drop_first() + t);
            lemma_trim_start_append(s.drop_first(), t);
        }
    }
}

proof fn lemma_trim_start_shape(s: Seq<char>)
    ensures
        trim_start_chars(s).len() > 0 ==> !is_white_space(trim_start_chars(s)[0]),
        trim_start_chars(s).len() <= s.len(),
    decreases s.len(),
{
    if s.len() > 0 && is_white_space(s[0]) {
        lemma_trim_start_shape(s.drop_first());
    }
}

proof fn lemma_trim_end_shape(s: Seq<char>)
    ensures
        trim_end_chars(s).len() <= s.len(),
        trim_end_chars(s) == s.take(trim_end_chars(s).len() as int),
        trim_end_chars(s).len() > 0 ==> !is_white_space(trim_end_chars(s).last()),
    decreases s.len(),
{
    if s.len() > 0 && is_white_space(s.last()) {
        lemma_trim_end_shape(s.drop_last());
        let k = trim_end_chars(s).len() as int;
        assert(s.drop_last().take(k) =~= s.take(k));
    } else {
        assert(s.take(s.len() as int) =~= s);
    }
}

/// White space around a text does not change what trimming leaves.
pub proof fn law_trim_ignores_padding(before: Seq<char>, s: Seq<char>, after: Seq<char>)
    requires
        all_white_space(before),
        all_white_space(after),
    ensures
        trim_chars(before + s + after) == trim_chars(s),
{
    lemma_trim_start_skips(before, s + after);
    assert(before + s + after =~= before + (s + after));
    lemma_trim_start_append(s, after);
    if trim_start_chars(s).len() > 0 {
        lemma_trim_end_skips(trim_start_chars(s), after);
    } else {
        lemma_trim_start_skips(after, Seq::empty());
        assert(after + Seq::<char>::empty() =~= after);
    }
}

/// Trimming an already trimmed text leaves it as it is.
pub proof fn law_trim_idempotent(s: Seq<char>)
    ensures
        trim_chars(trim_chars(s)) == trim_chars(s),
{
    let t = trim_start_chars(s);
    let u = trim_end_chars(t);
    lemma_trim_start_shape(s);
    lemma_trim_end_shape(t);
    if u.len() > 0 {
        assert(u[0] == t[0]);
        assert(trim_start_chars(u) == u);
        assert(trim_end_chars(u) == u);
    }
}

/// A required text is judged as its trimmed value is: trimming it first
/// changes nothing.
pub proof fn law_text_problem_of_trimmed(s: Seq<char>, max: nat)
    ensures
        text_problem(trim_chars(s), max) == text_problem(s, max),
{
    law_trim_idempotent(s);
}

} // verus!

verus! {

/// The avatar colour of any text is one of the six colours of the palette.
pub proof fn law_avatar_color_in_palette(s: &str)
    ensures
        exists|i: nat| i < 6 && #[trigger] palette_color(i) == color_of(s),
{
    let i = byte_sum(s.spec_bytes()) % 6;
    assert(palette_color(i) == color_of(s));
}

} // verus!

verus! {

proof fn lemma_digit_char(d: int)
    requires
        0 <= d < 10,
    ensures
        is_decimal_digit(digit_char(d)),
        digit_char(d) as u32 - 48 == d,
{
}

proof fn lemma_digits_text(n: nat)
    ensures
        digits_text(n).len() > 0,
        forall|i: int| 0 <= i < digits_text(n).len() ==> is_decimal_digit(#[trigger] digits_text(n)[i]),
        digits_value(digits_text(n)) == n,
    decreases n,
{
    if n < 10 {
        lemma_digit_char(n as int);
        let s = digits_text(n);
        assert(s.drop_last() =~= Seq::<char>::empty());
        assert(digits_value(s.drop_last()) == 0);
        assert(s.last() == digit_char(n as int));
        assert(digits_value(s) == digits_value(s.drop_last()) * 10 + (s.last() as u32 - 48));
    } else {
        lemma_digits_text(n / 10);
        lemma_digit_char((n % 10) as int);
        let s = digits_text(n);
        assert(s.drop_last() =~= digits_text(n / 10));
        assert(s.last() == digit_char((n % 10) as int));
        assert(digits_value(s) == digits_value(digits_text(n / 10)) * 10 + (s.last() as u32 - 48));
        assert((n / 10) * 10 + n % 10 == n) by (nonlinear_arith);
        assert forall|i: int| 0 <= i < s.len() implies is_decimal_digit(#[trigger] s[i]) by {
            if i < s.len() - 1 {
                assert(s[i] == digits_text(n / 10)[i]);
            }
        }
    }
}

/// The decimal text of an `i64` reads back as that value: an id written
/// into a message is the id that was asked for.
pub proof fn law_decimal_text_reads_back(v: i64)
    ensures
        decimal_i64(decimal_text(v as int)) == Some(v),
{
    if v < 0 {
        let m = (-(v as int)) as nat;
        lemma_digits_text(m);
        let s = decimal_text(v as int);
        assert(s[0] == '-');
        assert(s.drop_first() =~= digits_text(m));
    } else {
        lemma_digits_text(v as nat);
        let s = decimal_text(v as int);
        assert(is_decimal_digit(s[0]));
    }
}

} // verus!

verus! {

/// A required text is missing when nothing is left once trimmed, too long
/// when more than `max` characters are left, and fine otherwise.
pub proof fn law_text_problem_meaning(s: Seq<char>, max: nat)
    ensures
        text_problem(s, max) == Some(TextProblem::Missing) <==> trim_chars(s).len() == 0,
        text_problem(s, max) == Some(TextProblem::TooLong) <==> trim_chars(s).len() > max,
        text_problem(s, max) is None <==> 0 < trim_chars(s).len() <= max,
{
}

/// A pair of names is judged first name first: the first name's problem,
/// if any, gives the first or second message; otherwise the second name's
/// problem gives the third or fourth; two valid names give nothing.
pub proof fn law_two_names_order(
    name: Seq<char>,
    name_ar: Seq<char>,
    max: nat,
    msgs: (Seq<char>, Seq<char>, Seq<char>, Seq<char>),
)
    ensures
        ({
            let r = two_names_error(name, name_ar, max, msgs);
            let n = trim_chars(name).len();
            let a = trim_chars(name_ar).len();
            &&& n == 0 ==> r == Some(msgs.0)
            &&& n > max ==> r == Some(msgs.1)
            &&& 0 < n <= max && a == 0 ==> r == Some(msgs.2)
            &&& 0 < n <= max && a > max ==> r == Some(msgs.3)
            &&& (r is None <==> (0 < n <= max && 0 < a <= max))
        }),
{
}

/// The answer of a check is its expected refusal: accepted exactly when no
/// refusal is expected, and refused with exactly the expected message.
pub proof fn law_check_answers_meaning(
    r: Result<(), String>,
    a: Result<(), (crate::status::HttpStatus, String)>,
    expected: Option<Seq<char>>,
)
    ensures
        crate::status::form_check_answers(r, expected) ==> (r is Ok <==> expected is None),
        crate::status::form_check_answers(r, expected) && r is Err ==> expected == Some(r->Err_0@),
        crate::status::api_check_answers(a, expected) ==> (a is Ok <==> expected is None),
        crate::status::api_check_answers(a, expected) && a is Err ==> expected == Some(a->Err_0.1@) && a->Err_0.0
            == crate::status::HttpStatus::BadRequest,
{
}

} // verus!

verus! {

proof fn lemma_trim_start_cut(s: Seq<char>)
    ensures
        0 <= s.len() - trim_start_chars(s).len() <= s.len(),
        trim_start_chars(s) == s.subrange(s.len() - trim_start_chars(s).len(), s.len() as int),
        forall|i: int| 0 <= i < s.len() - trim_start_chars(s).len() ==> is_white_space(#[trigger] s[i]),
    decreases s.len(),
{
    if s.len() > 0 && is_white_space(s[0]) {
        lemma_trim_start_cut(s.drop_first());
        let t = s.drop_first();
        let k = t.len() - trim_start_chars(t).len();
        assert(t.subrange(k, t.len() as int) =~= s.subrange(k + 1, s.len() as int));
        assert forall|i: int| 0 <= i < k + 1 implies is_white_space(#[trigger] s[i]) by {
            if i > 0 {
                assert(s[i] == t[i - 1]);
            }
        }
    } else {
        assert(s.subrange(0, s.len() as int) =~= s);
    }
}

proof fn lemma_trim_end_cut(s: Seq<char>)
    ensures
        trim_end_chars(s).len() <= s.len(),
        trim_end_chars(s) == s.subrange(0, trim_end_chars(s).len() as int),
        forall|i: int| trim_end_chars(s).len() <= i < s.len() ==> is_white_space(#[trigger] s[i]),
    decreases s.len(),
{
    if s.len() > 0 && is_white_space(s.last()) {
        lemma_trim_end_cut(s.drop_last());
        let t = s.drop_last();
        assert(t.subrange(0, trim_end_chars(t).len() as int) =~= s.subrange(0, trim_end_chars(t).len() as int));
        assert forall|i: int| trim_end_chars(s).len() <= i < s.len() implies is_white_space(#[trigger] s[i]) by {
            if i < s.len() - 1 {
                assert(s[i] == t[i]);
            }
        }
    } else {
        assert(s.subrange(0, s.len() as int) =~= s);
    }
}

/// Trimming keeps a contiguous part of the text and drops only white space
/// around it: the part left neither starts nor ends with white space, and
/// everything cut off before and after it is white space.
pub proof fn law_trim_shape(s: Seq<char>)
    ensures
        exists|a: int, b: int|
            0 <= a <= b <= s.len() && trim_chars(s) == s.subrange(a, b) && (forall|i: int|
                0 <= i < a ==> is_white_space(#[trigger] s[i])) && (forall|i: int|
                b <= i < s.len() ==> is_white_space(#[trigger] s[i])),
        trim_chars(s).len() > 0 ==> !is_white_space(trim_chars(s)[0]) && !is_white_space(trim_chars(s).last()),
{
    let t = trim_start_chars(s);
    lemma_trim_start_cut(s);
    lemma_trim_end_cut(t);
    lemma_trim_start_shape(s);
    lemma_trim_end_shape(t);
    let a = s.len() - t.len();
    let b = a + trim_end_chars(t).len();
    assert(trim_chars(s) =~= s.subrange(a, b));
    assert forall|i: int| b <= i < s.len() implies is_white_space(#[trigger] s[i]) by {
        assert(s[i] == t[i - a]);
    }
    if trim_chars(s).len() > 0 {
        assert(trim_chars(s)[0] == t[0]);
    }
}

/// The characters of an optional text: none for none, its characters for
/// a text.
pub proof fn law_opt_view_meaning(o: Option<String>, b: Option<&str>)
    ensures
        o is None ==> opt_view(o) is None,
        o matches Some(s) ==> opt_view(o) == Some(s@),
        b is None ==> opt_str_view(b) is None,
        b matches Some(s) ==> opt_str_view(b) == Some(s@),
{
}

} // verus!
