//! Character-level facts used by every text buffer of the cockpit:
//! UTF-8 widths, control characters and bounded, sanitized prefixes.
use vstd::prelude::*;
use vstd::utf8::*;

verus! {

/// Number of bytes of the UTF-8 encoding of `c`.
pub open spec fn char_width(c: char) -> nat {
    if (c as u32) <= 0x7F {
        1
    } else if (c as u32) <= 0x7FF {
        2
    } else if (c as u32) <= 0xFFFF {
        3
    } else {
        4
    }
}

/// Number of bytes of the UTF-8 encoding of `s`.
pub open spec fn byte_len(s: Seq<char>) -> nat
    decreases s.len(),
{
    if s.len() == 0 {
        0
    } else {
        char_width(s[0]) + byte_len(s.drop_first())
    }
}

/// A control character: general category Cc, that is U+0000..=U+001F and U+007F..=U+009F.
pub open spec fn is_control(c: char) -> bool {
    (c as u32) <= 0x1F || (0x7F <= (c as u32) && (c as u32) <= 0x9F)
}

/// The width agrees with the UTF-8 encoding that `str::len` counts.
pub proof fn lemma_char_width_is_encoding_len(c: char)
    ensures
        encode_scalar(c as u32).len() == char_width(c),
{
    char_is_scalar(c);
}

/// `byte_len` is the length of the UTF-8 encoding.
pub proof fn lemma_byte_len_is_encoding_len(s: Seq<char>)
    ensures
        encode_utf8(s).len() == byte_len(s),
    decreases s.len(),
{
    if s.len() > 0 {
        lemma_char_width_is_encoding_len(s[0]);
        lemma_byte_len_is_encoding_len(s.drop_first());
    }
}

/// Byte length is additive over concatenation.
pub proof fn lemma_byte_len_concat(a: Seq<char>, b: Seq<char>)
    ensures
        byte_len(a + b) == byte_len(a) + byte_len(b),
    decreases a.len(),
{
    if a.len() > 0 {
        assert((a + b).drop_first() =~= a.drop_first() + b);
        lemma_byte_len_concat(a.drop_first(), b);
    } else {
        assert(a + b =~= b);
    }
}

/// Appending one character adds its width.
pub proof fn lemma_byte_len_push(s: Seq<char>, c: char)
    ensures
        byte_len(s.push(c)) == byte_len(s) + char_width(c),
{
    lemma_byte_len_concat(s, seq![c]);
    assert(s.push(c) =~= s + seq![c]);
    assert(seq![c].drop_first() =~= Seq::<char>::empty());
    assert(byte_len(Seq::<char>::empty()) == 0);
    assert(byte_len(seq![c]) == char_width(c) + byte_len(seq![c].drop_first()));
}

/// The UTF-8 width of `c`, as `char::len_utf8` reports it.
pub fn utf8_width(c: char) -> (n: usize)
    ensures
        n == char_width(c),
        1 <= n <= 4,
{
    let v = c as u32;
    if v <= 0x7F {
        1
    } else if v <= 0x7FF {
        2
    } else if v <= 0xFFFF {
        3
    } else {
        4
    }
}

} // verus!

verus! {

/// The characters of `s`, in order.
pub fn chars_of(s: &str) -> (v: Vec<char>)
    ensures
        v@ == s@,
{
    let mut v: Vec<char> = Vec::new();
    for c in iter: s.chars()
        invariant
            v@ == iter.seq().take(iter.index() as int),
    {
        v.push(c);
    }
    v
}

} // verus!

verus! {

/// `s` without its control characters.
pub open spec fn strip_controls(s: Seq<char>) -> Seq<char>
    decreases s.len(),
{
    if s.len() == 0 {
        Seq::empty()
    } else if is_control(s[0]) {
        strip_controls(s.drop_first())
    } else {
        seq![s[0]] + strip_controls(s.drop_first())
    }
}

/// `s` without its control characters, line feeds excepted.
pub open spec fn strip_controls_keep_newlines(s: Seq<char>) -> Seq<char>
    decreases s.len(),
{
    if s.len() == 0 {
        Seq::empty()
    } else if is_control(s[0]) && s[0] != '\n' {
        strip_controls_keep_newlines(s.drop_first())
    } else {
        seq![s[0]] + strip_controls_keep_newlines(s.drop_first())
    }
}

/// `s` with every `\r\n` and every lone `\r` turned into `\n`.
pub open spec fn unify_newlines(s: Seq<char>) -> Seq<char>
    decreases s.len(),
{
    if s.len() == 0 {
        Seq::empty()
    } else if s[0] == '\r' {
        if s.len() > 1 && s[1] == '\n' {
            seq!['\n'] + unify_newlines(s.skip(2))
        } else {
            seq!['\n'] + unify_newlines(s.drop_first())
        }
    } else {
        seq![s[0]] + unify_newlines(s.drop_first())
    }
}

/// The longest prefix of `s` whose UTF-8 encoding takes at most `budget` bytes.
pub open spec fn fitted(s: Seq<char>, budget: int) -> Seq<char>
    decreases s.len(),
{
    if s.len() == 0 || char_width(s[0]) > budget {
        Seq::empty()
    } else {
        seq![s[0]] + fitted(s.drop_first(), budget - char_width(s[0]))
    }
}

/// What single-line input keeps of `s` within `limit` bytes.
pub open spec fn safe_prefix(s: Seq<char>, limit: int) -> Seq<char> {
    fitted(strip_controls(s), limit)
}

/// What multi-line input keeps of `s` within `limit` bytes.
pub open spec fn multiline_prefix(s: Seq<char>, limit: int) -> Seq<char> {
    fitted(strip_controls_keep_newlines(unify_newlines(s)), limit)
}

/// A fitted prefix stays within its budget.
pub proof fn lemma_fitted_within_budget(s: Seq<char>, budget: int)
    ensures
        byte_len(fitted(s, budget)) <= if budget < 0 { 0 } else { budget },
        fitted(s, budget).len() <= s.len(),
        forall|i: int| 0 <= i < fitted(s, budget).len() ==> fitted(s, budget)[i] == s[i],
    decreases s.len(),
{
    if s.len() == 0 || char_width(s[0]) > budget {
        assert(byte_len(Seq::<char>::empty()) == 0);
    } else {
        let rest = fitted(s.drop_first(), budget - char_width(s[0]));
        lemma_fitted_within_budget(s.drop_first(), budget - char_width(s[0]));
        assert((seq![s[0]] + rest).drop_first() =~= rest);
        assert forall|i: int| 0 <= i < fitted(s, budget).len() implies fitted(s, budget)[i]
            == s[i] by {
            if i > 0 {
                assert(fitted(s, budget)[i] == rest[i - 1]);
                assert(s.drop_first()[i - 1] == s[i]);
            }
        }
    }
}

/// Stripping keeps no control character.
pub proof fn lemma_strip_controls_is_clean(s: Seq<char>)
    ensures
        forall|i: int| 0 <= i < strip_controls(s).len() ==> !is_control(#[trigger] strip_controls(s)[i]),
        strip_controls(s).len() <= s.len(),
    decreases s.len(),
{
    if s.len() > 0 {
        lemma_strip_controls_is_clean(s.drop_first());
    }
}

/// Stripping keeps no control character other than a line feed.
pub proof fn lemma_strip_keep_newlines_is_clean(s: Seq<char>)
    ensures
        forall|i: int|
            0 <= i < strip_controls_keep_newlines(s).len() ==> (!is_control(
                #[trigger] strip_controls_keep_newlines(s)[i],
            ) || strip_controls_keep_newlines(s)[i] == '\n'),
        strip_controls_keep_newlines(s).len() <= s.len(),
    decreases s.len(),
{
    if s.len() > 0 {
        lemma_strip_keep_newlines_is_clean(s.drop_first());
    }
}

/// Appends `c` to `s`, as `String::push` does.
#[verifier::external_body]
fn push_char(s: &mut String, c: char)
    ensures
        final(s)@ == old(s)@.push(c),
{
    s.push(c);
}

/// The string made of `chars`.
pub fn string_of(chars: &Vec<char>) -> (s: String)
    ensures
        s@ == chars@,
{
    let mut s = String::new();
    let mut i: usize = 0;
    while i < chars.len()
        invariant
            i <= chars.len(),
            s@ == chars@.take(i as int),
        decreases chars.len() - i,
    {
        push_char(&mut s, chars[i]);
        i = i + 1;
        assert(s@ =~= chars@.take(i as int));
    }
    assert(chars@.take(i as int) =~= chars@);
    s
}

/// Whether `c` is a control character, as `char::is_control` decides.
pub fn is_control_char(c: char) -> (b: bool)
    ensures
        b == is_control(c),
{
    let v = c as u32;
    v <= 0x1F || (0x7F <= v && v <= 0x9F)
}

/// `s` without its control characters.
pub fn strip_control_chars(s: &Vec<char>) -> (out: Vec<char>)
    ensures
        out@ == strip_controls(s@),
{
    let mut out: Vec<char> = Vec::new();
    let mut i: usize = 0;
    assert(s@.skip(0) =~= s@);
    assert(out@ + strip_controls(s@) =~= strip_controls(s@));
    while i < s.len()
        invariant
            i <= s.len(),
            out@ + strip_controls(s@.skip(i as int)) == strip_controls(s@),
        decreases s.len() - i,
    {
        let c = s[i];
        let ghost before = out@;
        let ghost rest = s@.skip(i as int);
        assert(rest.drop_first() =~= s@.skip(i + 1));
        assert(rest[0] == c);
        if !is_control_char(c) {
            out.push(c);
            assert(before + (seq![c] + strip_controls(s@.skip(i + 1))) =~= out@ + strip_controls(
                s@.skip(i + 1),
            ));
        }
        i = i + 1;
    }
    assert(s@.skip(i as int) =~= Seq::<char>::empty());
    assert(out@ + Seq::<char>::empty() =~= out@);
    out
}

/// `s` without its control characters, line feeds excepted.
pub fn strip_control_chars_keep_newlines(s: &Vec<char>) -> (out: Vec<char>)
    ensures
        out@ == strip_controls_keep_newlines(s@),
{
    let mut out: Vec<char> = Vec::new();
    let mut i: usize = 0;
    assert(s@.skip(0) =~= s@);
    assert(out@ + strip_controls_keep_newlines(s@) =~= strip_controls_keep_newlines(s@));
    while i < s.len()
        invariant
            i <= s.len(),
            out@ + strip_controls_keep_newlines(s@.skip(i as int)) == strip_controls_keep_newlines(
                s@,
            ),
        decreases s.len() - i,
    {
        let c = s[i];
        let ghost before = out@;
        let ghost rest = s@.skip(i as int);
        assert(rest.drop_first() =~= s@.skip(i + 1));
        assert(rest[0] == c);
        if !is_control_char(c) || c == '\n' {
            out.push(c);
            assert(before + (seq![c] + strip_controls_keep_newlines(s@.skip(i + 1))) =~= out@
                + strip_controls_keep_newlines(s@.skip(i + 1)));
        }
        i = i + 1;
    }
    assert(s@.skip(i as int) =~= Seq::<char>::empty());
    assert(out@ + Seq::<char>::empty() =~= out@);
    out
}

/// The longest prefix of `s` whose UTF-8 encoding takes at most `limit` bytes.
pub fn fit_chars(s: &Vec<char>, limit: usize) -> (out: Vec<char>)
    ensures
        out@ == fitted(s@, limit as int),
        byte_len(out@) <= limit,
{
    let mut out: Vec<char> = Vec::new();
    let mut used: usize = 0;
    let mut i: usize = 0;
    assert(s@.skip(0) =~= s@);
    assert(out@ + fitted(s@, limit as int) =~= fitted(s@, limit as int));
    assert(byte_len(out@) == 0);
    while i < s.len()
        invariant
            i <= s.len(),
            used == byte_len(out@),
            used <= limit,
            out@ + fitted(s@.skip(i as int), limit - used) == fitted(s@, limit as int),
        decreases s.len() - i,
    {
        let c = s[i];
        let ghost before = out@;
        let ghost rest = s@.skip(i as int);
        assert(rest.drop_first() =~= s@.skip(i + 1));
        assert(rest[0] == c);
        let w = utf8_width(c);
        if w > limit - used {
            assert(fitted(rest, limit - used) =~= Seq::<char>::empty());
            assert(out@ + Seq::<char>::empty() =~= out@);
            return out;
        }
        out.push(c);
        proof {
            lemma_byte_len_push(before, c);
            assert(before + (seq![c] + fitted(s@.skip(i + 1), limit - used - w)) =~= out@ + fitted(
                s@.skip(i + 1),
                limit - used - w,
            ));
        }
        used = used + w;
        i = i + 1;
    }
    assert(s@.skip(i as int) =~= Seq::<char>::empty());
    assert(fitted(Seq::<char>::empty(), limit - used) =~= Seq::<char>::empty());
    assert(out@ + Seq::<char>::empty() =~= out@);
    out
}

/// `s` with every `\r\n` and every lone `\r` turned into `\n`.
pub fn unify_newline_chars(s: &Vec<char>) -> (out: Vec<char>)
    ensures
        out@ == unify_newlines(s@),
{
    let mut out: Vec<char> = Vec::new();
    let mut i: usize = 0;
    assert(s@.skip(0) =~= s@);
    assert(out@ + unify_newlines(s@) =~= unify_newlines(s@));
    while i < s.len()
        invariant
            i <= s.len(),
            out@ + unify_newlines(s@.skip(i as int)) == unify_newlines(s@),
        decreases s.len() - i,
    {
        let c = s[i];
        let ghost before = out@;
        let ghost rest = s@.skip(i as int);
        assert(rest.drop_first() =~= s@.skip(i + 1));
        assert(rest[0] == c);
        if c == '\r' {
            out.push('\n');
            if i + 1 < s.len() && s[i + 1] == '\n' {
                assert(rest.skip(2) =~= s@.skip(i + 2));
                assert(rest[1] == s@[i + 1]);
                assert(before + (seq!['\n'] + unify_newlines(s@.skip(i + 2))) =~= out@
                    + unify_newlines(s@.skip(i + 2)));
                i = i + 2;
            } else {
                assert(before + (seq!['\n'] + unify_newlines(s@.skip(i + 1))) =~= out@
                    + unify_newlines(s@.skip(i + 1)));
                i = i + 1;
            }
        } else {
            out.push(c);
            assert(before + (seq![c] + unify_newlines(s@.skip(i + 1))) =~= out@ + unify_newlines(
                s@.skip(i + 1),
            ));
            i = i + 1;
        }
    }
    assert(s@.skip(i as int) =~= Seq::<char>::empty());
    assert(out@ + Seq::<char>::empty() =~= out@);
    out
}

/// What single-line input keeps of `input`: its characters other than control
/// characters, up to the last one that still fits in `byte_limit` bytes.
pub fn bounded_safe_prefix(input: &str, byte_limit: usize) -> (out: Vec<char>)
    ensures
        out@ == safe_prefix(input@, byte_limit as int),
        byte_len(out@) <= byte_limit,
{
    let chars = chars_of(input);
    let clean = strip_control_chars(&chars);
    fit_chars(&clean, byte_limit)
}

/// What multi-line input keeps of `input`: line breaks unified to `\n`, control
/// characters other than `\n` dropped, cut before the first character that no
/// longer fits in `byte_limit` bytes.
pub fn bounded_multiline_prefix(input: &str, byte_limit: usize) -> (out: Vec<char>)
    ensures
        out@ == multiline_prefix(input@, byte_limit as int),
        byte_len(out@) <= byte_limit,
{
    let chars = chars_of(input);
    let unified = unify_newline_chars(&chars);
    let clean = strip_control_chars_keep_newlines(&unified);
    fit_chars(&clean, byte_limit)
}

} // verus!

verus! {

/// A white-space character: the Unicode `White_Space` property that `char::is_whitespace` tests.
pub open spec fn is_whitespace(c: char) -> bool {
    let v = c as u32;
    (0x09 <= v && v <= 0x0D) || v == 0x20 || v == 0x85 || v == 0xA0 || v == 0x1680 || (0x2000
        <= v && v <= 0x200A) || v == 0x2028 || v == 0x2029 || v == 0x202F || v == 0x205F || v
        == 0x3000
}

/// `s` is empty once white space is trimmed.
pub open spec fn is_blank(s: Seq<char>) -> bool {
    forall|i: int| 0 <= i < s.len() ==> is_whitespace(#[trigger] s[i])
}

/// Whether `c` is white space, as `char::is_whitespace` decides.
pub fn is_whitespace_char(c: char) -> (b: bool)
    ensures
        b == is_whitespace(c),
{
    let v = c as u32;
    (0x09 <= v && v <= 0x0D) || v == 0x20 || v == 0x85 || v == 0xA0 || v == 0x1680 || (0x2000
        <= v && v <= 0x200A) || v == 0x2028 || v == 0x2029 || v == 0x202F || v == 0x205F || v
        == 0x3000
}

/// Whether `s` trims to nothing.
pub fn is_blank_chars(s: &Vec<char>) -> (b: bool)
    ensures
        b == is_blank(s@),
{
    let mut i: usize = 0;
    while i < s.len()
        invariant
            i <= s.len(),
            forall|j: int| 0 <= j < i ==> is_whitespace(#[trigger] s@[j]),
        decreases s.len() - i,
    {
        if !is_whitespace_char(s[i]) {
            return false;
        }
        i = i + 1;
    }
    true
}

/// A prefix takes no more bytes than the whole.
pub proof fn lemma_byte_len_take(s: Seq<char>, k: int)
    requires
        0 <= k <= s.len(),
    ensures
        byte_len(s.take(k)) <= byte_len(s),
        byte_len(s.take(k)) + byte_len(s.skip(k)) == byte_len(s),
{
    lemma_byte_len_concat(s.take(k), s.skip(k));
    assert(s.take(k) + s.skip(k) =~= s);
}

/// Number of bytes of the UTF-8 encoding of the first `upto` characters of `s`.
pub fn prefix_byte_len(s: &Vec<char>, upto: usize) -> (n: usize)
    requires
        upto <= s.len(),
        byte_len(s@) <= usize::MAX,
    ensures
        n == byte_len(s@.take(upto as int)),
{
    let mut n: usize = 0;
    let mut i: usize = 0;
    assert(s@.take(0) =~= Seq::<char>::empty());
    assert(byte_len(Seq::<char>::empty()) == 0);
    while i < upto
        invariant
            i <= upto <= s.len(),
            byte_len(s@) <= usize::MAX,
            n == byte_len(s@.take(i as int)),
        decreases upto - i,
    {
        proof {
            assert(s@.take(i + 1) =~= s@.take(i as int).push(s@[i as int]));
            lemma_byte_len_push(s@.take(i as int), s@[i as int]);
            lemma_byte_len_take(s@, i + 1);
        }
        n = n + utf8_width(s[i]);
        i = i + 1;
    }
    n
}

/// Whether `a` and `b` hold the same characters.
pub fn same_chars(a: &Vec<char>, b: &Vec<char>) -> (eq: bool)
    ensures
        eq == (a@ == b@),
{
    if a.len() != b.len() {
        return false;
    }
    let mut i: usize = 0;
    while i < a.len()
        invariant
            i <= a.len() == b.len(),
            forall|j: int| 0 <= j < i ==> a@[j] == b@[j],
        decreases a.len() - i,
    {
        if a[i] != b[i] {
            return false;
        }
        i = i + 1;
    }
    assert(a@ =~= b@);
    true
}

/// A copy of `s`.
pub fn copy_chars(s: &Vec<char>) -> (out: Vec<char>)
    ensures
        out@ == s@,
{
    let mut out: Vec<char> = Vec::new();
    let mut i: usize = 0;
    while i < s.len()
        invariant
            i <= s.len(),
            out@ == s@.take(i as int),
        decreases s.len() - i,
    {
        out.push(s[i]);
        i = i + 1;
        assert(out@ =~= s@.take(i as int));
    }
    assert(s@.take(i as int) =~= s@);
    out
}

} // verus!
