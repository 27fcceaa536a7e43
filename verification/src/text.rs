//! Text handling for typed input: whitespace, trimming, keyword parsing and
//! placeholder substitution, all stated over sequences of characters.

use vstd::prelude::*;
use vstd::string::StrSliceExecFns;
use vstd::string::StringExecFns;

verus! {

/// Whether `c` carries the Unicode `White_Space` property.
pub open spec fn is_white_space(c: char) -> bool {
    let n = c as u32;
    ||| 0x09 <= n <= 0x0D
    ||| n == 0x20
    ||| n == 0x85
    ||| n == 0xA0
    ||| n == 0x1680
    ||| 0x2000 <= n <= 0x200A
    ||| n == 0x2028
    ||| n == 0x2029
    ||| n == 0x202F
    ||| n == 0x205F
    ||| n == 0x3000
}

/// `s` without its leading whitespace.
pub open spec fn trim_start(s: Seq<char>) -> Seq<char>
    decreases s.len(),
{
    if s.len() > 0 && is_white_space(s[0]) {
        trim_start(s.drop_first())
    } else {
        s
    }
}

/// `s` without its trailing whitespace.
pub open spec fn trim_end(s: Seq<char>) -> Seq<char>
    decreases s.len(),
{
    if s.len() > 0 && is_white_space(s.last()) {
        trim_end(s.drop_last())
    } else {
        s
    }
}

/// `s` without its surrounding whitespace.
pub open spec fn trimmed(s: Seq<char>) -> Seq<char> {
    trim_end(trim_start(s))
}

/// The number of characters before the first space of `s`; the whole length
/// where `s` holds no space.
pub open spec fn keyword_end(s: Seq<char>) -> int
    decreases s.len(),
{
    if s.len() == 0 || s[0] == ' ' {
        0
    } else {
        1 + keyword_end(s.drop_first())
    }
}

/// Whether typed text `s` splits into a keyword and a remainder, that is,
/// whether it holds a space.
pub open spec fn has_keyword(s: Seq<char>) -> bool {
    keyword_end(s) < s.len()
}

/// The keyword of typed text `s`: everything before its first space.
pub open spec fn parsed_keyword(s: Seq<char>) -> Seq<char> {
    s.take(keyword_end(s))
}

/// The search text of typed text `s`: what follows its first space, trimmed.
pub open spec fn parsed_search_text(s: Seq<char>) -> Seq<char> {
    if has_keyword(s) {
        trimmed(s.skip(keyword_end(s) + 1))
    } else {
        Seq::empty()
    }
}

/// `template` with every occurrence of the two characters `%s`, taken from
/// left to right without overlap, replaced by `text`.
pub open spec fn substituted(template: Seq<char>, text: Seq<char>) -> Seq<char>
    decreases template.len(),
{
    if template.len() == 0 {
        Seq::empty()
    } else if template.len() >= 2 && template[0] == '%' && template[1] == 's' {
        text + substituted(template.skip(2), text)
    } else {
        seq![template[0]] + substituted(template.drop_first(), text)
    }
}

/// Whether the two characters `%s` stand at position `i` of `s`.
pub open spec fn placeholder_at(s: Seq<char>, i: int) -> bool {
    0 <= i && i + 1 < s.len() && s[i] == '%' && s[i + 1] == 's'
}

/// Whether `s` holds no occurrence of `%s`.
pub open spec fn placeholder_free(s: Seq<char>) -> bool {
    forall|i: int| !placeholder_at(s, i)
}

/// Trimming from the front drops exactly the leading run of whitespace.
pub proof fn lemma_trim_start_is_skip(s: Seq<char>, i: int)
    requires
        0 <= i <= s.len(),
        forall|k: int| 0 <= k < i ==> is_white_space(s[k]),
        i < s.len() ==> !is_white_space(s[i]),
    ensures
        trim_start(s) == s.skip(i),
    decreases i,
{
    if i == 0 {
        assert(s.skip(0) =~= s);
    } else {
        let t = s.drop_first();
        assert forall|k: int| 0 <= k < i - 1 implies is_white_space(t[k]) by {
            assert(t[k] == s[k + 1]);
        }
        lemma_trim_start_is_skip(t, i - 1);
        assert(t.skip(i - 1) =~= s.skip(i));
    }
}

/// Trimming from the back drops exactly the trailing run of whitespace.
pub proof fn lemma_trim_end_is_take(s: Seq<char>, j: int)
    requires
        0 <= j <= s.len(),
        forall|k: int| j <= k < s.len() ==> is_white_space(s[k]),
        j > 0 ==> !is_white_space(s[j - 1]),
    ensures
        trim_end(s) == s.take(j),
    decreases s.len() - j,
{
    if j == s.len() {
        assert(s.take(j) =~= s);
    } else {
        let t = s.drop_last();
        assert forall|k: int| j <= k < t.len() implies is_white_space(t[k]) by {
            assert(t[k] == s[k]);
        }
        lemma_trim_end_is_take(t, j);
        assert(t.take(j) =~= s.take(j));
    }
}

/// Where the leading whitespace of `s` ends.
proof fn lemma_leading_whitespace(s: Seq<char>) -> (i: int)
    ensures
        0 <= i <= s.len(),
        forall|k: int| 0 <= k < i ==> is_white_space(s[k]),
        i < s.len() ==> !is_white_space(s[i]),
        trim_start(s) == s.skip(i),
    decreases s.len(),
{
    if s.len() > 0 && is_white_space(s[0]) {
        let t = s.drop_first();
        let j = lemma_leading_whitespace(t);
        assert forall|k: int| 0 <= k < j + 1 implies is_white_space(s[k]) by {
            if k > 0 {
                assert(s[k] == t[k - 1]);
            }
        }
        assert(t.skip(j) =~= s.skip(j + 1));
        j + 1
    } else {
        assert(s.skip(0) =~= s);
        0
    }
}

/// Where the trailing whitespace of `s` begins.
proof fn lemma_trailing_whitespace(s: Seq<char>) -> (j: int)
    ensures
        0 <= j <= s.len(),
        forall|k: int| j <= k < s.len() ==> is_white_space(s[k]),
        j > 0 ==> !is_white_space(s[j - 1]),
        trim_end(s) == s.take(j),
    decreases s.len(),
{
    if s.len() > 0 && is_white_space(s.last()) {
        let t = s.drop_last();
        let j = lemma_trailing_whitespace(t);
        assert forall|k: int| j <= k < s.len() implies is_white_space(s[k]) by {
            if k < t.len() {
                assert(s[k] == t[k]);
            }
        }
        assert(t.take(j) =~= s.take(j));
        j
    } else {
        assert(s.take(s.len() as int) =~= s);
        s.len() as int
    }
}

/// What trimming leaves is the stretch of the text between its leading and
/// its trailing whitespace: all that is cut off is whitespace, and what
/// stays neither begins nor ends with whitespace.
pub proof fn lemma_trimmed_is_the_core(s: Seq<char>)
    ensures
        exists|i: int, j: int|
            {
                &&& 0 <= i <= j <= s.len()
                &&& #[trigger] s.subrange(i, j) == trimmed(s)
                &&& forall|k: int| 0 <= k < i || j <= k < s.len() ==> is_white_space(s[k])
                &&& i < j ==> !is_white_space(s[i]) && !is_white_space(s[j - 1])
            },
{
    let i = lemma_leading_whitespace(s);
    let lead = s.skip(i);
    let m = lemma_trailing_whitespace(lead);
    let j = i + m;
    assert(lead.take(m) =~= s.subrange(i, j));
    assert forall|k: int| 0 <= k < i || j <= k < s.len() implies is_white_space(s[k]) by {
        if j <= k {
            assert(s[k] == lead[k - i]);
        }
    }
    if i < j {
        assert(lead[m - 1] == s[j - 1]);
    }
}

/// The keyword ends at the first space, or at the end of the text.
pub proof fn lemma_keyword_end_is(s: Seq<char>, i: int)
    requires
        0 <= i <= s.len(),
        forall|k: int| 0 <= k < i ==> s[k] != ' ',
        i < s.len() ==> s[i] == ' ',
    ensures
        keyword_end(s) == i,
    decreases i,
{
    if i > 0 {
        let t = s.drop_first();
        assert forall|k: int| 0 <= k < i - 1 implies t[k] != ' ' by {
            assert(t[k] == s[k + 1]);
        }
        lemma_keyword_end_is(t, i - 1);
    }
}

/// Whether `c` carries the Unicode `White_Space` property.
pub fn is_whitespace(c: char) -> (b: bool)
    ensures
        b == is_white_space(c),
{
    let n: u32 = c as u32;
    (0x09 <= n && n <= 0x0D) || n == 0x20 || n == 0x85 || n == 0xA0 || n == 0x1680 || (0x2000 <= n
        && n <= 0x200A) || n == 0x2028 || n == 0x2029 || n == 0x202F || n == 0x205F || n == 0x3000
}

/// The characters of `s`, in order.
pub fn chars_of(s: &str) -> (out: Vec<char>)
    ensures
        out@ == s@,
{
    let mut out: Vec<char> = Vec::new();
    for c in it: s.chars()
        invariant
            it.seq() == s@,
            out@ == it.seq().take(it.index()),
    {
        out.push(c);
    }
    out
}

/// `s` without its surrounding whitespace.
pub fn trim(s: &str) -> (out: String)
    ensures
        out@ == trimmed(s@),
{
    let chars = chars_of(s);
    let n = chars.len();
    let mut start: usize = 0;
    while start < n && is_whitespace(chars[start])
        invariant
            n == chars@.len(),
            start <= n,
            forall|k: int| 0 <= k < start ==> is_white_space(chars@[k]),
        decreases n - start,
    {
        start += 1;
    }
    let mut end: usize = n;
    while end > start && is_whitespace(chars[end - 1])
        invariant
            n == chars@.len(),
            start <= end <= n,
            forall|k: int| end <= k < n ==> is_white_space(chars@[k]),
        decreases end,
    {
        end -= 1;
    }
    proof {
        let lead = s@.skip(start as int);
        lemma_trim_start_is_skip(s@, start as int);
        assert forall|k: int| end - start <= k < lead.len() implies is_white_space(lead[k]) by {
            assert(lead[k] == s@[k + start]);
        }
        lemma_trim_end_is_take(lead, end - start);
        assert(lead.take(end - start) =~= s@.subrange(start as int, end as int));
    }
    String::from_str(s.substring_char(start, end))
}

/// Typed text split at its first space.
#[derive(Debug, Clone, PartialEq, Eq)]
pub struct ParsedInput {
    /// Everything before the first space; the whole text where there is none.
    pub keyword: String,
    /// What follows the first space, trimmed; empty where there is none.
    pub search_text: String,
    /// Whether the text held a space.
    pub has_keyword: bool,
}

/// Splits typed text at its first space into a keyword and a trimmed search
/// text.
pub fn parse_typed_text(typed_text: &str) -> (parsed: ParsedInput)
    ensures
        parsed.keyword@ == parsed_keyword(typed_text@),
        parsed.search_text@ == parsed_search_text(typed_text@),
        parsed.has_keyword == has_keyword(typed_text@),
{
    let chars = chars_of(typed_text);
    let n = chars.len();
    let mut i: usize = 0;
    while i < n && chars[i] != ' '
        invariant
            n == chars@.len(),
            i <= n,
            forall|k: int| 0 <= k < i ==> chars@[k] != ' ',
        decreases n - i,
    {
        i += 1;
    }
    proof {
        lemma_keyword_end_is(typed_text@, i as int);
    }
    let keyword = String::from_str(typed_text.substring_char(0, i));
    if i < n {
        let search_text = trim(typed_text.substring_char(i + 1, n));
        ParsedInput { keyword, search_text, has_keyword: true }
    } else {
        ParsedInput { keyword, search_text: String::new(), has_keyword: false }
    }
}

/// Text without a space is all keyword: nothing is split off.
pub proof fn lemma_parse_without_space(s: Seq<char>)
    requires
        !s.contains(' '),
    ensures
        !has_keyword(s),
        parsed_keyword(s) == s,
        parsed_search_text(s) == Seq::<char>::empty(),
{
    assert forall|k: int| 0 <= k < s.len() implies s[k] != ' ' by {
        if s[k] == ' ' {
            assert(s.contains(' '));
        }
    }
    lemma_keyword_end_is(s, s.len() as int);
    assert(s.take(s.len() as int) =~= s);
}

/// A keyword, one space and a remainder parse back into that keyword and
/// the remainder trimmed.
pub proof fn lemma_parse_keyword_and_rest(keyword: Seq<char>, rest: Seq<char>)
    requires
        !keyword.contains(' '),
    ensures
        has_keyword(keyword + seq![' '] + rest),
        parsed_keyword(keyword + seq![' '] + rest) == keyword,
        parsed_search_text(keyword + seq![' '] + rest) == trimmed(rest),
{
    let s = keyword + seq![' '] + rest;
    let i = keyword.len() as int;
    assert forall|k: int| 0 <= k < i implies s[k] != ' ' by {
        assert(s[k] == keyword[k]);
        if keyword[k] == ' ' {
            assert(keyword.contains(' '));
        }
    }
    assert(s[i] == ' ');
    lemma_keyword_end_is(s, i);
    assert(s.take(i) =~= keyword);
    assert(s.skip(i + 1) =~= rest);
}

/// A template without a placeholder is left as it is.
pub proof fn lemma_substituted_without_placeholder(template: Seq<char>, text: Seq<char>)
    requires
        placeholder_free(template),
    ensures
        substituted(template, text) == template,
    decreases template.len(),
{
    if template.len() > 0 {
        assert(!placeholder_at(template, 0));
        let t = template.drop_first();
        assert forall|i: int| !placeholder_at(t, i) by {
            assert(!placeholder_at(template, i + 1));
        }
        lemma_substituted_without_placeholder(t, text);
        assert(seq![template[0]] + t =~= template);
    }
}

/// The first placeholder of a template gives way to the text, and what
/// follows it is substituted in the same way.
pub proof fn lemma_substituted_at_placeholder(
    prefix: Seq<char>,
    suffix: Seq<char>,
    text: Seq<char>,
)
    requires
        placeholder_free(prefix),
    ensures
        substituted(prefix + seq!['%', 's'] + suffix, text) == prefix + text + substituted(
            suffix,
            text,
        ),
    decreases prefix.len(),
{
    let template = prefix + seq!['%', 's'] + suffix;
    if prefix.len() == 0 {
        assert(template.skip(2) =~= suffix);
        assert(prefix + text =~= text);
    } else {
        assert(!placeholder_at(prefix, 0));
        assert(template[0] == prefix[0]);
        if prefix.len() >= 2 {
            assert(template[1] == prefix[1]);
        } else {
            assert(template[1] == '%');
        }
        let p = prefix.drop_first();
        assert forall|i: int| !placeholder_at(p, i) by {
            assert(!placeholder_at(prefix, i + 1));
        }
        lemma_substituted_at_placeholder(p, suffix, text);
        assert(template.drop_first() =~= p + seq!['%', 's'] + suffix);
        assert(seq![template[0]] + (p + text + substituted(suffix, text)) =~= prefix + text
            + substituted(suffix, text));
    }
}

/// `template` with every `%s` replaced by `text`, which is copied as it is.
pub fn substitute(template: &str, text: &str) -> (out: String)
    ensures
        out@ == substituted(template@, text@),
{
    let chars = chars_of(template);
    let n = chars.len();
    let mut out = String::new();
    let mut copied: usize = 0;
    let mut i: usize = 0;
    proof {
        assert(template@.skip(0) =~= template@);
        assert(out@ + template@.subrange(0, 0) + substituted(template@, text@) =~= substituted(
            template@,
            text@,
        ));
    }
    while i < n
        invariant
            n == chars@.len(),
            chars@ == template@,
            copied <= i <= n,
            substituted(template@, text@) == out@ + template@.subrange(copied as int, i as int)
                + substituted(template@.skip(i as int), text@),
        decreases n - i,
    {
        let ghost rest = template@.skip(i as int);
        let ghost before = out@;
        if chars[i] == '%' && i + 1 < n && chars[i + 1] == 's' {
            out.append(template.substring_char(copied, i));
            out.append(text);
            proof {
                assert(rest[0] == '%' && rest[1] == 's');
                assert(rest.skip(2) =~= template@.skip(i + 2));
                assert(template@.subrange(i + 2, i + 2) =~= Seq::<char>::empty());
                assert(out@ + template@.subrange(i + 2, i + 2) + substituted(
                    template@.skip(i + 2),
                    text@,
                ) =~= before + template@.subrange(copied as int, i as int) + substituted(
                    rest,
                    text@,
                ));
            }
            i += 2;
            copied = i;
        } else {
            proof {
                assert(rest[0] == chars@[i as int]);
                if rest.len() >= 2 {
                    assert(rest[1] == chars@[i + 1]);
                }
                assert(rest.drop_first() =~= template@.skip(i + 1));
                assert(template@.subrange(copied as int, i + 1) =~= template@.subrange(
                    copied as int,
                    i as int,
                ) + seq![rest[0]]);
                assert(out@ + template@.subrange(copied as int, i + 1) + substituted(
                    template@.skip(i + 1),
                    text@,
                ) =~= out@ + template@.subrange(copied as int, i as int) + substituted(
                    rest,
                    text@,
                ));
            }
            i += 1;
        }
    }
    proof {
        assert(template@.skip(n as int) =~= Seq::<char>::empty());
        assert(out@ + template@.subrange(copied as int, n as int) + Seq::<char>::empty() =~= out@
            + template@.subrange(copied as int, n as int));
    }
    out.append(template.substring_char(copied, n));
    out
}

} // verus!
