//! Cleaning of rich text that the service sends: character references are
//! decoded, markup tags are dropped but for images, and the ends are trimmed.

use vstd::prelude::*;
use crate::text::chars_of;

verus! {

/// What `html_escape::decode_html_entities` makes of a text.
pub uninterp spec fn decoded_entities(text: Seq<char>) -> Seq<char>;

/// Whether the standard library counts a character as whitespace.
pub uninterp spec fn is_whitespace_char(c: char) -> bool;

/// `html_escape::decode_html_entities`: decodes the named and numeric
/// character references of a text. The result is named; of it the contract
/// says only that a text without `&` comes back as it is.
#[verifier::external_body]
pub(crate) fn decode_entities(text: &str) -> (r: String)
    ensures
        r@ == decoded_entities(text@),
        !text@.contains('&') ==> r@ == text@,
{
    html_escape::decode_html_entities(text).into_owned()
}

/// `char::is_whitespace`: whether a character is whitespace. The result is
/// named, not described.
#[verifier::external_body]
pub(crate) fn char_is_whitespace(c: char) -> (r: bool)
    ensures
        r == is_whitespace_char(c),
{
    c.is_whitespace()
}

/// The number of whitespace characters at the start of a text.
pub open spec fn leading_space(s: Seq<char>) -> nat
    decreases s.len(),
{
    if s.len() > 0 && is_whitespace_char(s[0]) {
        1 + leading_space(s.drop_first())
    } else {
        0
    }
}

/// The number of whitespace characters at the end of a text.
pub open spec fn trailing_space(s: Seq<char>) -> nat
    decreases s.len(),
{
    if s.len() > 0 && is_whitespace_char(s.last()) {
        1 + trailing_space(s.drop_last())
    } else {
        0
    }
}

/// A text without its leading and trailing whitespace.
pub open spec fn trimmed(s: Seq<char>) -> Seq<char> {
    let rest = s.skip(leading_space(s) as int);
    rest.take(rest.len() - trailing_space(rest))
}

/// The position of the first `c` in `s`, or the length of `s` where there
/// is none.
pub open spec fn first_index_of(s: Seq<char>, c: char) -> nat
    decreases s.len(),
{
    if s.len() == 0 || s[0] == c {
        0
    } else {
        1 + first_index_of(s.drop_first(), c)
    }
}

/// The number of characters `c` at the start of `s`.
pub open spec fn leading_run(s: Seq<char>, c: char) -> nat
    decreases s.len(),
{
    if s.len() > 0 && s[0] == c {
        1 + leading_run(s.drop_first(), c)
    } else {
        0
    }
}

/// Whether a character ends the name of a tag.
pub open spec fn ends_tag_name(c: char) -> bool {
    c == ' ' || c == '>' || c == '/'
}

/// The number of characters at the start of `s` that do not end a tag name.
pub open spec fn name_length(s: Seq<char>) -> nat
    decreases s.len(),
{
    if s.len() > 0 && !ends_tag_name(s[0]) {
        1 + name_length(s.drop_first())
    } else {
        0
    }
}

/// The name of a tag: what stands behind its leading `<` and `/` characters,
/// up to the first blank, `>` or `/`.
pub open spec fn tag_name(tag: Seq<char>) -> Seq<char> {
    let a = tag.skip(leading_run(tag, '<') as int);
    let b = a.skip(leading_run(a, '/') as int);
    b.take(name_length(b) as int)
}

/// Whether a name is `img` in any mix of upper and lower case.
pub open spec fn is_img_name(name: Seq<char>) -> bool {
    &&& name.len() == 3
    &&& (name[0] == 'i' || name[0] == 'I')
    &&& (name[1] == 'm' || name[1] == 'M')
    &&& (name[2] == 'g' || name[2] == 'G')
}

/// What a tag is replaced by: itself where it is an image tag, nothing
/// otherwise.
pub open spec fn tag_replacement(tag: Seq<char>) -> Seq<char> {
    if is_img_name(tag_name(tag)) {
        tag
    } else {
        Seq::empty()
    }
}

/// A text without its tags, image tags kept. A tag runs from a `<` to the
/// next `>`; a `<` that no `>` follows is ordinary text.
pub open spec fn without_tags(s: Seq<char>) -> Seq<char>
    decreases s.len(),
{
    if s.len() == 0 {
        s
    } else if s[0] == '<' && first_index_of(s, '>') < s.len() {
        let end = first_index_of(s, '>') as int + 1;
        tag_replacement(s.take(end)) + without_tags(s.skip(end))
    } else {
        seq![s[0]] + without_tags(s.drop_first())
    }
}

/// A text as the client shows it: references decoded, tags dropped but for
/// images, ends trimmed.
pub open spec fn cleaned(text: Seq<char>) -> Seq<char> {
    trimmed(without_tags(decoded_entities(text)))
}

/// `first_index_of` stays within the text.
pub proof fn lemma_first_index_bound(s: Seq<char>, c: char)
    ensures
        first_index_of(s, c) <= s.len(),
        first_index_of(s, c) < s.len() ==> s[first_index_of(s, c) as int] == c,
    decreases s.len(),
{
    if s.len() > 0 && s[0] != c {
        lemma_first_index_bound(s.drop_first(), c);
    }
}

/// The position of the first `c` at or behind `from`, or the length of the
/// text where there is none.
fn find_char(s: &Vec<char>, from: usize, c: char) -> (r: usize)
    requires
        from <= s@.len(),
    ensures
        r == from + first_index_of(s@.skip(from as int), c),
        from <= r <= s@.len(),
{
    let mut i: usize = from;
    while i < s.len() && s[i] != c
        invariant
            from <= i <= s@.len(),
            first_index_of(s@.skip(from as int), c) == (i - from) + first_index_of(
                s@.skip(i as int),
                c,
            ),
        decreases s@.len() - i,
    {
        assert(s@.skip(i as int).drop_first() =~= s@.skip(i as int + 1));
        i += 1;
    }
    proof {
        lemma_first_index_bound(s@.skip(i as int), c);
    }
    i
}

/// The number of characters `c` at or behind `from`, without a gap.
fn run_length(s: &Vec<char>, from: usize, c: char) -> (r: usize)
    requires
        from <= s@.len(),
    ensures
        r == leading_run(s@.skip(from as int), c),
        from + r <= s@.len(),
{
    let mut i: usize = from;
    while i < s.len() && s[i] == c
        invariant
            from <= i <= s@.len(),
            leading_run(s@.skip(from as int), c) == (i - from) + leading_run(s@.skip(i as int), c),
        decreases s@.len() - i,
    {
        assert(s@.skip(i as int).drop_first() =~= s@.skip(i as int + 1));
        i += 1;
    }
    i - from
}

/// Whether the tag that `s` holds from `from` up to `to` is an image tag.
fn is_img_tag(s: &Vec<char>, from: usize, to: usize) -> (r: bool)
    requires
        from <= to <= s@.len(),
    ensures
        r == is_img_name(tag_name(s@.subrange(from as int, to as int))),
{
    let ghost tag = s@.subrange(from as int, to as int);
    let mut t: Vec<char> = Vec::new();
    let mut k: usize = from;
    while k < to
        invariant
            from <= k <= to <= s@.len(),
            t@ == s@.subrange(from as int, k as int),
        decreases to - k,
    {
        t.push(s[k]);
        assert(t@ =~= s@.subrange(from as int, k as int + 1));
        k += 1;
    }
    assert(t@ == tag);
    let a = run_length(&t, 0, '<');
    assert(t@.skip(0) =~= t@);
    let b = run_length(&t, a, '/');
    let start = a + b;
    let ghost rest = t@.skip(a as int).skip(b as int);
    assert(rest =~= t@.skip(start as int));
    let mut n: usize = start;
    while n < t.len() && !(t[n] == ' ' || t[n] == '>' || t[n] == '/')
        invariant
            start <= n <= t@.len(),
            name_length(t@.skip(start as int)) == (n - start) + name_length(t@.skip(n as int)),
        decreases t@.len() - n,
    {
        assert(t@.skip(n as int).drop_first() =~= t@.skip(n as int + 1));
        n += 1;
    }
    let ghost name = tag_name(tag);
    assert(name =~= t@.subrange(start as int, n as int));
    if n - start != 3 {
        return false;
    }
    assert(name[0] == t@[start as int]);
    assert(name[1] == t@[start + 1]);
    assert(name[2] == t@[start + 2]);
    (t[start] == 'i' || t[start] == 'I') && (t[start + 1] == 'm' || t[start + 1] == 'M') && (t[start
        + 2] == 'g' || t[start + 2] == 'G')
}

/// Taking the tags out of a text can be done piece by piece.
proof fn lemma_without_tags_step(s: Seq<char>, i: int)
    requires
        0 <= i < s.len(),
    ensures
        s[i] == '<' && first_index_of(s.skip(i), '>') < s.len() - i ==> without_tags(s.skip(i))
            == tag_replacement(s.subrange(i, i + first_index_of(s.skip(i), '>') + 1))
            + without_tags(s.skip(i + first_index_of(s.skip(i), '>') + 1)),
        !(s[i] == '<' && first_index_of(s.skip(i), '>') < s.len() - i) ==> without_tags(s.skip(i))
            == seq![s[i]] + without_tags(s.skip(i + 1)),
{
    let rest = s.skip(i);
    assert(rest[0] == s[i]);
    assert(rest.drop_first() =~= s.skip(i + 1));
    if s[i] == '<' && first_index_of(rest, '>') < rest.len() {
        let end = first_index_of(rest, '>') as int + 1;
        assert(rest.take(end) =~= s.subrange(i, i + end));
        assert(rest.skip(end) =~= s.skip(i + end));
    }
}

/// Drops the tags of a text, keeping image tags.
pub fn strip_tags(text: &str) -> (r: String)
    ensures
        r@ == without_tags(text@),
{
    let s = chars_of(text);
    let out = strip_tag_chars(&s);
    text_of(&out, 0, out.len())
}

/// Drops the tags of a text that is given by its characters.
fn strip_tag_chars(s: &Vec<char>) -> (out: Vec<char>)
    ensures
        out@ == without_tags(s@),
{
    let mut out: Vec<char> = Vec::new();
    let mut i: usize = 0;
    assert(s@.skip(0) =~= s@);
    while i < s.len()
        invariant
            i <= s@.len(),
            without_tags(s@) == out@ + without_tags(s@.skip(i as int)),
        decreases s@.len() - i,
    {
        proof {
            lemma_without_tags_step(s@, i as int);
        }
        let ghost before = out@;
        if s[i] == '<' {
            let close = find_char(s, i, '>');
            if close < s.len() {
                if is_img_tag(s, i, close + 1) {
                    let mut k: usize = i;
                    let end: usize = close + 1;
                    while k < end
                        invariant
                            i <= k <= end <= s@.len(),
                            out@ == before + s@.subrange(i as int, k as int),
                        decreases end - k,
                    {
                        out.push(s[k]);
                        assert(out@ =~= before + s@.subrange(i as int, k as int + 1));
                        k += 1;
                    }
                }
                assert(out@ + without_tags(s@.skip(close as int + 1)) =~= before + (tag_replacement(
                    s@.subrange(i as int, close as int + 1),
                ) + without_tags(s@.skip(close as int + 1))));
                i = close + 1;
                continue ;
            }
        }
        out.push(s[i]);
        assert(out@ + without_tags(s@.skip(i as int + 1)) =~= before + (seq![s@[i as int]]
            + without_tags(s@.skip(i as int + 1))));
        i += 1;
    }
    assert(s@.skip(i as int) =~= Seq::<char>::empty());
    assert(out@ + Seq::<char>::empty() =~= out@);
    out
}

/// The text that `s` holds from `from` up to `to`.
pub fn text_of(s: &Vec<char>, from: usize, to: usize) -> (r: String)
    requires
        from <= to <= s@.len(),
    ensures
        r@ == s@.subrange(from as int, to as int),
{
    let mut r = String::new();
    let mut k: usize = from;
    while k < to
        invariant
            from <= k <= to <= s@.len(),
            r@ == s@.subrange(from as int, k as int),
        decreases to - k,
    {
        r.push(s[k]);
        assert(r@ =~= s@.subrange(from as int, k as int + 1));
        k += 1;
    }
    r
}

/// The number of marks at the start of a list.
pub open spec fn leading_marks(marks: Seq<bool>) -> nat
    decreases marks.len(),
{
    if marks.len() > 0 && marks[0] {
        1 + leading_marks(marks.drop_first())
    } else {
        0
    }
}

/// The number of marks at the end of a list.
pub open spec fn trailing_marks(marks: Seq<bool>) -> nat
    decreases marks.len(),
{
    if marks.len() > 0 && marks.last() {
        1 + trailing_marks(marks.drop_last())
    } else {
        0
    }
}

/// A text without the characters that are marked at its start and at its
/// end.
pub open spec fn without_marked_ends(s: Seq<char>, marks: Seq<bool>) -> Seq<char> {
    let from = leading_marks(marks) as int;
    let rest = s.skip(from);
    rest.take(rest.len() - trailing_marks(marks.skip(from)))
}

/// Marking the whitespace and dropping the marked ends is trimming.
pub proof fn lemma_marked_ends_are_space(s: Seq<char>, marks: Seq<bool>)
    requires
        marks.len() == s.len(),
        forall|i: int| 0 <= i < s.len() ==> marks[i] == is_whitespace_char(s[i]),
    ensures
        leading_marks(marks) == leading_space(s),
        trailing_marks(marks) == trailing_space(s),
        leading_space(s) <= s.len(),
        without_marked_ends(s, marks) == trimmed(s),
    decreases s.len(),
{
    lemma_marks_count_space(s, marks);
    let from = leading_space(s) as int;
    assert(marks.skip(from).len() == s.skip(from).len());
    assert forall|i: int| 0 <= i < s.skip(from).len() implies marks.skip(from)[i]
        == is_whitespace_char(s.skip(from)[i]) by {}
    lemma_marks_count_space(s.skip(from), marks.skip(from));
}

/// Marks of whitespace count what the whitespace counts.
proof fn lemma_marks_count_space(s: Seq<char>, marks: Seq<bool>)
    requires
        marks.len() == s.len(),
        forall|i: int| 0 <= i < s.len() ==> marks[i] == is_whitespace_char(s[i]),
    ensures
        leading_marks(marks) == leading_space(s),
        trailing_marks(marks) == trailing_space(s),
        leading_space(s) <= s.len(),
    decreases s.len(),
{
    if s.len() > 0 {
        assert forall|i: int| 0 <= i < s.drop_first().len() implies marks.drop_first()[i]
            == is_whitespace_char(s.drop_first()[i]) by {}
        lemma_marks_count_space(s.drop_first(), marks.drop_first());
        assert forall|i: int| 0 <= i < s.drop_last().len() implies marks.drop_last()[i]
            == is_whitespace_char(s.drop_last()[i]) by {}
        lemma_marks_count_space(s.drop_last(), marks.drop_last());
    }
}

/// Drops the characters that are marked at the start and at the end of a
/// text.
pub fn trim_marked(s: &Vec<char>, marks: &Vec<bool>) -> (r: String)
    requires
        marks@.len() == s@.len(),
    ensures
        r@ == without_marked_ends(s@, marks@),
{
    let mut start: usize = 0;
    assert(marks@.skip(0) =~= marks@);
    while start < marks.len() && marks[start]
        invariant
            start <= marks@.len(),
            leading_marks(marks@) == start + leading_marks(marks@.skip(start as int)),
        decreases marks@.len() - start,
    {
        assert(marks@.skip(start as int).drop_first() =~= marks@.skip(start as int + 1));
        start += 1;
    }
    let ghost rest = marks@.skip(start as int);
    let mut end: usize = marks.len();
    assert(rest.take(rest.len() as int) =~= rest);
    while end > start && marks[end - 1]
        invariant
            start <= end <= marks@.len(),
            rest == marks@.skip(start as int),
            trailing_marks(rest) == (marks@.len() - end) + trailing_marks(rest.take(end - start)),
        decreases end - start,
    {
        assert(rest.take(end - start).drop_last() =~= rest.take(end - start - 1));
        assert(rest.take(end - start).last() == marks@[end - 1]);
        end -= 1;
    }
    assert(s@.skip(start as int).take(end - start) =~= s@.subrange(start as int, end as int));
    text_of(s, start, end)
}

/// A text without its leading and trailing whitespace.
pub fn trim_text(text: &str) -> (r: String)
    ensures
        r@ == trimmed(text@),
{
    let s = chars_of(text);
    let mut marks: Vec<bool> = Vec::new();
    let mut i: usize = 0;
    while i < s.len()
        invariant
            i <= s@.len(),
            marks@.len() == i,
            forall|k: int| 0 <= k < i ==> marks@[k] == is_whitespace_char(s@[k]),
        decreases s@.len() - i,
    {
        marks.push(char_is_whitespace(s[i]));
        i += 1;
    }
    proof {
        lemma_marked_ends_are_space(s@, marks@);
    }
    trim_marked(&s, &marks)
}

/// Cleans a text that the service sent: decodes its character references,
/// drops its tags but for images, and trims its ends.
pub fn clean_ado_text(input: &str) -> (r: String)
    ensures
        r@ == cleaned(input@),
{
    let decoded = decode_entities(input);
    clean_decoded_text(decoded.as_str())
}

/// Cleans a text whose character references are decoded already: drops
/// its tags but for images, and trims its ends.
pub fn clean_decoded_text(decoded: &str) -> (r: String)
    ensures
        r@ == trimmed(without_tags(decoded@)),
{
    let stripped = strip_tags(decoded);
    trim_text(stripped.as_str())
}

} // verus!
