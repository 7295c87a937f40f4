//! Small text helpers shared by the cache keys, the filters and the edit buffers.

use vstd::prelude::*;

verus! {

/// Whether `c` is an ASCII letter or digit.
pub open spec fn is_ascii_alnum(c: char) -> bool {
    ('a' <= c && c <= 'z') || ('A' <= c && c <= 'Z') || ('0' <= c && c <= '9')
}

/// The character that stands for `c` in a file name.
pub open spec fn sanitize_char(c: char) -> char {
    if is_ascii_alnum(c) {
        c
    } else {
        '_'
    }
}

/// `s` with every character that is no ASCII letter or digit replaced by `_`.
pub open spec fn sanitized(s: Seq<char>) -> Seq<char> {
    Seq::new(s.len(), |i: int| sanitize_char(s[i]))
}

/// Whether `needle` occurs in `hay` as a contiguous run of characters.
pub open spec fn occurs_in(needle: Seq<char>, hay: Seq<char>) -> bool {
    exists|i: int|
        0 <= i && i + needle.len() <= hay.len() && #[trigger] hay.subrange(
            i,
            i + needle.len(),
        ) == needle
}

/// The decimal digits of `n`, most significant first, without leading zeros.
pub open spec fn decimal_text(n: nat) -> Seq<char>
    decreases n,
{
    if n < 10 {
        seq![decimal_digit(n)]
    } else {
        decimal_text(n / 10).push(decimal_digit(n % 10))
    }
}

/// The character for a single decimal digit.
pub open spec fn decimal_digit(d: nat) -> char {
    if d == 0 {
        '0'
    } else if d == 1 {
        '1'
    } else if d == 2 {
        '2'
    } else if d == 3 {
        '3'
    } else if d == 4 {
        '4'
    } else if d == 5 {
        '5'
    } else if d == 6 {
        '6'
    } else if d == 7 {
        '7'
    } else if d == 8 {
        '8'
    } else {
        '9'
    }
}

/// The lower-case form that the standard library gives a text.
pub uninterp spec fn lowercase_of(s: Seq<char>) -> Seq<char>;

/// `String::push` appends one character.
pub assume_specification[ String::push ](s: &mut String, c: char)
    ensures
        final(s)@ == old(s)@.push(c),
;

/// `String::pop` removes the last character and returns it; on an empty
/// string it returns `None` and changes nothing.
pub assume_specification[ String::pop ](s: &mut String) -> (r: Option<char>)
    ensures
        old(s)@.len() == 0 ==> r.is_none() && final(s)@ == old(s)@,
        old(s)@.len() > 0 ==> r == Some(old(s)@.last()) && final(s)@ == old(s)@.drop_last(),
;

/// `String::clear` removes every character.
pub assume_specification[ String::clear ](s: &mut String)
    ensures
        final(s)@ == Seq::<char>::empty(),
;

/// The characters of a text.
pub fn chars_of(text: &str) -> (r: Vec<char>)
    ensures
        r@ == text@,
{
    let mut r: Vec<char> = Vec::new();
    for c in it: text.chars()
        invariant
            it.seq() == text@,
            r@.len() == it.index(),
            forall|j: int| 0 <= j < r@.len() ==> r@[j] == text@[j],
    {
        r.push(c);
    }
    assert(r@ =~= text@);
    r
}

/// Whether `needle` stands in `hay` at the position `at`.
fn stands_at(hay: &Vec<char>, needle: &Vec<char>, at: usize) -> (r: bool)
    requires
        at + needle@.len() <= hay@.len(),
    ensures
        r == (hay@.subrange(at as int, at + needle@.len()) == needle@),
{
    let total = hay.len();
    let mut j: usize = 0;
    while j < needle.len()
        invariant
            j <= needle@.len(),
            at + needle@.len() <= hay@.len(),
            hay@.len() == total,
            forall|k: int| 0 <= k < j ==> hay@[at + k] == needle@[k],
        decreases needle@.len() - j,
    {
        if hay[at + j] != needle[j] {
            assert(hay@.subrange(at as int, at + needle@.len())[j as int] != needle@[j as int]);
            return false;
        }
        j += 1;
    }
    assert(hay@.subrange(at as int, at + needle@.len()) =~= needle@);
    true
}

/// Whether `needle` occurs in `hay`.
pub fn text_contains(hay: &str, needle: &str) -> (r: bool)
    ensures
        r == occurs_in(needle@, hay@),
{
    let h = chars_of(hay);
    let n = chars_of(needle);
    if n.len() > h.len() {
        return false;
    }
    let last: usize = h.len() - n.len();
    let mut i: usize = 0;
    loop
        invariant
            i <= last,
            last == h@.len() - n@.len(),
            h@ == hay@,
            n@ == needle@,
            forall|k: int| 0 <= k < i ==> #[trigger] h@.subrange(k, k + n@.len()) != n@,
        decreases last - i,
    {
        if stands_at(&h, &n, i) {
            return true;
        }
        if i == last {
            return false;
        }
        i += 1;
    }
}

/// `str::to_lowercase`: the result is named, not described.
#[verifier::external_body]
pub(crate) fn text_lowercase(s: &str) -> (r: String)
    ensures
        r@ == lowercase_of(s@),
{
    s.to_lowercase()
}

/// The character for a single decimal digit.
fn digit_char(d: u32) -> (c: char)
    requires
        d < 10,
    ensures
        c == decimal_digit(d as nat),
{
    if d == 0 {
        '0'
    } else if d == 1 {
        '1'
    } else if d == 2 {
        '2'
    } else if d == 3 {
        '3'
    } else if d == 4 {
        '4'
    } else if d == 5 {
        '5'
    } else if d == 6 {
        '6'
    } else if d == 7 {
        '7'
    } else if d == 8 {
        '8'
    } else {
        '9'
    }
}

/// The decimal digits of a number.
pub fn number_text(n: u32) -> (r: String)
    ensures
        r@ == decimal_text(n as nat),
{
    let mut backwards: Vec<char> = Vec::new();
    backwards.push(digit_char(n % 10));
    let mut rest: u32 = n / 10;
    assert(backwards@.reverse() =~= seq![decimal_digit((n % 10) as nat)]);
    assert(Seq::<char>::empty() + backwards@.reverse() =~= backwards@.reverse());
    while rest > 0
        invariant
            backwards@.len() > 0,
            decimal_text(n as nat) == (if rest > 0 {
                decimal_text(rest as nat)
            } else {
                Seq::<char>::empty()
            }) + backwards@.reverse(),
        decreases rest,
    {
        let ghost before = backwards@;
        let digit = digit_char(rest % 10);
        backwards.push(digit);
        assert(backwards@.reverse() =~= seq![digit] + before.reverse());
        assert(decimal_text(rest as nat) =~= (if rest / 10 > 0 {
            decimal_text((rest / 10) as nat)
        } else {
            Seq::<char>::empty()
        }) + seq![digit]);
        assert(((if rest / 10 > 0 {
            decimal_text((rest / 10) as nat)
        } else {
            Seq::<char>::empty()
        }) + seq![digit]) + before.reverse() =~= (if rest / 10 > 0 {
            decimal_text((rest / 10) as nat)
        } else {
            Seq::<char>::empty()
        }) + (seq![digit] + before.reverse()));
        rest = rest / 10;
    }
    assert(decimal_text(n as nat) =~= backwards@.reverse());
    let mut r = String::new();
    let mut i: usize = backwards.len();
    while i > 0
        invariant
            i <= backwards@.len(),
            r@ == backwards@.reverse().take(backwards@.len() - i),
        decreases i,
    {
        i -= 1;
        r.push(backwards[i]);
        assert(r@ =~= backwards@.reverse().take(backwards@.len() - i));
    }
    assert(backwards@.reverse().take(backwards@.len() as int) =~= backwards@.reverse());
    r
}

/// Whether two texts hold the same characters.
pub fn same_text(a: &str, b: &str) -> (r: bool)
    ensures
        r == (a@ == b@),
{
    let x = String::from_str(a);
    let y = String::from_str(b);
    x == y
}

/// Whether `c` is an ASCII letter or digit.
pub fn char_is_ascii_alnum(c: char) -> (r: bool)
    ensures
        r == is_ascii_alnum(c),
{
    (c >= 'a' && c <= 'z') || (c >= 'A' && c <= 'Z') || (c >= '0' && c <= '9')
}

/// Replaces every character that is no ASCII letter or digit by `_`.
pub fn sanitize_component(input: &str) -> (out: String)
    ensures
        out@ == sanitized(input@),
{
    let mut out = String::new();
    for c in it: input.chars()
        invariant
            it.seq() == input@,
            out@.len() == it.index(),
            forall|j: int| 0 <= j < out@.len() ==> out@[j] == sanitize_char(input@[j]),
    {
        let d: char = if char_is_ascii_alnum(c) {
            c
        } else {
            '_'
        };
        out.push(d);
    }
    assert(out@ =~= sanitized(input@));
    out
}

/// Lists that hold the same texts in the same order hold the same set of texts.
pub proof fn lemma_same_texts_same_set(a: Seq<String>, b: Seq<String>)
    requires
        a.len() == b.len(),
        forall|i: int| 0 <= i < a.len() ==> a[i]@ == b[i]@,
    ensures
        text_set(a) == text_set(b),
{
    assert forall|t: Seq<char>| text_set(a).contains(t) == text_set(b).contains(t) by {
        if text_set(a).contains(t) {
            let k = choose|k: int| 0 <= k < a.len() && #[trigger] a[k]@ == t;
            assert(b[k]@ == t);
        }
        if text_set(b).contains(t) {
            let k = choose|k: int| 0 <= k < b.len() && #[trigger] b[k]@ == t;
            assert(a[k]@ == t);
        }
    }
    assert(text_set(a) =~= text_set(b));
}

/// A copy of a list of texts.
pub fn copy_texts(v: &Vec<String>) -> (r: Vec<String>)
    ensures
        r.deep_view() == v.deep_view(),
        text_set(r@) == text_set(v@),
{
    let r = v.clone();
    assert(r.deep_view() =~= v.deep_view());
    proof {
        lemma_same_texts_same_set(r@, v@);
    }
    r
}

/// The texts that occur in a list.
pub open spec fn text_set(v: Seq<String>) -> Set<Seq<char>> {
    Set::new(|t: Seq<char>| exists|i: int| 0 <= i < v.len() && #[trigger] v[i]@ == t)
}

/// The first position at which `t` stands in `v`, if it stands there at all.
pub fn position_of(v: &Vec<String>, t: &str) -> (r: Option<usize>)
    ensures
        match r {
            Some(i) => i < v@.len() && v@[i as int]@ == t@ && forall|j: int|
                0 <= j < i ==> #[trigger] v@[j]@ != t@,
            None => forall|j: int| 0 <= j < v@.len() ==> #[trigger] v@[j]@ != t@,
        },
        r.is_some() == text_set(v@).contains(t@),
{
    let mut i: usize = 0;
    while i < v.len()
        invariant
            i <= v@.len(),
            forall|j: int| 0 <= j < i ==> #[trigger] v@[j]@ != t@,
        decreases v@.len() - i,
    {
        if same_text(v[i].as_str(), t) {
            return Some(i);
        }
        i += 1;
    }
    None
}

/// Whether `t` occurs in `v`.
pub fn texts_contain(v: &Vec<String>, t: &str) -> (r: bool)
    ensures
        r == text_set(v@).contains(t@),
{
    position_of(v, t).is_some()
}

/// Removes every occurrence of `t` from `v`, keeping the order of the rest.
pub fn remove_text(v: &mut Vec<String>, t: &str)
    ensures
        text_set(final(v)@) == text_set(old(v)@).remove(t@),
        final(v)@.len() <= old(v)@.len(),
{
    let mut i: usize = 0;
    while i < v.len()
        invariant
            i <= v@.len(),
            v@.len() <= old(v)@.len(),
            forall|j: int| 0 <= j < i ==> #[trigger] v@[j]@ != t@,
            text_set(v@).remove(t@) == text_set(old(v)@).remove(t@),
        decreases v@.len() - i,
    {
        if same_text(v[i].as_str(), t) {
            let ghost before = v@;
            v.remove(i);
            proof {
                assert forall|x: Seq<char>| x != t@ implies (text_set(v@).contains(x)
                    == text_set(before).contains(x)) by {
                    if text_set(before).contains(x) {
                        let k = choose|k: int| 0 <= k < before.len() && #[trigger] before[k]@ == x;
                        if k < i {
                            assert(v@[k]@ == x);
                        } else {
                            assert(v@[k - 1]@ == x);
                        }
                    }
                    if text_set(v@).contains(x) {
                        let k = choose|k: int| 0 <= k < v@.len() && #[trigger] v@[k]@ == x;
                        if k < i {
                            assert(before[k]@ == x);
                        } else {
                            assert(before[k + 1]@ == x);
                        }
                    }
                }
                assert(text_set(v@).remove(t@) =~= text_set(before).remove(t@));
            }
        } else {
            i += 1;
        }
    }
    assert(text_set(v@) =~= text_set(v@).remove(t@));
}

/// Appending a text adds it to the texts of the list.
pub proof fn lemma_text_set_push(v: Seq<String>, s: String)
    ensures
        text_set(v.push(s)) == text_set(v).insert(s@),
{
    assert forall|x: Seq<char>| text_set(v.push(s)).contains(x) == text_set(v).insert(
        s@,
    ).contains(x) by {
        if text_set(v.push(s)).contains(x) {
            let k = choose|k: int| 0 <= k < v.push(s).len() && #[trigger] v.push(s)[k]@ == x;
            if k < v.len() {
                assert(v[k]@ == x);
            }
        }
        if text_set(v).contains(x) {
            let k = choose|k: int| 0 <= k < v.len() && #[trigger] v[k]@ == x;
            assert(v.push(s)[k]@ == x);
        }
        if x == s@ {
            assert(v.push(s)[v.len() as int]@ == x);
        }
    }
    assert(text_set(v.push(s)) =~= text_set(v).insert(s@));
}

/// Filtering a sequence with one more element at its end.
pub proof fn lemma_filter_push<A>(s: Seq<A>, x: A, keep: spec_fn(A) -> bool)
    ensures
        s.push(x).filter(keep) == if keep(x) {
            s.filter(keep).push(x)
        } else {
            s.filter(keep)
        },
{
    reveal(Seq::filter);
    assert(s.push(x).drop_last() =~= s);
}

/// The decimal digits of a number with a sign: a minus before those of a
/// negative number.
pub open spec fn signed_text(n: int) -> Seq<char> {
    if n < 0 {
        seq!['-'] + decimal_text((-n) as nat)
    } else {
        decimal_text(n as nat)
    }
}

/// The decimal digits of a number with a sign.
pub fn signed_number_text(n: i32) -> (r: String)
    ensures
        r@ == signed_text(n as int),
{
    if n >= 0 {
        number_text(n as u32)
    } else {
        let magnitude: u32 = if n == i32::MIN {
            0x8000_0000
        } else {
            (-n) as u32
        };
        let mut r = String::new();
        r.push('-');
        let digits = number_text(magnitude);
        r.append(digits.as_str());
        assert(r@ =~= seq!['-'] + decimal_text((-n) as nat));
        r
    }
}

/// The parts with `separator` between each two of them.
pub open spec fn joined(parts: Seq<Seq<char>>, separator: Seq<char>) -> Seq<char>
    decreases parts.len(),
{
    if parts.len() == 0 {
        Seq::empty()
    } else if parts.len() == 1 {
        parts[0]
    } else {
        joined(parts.drop_last(), separator) + separator + parts.last()
    }
}

/// Joins texts with a separator between each two of them.
pub fn join_texts(parts: &Vec<String>, separator: &str) -> (r: String)
    ensures
        r@ == joined(parts.deep_view(), separator@),
{
    let ghost all = parts.deep_view();
    let mut r = String::new();
    let mut i: usize = 0;
    assert(all.take(0) =~= Seq::<Seq<char>>::empty());
    while i < parts.len()
        invariant
            i <= parts@.len(),
            all == parts.deep_view(),
            r@ == joined(all.take(i as int), separator@),
        decreases parts@.len() - i,
    {
        assert(all.take(i as int + 1).drop_last() =~= all.take(i as int));
        assert(all.take(i as int + 1).last() == parts@[i as int]@);
        if i > 0 {
            r.append(separator);
        } else {
            assert(Seq::<char>::empty() + parts@[i as int]@ =~= parts@[i as int]@);
        }
        r.append(parts[i].as_str());
        i += 1;
    }
    assert(all.take(i as int) =~= all);
    r
}

/// The texts of a list, each once, in the order in which they first occur.
pub open spec fn distinct_texts(s: Seq<Seq<char>>) -> Seq<Seq<char>>
    decreases s.len(),
{
    if s.len() == 0 {
        Seq::empty()
    } else {
        let before = distinct_texts(s.drop_last());
        if before.contains(s.last()) {
            before
        } else {
            before.push(s.last())
        }
    }
}

/// `distinct_texts` holds no text twice, and holds exactly the texts of the
/// list.
pub proof fn lemma_distinct_texts(s: Seq<Seq<char>>)
    ensures
        distinct_texts(s).no_duplicates(),
        forall|t: Seq<char>| distinct_texts(s).contains(t) <==> s.contains(t),
    decreases s.len(),
{
    if s.len() > 0 {
        let rest = s.drop_last();
        let before = distinct_texts(rest);
        let all = distinct_texts(s);
        lemma_distinct_texts(rest);
        assert forall|t: Seq<char>| all.contains(t) <==> s.contains(t) by {
            assert(before.contains(t) <==> rest.contains(t));
            if s.contains(t) {
                let k = choose|k: int| 0 <= k < s.len() && s[k] == t;
                if k < rest.len() {
                    assert(rest[k] == t);
                    assert(rest.contains(t));
                    assert(before.contains(t));
                    let j = choose|j: int| 0 <= j < before.len() && before[j] == t;
                    assert(all[j] == t);
                } else if before.contains(t) {
                    let j = choose|j: int| 0 <= j < before.len() && before[j] == t;
                    assert(all[j] == t);
                } else {
                    assert(all[before.len() as int] == t);
                }
            }
            if all.contains(t) {
                let k = choose|k: int| 0 <= k < all.len() && all[k] == t;
                if k < before.len() {
                    assert(before[k] == t);
                    assert(before.contains(t));
                    assert(rest.contains(t));
                    let j = choose|j: int| 0 <= j < rest.len() && rest[j] == t;
                    assert(s[j] == t);
                } else {
                    assert(s[s.len() - 1] == t);
                }
            }
        }
        assert forall|i: int, j: int| 0 <= i < all.len() && 0 <= j < all.len() && i != j implies all[i]
            != all[j] by {
            if i < before.len() && j < before.len() {
                assert(before[i] != before[j]);
            } else if i < before.len() {
                assert(before[i] == all[i]);
                assert(before.contains(all[i]));
            } else if j < before.len() {
                assert(before[j] == all[j]);
                assert(before.contains(all[j]));
            }
        }
    }
}

/// A text occurs in a list exactly when it is among the list's texts.
pub proof fn lemma_contains_by_text(v: Seq<String>, t: Seq<char>)
    ensures
        text_set(v).contains(t) == Seq::new(v.len(), |i: int| v[i]@).contains(t),
{
    let texts = Seq::new(v.len(), |i: int| v[i]@);
    if text_set(v).contains(t) {
        let k = choose|k: int| 0 <= k < v.len() && #[trigger] v[k]@ == t;
        assert(texts[k] == t);
    }
    if texts.contains(t) {
        let k = choose|k: int| 0 <= k < texts.len() && texts[k] == t;
        assert(v[k]@ == t);
    }
}

/// The texts of a list, each once, in the order in which they first occur.
pub fn dedup_texts(v: &Vec<String>) -> (r: Vec<String>)
    ensures
        r.deep_view() == distinct_texts(v.deep_view()),
{
    let ghost all = v.deep_view();
    let mut r: Vec<String> = Vec::new();
    let mut i: usize = 0;
    assert(all.take(0) =~= Seq::<Seq<char>>::empty());
    assert(r.deep_view() =~= Seq::<Seq<char>>::empty());
    while i < v.len()
        invariant
            i <= v@.len(),
            all == v.deep_view(),
            r.deep_view() == distinct_texts(all.take(i as int)),
        decreases v@.len() - i,
    {
        assert(all.take(i as int + 1).drop_last() =~= all.take(i as int));
        assert(all.take(i as int + 1).last() == v@[i as int]@);
        let ghost before = r.deep_view();
        let found = texts_contain(&r, v[i].as_str());
        proof {
            lemma_contains_by_text(r@, v@[i as int]@);
            assert(r.deep_view() =~= Seq::new(r@.len(), |k: int| r@[k]@));
        }
        if !found {
            r.push(v[i].clone());
            assert(r.deep_view() =~= before.push(v@[i as int]@));
        }
        i += 1;
    }
    assert(all.take(i as int) =~= all);
    r
}

} // verus!
