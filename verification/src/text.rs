//! Text primitives shared by the whole library: trimming, case folding,
//! splitting on a separator, joining, and decimal rendering of integers.
use vstd::prelude::*;

verus! {

/// Whether `c` has the Unicode `White_Space` property (the set that
/// `char::is_whitespace` and `str::trim` use).
pub open spec fn is_white_space(c: char) -> bool {
    ||| ('\u{9}' <= c && c <= '\u{d}')
    ||| c == ' '
    ||| c == '\u{85}'
    ||| c == '\u{a0}'
    ||| c == '\u{1680}'
    ||| ('\u{2000}' <= c && c <= '\u{200a}')
    ||| c == '\u{2028}'
    ||| c == '\u{2029}'
    ||| c == '\u{202f}'
    ||| c == '\u{205f}'
    ||| c == '\u{3000}'
}

/// `s` without its leading white space.
pub open spec fn trim_start_spec(s: Seq<char>) -> Seq<char>
    decreases s.len(),
{
    if s.len() > 0 && is_white_space(s[0]) {
        trim_start_spec(s.drop_first())
    } else {
        s
    }
}

/// `s` without its trailing white space.
pub open spec fn trim_end_spec(s: Seq<char>) -> Seq<char>
    decreases s.len(),
{
    if s.len() > 0 && is_white_space(s.last()) {
        trim_end_spec(s.drop_last())
    } else {
        s
    }
}

/// `s` without leading and trailing white space.
pub open spec fn trim_spec(s: Seq<char>) -> Seq<char> {
    trim_end_spec(trim_start_spec(s))
}

/// The length in bytes that `str::len` reports for a text: that of its
/// UTF-8 encoding.
pub open spec fn byte_len(s: Seq<char>) -> usize {
    vstd::utf8::encode_utf8(s).len() as usize
}

/// What `str::to_lowercase` returns for a string: the full Unicode lower-case
/// mapping, which can change the length of the text.
pub uninterp spec fn lowercase(s: Seq<char>) -> Seq<char>;

/// Calls `str::trim`, which (by its documentation) removes the leading and
/// trailing characters that have the Unicode `White_Space` property.
#[verifier::external_body]
pub(crate) fn trim<'a>(s: &'a str) -> (r: &'a str)
    ensures
        r@ == trim_spec(s@),
{
    s.trim()
}

/// Calls `str::to_lowercase`; its result is named `lowercase`.
#[verifier::external_body]
pub(crate) fn to_lowercase(s: &str) -> (r: String)
    ensures
        r@ == lowercase(s@),
{
    s.to_lowercase()
}

/// Calls `String::push`, which appends one character.
#[verifier::external_body]
pub(crate) fn push_char(s: &mut String, c: char)
    ensures
        final(s)@ == old(s)@.push(c),
{
    s.push(c)
}

/// The words of `s`, as `str::split_whitespace` yields them: the runs of
/// characters without white space, in order.
pub open spec fn words(s: Seq<char>) -> Seq<Seq<char>>
    decreases s.len(),
{
    if s.len() == 0 {
        Seq::<Seq<char>>::empty()
    } else {
        let w = words(s.drop_last());
        let c = s.last();
        if is_white_space(c) {
            w
        } else if s.len() == 1 || is_white_space(s[s.len() - 2]) {
            w.push(seq![c])
        } else {
            w.update(w.len() - 1, w.last().push(c))
        }
    }
}

/// A text that ends in a character other than white space has a word.
proof fn lemma_words_nonempty(s: Seq<char>)
    requires
        s.len() > 0,
        !is_white_space(s.last()),
    ensures
        words(s).len() > 0,
    decreases s.len(),
{
    if s.len() > 1 && !is_white_space(s[s.len() - 2]) {
        assert(s.drop_last().last() == s[s.len() - 2]);
        lemma_words_nonempty(s.drop_last());
    }
}

/// The words of `s`, as `str::split_whitespace` yields them.
pub fn split_words(s: &str) -> (r: Vec<String>)
    ensures
        r.deep_view() == words(s@),
{
    let x = chars_of(s);
    let n = x.len();
    let mut parts: Vec<String> = Vec::new();
    let mut cur = String::new();
    let mut in_word = false;
    for i in 0..n
        invariant
            n == x.len(),
            x@ == s@,
            in_word == (i > 0 && !is_white_space(s@[i - 1])),
            (if in_word {
                parts.deep_view().push(cur@)
            } else {
                parts.deep_view()
            }) == words(s@.take(i as int)),
    {
        let c = x[i];
        proof {
            let t = s@.take(i + 1);
            assert(t.drop_last() == s@.take(i as int));
            assert(t.last() == c);
            if i > 0 {
                assert(t[t.len() - 2] == s@[i - 1]);
                assert(s@.take(i as int).last() == s@[i - 1]);
                if in_word {
                    lemma_words_nonempty(s@.take(i as int));
                }
            }
        }
        let white = c == ' ' || ('\u{9}' <= c && c <= '\u{d}') || c == '\u{85}' || c == '\u{a0}'
            || c == '\u{1680}' || ('\u{2000}' <= c && c <= '\u{200a}') || c == '\u{2028}' || c
            == '\u{2029}' || c == '\u{202f}' || c == '\u{205f}' || c == '\u{3000}';
        if white {
            if in_word {
                let done = cur;
                parts.push(done);
                cur = String::new();
            }
            in_word = false;
        } else {
            let ghost before = cur@;
            if !in_word {
                cur = String::new();
            }
            push_char(&mut cur, c);
            proof {
                let w = words(s@.take(i as int));
                if in_word {
                    assert(parts.deep_view().push(cur@) =~= w.update(w.len() - 1, w.last().push(c)));
                } else {
                    assert(cur@ =~= seq![c]);
                    assert(parts.deep_view().push(cur@) =~= w.push(seq![c]));
                }
            }
            in_word = true;
        }
    }
    assert(s@.take(n as int) == s@);
    if in_word {
        parts.push(cur);
    }
    parts
}

/// Calls `String::pop`, which removes the last character, if any.
#[verifier::external_body]
pub(crate) fn pop_char(s: &mut String)
    ensures
        final(s)@ == (if old(s)@.len() == 0 {
            old(s)@
        } else {
            old(s)@.drop_last()
        }),
{
    s.pop();
}

/// The characters of `s`, in order.
pub fn chars_of(s: &str) -> (r: Vec<char>)
    ensures
        r@ == s@,
{
    let mut out: Vec<char> = Vec::new();
    for c in it: s.chars()
        invariant
            out@ == it.seq().take(it.index() as int),
            it.seq() == s@,
    {
        out.push(c);
    }
    out
}

/// Owned copy of `s`.
pub fn owned(s: &str) -> (r: String)
    ensures
        r@ == s@,
{
    String::from_str(s)
}

/// Whether two texts are equal.
pub fn str_eq(a: &str, b: &str) -> (r: bool)
    ensures
        r == (a@ == b@),
{
    let x = chars_of(a);
    let y = chars_of(b);
    if x.len() != y.len() {
        return false;
    }
    let n = x.len();
    for i in 0..n
        invariant
            n == x.len(),
            n == y.len(),
            x@ == a@,
            y@ == b@,
            forall|j: int| 0 <= j < i ==> x@[j] == y@[j],
    {
        if x[i] != y[i] {
            return false;
        }
    }
    assert(x@ =~= y@);
    true
}

/// Whether `s` starts with `prefix`.
pub fn starts_with(s: &str, prefix: &str) -> (r: bool)
    ensures
        r == (prefix@.len() <= s@.len() && s@.take(prefix@.len() as int) == prefix@),
{
    let x = chars_of(s);
    let p = chars_of(prefix);
    if p.len() > x.len() {
        return false;
    }
    let n = p.len();
    for i in 0..n
        invariant
            n == p.len(),
            n <= x.len(),
            x@ == s@,
            p@ == prefix@,
            forall|j: int| 0 <= j < i ==> x@[j] == p@[j],
    {
        if x[i] != p[i] {
            assert(s@.take(n as int)[i as int] != prefix@[i as int]);
            return false;
        }
    }
    assert(s@.take(n as int) =~= prefix@);
    true
}

/// The text of `s` from character position `from` on.
pub fn suffix_from(s: &str, from: usize) -> (r: String)
    requires
        from <= s@.len(),
    ensures
        r@ == s@.skip(from as int),
{
    let x = chars_of(s);
    let mut out = String::new();
    let n = x.len();
    let mut i = from;
    while i < n
        invariant
            from <= i <= n,
            n == x.len(),
            x@ == s@,
            out@ == s@.subrange(from as int, i as int),
        decreases n - i,
    {
        push_char(&mut out, x[i]);
        assert(s@.subrange(from as int, i + 1) == s@.subrange(from as int, i as int).push(s@[i as int]));
        i = i + 1;
    }
    assert(s@.subrange(from as int, n as int) == s@.skip(from as int));
    out
}

/// What `str::split(sep)` yields for a text and a separator character:
/// the pieces between separators, empty pieces included.
pub open spec fn split_spec(s: Seq<char>, sep: char) -> Seq<Seq<char>>
    decreases s.len(),
{
    if s.len() == 0 {
        seq![Seq::<char>::empty()]
    } else {
        let prev = split_spec(s.drop_last(), sep);
        if s.last() == sep {
            prev.push(Seq::<char>::empty())
        } else {
            prev.update(prev.len() - 1, prev.last().push(s.last()))
        }
    }
}

/// The pieces of a split are never fewer than one.
pub proof fn lemma_split_nonempty(s: Seq<char>, sep: char)
    ensures
        split_spec(s, sep).len() >= 1,
    decreases s.len(),
{
    if s.len() > 0 {
        lemma_split_nonempty(s.drop_last(), sep);
    }
}

/// Splitting `s` on `sep`, as `str::split` does.
pub fn split_on(s: &str, sep: char) -> (r: Vec<String>)
    ensures
        r.deep_view() == split_spec(s@, sep),
{
    let x = chars_of(s);
    let n = x.len();
    let mut parts: Vec<String> = Vec::new();
    let mut cur = String::new();
    for i in 0..n
        invariant
            n == x.len(),
            x@ == s@,
            parts.deep_view().push(cur@) == split_spec(s@.take(i as int), sep),
    {
        let c = x[i];
        proof {
            let t = s@.take(i + 1);
            assert(t.drop_last() == s@.take(i as int));
            assert(t.last() == c);
            lemma_split_nonempty(s@.take(i as int), sep);
        }
        if c == sep {
            let done = cur;
            parts.push(done);
            cur = String::new();
        } else {
            push_char(&mut cur, c);
        }
        proof {
            let t = s@.take(i + 1);
            assert(parts.deep_view().push(cur@) =~= split_spec(t, sep));
        }
    }
    assert(s@.take(n as int) == s@);
    parts.push(cur);
    parts
}

/// The pieces of `parts` with `sep` between each two of them.
pub open spec fn join_spec(parts: Seq<Seq<char>>, sep: Seq<char>) -> Seq<char>
    decreases parts.len(),
{
    if parts.len() == 0 {
        Seq::<char>::empty()
    } else if parts.len() == 1 {
        parts[0]
    } else {
        join_spec(parts.drop_last(), sep) + sep + parts.last()
    }
}

/// Joining the strings of `parts` with `sep`, as `[String]::join` does.
pub fn join(parts: &Vec<String>, sep: &str) -> (r: String)
    ensures
        r@ == join_spec(parts.deep_view(), sep@),
{
    let mut out = String::new();
    let n = parts.len();
    for i in 0..n
        invariant
            n == parts.len(),
            out@ == join_spec(parts.deep_view().take(i as int), sep@),
    {
        proof {
            let t = parts.deep_view().take(i + 1);
            assert(t.drop_last() == parts.deep_view().take(i as int));
            assert(t.last() == parts[i as int]@);
        }
        if i > 0 {
            out.append(sep);
        }
        out.append(parts[i].as_str());
    }
    assert(parts.deep_view().take(n as int) == parts.deep_view());
    out
}

/// Splitting `s` where `s` ends in a piece free of the separator only
/// lengthens the last piece.
proof fn lemma_split_append_plain(x: Seq<char>, b: Seq<char>, sep: char)
    requires
        !b.contains(sep),
    ensures
        split_spec(x + b, sep) == split_spec(x, sep).update(
            split_spec(x, sep).len() - 1,
            split_spec(x, sep).last() + b,
        ),
    decreases b.len(),
{
    lemma_split_nonempty(x, sep);
    if b.len() == 0 {
        assert(x + b == x);
        assert(split_spec(x, sep).last() + b == split_spec(x, sep).last());
        assert(split_spec(x, sep).update(split_spec(x, sep).len() - 1, split_spec(x, sep).last())
            =~= split_spec(x, sep));
    } else {
        let b0 = b.drop_last();
        assert(!b0.contains(sep)) by {
            if b0.contains(sep) {
                let k = choose|k: int| 0 <= k < b0.len() && b0[k] == sep;
                assert(b[k] == sep);
            }
        }
        lemma_split_append_plain(x, b0, sep);
        assert((x + b).drop_last() == x + b0);
        assert((x + b).last() == b.last());
        assert(b.last() != sep) by {
            assert(b[b.len() - 1] == b.last());
        }
        lemma_split_nonempty(x + b0, sep);
        assert(split_spec(x + b, sep) =~= split_spec(x, sep).update(
            split_spec(x, sep).len() - 1,
            split_spec(x, sep).last() + b,
        )) by {
            assert(split_spec(x, sep).last() + b == (split_spec(x, sep).last() + b0).push(b.last()));
        }
    }
}

/// Splitting the join of pieces that hold no separator gives the pieces back.
pub proof fn lemma_split_join(parts: Seq<Seq<char>>, sep: char)
    requires
        parts.len() >= 1,
        forall|i: int| 0 <= i < parts.len() ==> !(#[trigger] parts[i]).contains(sep),
    ensures
        split_spec(join_spec(parts, seq![sep]), sep) == parts,
    decreases parts.len(),
{
    if parts.len() == 1 {
        let e = Seq::<char>::empty();
        lemma_split_append_plain(e, parts[0], sep);
        assert(e + parts[0] == parts[0]);
        assert(split_spec(e, sep) == seq![e]);
        assert(e + parts[0] == parts[0]);
        assert(split_spec(parts[0], sep) =~= parts);
    } else {
        let d = parts.drop_last();
        assert forall|i: int| 0 <= i < d.len() implies !(#[trigger] d[i]).contains(sep) by {
            assert(d[i] == parts[i]);
        }
        lemma_split_join(d, sep);
        let x = join_spec(d, seq![sep]) + seq![sep];
        assert(x.drop_last() == join_spec(d, seq![sep]));
        assert(x.last() == sep);
        assert(split_spec(x, sep) == d.push(Seq::<char>::empty()));
        assert(!parts.last().contains(sep)) by {
            assert(parts[parts.len() - 1] == parts.last());
        }
        lemma_split_append_plain(x, parts.last(), sep);
        assert(join_spec(parts, seq![sep]) == x + parts.last());
        assert(Seq::<char>::empty() + parts.last() == parts.last());
        assert(split_spec(join_spec(parts, seq![sep]), sep) =~= parts);
    }
}

/// The join of pieces whose first piece is not empty is not empty.
pub proof fn lemma_join_nonempty(parts: Seq<Seq<char>>, sep: Seq<char>)
    requires
        parts.len() >= 1,
        parts[0].len() > 0,
    ensures
        join_spec(parts, sep).len() > 0,
    decreases parts.len(),
{
    if parts.len() > 1 {
        assert(parts.drop_last()[0] == parts[0]);
        lemma_join_nonempty(parts.drop_last(), sep);
    }
}

/// The digit character for `d < 10`.
pub open spec fn digit_char(d: nat) -> char {
    (48 + d) as char
}

/// The decimal digits of `n`, most significant first, without leading zeros.
pub open spec fn decimal(n: nat) -> Seq<char>
    decreases n,
{
    if n < 10 {
        seq![digit_char(n)]
    } else {
        decimal(n / 10).push(digit_char(n % 10))
    }
}

/// The decimal text of a signed integer, with a `-` before negative ones.
pub open spec fn signed_decimal(n: int) -> Seq<char> {
    if n < 0 {
        seq!['-'] + decimal((-n) as nat)
    } else {
        decimal(n as nat)
    }
}

fn digit(d: u64) -> (c: char)
    requires
        d < 10,
    ensures
        c == digit_char(d as nat),
{
    let b: u8 = 48u8 + d as u8;
    b as char
}

/// The decimal text of `n`, as `u64::to_string` gives it.
pub fn u64_text(n: u64) -> (r: String)
    ensures
        r@ == decimal(n as nat),
    decreases n,
{
    if n < 10 {
        let mut s = String::new();
        push_char(&mut s, digit(n));
        s
    } else {
        let mut s = u64_text(n / 10);
        push_char(&mut s, digit(n % 10));
        s
    }
}

/// The decimal text of `n`, as `i64::to_string` gives it.
pub fn i64_text(n: i64) -> (r: String)
    ensures
        r@ == signed_decimal(n as int),
{
    if n < 0 {
        let m: i128 = 0 - (n as i128);
        let mut s = String::new();
        push_char(&mut s, '-');
        let digits = u64_text(m as u64);
        s.append(digits.as_str());
        assert(s@ =~= seq!['-'] + decimal((-(n as int)) as nat));
        s
    } else {
        u64_text(n as u64)
    }
}

/// Whether `v` holds a string equal to `s`.
pub fn contains_text(v: &Vec<String>, s: &str) -> (r: bool)
    ensures
        r == v.deep_view().contains(s@),
{
    let n = v.len();
    for i in 0..n
        invariant
            n == v.len(),
            forall|j: int| 0 <= j < i ==> v.deep_view()[j] != s@,
    {
        if str_eq(v[i].as_str(), s) {
            assert(v.deep_view()[i as int] == s@);
            return true;
        }
    }
    assert forall|j: int| 0 <= j < v.deep_view().len() implies v.deep_view()[j] != s@ by {}
    false
}

} // verus!
