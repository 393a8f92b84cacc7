//! The metadata of a web page: what a clip is made of once its url is
//! parsed with the `url` crate and its HTML (when it could be fetched) is
//! read with `scraper`.
use vstd::prelude::*;
use vstd::utf8::{decode_utf8, encode_utf8, encode_utf8_decode_utf8, is_char_boundary};
use crate::tags::{normalize_tag, normalize_tag_spec};
use crate::models::{NewClip, NewClipView};
use crate::text::{
    byte_len, chars_of, contains_text, is_white_space, join, join_spec, owned, split_on,
    split_spec, trim, trim_spec,
};

verus! {

#[verifier::external_type_specification]
#[verifier::external_body]
pub struct ExHtml(scraper::Html);

/// A parsed url, held by what the clip logic reads of it: its
/// serialisation, its scheme and its host.
#[derive(Debug, Clone)]
pub struct WebUrl {
    pub text: String,
    pub scheme: String,
    pub host: Option<String>,
}

/// The parts of a parsed url: serialisation, scheme, host.
pub type UrlParts = (Seq<char>, Seq<char>, Option<Seq<char>>);

impl View for WebUrl {
    type V = UrlParts;

    open spec fn view(&self) -> UrlParts {
        (self.text@, self.scheme@, self.host.deep_view())
    }
}

/// What `url::Url::parse` makes of a text, read as its `as_str`, `scheme`
/// and `host_str` (nothing when the text is not a valid url).
pub uninterp spec fn url_parts(s: Seq<char>) -> Option<UrlParts>;

/// What `url::Url::join` of `href` on the url `base` gives, serialised
/// (nothing when `base` or the joined url does not parse).
pub uninterp spec fn joined_url(base: Seq<char>, href: Seq<char>) -> Option<Seq<char>>;

/// Calls `url::Url::parse` and reads the url's `as_str`, `scheme` and
/// `host_str`; the result is named `url_parts`.
#[verifier::external_body]
pub(crate) fn parse_web_url(s: &str) -> (r: Option<WebUrl>)
    ensures
        match r {
            Some(u) => url_parts(s@) == Some(u@),
            None => url_parts(s@) is None,
        },
{
    match url::Url::parse(s) {
        Ok(u) => Some(
            WebUrl {
                text: u.as_str().to_string(),
                scheme: u.scheme().to_string(),
                host: u.host_str().map(str::to_string),
            },
        ),
        Err(_) => None,
    }
}

/// Calls `url::Url::parse(base)` and then `join(href)`, serialised; the
/// result is named `joined_url`.
#[verifier::external_body]
fn join_url(base: &str, href: &str) -> (r: Option<String>)
    ensures
        r.deep_view() == joined_url(base@, href@),
{
    match url::Url::parse(base) {
        Ok(b) => match b.join(href) {
            Ok(j) => Some(j.to_string()),
            Err(_) => None,
        },
        Err(_) => None,
    }
}

/// An HTML document together with the text it was parsed from. The fields
/// are private and `Page::parse` is the only way to make one, so `doc` is
/// always `scraper::Html::parse_document` of `source`.
pub struct Page {
    doc: scraper::Html,
    source: String,
}

/// The value of the attribute `attr` of the first element that
/// `scraper::Html::select` yields for the CSS selector `selector` in the
/// HTML document parsed from `src`, in the order of the parsed tree's nodes
/// (nothing when the selector does not parse, nothing matches, or the
/// element has no such attribute).
pub uninterp spec fn first_attr(src: Seq<char>, selector: Seq<char>, attr: Seq<char>) -> Option<
    Seq<char>,
>;

/// The text nodes, in order, of the first element that
/// `scraper::Html::select` yields for `selector` in the HTML document parsed
/// from `src` (nothing when the selector does not parse or nothing
/// matches).
pub uninterp spec fn first_text(src: Seq<char>, selector: Seq<char>) -> Option<Seq<Seq<char>>>;

/// For each element that `scraper::Html::select` yields for `selector` in
/// the HTML document parsed from `src`, in the order it yields them (that of
/// the parsed tree's nodes), its text nodes in order (nothing when the
/// selector does not parse).
pub uninterp spec fn all_texts(src: Seq<char>, selector: Seq<char>) -> Seq<Seq<Seq<char>>>;

impl Page {
    /// The text the page was parsed from.
    pub closed spec fn source(&self) -> Seq<char> {
        self.source@
    }

    /// Parses `source` with `scraper::Html::parse_document`.
    #[verifier::external_body]
    pub(crate) fn parse(source: &str) -> (p: Page)
        ensures
            p.source() == source@,
    {
        Page { doc: scraper::Html::parse_document(source), source: source.to_string() }
    }

    /// Calls `scraper::Selector::parse`, `Html::select(..).next()` and
    /// `Element::attr`; the result is named `first_attr`.
    #[verifier::external_body]
    fn attr_of_first(&self, selector: &str, attr: &str) -> (r: Option<String>)
        ensures
            r.deep_view() == first_attr(self.source(), selector@, attr@),
    {
        let sel = match scraper::Selector::parse(selector) {
            Ok(s) => s,
            Err(_) => return None,
        };
        match self.doc.select(&sel).next() {
            Some(el) => el.value().attr(attr).map(str::to_string),
            None => None,
        }
    }

    /// Calls `scraper::Selector::parse`, `Html::select(..).next()` and
    /// `ElementRef::text`; the result is named `first_text`.
    #[verifier::external_body]
    fn text_of_first(&self, selector: &str) -> (r: Option<Vec<String>>)
        ensures
            r.deep_view() == first_text(self.source(), selector@),
    {
        let sel = match scraper::Selector::parse(selector) {
            Ok(s) => s,
            Err(_) => return None,
        };
        match self.doc.select(&sel).next() {
            Some(el) => Some(el.text().map(str::to_string).collect()),
            None => None,
        }
    }

    /// Calls `scraper::Selector::parse`, `Html::select` and
    /// `ElementRef::text` on each element; the result is named `all_texts`.
    #[verifier::external_body]
    fn texts_of_all(&self, selector: &str) -> (r: Vec<Vec<String>>)
        ensures
            r.deep_view() == all_texts(self.source(), selector@),
    {
        let sel = match scraper::Selector::parse(selector) {
            Ok(s) => s,
            Err(_) => return Vec::new(),
        };
        self.doc.select(&sel).map(|el| el.text().map(str::to_string).collect()).collect()
    }
}


/// The selectors tried, in order, for the meta tag `name`.
pub open spec fn meta_selectors(name: Seq<char>) -> Seq<Seq<char>> {
    seq![
        "meta[name='"@ + name + "']"@,
        "meta[property='"@ + name + "']"@,
        "meta[name='"@ + name + "' i]"@,
        "meta[property='"@ + name + "' i]"@,
    ]
}

/// The trimmed `content` of the first element, for the first of `sels`
/// that selects one whose `content` is not blank.
pub open spec fn first_content(src: Seq<char>, sels: Seq<Seq<char>>) -> Option<Seq<char>>
    decreases sels.len(),
{
    if sels.len() == 0 {
        None
    } else {
        match first_attr(src, sels[0], "content"@) {
            Some(c) => if trim_spec(c).len() > 0 {
                Some(trim_spec(c))
            } else {
                first_content(src, sels.drop_first())
            },
            None => first_content(src, sels.drop_first()),
        }
    }
}

/// The content of the first of the meta tags `names` that the page has
/// with a content that is not blank, trimmed.
pub open spec fn meta_content(src: Seq<char>, names: Seq<Seq<char>>) -> Option<Seq<char>>
    decreases names.len(),
{
    if names.len() == 0 {
        None
    } else {
        match first_content(src, meta_selectors(names[0])) {
            Some(c) => Some(c),
            None => meta_content(src, names.drop_first()),
        }
    }
}

/// The texts of `names`.
pub open spec fn names_view(names: Seq<&str>) -> Seq<Seq<char>> {
    names.map_values(|n: &str| n@)
}

/// `prefix`, `name` and `suffix`, one after the other.
fn concat3(prefix: &str, name: &str, suffix: &str) -> (r: String)
    ensures
        r@ == prefix@ + name@ + suffix@,
{
    let mut out = owned(prefix);
    out.append(name);
    out.append(suffix);
    out
}

impl Page {
    /// The trimmed `content` of the first element that one of `sels`
    /// selects, for the first selector where it is not blank.
    fn first_content_of(&self, sels: &Vec<String>) -> (r: Option<String>)
        ensures
            r.deep_view() == first_content(self.source(), sels.deep_view()),
    {
        let ghost sv = sels.deep_view();
        let n = sels.len();
        assert(sv.skip(0) == sv);
        for j in 0..n
            invariant
                n == sels.len(),
                sv == sels.deep_view(),
                first_content(self.source(), sv) == first_content(self.source(), sv.skip(j as int)),
        {
            assert(sv.skip(j as int)[0] == sv[j as int]);
            assert(sv.skip(j as int).drop_first() == sv.skip(j + 1));
            if let Some(c) = self.attr_of_first(sels[j].as_str(), "content") {
                let clean = trim(c.as_str());
                if !clean.is_empty() {
                    return Some(owned(clean));
                }
            }
        }
        assert(sv.skip(n as int).len() == 0);
        None
    }

    /// The content of the first of the meta tags `names` that the page has
    /// with a content that is not blank, trimmed.
    pub fn meta(&self, names: &Vec<&str>) -> (r: Option<String>)
        ensures
            r.deep_view() == meta_content(self.source(), names_view(names@)),
    {
        let ghost nv = names_view(names@);
        let n = names.len();
        assert(nv.skip(0) == nv);
        for i in 0..n
            invariant
                n == names.len(),
                nv == names_view(names@),
                meta_content(self.source(), nv) == meta_content(self.source(), nv.skip(i as int)),
        {
            assert(nv.skip(i as int)[0] == nv[i as int]);
            assert(nv.skip(i as int).drop_first() == nv.skip(i + 1));
            let name = names[i];
            let sels = vec![
                concat3("meta[name='", name, "']"),
                concat3("meta[property='", name, "']"),
                concat3("meta[name='", name, "' i]"),
                concat3("meta[property='", name, "' i]"),
            ];
            assert(sels.deep_view() =~= meta_selectors(nv[i as int]));
            if let Some(c) = self.first_content_of(&sels) {
                return Some(c);
            }
        }
        assert(nv.skip(n as int).len() == 0);
        None
    }
}


/// The trimmed text of the first element `selector` selects, its text
/// nodes joined, when that is not blank.
pub open spec fn first_text_trimmed(src: Seq<char>, selector: Seq<char>) -> Option<Seq<char>> {
    match first_text(src, selector) {
        Some(ps) => if trim_spec(join_spec(ps, ""@)).len() > 0 {
            Some(trim_spec(join_spec(ps, ""@)))
        } else {
            None
        },
        None => None,
    }
}

/// The title of a page: its `og:title` or `twitter:title` meta tag, else
/// the text of its `title` element, else that of its first `h1`.
pub open spec fn page_title(src: Seq<char>) -> Option<Seq<char>> {
    let meta = meta_content(src, seq!["og:title"@, "twitter:title"@]);
    if meta is Some && trim_spec(meta->Some_0).len() > 0 {
        meta
    } else {
        match first_text_trimmed(src, "title"@) {
            Some(t) => Some(t),
            None => first_text_trimmed(src, "h1"@),
        }
    }
}

/// The first of the `link` relations `rels` with an `href` that joins onto
/// `base`, joined.
pub open spec fn linked_icon(src: Seq<char>, base: Seq<char>, rels: Seq<Seq<char>>) -> Option<
    Seq<char>,
>
    decreases rels.len(),
{
    if rels.len() == 0 {
        None
    } else {
        match first_attr(src, "link[rel*='"@ + rels[0] + "']"@, "href"@) {
            Some(h) => match joined_url(base, h) {
                Some(j) => Some(j),
                None => linked_icon(src, base, rels.drop_first()),
            },
            None => linked_icon(src, base, rels.drop_first()),
        }
    }
}

/// `/favicon.ico` on the host of `u`, with its scheme.
pub open spec fn default_favicon(u: UrlParts) -> Seq<char> {
    u.1 + "://"@ + (match u.2 {
        Some(h) => h,
        None => ""@,
    }) + "/favicon.ico"@
}

/// The icon of a page: its first `icon`, `shortcut icon` or
/// `apple-touch-icon` link that resolves, else the default one.
pub open spec fn page_favicon(src: Seq<char>, u: UrlParts) -> Seq<char> {
    match linked_icon(src, u.0, seq!["icon"@, "shortcut icon"@, "apple-touch-icon"@]) {
        Some(i) => i,
        None => default_favicon(u),
    }
}

impl Page {
    /// The trimmed text of the first element `selector` selects, its text
    /// nodes joined, when that is not blank.
    fn trimmed_text_of_first(&self, selector: &str) -> (r: Option<String>)
        ensures
            r.deep_view() == first_text_trimmed(self.source(), selector@),
    {
        match self.text_of_first(selector) {
            Some(pieces) => {
                let text = join(&pieces, "");
                let clean = trim(text.as_str());
                if clean.is_empty() {
                    None
                } else {
                    Some(owned(clean))
                }
            },
            None => None,
        }
    }

    /// The page's title: its `og:title` or `twitter:title` meta tag, else
    /// the text of its `title` element, else that of its first `h1`.
    pub fn title(&self) -> (r: Option<String>)
        ensures
            r.deep_view() == page_title(self.source()),
    {
        let names = vec!["og:title", "twitter:title"];
        assert(names_view(names@) =~= seq!["og:title"@, "twitter:title"@]);
        if let Some(t) = self.meta(&names) {
            if !trim(t.as_str()).is_empty() {
                return Some(t);
            }
        }
        if let Some(t) = self.trimmed_text_of_first("title") {
            return Some(t);
        }
        self.trimmed_text_of_first("h1")
    }

    /// The page's icon: its first `icon`, `shortcut icon` or
    /// `apple-touch-icon` link that resolves against `base`, else
    /// `/favicon.ico` on the host of `base`.
    pub fn favicon(&self, base: &WebUrl) -> (r: String)
        ensures
            r@ == page_favicon(self.source(), base@),
    {
        let rels = vec!["icon", "shortcut icon", "apple-touch-icon"];
        let ghost rv = names_view(rels@);
        assert(rv =~= seq!["icon"@, "shortcut icon"@, "apple-touch-icon"@]);
        let n = rels.len();
        assert(rv.skip(0) == rv);
        for i in 0..n
            invariant
                n == rels.len(),
                rv == names_view(rels@),
                rv == seq!["icon"@, "shortcut icon"@, "apple-touch-icon"@],
                linked_icon(self.source(), base@.0, rv) == linked_icon(
                    self.source(),
                    base@.0,
                    rv.skip(i as int),
                ),
        {
            assert(rv.skip(i as int)[0] == rv[i as int]);
            assert(rv.skip(i as int).drop_first() == rv.skip(i + 1));
            assert(rv[i as int] == rels@[i as int]@);
            let query = concat3("link[rel*='", rels[i], "']");
            if let Some(href) = self.attr_of_first(query.as_str(), "href") {
                if let Some(resolved) = join_url(base.text.as_str(), href.as_str()) {
                    return resolved;
                }
            }
        }
        assert(rv.skip(n as int).len() == 0);
        default_favicon_text(base)
    }
}

/// `/favicon.ico` on the host of `u`, with its scheme.
pub fn default_favicon_text(u: &WebUrl) -> (r: String)
    ensures
        r@ == default_favicon(u@),
{
    let mut out = owned(u.scheme.as_str());
    out.append("://");
    match &u.host {
        Some(h) => out.append(h.as_str()),
        None => out.append(""),
    }
    out.append("/favicon.ico");
    out
}


/// The most bytes of body text a clip keeps.
pub const BODY_MAX_BYTES: usize = 10000;

/// A body paragraph: an element's text nodes joined by spaces, trimmed.
pub open spec fn paragraph_of(pieces: Seq<Seq<char>>) -> Seq<char> {
    trim_spec(join_spec(pieces, " "@))
}

/// `acc` with the paragraphs of the elements `texts` appended, in order,
/// skipping those of 30 bytes or fewer and those already there.
pub open spec fn add_paragraphs(acc: Seq<Seq<char>>, texts: Seq<Seq<Seq<char>>>) -> Seq<Seq<char>>
    decreases texts.len(),
{
    if texts.len() == 0 {
        acc
    } else {
        let r = add_paragraphs(acc, texts.drop_last());
        let c = paragraph_of(texts.last());
        if byte_len(c) > 30 && !r.contains(c) {
            r.push(c)
        } else {
            r
        }
    }
}

/// The paragraphs of the elements of the kinds `tags`, kind by kind.
pub open spec fn body_paragraphs(src: Seq<char>, tags: Seq<Seq<char>>) -> Seq<Seq<char>>
    decreases tags.len(),
{
    if tags.len() == 0 {
        Seq::<Seq<char>>::empty()
    } else {
        add_paragraphs(body_paragraphs(src, tags.drop_last()), all_texts(src, tags.last()))
    }
}

/// The kinds of elements whose text makes up a page's body text.
pub open spec fn body_tags() -> Seq<Seq<char>> {
    seq!["article"@, "main"@, "p"@, "h1"@, "h2"@, "h3"@, "li"@]
}

/// The paragraphs of a page's body, separated by blank lines.
pub open spec fn body_joined(src: Seq<char>) -> Seq<char> {
    join_spec(body_paragraphs(src, body_tags()), "\n\n"@)
}

/// `t` cut to its first 10000 bytes, followed by `...`, when it is longer.
pub open spec fn cut_body(t: Seq<char>) -> Seq<char> {
    if byte_len(t) > BODY_MAX_BYTES {
        decode_utf8(encode_utf8(t).subrange(0, BODY_MAX_BYTES as int)) + "..."@
    } else {
        t
    }
}

/// Whether a page's body text can be cut where it must be: it is short
/// enough, or a character starts at byte 10000.
pub open spec fn body_cut_ok(src: Seq<char>) -> bool {
    let bytes = encode_utf8(body_joined(src));
    byte_len(body_joined(src)) <= BODY_MAX_BYTES || is_char_boundary(bytes, BODY_MAX_BYTES as int)
}

/// A page's body text: its paragraphs, cut to 10000 bytes (nothing when it
/// has no paragraph).
pub open spec fn page_body(src: Seq<char>) -> Option<Seq<char>> {
    if body_paragraphs(src, body_tags()).len() == 0 {
        None
    } else {
        Some(cut_body(body_joined(src)))
    }
}

/// The number of words of `s`: the runs of characters without white space.
pub open spec fn word_count(s: Seq<char>) -> nat
    decreases s.len(),
{
    if s.len() == 0 {
        0
    } else {
        word_count(s.drop_last()) + if !is_white_space(s.last()) && (s.len() == 1 || is_white_space(
            s[s.len() - 2],
        )) {
            1nat
        } else {
            0nat
        }
    }
}

/// The reading time in minutes of a text: one per 200 words, at least one.
pub open spec fn reading_minutes(s: Seq<char>) -> u32 {
    if word_count(s) / 200 >= 1 {
        (word_count(s) / 200) as u32
    } else {
        1
    }
}

/// `tags` with the keywords `kws` appended: each trimmed and lower-cased,
/// skipping empty ones, ones over 20 bytes and ones already there.
pub open spec fn with_keywords(tags: Seq<Seq<char>>, kws: Seq<Seq<char>>) -> Seq<Seq<char>>
    decreases kws.len(),
{
    if kws.len() == 0 {
        tags
    } else {
        let r = with_keywords(tags, kws.drop_last());
        let c = normalize_tag_spec(kws.last());
        if c.len() > 0 && byte_len(c) <= 20 && !r.contains(c) {
            r.push(c)
        } else {
            r
        }
    }
}

proof fn lemma_word_count_bound(s: Seq<char>)
    ensures
        word_count(s) <= s.len(),
    decreases s.len(),
{
    if s.len() > 0 {
        lemma_word_count_bound(s.drop_last());
    }
}

/// The number of words of `s`.
pub fn count_words(s: &str) -> (r: usize)
    ensures
        r == word_count(s@),
{
    let cs = chars_of(s);
    let n = cs.len();
    let mut count: usize = 0;
    let mut in_word = false;
    for i in 0..n
        invariant
            n == cs.len(),
            cs@ == s@,
            count == word_count(s@.take(i as int)),
            in_word == (i > 0 && !is_white_space(s@[i - 1])),
    {
        proof {
            let t = s@.take(i + 1);
            assert(t.drop_last() == s@.take(i as int));
            lemma_word_count_bound(s@.take(i as int));
            if i > 0 {
                assert(t[t.len() - 2] == s@[i - 1]);
            }
        }
        let c = cs[i];
        let white = is_white_space_char(c);
        if !white && !in_word {
            count = count + 1;
        }
        in_word = !white;
    }
    assert(s@.take(n as int) == s@);
    count
}

/// Whether `c` has the Unicode `White_Space` property.
pub fn is_white_space_char(c: char) -> (r: bool)
    ensures
        r == is_white_space(c),
{
    ('\u{9}' <= c && c <= '\u{d}') || c == ' ' || c == '\u{85}' || c == '\u{a0}' || c == '\u{1680}'
        || ('\u{2000}' <= c && c <= '\u{200a}') || c == '\u{2028}' || c == '\u{2029}' || c
        == '\u{202f}' || c == '\u{205f}' || c == '\u{3000}'
}

/// The reading time in minutes of a text: one per 200 words, at least one.
pub fn reading_time(s: &str) -> (r: u32)
    ensures
        r == reading_minutes(s@),
{
    let words = count_words(s);
    let minutes = words / 200;
    if minutes >= 1 {
        proof {
            lemma_word_count_bound(s@);
        }
        minutes as u32
    } else {
        1
    }
}

/// `tags` with the keywords `kws` appended: each trimmed and lower-cased,
/// skipping empty ones, ones over 20 bytes and ones already there.
pub fn add_keywords(tags: &mut Vec<String>, kws: &Vec<String>)
    ensures
        final(tags).deep_view() == with_keywords(old(tags).deep_view(), kws.deep_view()),
{
    let ghost start = tags.deep_view();
    let n = kws.len();
    for i in 0..n
        invariant
            n == kws.len(),
            tags.deep_view() == with_keywords(start, kws.deep_view().take(i as int)),
    {
        proof {
            let t = kws.deep_view().take(i + 1);
            assert(t.drop_last() == kws.deep_view().take(i as int));
            assert(t.last() == kws[i as int]@);
        }
        let clean = normalize_tag(kws[i].as_str());
        if !clean.as_str().is_empty() && clean.as_str().len() <= 20 && !contains_text(tags, clean.as_str()) {
            tags.push(clean);
        }
    }
    assert(kws.deep_view().take(n as int) == kws.deep_view());
}

impl Page {
    /// `acc` with the paragraphs of the elements `selector` selects.
    fn add_paragraphs_of(&self, acc: &mut Vec<String>, selector: &str)
        ensures
            final(acc).deep_view() == add_paragraphs(
                old(acc).deep_view(),
                all_texts(self.source(), selector@),
            ),
    {
        let texts = self.texts_of_all(selector);
        let ghost tv = texts.deep_view();
        let ghost start = acc.deep_view();
        let n = texts.len();
        for j in 0..n
            invariant
                n == texts.len(),
                tv == texts.deep_view(),
                tv == all_texts(self.source(), selector@),
                acc.deep_view() == add_paragraphs(start, tv.take(j as int)),
        {
            proof {
                let t = tv.take(j + 1);
                assert(t.drop_last() == tv.take(j as int));
                assert(t.last() == texts[j as int].deep_view());
            }
            let text = join(&texts[j], " ");
            let clean = trim(text.as_str());
            if clean.len() > 30 && !contains_text(acc, clean) {
                acc.push(owned(clean));
            }
        }
        assert(tv.take(n as int) == tv);
    }

    /// The paragraphs of the page's body, kind by kind.
    fn paragraphs(&self) -> (r: Vec<String>)
        ensures
            r.deep_view() == body_paragraphs(self.source(), body_tags()),
    {
        let tags = vec!["article", "main", "p", "h1", "h2", "h3", "li"];
        let ghost tv = names_view(tags@);
        assert(tv =~= body_tags());
        let mut out: Vec<String> = Vec::new();
        let n = tags.len();
        for k in 0..n
            invariant
                n == tags.len(),
                tv == names_view(tags@),
                out.deep_view() == body_paragraphs(self.source(), tv.take(k as int)),
        {
            proof {
                let t = tv.take(k + 1);
                assert(t.drop_last() == tv.take(k as int));
                assert(t.last() == tags@[k as int]@);
            }
            self.add_paragraphs_of(&mut out, tags[k]);
        }
        assert(tv.take(n as int) == tv);
        out
    }

    /// The page's paragraphs separated by blank lines (nothing when it has
    /// no paragraph).
    fn body_paragraph_text(&self) -> (r: Option<String>)
        ensures
            r.deep_view() == (if body_paragraphs(self.source(), body_tags()).len() == 0 {
                None
            } else {
                Some(body_joined(self.source()))
            }),
    {
        let paragraphs = self.paragraphs();
        if paragraphs.len() == 0 {
            None
        } else {
            Some(join(&paragraphs, "\n\n"))
        }
    }
}

/// Whether `t` can be cut where a body text must be: it is short enough, or
/// a character starts at byte 10000.
pub fn body_cuttable(t: &str) -> (r: bool)
    ensures
        r == (byte_len(t@) <= BODY_MAX_BYTES || is_char_boundary(encode_utf8(t@), BODY_MAX_BYTES as int)),
{
    t.len() <= BODY_MAX_BYTES || t.is_char_boundary(BODY_MAX_BYTES)
}

/// `t` cut to its first 10000 bytes and followed by `...` when it is
/// longer. Needs the cut to fall between two characters.
pub fn cut_body_text(t: String) -> (r: String)
    requires
        byte_len(t@) <= BODY_MAX_BYTES || is_char_boundary(encode_utf8(t@), BODY_MAX_BYTES as int),
    ensures
        r@ == cut_body(t@),
{
    if t.as_str().len() > BODY_MAX_BYTES {
        let (head, _) = t.as_str().split_at(BODY_MAX_BYTES);
        proof {
            encode_utf8_decode_utf8(head@);
        }
        let mut out = owned(head);
        out.append("...");
        out
    } else {
        t
    }
}

/// Why a clip could not be made from a url and its page.
#[derive(Debug, Clone)]
pub enum FetchError {
    /// The text is not a valid url.
    InvalidUrl(String),
    /// The page's body text is over 10000 bytes and no character starts at
    /// byte 10000, so it cannot be cut there.
    BodyNotCuttable,
}

impl FetchError {
    /// The message shown for this error.
    pub fn message(&self) -> (m: String)
        ensures
            self matches FetchError::InvalidUrl(u) ==> m@ == "Invalid URL: '"@ + u@ + "'"@,
            self is BodyNotCuttable ==> m@ == "Body text cannot be cut at 10000 bytes"@,
    {
        match self {
            FetchError::InvalidUrl(u) => concat3("Invalid URL: '", u.as_str(), "'"),
            FetchError::BodyNotCuttable => owned("Body text cannot be cut at 10000 bytes"),
        }
    }
}

/// The host of a url, or `fallback` when it has none.
pub open spec fn host_or(u: UrlParts, fallback: Seq<char>) -> Seq<char> {
    match u.2 {
        Some(h) => h,
        None => fallback,
    }
}

/// The clip made from the url `u` and its page `src`, with the title, tags
/// and notes the user gave: what the page's meta tags, title, links and
/// text say fills the rest, and the page's keywords join the tags.
pub open spec fn clip_of_page(
    u: UrlParts,
    src: Seq<char>,
    title: Option<Seq<char>>,
    tags: Seq<Seq<char>>,
    notes: Option<Seq<char>>,
) -> NewClipView {
    let body = page_body(src);
    NewClipView {
        url: u.0,
        title: match title {
            Some(t) => t,
            None => match page_title(src) {
                Some(t) => t,
                None => host_or(u, "Untitled Web Clip"@),
            },
        },
        description: meta_content(src, seq!["description"@, "og:description"@, "twitter:description"@]),
        tags: match meta_content(src, seq!["keywords"@]) {
            Some(k) => with_keywords(tags, split_spec(k, ',')),
            None => tags,
        },
        notes,
        content_text: body,
        screenshot_path: None,
        favicon_url: Some(page_favicon(src, u)),
        author: meta_content(src, seq!["author"@, "article:author"@, "twitter:creator"@]),
        site_name: match meta_content(src, seq!["og:site_name"@, "application-name"@]) {
            Some(s) => Some(s),
            None => u.2,
        },
        reading_time_mins: match body {
            Some(b) => Some(reading_minutes(b)),
            None => None,
        },
    }
}

/// The clip made from the url `u` alone, when its page could not be
/// fetched: the host stands for the title and the site, and the icon is
/// `/favicon.ico` on the host.
pub open spec fn clip_without_page(
    u: UrlParts,
    title: Option<Seq<char>>,
    tags: Seq<Seq<char>>,
    notes: Option<Seq<char>>,
) -> NewClipView {
    NewClipView {
        url: u.0,
        title: match title {
            Some(t) => t,
            None => host_or(u, "Web Clip"@),
        },
        description: None,
        tags,
        notes,
        content_text: None,
        screenshot_path: None,
        favicon_url: Some(default_favicon(u)),
        author: None,
        site_name: u.2,
        reading_time_mins: None,
    }
}

/// Parses the url a clip is made for.
pub fn parse_clip_url(url_str: &str) -> (r: Result<WebUrl, FetchError>)
    ensures
        match r {
            Ok(u) => url_parts(url_str@) == Some(u@),
            Err(e) => url_parts(url_str@) is None && (e matches FetchError::InvalidUrl(s) && s@
                == url_str@),
        },
{
    match parse_web_url(url_str) {
        Some(u) => Ok(u),
        None => Err(FetchError::InvalidUrl(owned(url_str))),
    }
}

/// The host of `u`, or `fallback`.
fn host_or_text(u: &WebUrl, fallback: &str) -> (r: String)
    ensures
        r@ == host_or(u@, fallback@),
{
    match &u.host {
        Some(h) => h.clone(),
        None => owned(fallback),
    }
}

/// Makes the clip for the url `url` from its page `page` (nothing when it
/// could not be fetched) and the title, tags and notes the user gave.
pub fn clip_from_page(
    url: &WebUrl,
    page: Option<String>,
    user_title: Option<String>,
    user_tags: Vec<String>,
    user_notes: Option<String>,
) -> (r: Result<NewClip, FetchError>)
    ensures
        match page {
            Some(src) => if body_cut_ok(src@) {
                r is Ok && r->Ok_0@ == clip_of_page(
                    url@,
                    src@,
                    user_title.deep_view(),
                    user_tags.deep_view(),
                    user_notes.deep_view(),
                )
            } else {
                r matches Err(FetchError::BodyNotCuttable)
            },
            None => r is Ok && r->Ok_0@ == clip_without_page(
                url@,
                user_title.deep_view(),
                user_tags.deep_view(),
                user_notes.deep_view(),
            ),
        },
{
    let src = match page {
        Some(s) => s,
        None => {
            let title = match user_title {
                Some(t) => t,
                None => host_or_text(url, "Web Clip"),
            };
            return Ok(
                NewClip {
                    url: url.text.clone(),
                    title,
                    description: None,
                    tags: user_tags,
                    notes: user_notes,
                    content_text: None,
                    screenshot_path: None,
                    favicon_url: Some(default_favicon_text(url)),
                    author: None,
                    site_name: url.host.clone(),
                    reading_time_mins: None,
                },
            );
        },
    };
    let doc = Page::parse(src.as_str());
    let body = doc.body_paragraph_text();
    if let Some(b) = &body {
        if !body_cuttable(b.as_str()) {
            return Err(FetchError::BodyNotCuttable);
        }
    }
    let title = match user_title {
        Some(t) => t,
        None => match doc.title() {
            Some(t) => t,
            None => host_or_text(url, "Untitled Web Clip"),
        },
    };
    let description_names = vec!["description", "og:description", "twitter:description"];
    assert(names_view(description_names@) =~= seq![
        "description"@,
        "og:description"@,
        "twitter:description"@,
    ]);
    let description = doc.meta(&description_names);
    let favicon_url = doc.favicon(url);
    let author_names = vec!["author", "article:author", "twitter:creator"];
    assert(names_view(author_names@) =~= seq!["author"@, "article:author"@, "twitter:creator"@]);
    let author = doc.meta(&author_names);
    let site_names = vec!["og:site_name", "application-name"];
    assert(names_view(site_names@) =~= seq!["og:site_name"@, "application-name"@]);
    let site_name = match doc.meta(&site_names) {
        Some(s) => Some(s),
        None => url.host.clone(),
    };
    let content_text = match body {
        Some(b) => Some(cut_body_text(b)),
        None => None,
    };
    let reading_time_mins = match &content_text {
        Some(text) => Some(reading_time(text.as_str())),
        None => None,
    };
    let mut tags = user_tags;
    let keyword_names = vec!["keywords"];
    assert(names_view(keyword_names@) =~= seq!["keywords"@]);
    if let Some(keywords) = doc.meta(&keyword_names) {
        let kws = split_on(keywords.as_str(), ',');
        add_keywords(&mut tags, &kws);
    }
    Ok(
        NewClip {
            url: url.text.clone(),
            title,
            description,
            tags,
            notes: user_notes,
            content_text,
            screenshot_path: None,
            favicon_url: Some(favicon_url),
            author,
            site_name,
            reading_time_mins,
        },
    )
}

/// The trimmed content of the page's first meta tag named `name` (by
/// `name` or `property`) whose content is not blank.
pub open spec fn meta_of(src: Seq<char>, name: Seq<char>) -> Option<Seq<char>> {
    first_content(src, meta_selectors(name))
}

/// The first of `a`, `b` and `c` that is there.
pub open spec fn first_of3(a: Option<Seq<char>>, b: Option<Seq<char>>, c: Option<Seq<char>>) -> Option<
    Seq<char>,
> {
    if a is Some {
        a
    } else if b is Some {
        b
    } else {
        c
    }
}

/// A clip made from a page keeps the url, the notes and a title the user
/// gave; its description and author are the first of their meta tags that
/// the page has with a content that is not blank (`description`,
/// `og:description`, `twitter:description`; `author`, `article:author`,
/// `twitter:creator`); its site name is `og:site_name`, else
/// `application-name`, else the url's host; with a body text it takes one
/// minute of reading per 200 words, at least one.
pub proof fn law_page_clip_metadata(
    u: UrlParts,
    src: Seq<char>,
    title: Option<Seq<char>>,
    tags: Seq<Seq<char>>,
    notes: Option<Seq<char>>,
)
    ensures
        ({
            let c = clip_of_page(u, src, title, tags, notes);
            &&& c.url == u.0
            &&& c.notes == notes
            &&& title matches Some(t) ==> c.title == t
            &&& c.description == first_of3(
                meta_of(src, "description"@),
                meta_of(src, "og:description"@),
                meta_of(src, "twitter:description"@),
            )
            &&& c.author == first_of3(
                meta_of(src, "author"@),
                meta_of(src, "article:author"@),
                meta_of(src, "twitter:creator"@),
            )
            &&& c.site_name == first_of3(
                meta_of(src, "og:site_name"@),
                meta_of(src, "application-name"@),
                u.2,
            )
            &&& c.content_text is None ==> c.reading_time_mins is None
            &&& c.content_text is Some && word_count(c.content_text->Some_0) / 200 <= u32::MAX
                ==> c.reading_time_mins is Some && c.reading_time_mins->Some_0 as int == (if word_count(
                c.content_text->Some_0,
            ) < 400 {
                1
            } else {
                word_count(c.content_text->Some_0) / 200
            })
        }),
{
    let d = seq!["description"@, "og:description"@, "twitter:description"@];
    let a = seq!["author"@, "article:author"@, "twitter:creator"@];
    let sn = seq!["og:site_name"@, "application-name"@];
    assert(d.drop_first() =~= seq!["og:description"@, "twitter:description"@]);
    assert(d.drop_first().drop_first() =~= seq!["twitter:description"@]);
    assert(d.drop_first().drop_first().drop_first() =~= Seq::<Seq<char>>::empty());
    assert(a.drop_first() =~= seq!["article:author"@, "twitter:creator"@]);
    assert(a.drop_first().drop_first() =~= seq!["twitter:creator"@]);
    assert(a.drop_first().drop_first().drop_first() =~= Seq::<Seq<char>>::empty());
    assert(sn.drop_first() =~= seq!["application-name"@]);
    assert(sn.drop_first().drop_first() =~= Seq::<Seq<char>>::empty());
    reveal_with_fuel(meta_content, 4);
}

/// A clip made from a url whose page could not be had keeps the url, the
/// tags and notes given and a title the user gave (else the host, else
/// `Web Clip`); its site is the host, its icon `/favicon.ico` on the host
/// with the url's scheme, and it has no description, author, body text or
/// reading time.
pub proof fn law_pageless_clip(
    u: UrlParts,
    title: Option<Seq<char>>,
    tags: Seq<Seq<char>>,
    notes: Option<Seq<char>>,
)
    ensures
        ({
            let c = clip_without_page(u, title, tags, notes);
            &&& c.url == u.0
            &&& c.tags == tags
            &&& c.notes == notes
            &&& c.title == (match (title, u.2) {
                (Some(t), _) => t,
                (None, Some(h)) => h,
                (None, None) => "Web Clip"@,
            })
            &&& c.site_name == u.2
            &&& c.favicon_url == Some(
                u.1 + "://"@ + (match u.2 {
                    Some(h) => h,
                    None => ""@,
                }) + "/favicon.ico"@,
            )
            &&& c.description is None && c.author is None && c.content_text is None
            &&& c.reading_time_mins is None
        }),
{
}

} // verus!
