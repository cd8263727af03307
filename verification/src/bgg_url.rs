//! Turning a boardgamegeek.com page address into the address of the matching
//! XML API request.
use vstd::prelude::*;
use crate::text::chars_eq;

verus! {

/// What kind of list a supported page address names.
#[derive(Clone, Copy, Debug, PartialEq, Eq, Structural)]
pub enum BGGAPIURLType {
    Collection,
    Geeklist,
}

/// Why a page address was refused.
#[derive(Debug)]
pub enum UrlError {
    /// The address does not start with `https://boardgamegeek.com/`.
    InvalidDomain,
    /// The first path segment names a kind of page that is not supported.
    UnsupportedType(String),
    /// A geeklist address whose id is not made of numeric characters.
    InvalidFormat,
}

/// The mathematical value of a [`UrlError`].
pub enum UrlErrorView {
    InvalidDomain,
    UnsupportedType(Seq<char>),
    InvalidFormat,
}

impl View for UrlError {
    type V = UrlErrorView;

    open spec fn view(&self) -> UrlErrorView {
        match self {
            UrlError::InvalidDomain => UrlErrorView::InvalidDomain,
            UrlError::UnsupportedType(t) => UrlErrorView::UnsupportedType(t@),
            UrlError::InvalidFormat => UrlErrorView::InvalidFormat,
        }
    }
}

/// The text shown for an [`UrlError`].
pub open spec fn url_error_message(e: UrlErrorView) -> Seq<char> {
    match e {
        UrlErrorView::InvalidDomain => "Invalid domain: Only 'boardgamegeek.com' URLs are supported"@,
        UrlErrorView::UnsupportedType(t) => "Unsupported type '"@ + t
            + "'. Supported types: [\"geeklist\", \"collection\"]"@,
        UrlErrorView::InvalidFormat => "Invalid URL format: Expected format is 'https://boardgamegeek.com/{type}/{id}/...'"@,
    }
}

impl UrlError {
    /// The text that tells a user why the address was refused.
    pub fn message(&self) -> (m: String)
        ensures
            m@ == url_error_message(self@),
    {
        match self {
            UrlError::InvalidDomain => String::from_str(
                "Invalid domain: Only 'boardgamegeek.com' URLs are supported",
            ),
            UrlError::UnsupportedType(t) => {
                let mut m = String::from_str("Unsupported type '");
                m.append(t.as_str());
                m.append("'. Supported types: [\"geeklist\", \"collection\"]");
                m
            },
            UrlError::InvalidFormat => String::from_str(
                "Invalid URL format: Expected format is 'https://boardgamegeek.com/{type}/{id}/...'",
            ),
        }
    }
}

/// What `char::is_numeric` of std returns for `c`.
pub uninterp spec fn char_is_numeric(c: char) -> bool;

/// `char::is_numeric` of std: whether `c` belongs to one of Unicode's general
/// categories for numbers (Nd, Nl, No). The result is only named here; the
/// Unicode tables behind it are not written out.
#[verifier::external_body]
fn is_numeric(c: char) -> (b: bool)
    ensures
        b == char_is_numeric(c),
{
    c.is_numeric()
}

/// The address every supported page starts with.
pub open spec fn site_prefix() -> Seq<char> {
    "https://boardgamegeek.com/"@
}

/// Whether `s` starts with `p`.
pub open spec fn has_prefix(s: Seq<char>, p: Seq<char>) -> bool {
    p.len() <= s.len() && s.subrange(0, p.len() as int) == p
}

/// `s` with every leading repetition of the non-empty pattern `p` removed
/// (what `str::trim_start_matches` gives).
pub open spec fn trim_prefixes(s: Seq<char>, p: Seq<char>) -> Seq<char>
    decreases s.len(),
{
    if p.len() > 0 && has_prefix(s, p) {
        trim_prefixes(s.skip(p.len() as int), p)
    } else {
        s
    }
}

/// The pieces of `s` between occurrences of `sep` (what `str::split` gives):
/// always at least one piece, empty pieces included.
pub open spec fn split_on(s: Seq<char>, sep: char) -> Seq<Seq<char>>
    decreases s.len(),
{
    if s.len() == 0 {
        seq![Seq::<char>::empty()]
    } else {
        let r = split_on(s.drop_last(), sep);
        if s.last() == sep {
            r.push(Seq::<char>::empty())
        } else {
            r.update(r.len() - 1, r.last().push(s.last()))
        }
    }
}

/// Every character of `s` is numeric.
pub open spec fn all_numeric(s: Seq<char>) -> bool {
    forall|i: int| 0 <= i < s.len() ==> #[trigger] char_is_numeric(s[i])
}

/// The API address of the geeklist with the given id.
pub open spec fn geeklist_api(id: Seq<char>) -> Seq<char> {
    "https://boardgamegeek.com/xmlapi2/geeklist/"@ + id + "/"@
}

/// The API address of the collection of the given user.
pub open spec fn collection_api(user: Seq<char>) -> Seq<char> {
    "https://boardgamegeek.com/xmlapi2/collection?username="@ + user
}

/// The outcome of reading a page address, decided on the path segments after
/// the site prefix.
pub open spec fn decide_segments(segs: Seq<Seq<char>>) -> Result<(BGGAPIURLType, Seq<char>), UrlErrorView> {
    if segs.len() >= 2 && segs[0] == "geeklist"@ {
        if all_numeric(segs[1]) {
            Ok((BGGAPIURLType::Geeklist, geeklist_api(segs[1])))
        } else {
            Err(UrlErrorView::InvalidFormat)
        }
    } else if segs.len() >= 3 && segs[0] == "collection"@ && segs[1] == "user"@ {
        Ok((BGGAPIURLType::Collection, collection_api(segs[2])))
    } else {
        Err(UrlErrorView::UnsupportedType(segs[0]))
    }
}

/// The outcome of reading the page address `url`.
pub open spec fn parse_bgg_url_spec(url: Seq<char>) -> Result<(BGGAPIURLType, Seq<char>), UrlErrorView> {
    if !has_prefix(url, site_prefix()) {
        Err(UrlErrorView::InvalidDomain)
    } else {
        decide_segments(split_on(trim_prefixes(url, site_prefix()), '/'))
    }
}

/// The mathematical value of what [`parse_bgg_url`] returns.
pub open spec fn url_result_view(r: Result<(BGGAPIURLType, String), UrlError>) -> Result<(BGGAPIURLType, Seq<char>), UrlErrorView> {
    match r {
        Ok((t, s)) => Ok((t, s@)),
        Err(e) => Err(e@),
    }
}

/// `split_on` never gives an empty list of pieces.
pub proof fn lemma_split_on_nonempty(s: Seq<char>, sep: char)
    ensures
        split_on(s, sep).len() >= 1,
    decreases s.len(),
{
    if s.len() > 0 {
        lemma_split_on_nonempty(s.drop_last(), sep);
    }
}

/// Every accepted page address is on boardgamegeek.com, and every request it
/// gives is an address of boardgamegeek.com's XML API.
pub proof fn law_requests_stay_on_site(url: Seq<char>)
    ensures
        parse_bgg_url_spec(url) is Ok ==> has_prefix(url, site_prefix()),
        parse_bgg_url_spec(url) matches Ok((_, api)) ==> has_prefix(api, "https://boardgamegeek.com/xmlapi2/"@),
{
    reveal_strlit("https://boardgamegeek.com/xmlapi2/");
    reveal_strlit("https://boardgamegeek.com/xmlapi2/geeklist/");
    reveal_strlit("https://boardgamegeek.com/xmlapi2/collection?username=");
    let p = "https://boardgamegeek.com/xmlapi2/"@;
    if let Ok((t, api)) = parse_bgg_url_spec(url) {
        let segs = split_on(trim_prefixes(url, site_prefix()), '/');
        if t == BGGAPIURLType::Geeklist {
            let g = "https://boardgamegeek.com/xmlapi2/geeklist/"@;
            assert(api == g + segs[1] + "/"@);
            assert((g + segs[1] + "/"@).subrange(0, p.len() as int) =~= p);
        } else {
            let c = "https://boardgamegeek.com/xmlapi2/collection?username="@;
            assert(api == c + segs[2]);
            assert((c + segs[2]).subrange(0, p.len() as int) =~= p);
        }
    }
}

/// Splitting at a separator splits the two sides apart.
pub proof fn lemma_split_on_concat(a: Seq<char>, b: Seq<char>, sep: char)
    ensures
        split_on(a + seq![sep] + b, sep) == split_on(a, sep) + split_on(b, sep),
    decreases b.len(),
{
    let s = a + seq![sep] + b;
    if b.len() == 0 {
        assert(s =~= a.push(sep));
        assert(a.push(sep).drop_last() =~= a);
        assert(split_on(b, sep) =~= seq![Seq::<char>::empty()]);
        assert(split_on(s, sep) =~= split_on(a, sep) + split_on(b, sep));
    } else {
        lemma_split_on_concat(a, b.drop_last(), sep);
        lemma_split_on_nonempty(a, sep);
        lemma_split_on_nonempty(b.drop_last(), sep);
        assert(s.drop_last() =~= a + seq![sep] + b.drop_last());
        assert(s.last() == b.last());
        let ra = split_on(a, sep);
        let rb = split_on(b.drop_last(), sep);
        if b.last() == sep {
            assert(split_on(s, sep) =~= ra + rb.push(Seq::<char>::empty()));
        } else {
            assert((ra + rb).last() == rb.last());
            assert(split_on(s, sep) =~= ra + rb.update(rb.len() - 1, rb.last().push(b.last())));
        }
    }
}

/// The first piece of a split starts the text, and a single piece is the whole
/// text.
proof fn lemma_split_on_first(s: Seq<char>, sep: char)
    ensures
        split_on(s, sep)[0].len() <= s.len(),
        s.take(split_on(s, sep)[0].len() as int) == split_on(s, sep)[0],
        split_on(s, sep).len() == 1 ==> split_on(s, sep)[0] == s,
    decreases s.len(),
{
    if s.len() == 0 {
        assert(s.take(0) =~= Seq::<char>::empty());
    } else {
        let dl = s.drop_last();
        lemma_split_on_first(dl, sep);
        lemma_split_on_nonempty(dl, sep);
        let r = split_on(dl, sep);
        if s.last() == sep {
            assert(split_on(s, sep)[0] == r[0]);
            assert(s.take(r[0].len() as int) =~= dl.take(r[0].len() as int));
        } else if r.len() == 1 {
            assert(split_on(s, sep)[0] == r[0].push(s.last()));
            assert(r[0].push(s.last()) =~= s);
            assert(s.take(s.len() as int) =~= s);
        } else {
            assert(split_on(s, sep)[0] == r[0]);
            assert(s.take(r[0].len() as int) =~= dl.take(r[0].len() as int));
        }
    }
}

/// Text appended after a trimmed text that does not start the pattern again is
/// kept as it is.
proof fn lemma_trim_prefixes_extend(u: Seq<char>, w: Seq<char>, p: Seq<char>)
    requires
        p.len() > 0,
        trim_prefixes(u, p).len() > 0,
        trim_prefixes(u, p)[0] != p[0],
    ensures
        trim_prefixes(u + w, p) == trim_prefixes(u, p) + w,
    decreases u.len(),
{
    if has_prefix(u, p) {
        assert((u + w).subrange(0, p.len() as int) =~= u.subrange(0, p.len() as int));
        assert((u + w).skip(p.len() as int) =~= u.skip(p.len() as int) + w);
        lemma_trim_prefixes_extend(u.skip(p.len() as int), w, p);
    } else {
        assert((u + w)[0] == u[0]);
        assert(!has_prefix(u + w, p)) by {
            if has_prefix(u + w, p) {
                assert((u + w).subrange(0, p.len() as int)[0] == p[0]);
            }
        }
    }
}

/// Path segments after the geeklist id or the user name do not change what a
/// page address gives.
pub proof fn law_trailing_segments_ignored(url: Seq<char>, extra: Seq<char>)
    requires
        parse_bgg_url_spec(url) is Ok,
    ensures
        parse_bgg_url_spec(url + "/"@ + extra) == parse_bgg_url_spec(url),
{
    reveal_strlit("/");
    reveal_strlit("https://boardgamegeek.com/");
    reveal_strlit("geeklist");
    reveal_strlit("collection");
    let p = site_prefix();
    let longer = url + "/"@ + extra;
    assert(longer.subrange(0, p.len() as int) =~= url.subrange(0, p.len() as int));
    let t = trim_prefixes(url, p);
    let segs = split_on(t, '/');
    lemma_split_on_nonempty(t, '/');
    lemma_split_on_first(t, '/');
    assert(segs[0] == "geeklist"@ || segs[0] == "collection"@);
    assert(t[0] == segs[0][0]);
    assert(t[0] != p[0]);
    lemma_trim_prefixes_extend(url, "/"@ + extra, p);
    assert(longer =~= url + ("/"@ + extra));
    assert(t + ("/"@ + extra) =~= t + seq!['/'] + extra);
    lemma_split_on_concat(t, extra, '/');
    let segs2 = split_on(t + seq!['/'] + extra, '/');
    assert(segs2 == segs + split_on(extra, '/'));
    assert(segs2[0] == segs[0]);
    assert(segs2[1] == segs[1]);
    if segs.len() >= 3 {
        assert(segs2[2] == segs[2]);
    }
}

/// Text without the separator is a single piece.
pub proof fn lemma_split_on_no_sep(s: Seq<char>, sep: char)
    requires
        forall|i: int| 0 <= i < s.len() ==> s[i] != sep,
    ensures
        split_on(s, sep) == seq![s],
    decreases s.len(),
{
    if s.len() > 0 {
        lemma_split_on_no_sep(s.drop_last(), sep);
        assert(s.drop_last().push(s.last()) =~= s);
        assert(split_on(s, sep) =~= seq![s]);
    } else {
        assert(s =~= Seq::<char>::empty());
    }
}

/// The pieces of the path of a site address whose path is `kind` followed by
/// `/` and `rest`, where `kind` starts with a letter other than `h`.
proof fn lemma_site_path_segments(kind: Seq<char>, rest: Seq<char>)
    requires
        kind.len() > 0,
        kind[0] != 'h',
        forall|i: int| 0 <= i < kind.len() ==> kind[i] != '/',
    ensures
        has_prefix(site_prefix() + kind + seq!['/'] + rest, site_prefix()),
        split_on(trim_prefixes(site_prefix() + kind + seq!['/'] + rest, site_prefix()), '/')
            == seq![kind] + split_on(rest, '/'),
{
    reveal_strlit("https://boardgamegeek.com/");
    let p = site_prefix();
    let url = p + kind + seq!['/'] + rest;
    let path = kind + seq!['/'] + rest;
    assert(url.subrange(0, p.len() as int) =~= p);
    assert(url.skip(p.len() as int) =~= path);
    assert(path[0] == kind[0]);
    assert(!has_prefix(path, p)) by {
        if has_prefix(path, p) {
            assert(path.subrange(0, p.len() as int)[0] == p[0]);
        }
    }
    assert(trim_prefixes(url, p) == trim_prefixes(path, p));
    lemma_split_on_concat(kind, rest, '/');
    lemma_split_on_no_sep(kind, '/');
}

/// Every geeklist address whose id is made of numeric characters, of any
/// length, is read as a request for that geeklist, whatever path follows.
pub proof fn law_numeric_geeklist_accepted(id: Seq<char>, tail: Seq<char>)
    requires
        forall|i: int| 0 <= i < id.len() ==> #[trigger] char_is_numeric(id[i]),
        forall|i: int| 0 <= i < id.len() ==> id[i] != '/',
    ensures
        parse_bgg_url_spec("https://boardgamegeek.com/geeklist/"@ + id) == Ok::<(BGGAPIURLType, Seq<char>), UrlErrorView>(
            (BGGAPIURLType::Geeklist, "https://boardgamegeek.com/xmlapi2/geeklist/"@ + id + "/"@),
        ),
        parse_bgg_url_spec("https://boardgamegeek.com/geeklist/"@ + id + "/"@ + tail) == Ok::<(BGGAPIURLType, Seq<char>), UrlErrorView>(
            (BGGAPIURLType::Geeklist, "https://boardgamegeek.com/xmlapi2/geeklist/"@ + id + "/"@),
        ),
{
    reveal_strlit("https://boardgamegeek.com/");
    reveal_strlit("https://boardgamegeek.com/geeklist/");
    reveal_strlit("geeklist");
    reveal_strlit("/");
    let kind = "geeklist"@;
    lemma_site_path_segments(kind, id);
    assert("https://boardgamegeek.com/geeklist/"@ + id =~= site_prefix() + kind + seq!['/'] + id);
    lemma_split_on_no_sep(id, '/');
    let segs = seq![kind] + split_on(id, '/');
    assert(segs[0] == kind);
    assert(segs[1] == id);
    assert(all_numeric(id));
    law_trailing_segments_ignored("https://boardgamegeek.com/geeklist/"@ + id, tail);
}

/// A geeklist id with a character that is not numeric is refused as
/// malformed.
pub proof fn law_non_numeric_geeklist_refused(id: Seq<char>, tail: Seq<char>, k: int)
    requires
        forall|i: int| 0 <= i < id.len() ==> id[i] != '/',
        0 <= k < id.len(),
        !char_is_numeric(id[k]),
    ensures
        parse_bgg_url_spec("https://boardgamegeek.com/geeklist/"@ + id + "/"@ + tail) == Err::<(BGGAPIURLType, Seq<char>), UrlErrorView>(
            UrlErrorView::InvalidFormat,
        ),
{
    reveal_strlit("https://boardgamegeek.com/");
    reveal_strlit("https://boardgamegeek.com/geeklist/");
    reveal_strlit("geeklist");
    reveal_strlit("/");
    let kind = "geeklist"@;
    let rest = id + seq!['/'] + tail;
    lemma_site_path_segments(kind, rest);
    assert("https://boardgamegeek.com/geeklist/"@ + id + "/"@ + tail =~= site_prefix() + kind + seq!['/'] + rest);
    lemma_split_on_concat(id, tail, '/');
    lemma_split_on_no_sep(id, '/');
    let segs = seq![kind] + split_on(rest, '/');
    assert(segs[0] == kind);
    assert(segs[1] == id);
    assert(!all_numeric(id));
}

/// Every collection address of a user, whatever the user name and whatever
/// path follows it, is read as a request for that user's collection.
pub proof fn law_user_collection_accepted(name: Seq<char>, tail: Seq<char>)
    requires
        forall|i: int| 0 <= i < name.len() ==> name[i] != '/',
    ensures
        parse_bgg_url_spec("https://boardgamegeek.com/collection/user/"@ + name) == Ok::<(BGGAPIURLType, Seq<char>), UrlErrorView>(
            (BGGAPIURLType::Collection, "https://boardgamegeek.com/xmlapi2/collection?username="@ + name),
        ),
        parse_bgg_url_spec("https://boardgamegeek.com/collection/user/"@ + name + "/"@ + tail) == Ok::<(BGGAPIURLType, Seq<char>), UrlErrorView>(
            (BGGAPIURLType::Collection, "https://boardgamegeek.com/xmlapi2/collection?username="@ + name),
        ),
{
    reveal_strlit("https://boardgamegeek.com/");
    reveal_strlit("https://boardgamegeek.com/collection/user/");
    reveal_strlit("collection");
    reveal_strlit("user");
    reveal_strlit("geeklist");
    reveal_strlit("/");
    let kind = "collection"@;
    let rest = "user"@ + seq!['/'] + name;
    lemma_site_path_segments(kind, rest);
    assert("https://boardgamegeek.com/collection/user/"@ + name =~= site_prefix() + kind + seq!['/'] + rest);
    lemma_split_on_concat("user"@, name, '/');
    lemma_split_on_no_sep("user"@, '/');
    lemma_split_on_no_sep(name, '/');
    let segs = seq![kind] + (seq!["user"@] + seq![name]);
    assert(segs[0] == kind);
    assert(segs[1] == "user"@);
    assert(segs[2] == name);
    assert(kind != "geeklist"@) by {
        assert(kind[0] != "geeklist"@[0]);
    }
    law_trailing_segments_ignored("https://boardgamegeek.com/collection/user/"@ + name, tail);
}

/// Whether `s` continues with `p` at character position `off`.
fn has_prefix_at(s: &str, off: usize, p: &str) -> (r: bool)
    requires
        off <= s@.len(),
    ensures
        r == has_prefix(s@.skip(off as int), p@),
{
    let n = s.unicode_len();
    let m = p.unicode_len();
    if m > n - off {
        return false;
    }
    let mut j: usize = 0;
    while j < m
        invariant
            n == s@.len(),
            m == p@.len(),
            off + m <= n,
            j <= m,
            s@.skip(off as int).subrange(0, j as int) == p@.subrange(0, j as int),
        decreases m - j,
    {
        if s.get_char(off + j) != p.get_char(j) {
            assert(s@.skip(off as int).subrange(0, m as int)[j as int] != p@[j as int]);
            return false;
        }
        assert(s@.skip(off as int).subrange(0, j + 1) == s@.skip(off as int).subrange(0, j as int).push(s@[off + j]));
        assert(p@.subrange(0, j + 1) == p@.subrange(0, j as int).push(p@[j as int]));
        j = j + 1;
    }
    assert(p@.subrange(0, m as int) == p@);
    true
}

/// The characters of `url` between the given positions.
spec fn piece(url: Seq<char>, b: (usize, usize)) -> Seq<char> {
    url.subrange(b.0 as int, b.1 as int)
}

/// The pieces named by a list of position pairs.
spec fn pieces(url: Seq<char>, bs: Seq<(usize, usize)>) -> Seq<Seq<char>> {
    bs.map_values(|b: (usize, usize)| piece(url, b))
}

/// The positions of the pieces of `url` after position `off`, split on `'/'`.
fn split_bounds(url: &str, off: usize) -> (bs: Vec<(usize, usize)>)
    requires
        off <= url@.len(),
    ensures
        pieces(url@, bs@) == split_on(url@.skip(off as int), '/'),
        forall|k: int| 0 <= k < bs@.len() ==> off <= #[trigger] bs@[k].0 <= bs@[k].1 <= url@.len(),
{
    let n = url.unicode_len();
    let mut bs: Vec<(usize, usize)> = Vec::new();
    let mut cur: usize = off;
    let mut i: usize = off;
    assert(url@.subrange(off as int, off as int) =~= Seq::<char>::empty());
    assert(pieces(url@, bs@).push(url@.subrange(cur as int, i as int)) =~= split_on(url@.subrange(off as int, i as int), '/'));
    while i < n
        invariant
            n == url@.len(),
            off <= cur <= i <= n,
            pieces(url@, bs@).push(url@.subrange(cur as int, i as int)) == split_on(url@.subrange(off as int, i as int), '/'),
            forall|k: int| 0 <= k < bs@.len() ==> off <= #[trigger] bs@[k].0 <= bs@[k].1 <= i,
        decreases n - i,
    {
        let c = url.get_char(i);
        let ghost before = url@.subrange(off as int, i as int);
        let ghost after = url@.subrange(off as int, i + 1);
        let ghost old_bs = bs@;
        assert(after.drop_last() == before);
        assert(after.last() == c);
        if c == '/' {
            bs.push((cur, i));
            assert forall|k: int| 0 <= k < bs@.len() implies off <= #[trigger] bs@[k].0 <= bs@[k].1 <= i + 1 by {
                if k < old_bs.len() {
                    assert(bs@[k] == old_bs[k]);
                }
            }
            assert(pieces(url@, bs@) =~= pieces(url@, old_bs).push(url@.subrange(cur as int, i as int)));
            cur = i + 1;
            assert(url@.subrange(cur as int, i + 1) =~= Seq::<char>::empty());
        } else {
            assert(url@.subrange(cur as int, i + 1) =~= url@.subrange(cur as int, i as int).push(c));
            assert(pieces(url@, bs@).push(url@.subrange(cur as int, i + 1)) =~= pieces(url@, bs@).push(url@.subrange(cur as int, i as int)).update(
                pieces(url@, bs@).len() as int,
                url@.subrange(cur as int, i as int).push(c),
            ));
        }
        i = i + 1;
    }
    let ghost old_bs = bs@;
    bs.push((cur, n));
    assert(pieces(url@, bs@) =~= pieces(url@, old_bs).push(url@.subrange(cur as int, n as int)));
    assert(url@.subrange(off as int, n as int) =~= url@.skip(off as int));
    bs
}

/// Whether each character of `s` is numeric, character by character.
pub fn numeric_flags(s: &str) -> (flags: Vec<bool>)
    ensures
        flags@.len() == s@.len(),
        forall|k: int| 0 <= k < s@.len() ==> #[trigger] flags@[k] == char_is_numeric(s@[k]),
{
    let n = s.unicode_len();
    let mut flags: Vec<bool> = Vec::new();
    let mut i: usize = 0;
    while i < n
        invariant
            n == s@.len(),
            i <= n,
            flags@.len() == i,
            forall|k: int| 0 <= k < i ==> #[trigger] flags@[k] == char_is_numeric(s@[k]),
        decreases n - i,
    {
        flags.push(is_numeric(s.get_char(i)));
        i = i + 1;
    }
    flags
}

/// The request for the geeklist with the given id, given whether each
/// character of the id is numeric: the geeklist's API address when every
/// character is, and [`UrlError::InvalidFormat`] otherwise.
pub fn geeklist_request(id: &str, numeric: &Vec<bool>) -> (r: Result<String, UrlError>)
    requires
        numeric@.len() == id@.len(),
    ensures
        r is Ok <==> forall|k: int| 0 <= k < numeric@.len() ==> #[trigger] numeric@[k],
        r matches Ok(api) ==> api@ == geeklist_api(id@),
        r matches Err(e) ==> e@ == UrlErrorView::InvalidFormat,
{
    let n = numeric.len();
    let mut i: usize = 0;
    while i < n
        invariant
            n == numeric@.len(),
            i <= n,
            forall|k: int| 0 <= k < i ==> #[trigger] numeric@[k],
        decreases n - i,
    {
        if !numeric[i] {
            return Err(UrlError::InvalidFormat);
        }
        i = i + 1;
    }
    let mut api = String::from_str("https://boardgamegeek.com/xmlapi2/geeklist/");
    api.append(id);
    api.append("/");
    Ok(api)
}

/// Reads a boardgamegeek.com page address and gives the kind of list it names
/// together with the address of the XML API request for that list.
///
/// `https://boardgamegeek.com/geeklist/{id}/...` gives a geeklist request when
/// every character of `{id}` is numeric, and
/// `https://boardgamegeek.com/collection/user/{name}/...` gives a collection
/// request. Every leading repetition of the site prefix is skipped before the
/// path is read.
pub fn parse_bgg_url(url: &str) -> (r: Result<(BGGAPIURLType, String), UrlError>)
    ensures
        url_result_view(r) == parse_bgg_url_spec(url@),
{
    let prefix = "https://boardgamegeek.com/";
    proof {
        reveal_strlit("https://boardgamegeek.com/");
    }
    let n = url.unicode_len();
    let plen = prefix.unicode_len();
    if !has_prefix_at(url, 0, prefix) {
        assert(url@.skip(0) == url@);
        return Err(UrlError::InvalidDomain);
    }
    let mut off: usize = 0;
    assert(url@.skip(0) == url@);
    while has_prefix_at(url, off, prefix)
        invariant
            n == url@.len(),
            plen == prefix@.len(),
            plen > 0,
            prefix@ == site_prefix(),
            off <= n,
            trim_prefixes(url@, site_prefix()) == trim_prefixes(url@.skip(off as int), site_prefix()),
        decreases n - off,
    {
        assert(url@.skip(off as int).skip(plen as int) =~= url@.skip(off + plen));
        off = off + plen;
    }
    let bs = split_bounds(url, off);
    proof {
        lemma_split_on_nonempty(url@.skip(off as int), '/');
    }
    let ghost segs = split_on(url@.skip(off as int), '/');
    assert(segs == split_on(trim_prefixes(url@, site_prefix()), '/'));
    let s0 = url.substring_char(bs[0].0, bs[0].1);
    assert(s0@ == segs[0]);
    proof {
        reveal_strlit("geeklist");
        reveal_strlit("collection");
        reveal_strlit("user");
    }
    if bs.len() >= 2 && chars_eq(s0, "geeklist") {
        let s1 = url.substring_char(bs[1].0, bs[1].1);
        assert(s1@ == segs[1]);
        let flags = numeric_flags(s1);
        assert((forall|k: int| 0 <= k < flags@.len() ==> #[trigger] flags@[k]) <==> all_numeric(segs[1])) by {
            if forall|k: int| 0 <= k < flags@.len() ==> #[trigger] flags@[k] {
                assert forall|k: int| 0 <= k < segs[1].len() implies #[trigger] char_is_numeric(segs[1][k]) by {
                    assert(flags@[k]);
                }
            }
            if all_numeric(segs[1]) {
                assert forall|k: int| 0 <= k < flags@.len() implies #[trigger] flags@[k] by {
                    assert(char_is_numeric(s1@[k]));
                }
            }
        }
        return match geeklist_request(s1, &flags) {
            Ok(api) => Ok((BGGAPIURLType::Geeklist, api)),
            Err(e) => Err(e),
        };
    }
    if bs.len() >= 3 && chars_eq(s0, "collection") {
        let s1 = url.substring_char(bs[1].0, bs[1].1);
        assert(s1@ == segs[1]);
        if chars_eq(s1, "user") {
            let s2 = url.substring_char(bs[2].0, bs[2].1);
            assert(s2@ == segs[2]);
            let mut api = String::from_str("https://boardgamegeek.com/xmlapi2/collection?username=");
            api.append(s2);
            return Ok((BGGAPIURLType::Collection, api));
        }
    }
    Err(UrlError::UnsupportedType(String::from_str(s0)))
}

} // verus!
