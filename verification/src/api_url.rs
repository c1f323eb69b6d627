//! Absolute URLs for the two backing services.
//!
//! An [`ApiUrl`] starts as the fixed scheme-host-path prefix of one of the
//! two API families, grows by statically chosen path segments, and finally
//! by dynamic query pairs in the order the caller supplies them.  The full
//! text of the result is pinned by the contracts, so building the same
//! request twice yields byte-identical URLs.

use vstd::prelude::*;
use vstd::string::StringExecFns;

verus! {

/// Which backing service a URL targets.
#[derive(Clone, Copy, PartialEq, Eq, Hash, Debug)]
pub enum ApiBase {
    /// The primary Helix API.
    Helix,
    /// The OAuth token-validation service.
    OAuth,
}

/// The fixed scheme, host and base path of each service.
pub open spec fn base_text(base: ApiBase) -> Seq<char> {
    match base {
        ApiBase::Helix => "https://api.twitch.tv/helix"@,
        ApiBase::OAuth => "https://id.twitch.tv"@,
    }
}

/// The host of each service.
pub open spec fn host_text(base: ApiBase) -> Seq<char> {
    match base {
        ApiBase::Helix => "api.twitch.tv"@,
        ApiBase::OAuth => "id.twitch.tv"@,
    }
}

/// What `url::form_urlencoded::byte_serialize` turns a string into: its
/// form-urlencoded rendering, a function of the characters alone.
pub uninterp spec fn encoded(s: Seq<char>) -> Seq<char>;

/// Relies on `url::form_urlencoded::byte_serialize`: the
/// `application/x-www-form-urlencoded` byte serializer, applied to the
/// string's UTF-8 bytes; its output depends on those bytes alone.
#[verifier::external_body]
fn encode_component(s: &str) -> (r: String)
    ensures
        r@ == encoded(s@),
{
    url::form_urlencoded::byte_serialize(s.as_bytes()).collect()
}

/// One rendered `key=value` query pair.
pub open spec fn pair_text(key: Seq<char>, value: Seq<char>) -> Seq<char> {
    encoded(key) + "="@ + encoded(value)
}

/// A rendered list of query pairs, separated by `&`.
pub open spec fn pairs_text(pairs: Seq<(Seq<char>, Seq<char>)>) -> Seq<char>
    decreases pairs.len(),
{
    if pairs.len() == 0 {
        Seq::empty()
    } else if pairs.len() == 1 {
        pair_text(pairs.last().0, pairs.last().1)
    } else {
        pairs_text(pairs.drop_last()) + "&"@ + pair_text(pairs.last().0, pairs.last().1)
    }
}

/// The path contribution of a list of segments: `/seg` for each.
pub open spec fn segments_text(segments: Seq<Seq<char>>) -> Seq<char>
    decreases segments.len(),
{
    if segments.len() == 0 {
        Seq::empty()
    } else {
        segments_text(segments.drop_last()) + "/"@ + segments.last()
    }
}

/// How far query construction has gone: nothing yet, a bare `?`, or at
/// least one pair.
#[derive(Clone, Copy, PartialEq, Eq, Debug)]
pub enum QueryState {
    NoQuery,
    EmptyQuery,
    HasPairs,
}

/// An absolute URL under construction or finished.
pub struct ApiUrl {
    text: String,
    base: ApiBase,
    query: QueryState,
}

impl View for ApiUrl {
    type V = Seq<char>;

    closed spec fn view(&self) -> Seq<char> {
        self.text@
    }
}

impl ApiUrl {
    /// The service family this URL targets.
    pub closed spec fn base_of(&self) -> ApiBase {
        self.base
    }

    /// How far query construction has gone.
    pub closed spec fn query_state(&self) -> QueryState {
        self.query
    }

    /// The bare base URL of a service, with no extra path and no query.
    pub fn new(base: ApiBase) -> (u: ApiUrl)
        ensures
            u@ == base_text(base),
            u.base_of() == base,
            u.query_state() == QueryState::NoQuery,
    {
        let text = match base {
            ApiBase::Helix => String::from_str("https://api.twitch.tv/helix"),
            ApiBase::OAuth => String::from_str("https://id.twitch.tv"),
        };
        ApiUrl { text, base, query: QueryState::NoQuery }
    }

    /// Appends one path segment; only possible before any query part.
    pub fn push_segment(&mut self, segment: &str)
        requires
            old(self).query_state() == QueryState::NoQuery,
        ensures
            final(self)@ == old(self)@ + "/"@ + segment@,
            final(self).base_of() == old(self).base_of(),
            final(self).query_state() == QueryState::NoQuery,
    {
        self.text.append("/");
        self.text.append(segment);
    }

    /// Opens the query component: appends a bare `?`.  A URL built this way
    /// and given no pairs keeps the `?`, mirroring an empty query string.
    pub fn begin_query(&mut self)
        requires
            old(self).query_state() == QueryState::NoQuery,
        ensures
            final(self)@ == old(self)@ + "?"@,
            final(self).base_of() == old(self).base_of(),
            final(self).query_state() == QueryState::EmptyQuery,
    {
        self.text.append("?");
        self.query = QueryState::EmptyQuery;
    }

    /// Appends one `key=value` pair, form-urlencoding both parts, preceded
    /// by `?` or `&` as the position demands.
    pub fn push_pair(&mut self, key: &str, value: &str)
        ensures
            final(self)@ == old(self)@ + (match old(self).query_state() {
                QueryState::NoQuery => "?"@,
                QueryState::EmptyQuery => Seq::<char>::empty(),
                QueryState::HasPairs => "&"@,
            }) + pair_text(key@, value@),
            final(self).base_of() == old(self).base_of(),
            final(self).query_state() == QueryState::HasPairs,
    {
        match self.query {
            QueryState::NoQuery => self.text.append("?"),
            QueryState::EmptyQuery => (),
            QueryState::HasPairs => self.text.append("&"),
        }
        let key_enc = encode_component(key);
        self.text.append(key_enc.as_str());
        self.text.append("=");
        let value_enc = encode_component(value);
        self.text.append(value_enc.as_str());
        self.query = QueryState::HasPairs;
        proof {
            assert(self.text@ =~= old(self).text@ + (match old(self).query_state() {
                QueryState::NoQuery => "?"@,
                QueryState::EmptyQuery => Seq::<char>::empty(),
                QueryState::HasPairs => "&"@,
            }) + pair_text(key@, value@));
        }
    }

    /// Appends one `key=value` pair to a URL whose text is a fixed prefix
    /// followed by an already-rendered pair list; the text then stays in
    /// that shape, with the new pair at the end of the list.
    pub fn push_pair_in_list(
        &mut self,
        key: &str,
        value: &str,
        Ghost(prefix): Ghost<Seq<char>>,
        Ghost(pairs): Ghost<Seq<(Seq<char>, Seq<char>)>>,
    )
        requires
            old(self)@ == prefix + pairs_text(pairs),
            old(self).query_state() == (if pairs.len() == 0 {
                QueryState::EmptyQuery
            } else {
                QueryState::HasPairs
            }),
        ensures
            final(self)@ == prefix + pairs_text(pairs.push((key@, value@))),
            final(self).query_state() == QueryState::HasPairs,
            final(self).base_of() == old(self).base_of(),
    {
        self.push_pair(key, value);
        proof {
            lemma_pairs_text_snoc(pairs, (key@, value@));
            assert(self@ =~= prefix + pairs_text(pairs.push((key@, value@))));
        }
    }

    /// The full text of the URL.
    pub fn as_str(&self) -> (r: &str)
        ensures
            r@ == self@,
    {
        self.text.as_str()
    }

    /// The host part of the URL, determined by the service family.
    pub fn host_str(&self) -> (r: Option<&str>)
        ensures
            (r matches Some(h) && h@ == host_text(self.base_of())),
    {
        match self.base {
            ApiBase::Helix => Some("api.twitch.tv"),
            ApiBase::OAuth => Some("id.twitch.tv"),
        }
    }
}

/// An absolute URL from a base family and an ordered list of path segments:
/// `<base>/<seg1>/<seg2>/...`, with no trailing slash and no query.
pub fn build_url(base: ApiBase, segments: &Vec<String>) -> (u: ApiUrl)
    ensures
        u@ == base_text(base) + segments_text(segments.deep_view()),
        u.base_of() == base,
        u.query_state() == QueryState::NoQuery,
{
    let mut u = ApiUrl::new(base);
    let ghost all = segments.deep_view();
    let mut i: usize = 0;
    proof {
        assert(all.take(0) =~= Seq::empty());
    }
    while i < segments.len()
        invariant
            i <= segments.len(),
            all == segments.deep_view(),
            all.len() == segments.len(),
            u@ == base_text(base) + segments_text(all.take(i as int)),
            u.base_of() == base,
            u.query_state() == QueryState::NoQuery,
        decreases segments.len() - i,
    {
        u.push_segment(segments[i].as_str());
        proof {
            assert(all.take(i + 1).drop_last() =~= all.take(i as int));
            assert(all.take(i + 1).last() == segments@[i as int]@);
        }
        i = i + 1;
    }
    proof {
        assert(all.take(segments.len() as int) =~= all);
    }
    u
}

/// A URL under the Helix API root.
pub fn helix_url(segments: &Vec<String>) -> (u: ApiUrl)
    ensures
        u@ == base_text(ApiBase::Helix) + segments_text(segments.deep_view()),
        u.base_of() == ApiBase::Helix,
        u.query_state() == QueryState::NoQuery,
{
    build_url(ApiBase::Helix, segments)
}

/// A URL under the OAuth service root.
pub fn oauth_url(segments: &Vec<String>) -> (u: ApiUrl)
    ensures
        u@ == base_text(ApiBase::OAuth) + segments_text(segments.deep_view()),
        u.base_of() == ApiBase::OAuth,
        u.query_state() == QueryState::NoQuery,
{
    build_url(ApiBase::OAuth, segments)
}

/// Appending one pair to a rendered pair list appends `&` and the pair,
/// or just the pair when the list was empty.
pub proof fn lemma_pairs_text_snoc(pairs: Seq<(Seq<char>, Seq<char>)>, p: (Seq<char>, Seq<char>))
    ensures
        pairs.len() == 0 ==> pairs_text(pairs.push(p)) == pair_text(p.0, p.1),
        pairs.len() > 0 ==> pairs_text(pairs.push(p)) == pairs_text(pairs) + "&"@ + pair_text(
            p.0,
            p.1,
        ),
{
    assert(pairs.push(p).drop_last() =~= pairs);
    assert(pairs.push(p).last() == p);
}

} // verus!
