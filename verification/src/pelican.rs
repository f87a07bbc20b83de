//! Origin discovery for the federation: parsing the director's redirect-style
//! response headers, a per-process cache of discovery results, and the choice
//! of an origin among the candidates a namespace advertises.

use vstd::prelude::*;
use vstd::string::StringExecFns;

use rand::seq::IndexedRandom;

use crate::error::MyError;
use crate::strings::has_char;
use crate::strings::seq_after_prefix;
use crate::strings::split_after;
use crate::strings::split_before;
use crate::strings::split_once_char;
use crate::strings::str_eq;
use crate::strings::str_starts_with;
use crate::strings::str_strip_prefix;
use crate::strings::str_views;
use crate::strings::string_views;

verus! {

// ---------------------------------------------------------------------------
// Header parsing
// ---------------------------------------------------------------------------

/// The URL of one comma-delimited `Link` header segment: what stands between
/// the first `<` and the next `>` after it.
pub open spec fn segment_url(seg: Seq<char>) -> Option<Seq<char>> {
    if !has_char(seg, '<') {
        None
    } else if !has_char(split_after(seg, '<'), '>') {
        None
    } else {
        Some(split_before(split_after(seg, '<'), '>'))
    }
}

/// The URLs of a `Link` header: one per comma-delimited segment, `None` when
/// any segment lacks its `<...>` pair.
pub open spec fn link_urls(h: Seq<char>) -> Option<Seq<Seq<char>>>
    decreases h.len(),
{
    if !has_char(h, ',') {
        match segment_url(h) {
            None => None,
            Some(u) => Some(seq![u]),
        }
    } else {
        match segment_url(split_before(h, ',')) {
            None => None,
            Some(u) => match link_urls(split_after(h, ',')) {
                None => None,
                Some(us) => Some(seq![u] + us),
            },
        }
    }
}

/// The namespace path of an `x-pelican-namespace` header: what follows the
/// first `=` within the part before the first comma; `None` when either
/// delimiter is missing.
pub open spec fn namespace_of(h: Seq<char>) -> Option<Seq<char>> {
    if !has_char(h, ',') {
        None
    } else if !has_char(split_before(h, ','), '=') {
        None
    } else {
        Some(split_after(split_before(h, ','), '='))
    }
}

fn parse_link_segment<'a>(seg: &'a str) -> (r: Option<&'a str>)
    ensures
        match r {
            Some(u) => segment_url(seg@) == Some(u@),
            None => segment_url(seg@) is None,
        },
{
    match split_once_char(seg, '<') {
        None => None,
        Some((_, rest)) => match split_once_char(rest, '>') {
            None => None,
            Some((u, _)) => Some(u),
        },
    }
}

/// The candidate origin base URLs advertised by a `Link` header, in header
/// order; an error when a segment lacks its `<...>` delimiters.
pub fn handle_link_header<'a>(header: &'a str) -> (r: Result<Vec<&'a str>, MyError>)
    ensures
        match r {
            Ok(v) => link_urls(header@) == Some(str_views(v@)),
            Err(e) => {
                &&& link_urls(header@) is None
                &&& e matches MyError::PelicanError(m) && m@ == "Error parsing link header"@
            },
        },
    decreases header@.len(),
{
    match split_once_char(header, ',') {
        None => match parse_link_segment(header) {
            None => Err(MyError::PelicanError(String::from_str("Error parsing link header"))),
            Some(u) => {
                let mut v: Vec<&str> = Vec::new();
                v.push(u);
                proof {
                    assert(str_views(v@) =~~= seq![u@]);
                }
                Ok(v)
            },
        },
        Some((seg, rest)) => match parse_link_segment(seg) {
            None => Err(MyError::PelicanError(String::from_str("Error parsing link header"))),
            Some(u) => match handle_link_header(rest) {
                Err(e) => Err(e),
                Ok(tail) => {
                    let ghost tail_views = str_views(tail@);
                    let mut v: Vec<&str> = Vec::new();
                    v.push(u);
                    let mut tail = tail;
                    v.append(&mut tail);
                    proof {
                        assert(str_views(v@) =~~= seq![u@] + tail_views);
                    }
                    Ok(v)
                },
            },
        },
    }
}

/// The namespace path named by an `x-pelican-namespace` header; an error when
/// the header lacks its `,` or `=` delimiter.
pub fn handle_namespace_header<'a>(header: &'a str) -> (r: Result<&'a str, MyError>)
    ensures
        match r {
            Ok(s) => namespace_of(header@) == Some(s@),
            Err(e) => {
                &&& namespace_of(header@) is None
                &&& e matches MyError::PelicanError(m) && m@
                    == "Error parsing x-pelican-namespace header"@
            },
        },
{
    match split_once_char(header, ',') {
        None => Err(
            MyError::PelicanError(String::from_str("Error parsing x-pelican-namespace header")),
        ),
        Some((before, _)) => match split_once_char(before, '=') {
            None => Err(
                MyError::PelicanError(
                    String::from_str("Error parsing x-pelican-namespace header"),
                ),
            ),
            Some((_, after)) => Ok(after),
        },
    }
}

// ---------------------------------------------------------------------------
// Federation URLs
// ---------------------------------------------------------------------------

/// The federation scheme prefix.
pub open spec fn osdf_scheme() -> Seq<char> {
    "osdf://"@
}

/// Whether `url` is a federation URL, i.e. begins with the federation scheme.
pub open spec fn is_federation_url(url: Seq<char>) -> bool {
    osdf_scheme().is_prefix_of(url)
}

/// The discovery path of a federation URL: what follows the scheme prefix.
pub open spec fn spec_discovery_path(url: Seq<char>) -> Seq<char> {
    seq_after_prefix(url, osdf_scheme())
}

/// The base of the director's origin-discovery endpoint.
pub open spec fn spec_director_base() -> Seq<char> {
    "https://osdf-director.osg-htc.org/api/v1.0/director/origin"@
}

/// The discovery URL for a discovery path.
pub fn director_url(path: &str) -> (r: String)
    ensures
        r@ == spec_director_base() + path@,
{
    String::from_str("https://osdf-director.osg-htc.org/api/v1.0/director/origin").concat(path)
}

// ---------------------------------------------------------------------------
// Discovery responses and the resolved origin set
// ---------------------------------------------------------------------------

/// The two response headers of one discovery call that the client reads.
#[derive(Debug, Clone)]
pub struct DirectorResponse {
    /// The `Link` header, when the response carried one.
    pub link: Option<String>,
    /// The `x-pelican-namespace` header, when the response carried one.
    pub namespace: Option<String>,
}

/// A successfully resolved namespace: its prefix and its candidate origins.
#[derive(Debug, Clone)]
pub struct PelicanInfo {
    /// Candidate origin base URLs, in the order the director advertised them.
    pub origins: Vec<String>,
    /// The federation-scheme-qualified namespace prefix.
    pub osdf_prefix: String,
}

/// A discovery response yields a `PelicanInfo` for `url`: the URL is a
/// federation URL, both headers are present, and both parse.
pub open spec fn spec_info_ok(url: Seq<char>, r: DirectorResponse) -> bool {
    &&& is_federation_url(url)
    &&& (r.link matches Some(l) && link_urls(l@) is Some)
    &&& (r.namespace matches Some(n) && namespace_of(n@) is Some)
}

/// The origins a discovery response advertises.
pub open spec fn spec_info_origins(r: DirectorResponse) -> Seq<Seq<char>> {
    link_urls(r.link.unwrap()@).unwrap()
}

/// The namespace prefix a discovery response names.
pub open spec fn spec_info_prefix(r: DirectorResponse) -> Seq<char> {
    osdf_scheme() + namespace_of(r.namespace.unwrap()@).unwrap()
}

impl PelicanInfo {
    /// Build the origin set for `url` out of the discovery response headers.
    /// Succeeds exactly when `url` is a federation URL and both headers are
    /// present and well-formed.
    pub fn from_url(url: &str, response: &DirectorResponse) -> (r: Result<PelicanInfo, MyError>)
        ensures
            r is Ok <==> spec_info_ok(url@, *response),
            r matches Ok(info) ==> {
                &&& string_views(info.origins@) == spec_info_origins(*response)
                &&& info.osdf_prefix@ == spec_info_prefix(*response)
            },
            !is_federation_url(url@) ==> (r matches Err(e) && e matches MyError::PelicanError(m)
                && m@ == "url is not an OSDF url"@),
            is_federation_url(url@) && response.link is None ==> (r matches Err(e)
                && e matches MyError::PelicanError(m) && m@
                == "No link header when locating origins"@),
            is_federation_url(url@) && (response.link matches Some(l) && link_urls(l@) is None)
                ==> (r matches Err(e) && e matches MyError::PelicanError(m) && m@
                == "Error parsing link header"@),
            is_federation_url(url@) && (response.link matches Some(l) && link_urls(l@) is Some)
                && response.namespace is None ==> (r matches Err(e)
                && e matches MyError::PelicanError(m) && m@
                == "No x-pelican-namespace header when locating origins"@),
            is_federation_url(url@) && (response.link matches Some(l) && link_urls(l@) is Some)
                && (response.namespace matches Some(n) && namespace_of(n@) is None) ==> (
            r matches Err(e) && e matches MyError::PelicanError(m) && m@
                == "Error parsing x-pelican-namespace header"@),
    {
        if !str_starts_with(url, "osdf://") {
            return Err(MyError::PelicanError(String::from_str("url is not an OSDF url")));
        }
        let link = match &response.link {
            None => {
                return Err(
                    MyError::PelicanError(
                        String::from_str("No link header when locating origins"),
                    ),
                );
            },
            Some(l) => l,
        };
        let borrowed = match handle_link_header(link.as_str()) {
            Err(e) => {
                return Err(e);
            },
            Ok(v) => v,
        };
        let ns_header = match &response.namespace {
            None => {
                return Err(
                    MyError::PelicanError(
                        String::from_str("No x-pelican-namespace header when locating origins"),
                    ),
                );
            },
            Some(n) => n,
        };
        let namespace = match handle_namespace_header(ns_header.as_str()) {
            Err(e) => {
                return Err(e);
            },
            Ok(n) => n,
        };
        let mut origins: Vec<String> = Vec::new();
        let n = borrowed.len();
        let mut i: usize = 0;
        while i < n
            invariant
                n == borrowed@.len(),
                0 <= i <= n,
                origins@.len() == i,
                forall|j: int| 0 <= j < i ==> origins@[j]@ == borrowed@[j]@,
            decreases n - i,
        {
            origins.push(String::from_str(borrowed[i]));
            i = i + 1;
        }
        proof {
            assert(string_views(origins@) =~~= str_views(borrowed@));
        }
        let osdf_prefix = String::from_str("osdf://").concat(namespace);
        Ok(PelicanInfo { origins, osdf_prefix })
    }

    /// The namespace prefix this origin set serves.
    pub fn get_osdf_prefix(&self) -> (r: &str)
        ensures
            r@ == self.osdf_prefix@,
    {
        self.osdf_prefix.as_str()
    }

    /// One of the candidate origins, chosen at random to spread load; an
    /// error exactly when no origin is available.
    pub fn choose_origin(&self) -> (r: Result<&str, MyError>)
        ensures
            match r {
                Ok(s) => self.origins@.len() > 0 && exists|i: int|
                    0 <= i < self.origins@.len() && s@ == self.origins@[i]@,
                Err(e) => {
                    &&& self.origins@.len() == 0
                    &&& e matches MyError::PelicanError(m) && m@ == "No origins available"@
                },
            },
    {
        match choose_from(&self.origins) {
            Some(s) => Ok(s.as_str()),
            None => Err(MyError::PelicanError(String::from_str("No origins available"))),
        }
    }
}

/// Relies on rand's `IndexedRandom::choose`: a uniformly sampled element of
/// the slice, `None` exactly when the slice is empty.
#[verifier::external_body]
fn choose_from<'a>(items: &'a Vec<String>) -> (r: Option<&'a String>)
    ensures
        match r {
            Some(s) => exists|i: int| 0 <= i < items@.len() && *s == items@[i],
            None => items@.len() == 0,
        },
{
    items.as_slice().choose(&mut rand::rng())
}

// ---------------------------------------------------------------------------
// The discovery cache
// ---------------------------------------------------------------------------

/// One remembered discovery result.
#[derive(Debug, Clone)]
pub struct CacheEntry {
    /// The discovery path the director was asked about.
    pub path: String,
    /// The headers it answered with.
    pub response: DirectorResponse,
}

/// The per-process memory of discovery results, keyed by discovery path, and
/// never invalidated within a process run.
#[derive(Debug)]
pub struct DirectorCache {
    /// The remembered results, oldest first.
    pub entries: Vec<CacheEntry>,
}

/// What a resolution asks its caller to do next: issue the discovery call
/// (with redirect-following disabled), or use the finished origin set.
#[derive(Debug)]
pub enum ResolveAction {
    /// Perform an HTTP GET of this discovery URL and record the answer.
    Fetch(String),
    /// Resolution is complete.
    Done(PelicanInfo),
}

/// Resolving `url` against `cache` asks for an outbound discovery call.
pub open spec fn step_requests_fetch(cache: DirectorCache, url: Seq<char>) -> bool {
    is_federation_url(url) && !cache.spec_has_path(spec_discovery_path(url))
}

impl DirectorCache {
    /// `i` is the first cache entry for `path`.
    pub open spec fn entry_point(self, path: Seq<char>, i: int) -> bool {
        &&& 0 <= i < self.entries@.len()
        &&& self.entries@[i].path@ == path
        &&& forall|k: int| 0 <= k < i ==> self.entries@[k].path@ != path
    }

    /// Some cache entry remembers `path`.
    pub open spec fn spec_has_path(self, path: Seq<char>) -> bool {
        exists|i: int| 0 <= i < self.entries@.len() && self.entries@[i].path@ == path
    }

    /// The response remembered for `path` (the oldest entry, when one exists).
    pub open spec fn spec_lookup(self, path: Seq<char>) -> DirectorResponse {
        self.entries@[choose|i: int| self.entry_point(path, i)].response
    }

    /// The first cache entry for a path is unique.
    pub proof fn lemma_entry_point_unique(self, path: Seq<char>, i1: int, i2: int)
        requires
            self.entry_point(path, i1),
            self.entry_point(path, i2),
        ensures
            i1 == i2,
    {
        if i1 < i2 {
            assert(self.entries@[i1].path@ != path);
        }
        if i2 < i1 {
            assert(self.entries@[i2].path@ != path);
        }
    }

    /// An empty cache.
    pub fn new() -> (r: DirectorCache)
        ensures
            r.entries@.len() == 0,
    {
        DirectorCache { entries: Vec::new() }
    }

    /// The remembered response for `path`, when there is one.
    pub fn lookup(&self, path: &str) -> (r: Option<&DirectorResponse>)
        ensures
            match r {
                Some(resp) => self.spec_has_path(path@) && *resp == self.spec_lookup(path@),
                None => !self.spec_has_path(path@),
            },
    {
        let n = self.entries.len();
        let mut i: usize = 0;
        while i < n
            invariant
                n == self.entries@.len(),
                0 <= i <= n,
                forall|k: int| 0 <= k < i ==> self.entries@[k].path@ != path@,
            decreases n - i,
        {
            if str_eq(self.entries[i].path.as_str(), path) {
                proof {
                    assert(self.entry_point(path@, i as int));
                    self.lemma_entry_point_unique(
                        path@,
                        i as int,
                        choose|k: int| self.entry_point(path@, k),
                    );
                }
                return Some(&self.entries[i].response);
            }
            i = i + 1;
        }
        None
    }

    /// Record the outcome of one outbound discovery call. A status of 400 or
    /// above is a director refusal and is surfaced as an error; anything else
    /// has its headers remembered for the process lifetime.
    pub fn record(
        &mut self,
        path: String,
        status: u16,
        link: Option<String>,
        namespace: Option<String>,
        body: &str,
    ) -> (r: Result<(), MyError>)
        ensures
            status >= 400 ==> {
                &&& r matches Err(e) && e matches MyError::PelicanError(m) && m@
                    == "Error finding Pelican Origin: "@ + body@
                &&& *final (self) == *old(self)
            },
            status < 400 ==> {
                &&& r is Ok
                &&& final (self).entries@ == old(self).entries@.push(
                    (CacheEntry { path, response: (DirectorResponse { link, namespace }) }),
                )
            },
    {
        if status >= 400 {
            return Err(
                MyError::PelicanError(
                    String::from_str("Error finding Pelican Origin: ").concat(body),
                ),
            );
        }
        self.entries.push(CacheEntry { path, response: DirectorResponse { link, namespace } });
        Ok(())
    }

    /// One step of resolving a federation URL: an error for a non-federation
    /// URL; a request to fetch the discovery URL when the path is not yet
    /// cached; otherwise the origin set built from the cached headers.
    pub fn resolve_step(&self, url: &str) -> (r: Result<ResolveAction, MyError>)
        ensures
            !is_federation_url(url@) ==> (r matches Err(e) && e matches MyError::PelicanError(m)
                && m@ == "url is not an OSDF url"@),
            (r matches Ok(a) && a is Fetch) <==> step_requests_fetch(*self, url@),
            step_requests_fetch(*self, url@) ==> (r matches Ok(a) && a matches ResolveAction::Fetch(
                u,
            ) && u@ == spec_director_base() + spec_discovery_path(url@)),
            is_federation_url(url@) && self.spec_has_path(spec_discovery_path(url@)) ==> {
                let resp = self.spec_lookup(spec_discovery_path(url@));
                &&& ((r matches Ok(a) && a is Done) <==> spec_info_ok(url@, resp))
                &&& (r matches Ok(a) ==> (a matches ResolveAction::Done(info) ==> {
                    &&& string_views(info.origins@) == spec_info_origins(resp)
                    &&& info.osdf_prefix@ == spec_info_prefix(resp)
                }))
                &&& (!spec_info_ok(url@, resp) ==> (r matches Err(e) && e is PelicanError))
            },
    {
        let path = match str_strip_prefix(url, "osdf://") {
            None => {
                return Err(MyError::PelicanError(String::from_str("url is not an OSDF url")));
            },
            Some(p) => p,
        };
        proof {
            assert(is_federation_url(url@));
            assert(path@ == spec_discovery_path(url@));
        }
        match self.lookup(path) {
            Some(resp) => match PelicanInfo::from_url(url, resp) {
                Ok(info) => Ok(ResolveAction::Done(info)),
                Err(e) => Err(e),
            },
            None => Ok(ResolveAction::Fetch(director_url(path))),
        }
    }
}

/// Discovery is cached: once the discovery path of `url` has been recorded,
/// resolving `url` again never asks for another outbound discovery call, so
/// two resolutions of one federation path make at most one call.
pub proof fn lemma_discovery_fetched_once(
    pre: DirectorCache,
    post: DirectorCache,
    url: Seq<char>,
    e: CacheEntry,
)
    requires
        e.path@ == spec_discovery_path(url),
        post.entries@ == pre.entries@.push(e),
    ensures
        !step_requests_fetch(post, url),
{
    assert(post.entries@[pre.entries@.len() as int].path@ == spec_discovery_path(url));
}

} // verus!
