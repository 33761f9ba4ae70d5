use vstd::prelude::*;

verus! {

/// Identity of a catalog object. Objects from the remote catalog have positive ids;
/// objects made up locally (such as a user's likes) have negative ids.
#[derive(Debug, Clone)]
pub struct ObjectInside {
    pub id: i64,
    pub kind: String,
    pub url: Option<String>,
    pub uri: Option<String>,
}

/// A catalog object; two objects are the same object when their ids are equal.
#[derive(Debug, Clone, Default)]
pub struct Object {
    pub id: i64,
    pub kind: String,
    pub url: Option<String>,
    pub uri: Option<String>,
}

impl PartialEq for Object {
    fn eq(&self, other: &Object) -> (r: bool)
        ensures
            r == (self.id == other.id),
    {
        self.id == other.id
    }
}

impl vstd::std_specs::cmp::PartialEqSpecImpl for Object {
    open spec fn obeys_eq_spec() -> bool {
        true
    }

    open spec fn eq_spec(&self, other: &Object) -> bool {
        self.id == other.id
    }
}

impl Eq for Object {}

impl From<ObjectInside> for Object {
    fn from(o: ObjectInside) -> (r: Object)
        ensures
            r.id == o.id,
            r.kind == o.kind,
            r.url == o.url,
            r.uri == o.uri,
    {
        Object { id: o.id, kind: o.kind, url: o.url, uri: o.uri }
    }
}

impl vstd::std_specs::convert::FromSpecImpl<ObjectInside> for Object {
    open spec fn obeys_from_spec() -> bool {
        true
    }

    open spec fn from_spec(o: ObjectInside) -> Object {
        Object { id: o.id, kind: o.kind, url: o.url, uri: o.uri }
    }
}

/// Something that is a catalog object.
pub trait Objectable {
    fn object(&self) -> &Object;
}

/// How a transcoding is delivered.
#[derive(Debug, Clone, Default)]
pub struct Format {
    pub mime_type: String,
    pub protocol: String,
}

/// One encoding of a track, resolved through `url` to a segment list.
#[derive(Debug, Clone, Default)]
pub struct Transcoding {
    pub url: String,
    pub format: Format,
}

/// The encodings a track is offered in.
#[derive(Debug, Clone, Default)]
pub struct Media {
    pub transcodings: Vec<Transcoding>,
}

#[derive(Debug, Clone, Default)]
pub struct User {
    pub object: Object,
    pub username: String,
    pub avatar: Option<String>,
}

impl Objectable for User {
    fn object(&self) -> (r: &Object)
        ensures
            r == &self.object,
    {
        &self.object
    }
}

#[derive(Debug, Clone, Default)]
pub struct Song {
    pub object: Object,
    pub user: User,
    pub artwork: Option<String>,
    pub title: String,
    pub media: Media,
    /// In milliseconds.
    pub full_duration: usize,
}

impl Objectable for Song {
    fn object(&self) -> (r: &Object)
        ensures
            r == &self.object,
    {
        &self.object
    }
}

/// A track known only by its id.
#[derive(Debug, Clone, Copy, Default, PartialEq, Eq)]
pub struct BlackboxSong {
    pub id: i64,
}

/// Where a transcoding's segment list is found.
#[derive(Debug, Clone, Default)]
pub struct HlsPlaylist {
    pub url: String,
}

/// A catalog object named by its public address or by its id.
pub enum Id<'a> {
    Url(&'a str),
    Id(i64),
}

/// The owned form of `Id`.
#[derive(Debug, Clone, PartialEq, Eq, Hash)]
pub enum OwnedId {
    Url(String),
    Id(i64),
}

impl<'a> From<Id<'a>> for OwnedId {
    fn from(id: Id<'a>) -> (r: OwnedId)
        ensures
            id matches Id::Url(u) ==> r matches OwnedId::Url(s) && s@ == u@,
            id matches Id::Id(n) ==> r == OwnedId::Id(n),
    {
        match id {
            Id::Url(url) => OwnedId::Url(url.to_owned()),
            Id::Id(n) => OwnedId::Id(n),
        }
    }
}

impl<'a> From<&'a OwnedId> for Id<'a> {
    fn from(owned: &'a OwnedId) -> (r: Id<'a>)
        ensures
            owned matches OwnedId::Url(s) ==> r matches Id::Url(u) && u@ == s@,
            owned matches OwnedId::Id(n) ==> r == Id::Id(*n),
    {
        match owned {
            OwnedId::Url(url) => Id::Url(url.as_str()),
            OwnedId::Id(n) => Id::Id(*n),
        }
    }
}

// A `String` is known only by its characters, so these conversions are specified by
// their own `ensures` rather than by a spec-level `from`.
impl<'a> vstd::std_specs::convert::FromSpecImpl<Id<'a>> for OwnedId {
    open spec fn obeys_from_spec() -> bool {
        false
    }

    open spec fn from_spec(id: Id<'a>) -> OwnedId {
        match id {
            Id::Url(u) => OwnedId::Url(choose|s: String| s@ == u@),
            Id::Id(n) => OwnedId::Id(n),
        }
    }
}

impl<'a> vstd::std_specs::convert::FromSpecImpl<&'a OwnedId> for Id<'a> {
    open spec fn obeys_from_spec() -> bool {
        false
    }

    open spec fn from_spec(owned: &'a OwnedId) -> Id<'a> {
        match owned {
            OwnedId::Url(s) => Id::Url(choose|u: &'a str| u@ == s@),
            OwnedId::Id(n) => Id::Id(*n),
        }
    }
}

/// Query parameters as pairs of character sequences.
pub open spec fn params_view(p: Seq<(String, String)>) -> Seq<(Seq<char>, Seq<char>)> {
    p.map_values(|kv: (String, String)| (kv.0@, kv.1@))
}

pub open spec fn opt_params_view(p: Option<Vec<(String, String)>>) -> Seq<(Seq<char>, Seq<char>)> {
    match p {
        Some(v) => params_view(v@),
        None => Seq::empty(),
    }
}

/// A catalog request: a path below the catalog's origin and its query parameters.
#[derive(Debug, Default)]
pub struct Endpoint {
    pub endpoint: String,
    pub params: Option<Vec<(String, String)>>,
}

impl Endpoint {
    /// The request for an object: by address through the catalog's `resolve` path, with
    /// the address as the first parameter; by id at the path `format_endpoint` makes of it.
    pub fn from_id<F: Fn(i64) -> String>(
        id: Id<'_>,
        format_endpoint: F,
        params: Option<Vec<(String, String)>>,
    ) -> (r: Endpoint)
        requires
            id matches Id::Id(n) ==> format_endpoint.requires((n,)),
        ensures
            id matches Id::Url(u) ==> r.endpoint@ == "resolve"@,
            id matches Id::Url(u) ==> (r.params matches Some(p) && params_view(p@) == seq![("url"@, u@)]
                + opt_params_view(params)),
            id matches Id::Id(n) ==> format_endpoint.ensures((n,), r.endpoint) && r.params == params,
    {
        match id {
            Id::Url(url) => {
                let mut v: Vec<(String, String)> = Vec::new();
                v.push(("url".to_owned(), url.to_owned()));
                let mut rest = match params {
                    Some(p) => p,
                    None => Vec::new(),
                };
                let ghost first = v@;
                let ghost extra = rest@;
                v.append(&mut rest);
                proof {
                    assert(v@ =~= first + extra);
                    assert(params_view(v@) =~= params_view(first) + params_view(extra));
                    assert(params_view(first) =~= seq![("url"@, url@)]);
                }
                Endpoint { endpoint: "resolve".to_owned(), params: Some(v) }
            },
            Id::Id(n) => Endpoint { endpoint: format_endpoint(n), params },
        }
    }
}

/// The id the first made-up object gets; each later one gets the next lower id.
pub const FIRST_FAKE_ID: i64 = -1;

/// Hand out a made-up object id from `next` and move the counter on, downwards.
pub fn next_fake_id(next: &mut i64) -> (r: i64)
    requires
        *old(next) > i64::MIN,
    ensures
        r == *old(next),
        *final(next) == *old(next) - 1,
{
    let id = *next;
    *next = id - 1;
    id
}

/// Whether an entry of a filtered track list is shown, and with which match score.
#[derive(Debug, Clone, Copy, PartialEq, Eq, Structural)]
pub enum Display {
    Show(i64),
    Hidden,
}

/// Score given to an entry shown without a filter.
pub const UNFILTERED_SCORE: i64 = 100;

impl Default for Display {
    fn default() -> (r: Display)
        ensures
            r == Display::Show(UNFILTERED_SCORE),
    {
        Display::Show(UNFILTERED_SCORE)
    }
}

} // verus!
