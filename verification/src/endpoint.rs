//! Accumulation of a resolved endpoint: a URL, multi-valued headers and a
//! typed property bag, gathered by a consuming builder and frozen into an
//! immutable value. The builder validates nothing; malformed values surface
//! only when the endpoint is used.

use vstd::prelude::*;

verus! {

use vstd::string::StringExecFns;
use crate::assoc::{as_map, unique_keys, lemma_as_map_index, lemma_as_map_not_contains, lemma_as_map_update};
use crate::strutil::str_eq;

/// An endpoint-resolution error, carrying only a message.
#[derive(Debug, PartialEq, Eq)]
pub struct Error {
    pub message: String,
}

impl Error {
    pub fn msg(s: &str) -> (r: Self)
        ensures
            r.message@ == s@,
    {
        Error { message: String::from_str(s) }
    }
}

/// An open typed value: null, boolean, integer, string, array or map.
#[derive(Debug, PartialEq)]
pub enum Document {
    Null,
    Bool(bool),
    PosInt(u64),
    NegInt(i64),
    String(String),
    Array(Vec<Document>),
    Object(Vec<(String, Document)>),
}

/// The headers field, viewed as key/value-sequence pairs.
pub open spec fn header_entries(hs: Seq<(String, Vec<String>)>) -> Seq<(Seq<char>, Seq<Seq<char>>)> {
    Seq::new(hs.len(), |i: int| (hs[i].0@, hs[i].1.deep_view()))
}

/// The properties field, viewed as key/document pairs.
pub open spec fn prop_entries(ps: Seq<(String, Document)>) -> Seq<(Seq<char>, Document)> {
    Seq::new(ps.len(), |i: int| (ps[i].0@, ps[i].1))
}

/// The mathematical content of an [`Endpoint`].
pub ghost struct EndpointView {
    pub url: Seq<char>,
    pub headers: Map<Seq<char>, Seq<Seq<char>>>,
    pub properties: Map<Seq<char>, Document>,
}

/// An immutable resolved endpoint: URL, headers (each name mapping to its
/// values in insertion order) and a property bag with last-write-wins keys.
#[derive(Debug, PartialEq)]
pub struct Endpoint {
    pub url: String,
    pub headers: Vec<(String, Vec<String>)>,
    pub properties: Vec<(String, Document)>,
}

impl View for Endpoint {
    type V = EndpointView;

    open spec fn view(&self) -> EndpointView {
        EndpointView {
            url: self.url@,
            headers: as_map(header_entries(self.headers@)),
            properties: as_map(prop_entries(self.properties@)),
        }
    }
}

impl Endpoint {
    /// Header names and property keys are stored once each.
    pub open spec fn wf(&self) -> bool {
        &&& unique_keys(header_entries(self.headers@))
        &&& unique_keys(prop_entries(self.properties@))
    }

    pub fn url(&self) -> (r: &str)
        ensures
            r@ == self@.url,
    {
        self.url.as_str()
    }

    pub fn headers(&self) -> (r: &Vec<(String, Vec<String>)>)
        ensures
            as_map(header_entries(r@)) == self@.headers,
    {
        &self.headers
    }

    pub fn properties(&self) -> (r: &Vec<(String, Document)>)
        ensures
            as_map(prop_entries(r@)) == self@.properties,
    {
        &self.properties
    }

    pub fn builder() -> (r: Builder)
        ensures
            r.wf(),
            r@.url == Seq::<char>::empty(),
            r@.headers == Map::<Seq<char>, Seq<Seq<char>>>::empty(),
            r@.properties == Map::<Seq<char>, Document>::empty(),
    {
        Builder::new()
    }
}

/// A consuming accumulator for [`Endpoint`] values.
pub struct Builder {
    pub endpoint: Endpoint,
}

impl View for Builder {
    type V = EndpointView;

    open spec fn view(&self) -> EndpointView {
        self.endpoint@
    }
}

impl Builder {
    pub open spec fn wf(&self) -> bool {
        self.endpoint.wf()
    }

    pub fn new() -> (r: Self)
        ensures
            r.wf(),
            r@.url == Seq::<char>::empty(),
            r@.headers == Map::<Seq<char>, Seq<Seq<char>>>::empty(),
            r@.properties == Map::<Seq<char>, Document>::empty(),
    {
        let r = Builder {
            endpoint: Endpoint { url: String::new(), headers: Vec::new(), properties: Vec::new() },
        };
        proof {
            assert(header_entries(r.endpoint.headers@) =~= Seq::<(Seq<char>, Seq<Seq<char>>)>::empty());
            assert(prop_entries(r.endpoint.properties@) =~= Seq::<(Seq<char>, Document)>::empty());
        }
        r
    }

    /// Sets the URL; a later write wins.
    pub fn url(self, url: &str) -> (r: Self)
        ensures
            r.wf() == self.wf(),
            r@.url == url@,
            r@.headers == self@.headers,
            r@.properties == self@.properties,
    {
        let mut this = self;
        this.endpoint.url = String::from_str(url);
        this
    }

    /// Appends `value` to the ordered value sequence of `name`, creating the
    /// sequence when the name is new.
    pub fn header(self, name: &str, value: &str) -> (r: Self)
        requires
            self.wf(),
        ensures
            r.wf(),
            r@.url == self@.url,
            r@.properties == self@.properties,
            r@.headers == self@.headers.insert(
                name@,
                (if self@.headers.contains_key(name@) {
                    self@.headers[name@]
                } else {
                    Seq::<Seq<char>>::empty()
                }).push(value@),
            ),
    {
        let mut this = self;
        let ghost e0 = header_entries(this.endpoint.headers@);
        let n = this.endpoint.headers.len();
        let mut i: usize = 0;
        while i < n
            invariant
                this == self,
                self.wf(),
                i <= n,
                n == this.endpoint.headers@.len(),
                e0 == header_entries(this.endpoint.headers@),
                forall|j: int| 0 <= j < i ==> e0[j].0 != name@,
            decreases n - i,
        {
            if str_eq(this.endpoint.headers[i].0.as_str(), name) {
                let ghost h0 = this.endpoint.headers@;
                let pair = this.endpoint.headers.remove(i);
                let k = pair.0;
                let mut vs = pair.1;
                vs.push(String::from_str(value));
                this.endpoint.headers.insert(i, (k, vs));
                proof {
                    assert(this.endpoint.headers@ =~= h0.update(
                        i as int,
                        (h0[i as int].0, vs),
                    ));
                    assert(vs.deep_view() =~= e0[i as int].1.push(value@));
                    assert(header_entries(this.endpoint.headers@) =~= e0.update(
                        i as int,
                        (e0[i as int].0, e0[i as int].1.push(value@)),
                    ));
                    let ghost e1 = e0.update(
                        i as int,
                        (e0[i as int].0, e0[i as int].1.push(value@)),
                    );
                    assert(forall|j: int| 0 <= j < e1.len() ==> e1[j].0 == e0[j].0);
                    assert(unique_keys(e1));
                    lemma_as_map_update(e0, i as int, e0[i as int].1.push(value@));
                    lemma_as_map_index(e0, i as int);
                }
                return this;
            }
            i += 1;
        }
        let mut vs: Vec<String> = Vec::new();
        vs.push(String::from_str(value));
        this.endpoint.headers.push((String::from_str(name), vs));
        proof {
            let ghost ne = header_entries(this.endpoint.headers@);
            assert(ne.drop_last() =~= e0);
            assert(ne.last().0 == name@);
            assert(vs.deep_view() =~= Seq::<Seq<char>>::empty().push(value@));
            lemma_as_map_not_contains(e0, name@);
            assert forall|a: int, b: int| 0 <= a < b < ne.len() implies ne[a].0 != ne[b].0 by {
                if b < ne.len() - 1 {
                    assert(ne[a] == e0[a] && ne[b] == e0[b]);
                } else {
                    assert(ne[a] == e0[a] && ne[b].0 == name@);
                }
            }
            assert(unique_keys(ne));
        }
        this
    }

    /// Sets a property; a later write to the same key wins.
    pub fn property(self, key: &str, value: Document) -> (r: Self)
        requires
            self.wf(),
        ensures
            r.wf(),
            r@.url == self@.url,
            r@.headers == self@.headers,
            r@.properties == self@.properties.insert(key@, value),
    {
        let mut this = self;
        let ghost e0 = prop_entries(this.endpoint.properties@);
        let n = this.endpoint.properties.len();
        let mut i: usize = 0;
        while i < n
            invariant
                this == self,
                self.wf(),
                i <= n,
                n == this.endpoint.properties@.len(),
                e0 == prop_entries(this.endpoint.properties@),
                forall|j: int| 0 <= j < i ==> e0[j].0 != key@,
            decreases n - i,
        {
            if str_eq(this.endpoint.properties[i].0.as_str(), key) {
                let ghost p0 = this.endpoint.properties@;
                let pair = this.endpoint.properties.remove(i);
                let k = pair.0;
                this.endpoint.properties.insert(i, (k, value));
                proof {
                    assert(this.endpoint.properties@ =~= p0.update(
                        i as int,
                        this.endpoint.properties@[i as int],
                    ));
                    assert(prop_entries(this.endpoint.properties@) =~= e0.update(
                        i as int,
                        (e0[i as int].0, this.endpoint.properties@[i as int].1),
                    ));
                    let ghost e1 = e0.update(
                        i as int,
                        (e0[i as int].0, this.endpoint.properties@[i as int].1),
                    );
                    assert(forall|j: int| 0 <= j < e1.len() ==> e1[j].0 == e0[j].0);
                    assert(unique_keys(e1));
                    lemma_as_map_update(e0, i as int, this.endpoint.properties@[i as int].1);
                }
                return this;
            }
            i += 1;
        }
        this.endpoint.properties.push((String::from_str(key), value));
        proof {
            let ghost ne = prop_entries(this.endpoint.properties@);
            assert(ne.drop_last() =~= e0);
            assert(ne.last().0 == key@);
            lemma_as_map_not_contains(e0, key@);
            assert forall|a: int, b: int| 0 <= a < b < ne.len() implies ne[a].0 != ne[b].0 by {
                if b < ne.len() - 1 {
                    assert(ne[a] == e0[a] && ne[b] == e0[b]);
                } else {
                    assert(ne[a] == e0[a] && ne[b].0 == key@);
                }
            }
            assert(unique_keys(ne));
        }
        this
    }

    /// Freezes the accumulated endpoint.
    pub fn build(self) -> (r: Endpoint)
        ensures
            r.wf() == self.wf(),
            r@ == self@,
    {
        self.endpoint
    }
}

} // verus!
