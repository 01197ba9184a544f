//! The filters that scope a describe request to VPCs and to tags.

use vstd::prelude::*;
use vstd::string::*;
use crate::show::Resource;
use crate::text::opt_text;

verus! {

/// A filter of a describe request: a name and the values that it admits.
#[derive(Debug, PartialEq, Eq)]
pub struct Filter {
    pub name: String,
    pub values: Vec<String>,
}

impl Filter {
    /// The filter as plain text: its name and its values.
    pub open spec fn text(self) -> (Seq<char>, Seq<Seq<char>>) {
        (self.name@, self.values.deep_view())
    }
}

/// The filters of a list as plain text.
pub open spec fn filter_texts(filters: Seq<Filter>) -> Seq<(Seq<char>, Seq<Seq<char>>)> {
    filters.map_values(|f: Filter| f.text())
}

/// The identifiers of the VPCs that have one, in their order.
pub open spec fn vpc_ids(vpcs: Seq<Resource>) -> Seq<Seq<char>> {
    vpcs.filter_map(|vpc: Resource| opt_text(vpc.id))
}

/// The filter by VPC under the name `name`: none where no VPC has an
/// identifier, else one that admits the identifiers of the VPCs.
pub open spec fn scope_of(vpcs: Seq<Resource>, name: Seq<char>) -> Option<
    (Seq<char>, Seq<Seq<char>>),
> {
    if vpc_ids(vpcs).len() == 0 {
        None
    } else {
        Some((name, vpc_ids(vpcs)))
    }
}

/// The filter for one tag: the key after `tag:`, and the value alone.
pub open spec fn tag_filter_of(tag: (String, String)) -> (Seq<char>, Seq<Seq<char>>) {
    ("tag:"@ + tag.0@, seq![tag.1@])
}

/// The filters of a request as plain text: the filter by VPC, where there is
/// one, and after it the filters by tag.
pub open spec fn request_of(
    scope: Option<(Seq<char>, Seq<Seq<char>>)>,
    tags: Seq<(Seq<char>, Seq<Seq<char>>)>,
) -> Seq<(Seq<char>, Seq<Seq<char>>)> {
    match scope {
        Some(f) => seq![f] + tags,
        None => tags,
    }
}

/// The text of an optional filter.
pub open spec fn opt_filter_text(filter: Option<Filter>) -> Option<(Seq<char>, Seq<Seq<char>>)> {
    match filter {
        Some(f) => Some(f.text()),
        None => None,
    }
}

/// A filter with the name `key` that admits `values`.
pub fn filter(key: String, values: Vec<String>) -> (f: Filter)
    ensures
        f.name == key,
        f.values == values,
{
    Filter { name: key, values }
}

/// The identifiers of the VPCs that have one, in their order.
pub fn ids_of(vpcs: &Vec<Resource>) -> (ids: Vec<String>)
    ensures
        ids.deep_view() == vpc_ids(vpcs@),
{
    let ghost pick = |vpc: Resource| opt_text(vpc.id);
    let mut ids: Vec<String> = Vec::new();
    let mut i: usize = 0;
    assert(vpcs@.take(0) =~= Seq::empty());
    assert(ids.deep_view() =~= Seq::empty());
    while i < vpcs.len()
        invariant
            i <= vpcs.len(),
            pick == (|vpc: Resource| opt_text(vpc.id)),
            ids.deep_view() == vpcs@.take(i as int).filter_map(pick),
        decreases vpcs.len() - i,
    {
        let ghost before = ids.deep_view();
        proof {
            vpcs@.lemma_filter_map_take_succ(pick, i as int);
        }
        match &vpcs[i].id {
            Some(id) => {
                ids.push(id.clone());
                assert(ids.deep_view() =~= before + seq![id@]);
            },
            None => {},
        }
        i += 1;
    }
    assert(vpcs@.take(vpcs.len() as int) =~= vpcs@);
    ids
}

/// The filter by VPC under the name `name`: none where no VPC has an
/// identifier, else one that admits the identifiers of the VPCs.
pub fn scope_filter(vpcs: &Vec<Resource>, name: &str) -> (f: Option<Filter>)
    ensures
        opt_filter_text(f) == scope_of(vpcs@, name@),
{
    let ids = ids_of(vpcs);
    if ids.len() == 0 {
        None
    } else {
        Some(filter(name.to_owned(), ids))
    }
}

/// The filters by tag: one for each pair of key and value, in their order.
pub fn tag_filters(tags: &Vec<(String, String)>) -> (filters: Vec<Filter>)
    ensures
        filter_texts(filters@) == tags@.map_values(|tag: (String, String)| tag_filter_of(tag)),
{
    let mut filters: Vec<Filter> = Vec::new();
    let mut i: usize = 0;
    while i < tags.len()
        invariant
            i <= tags.len(),
            filters.len() == i,
            forall|j: int| 0 <= j < i ==> (#[trigger] filters[j]).text() == tag_filter_of(tags[j]),
        decreases tags.len() - i,
    {
        let mut name = "tag:".to_owned();
        name.append(tags[i].0.as_str());
        let mut values: Vec<String> = Vec::new();
        values.push(tags[i].1.clone());
        assert(values.deep_view() =~= seq![tags[i as int].1@]);
        filters.push(filter(name, values));
        i += 1;
    }
    assert(filter_texts(filters@) =~= tags@.map_values(|tag: (String, String)| tag_filter_of(tag)));
    filters
}

/// The filters of one describe request, in the order in which they are set.
#[derive(Debug, PartialEq, Eq)]
pub struct Request {
    pub filters: Vec<Filter>,
}

impl Request {
    /// A request without filters.
    pub fn new() -> (r: Request)
        ensures
            r.filters@ == Seq::<Filter>::empty(),
    {
        Request { filters: Vec::new() }
    }

    /// The request with one more filter, where there is one to add.
    pub fn optionally_filter(self, filter: Option<Filter>) -> (r: Request)
        ensures
            r.filters@ == match filter {
                Some(f) => self.filters@.push(f),
                None => self.filters@,
            },
    {
        match filter {
            Some(f) => {
                let mut filters = self.filters;
                filters.push(f);
                Request { filters }
            },
            None => self,
        }
    }

    /// The request with each of the filters added, in their order.
    pub fn fold_filters(self, filters: Vec<Filter>) -> (r: Request)
        ensures
            r.filters@ == self.filters@ + filters@,
    {
        let mut all = self.filters;
        let mut more = filters;
        all.append(&mut more);
        Request { filters: all }
    }
}

} // verus!
