//! How a resource is shown: by its identifier and, where it has one, its name.

use vstd::prelude::*;
use vstd::string::*;
use crate::text::{as_opt_str, opt_str_text, opt_text, same_text, str_or_empty, text_or_empty};

verus! {

/// The label of a resource: its identifier, followed in brackets by its
/// name or, where it has no name, by its description, if it has either.
pub open spec fn labelled(
    id: Seq<char>,
    name: Option<Seq<char>>,
    description: Option<Seq<char>>,
) -> Seq<char> {
    match name {
        Some(n) => id + " ("@ + n + ")"@,
        None => match description {
            Some(d) => id + " ("@ + d + ")"@,
            None => id,
        },
    }
}

/// The label of a resource: its identifier, followed in brackets by its
/// name or, where it has no name, by its description, if it has either.
pub fn label(id: String, name: Option<&str>, description: Option<&str>) -> (r: String)
    ensures
        r@ == labelled(id@, opt_str_text(name), opt_str_text(description)),
{
    let shown = match name {
        Some(n) => Some(n),
        None => description,
    };
    match shown {
        Some(text) => {
            let mut r = id;
            r.append(" (");
            r.append(text);
            r.append(")");
            r
        },
        None => id,
    }
}

/// What can be shown in a tree: a thing with an identifier, perhaps tags, a
/// name and a description, and a label made of them.
pub trait Show {
    /// The identifier, or the empty text where there is none.
    spec fn shown_id(&self) -> Seq<char>;

    /// The value of the first tag with the key `key`.
    spec fn shown_tag(&self, key: Seq<char>) -> Option<Seq<char>>;

    /// The description, for the resources that have one.
    open spec fn shown_description(&self) -> Option<Seq<char>> {
        None
    }

    /// The name: unless a resource says otherwise, the value of its tag `Name`.
    open spec fn shown_name(&self) -> Option<Seq<char>> {
        self.shown_tag("Name"@)
    }

    /// The label under which the resource appears in a tree.
    open spec fn shown(&self) -> Seq<char> {
        labelled(self.shown_id(), self.shown_name(), self.shown_description())
    }

    /// The identifier, or the empty text where there is none.
    fn id(&self) -> (r: String)
        ensures
            r@ == self.shown_id(),
    ;

    /// The value of the first tag with the key `key`.
    fn tag(&self, key: &str) -> (r: Option<&str>)
        ensures
            opt_str_text(r) == self.shown_tag(key@),
    ;

    /// The description, for the resources that have one.
    fn description(&self) -> (r: Option<&str>)
        ensures
            opt_str_text(r) == self.shown_description(),
    ;

    /// The name: unless a resource says otherwise, the value of its tag `Name`.
    fn name(&self) -> (r: Option<&str>)
        ensures
            opt_str_text(r) == self.shown_name(),
    ;

    /// The label under which the resource appears in a tree.
    fn id_and_name(&self) -> (r: String)
        ensures
            r@ == self.shown(),
    ;
}

/// A tag of a resource: a key and a value, either of which may be missing.
#[derive(Debug, PartialEq, Eq)]
pub struct Tag {
    pub key: Option<String>,
    pub value: Option<String>,
}

/// The value of the first tag whose key is `key`, if that tag has a value.
pub open spec fn tag_value(tags: Seq<Tag>, key: Seq<char>) -> Option<Seq<char>>
    decreases tags.len(),
{
    if tags.len() == 0 {
        None
    } else if opt_text(tags[0].key) == Some(key) {
        opt_text(tags[0].value)
    } else {
        tag_value(tags.drop_first(), key)
    }
}

/// The value of the first tag whose key is `key`, if that tag has a value.
pub fn find_tag<'a>(tags: &'a Vec<Tag>, key: &str) -> (r: Option<&'a str>)
    ensures
        opt_str_text(r) == tag_value(tags@, key@),
{
    let mut i: usize = 0;
    assert(tags@.skip(0) =~= tags@);
    while i < tags.len()
        invariant
            i <= tags.len(),
            tag_value(tags@, key@) == tag_value(tags@.skip(i as int), key@),
        decreases tags.len() - i,
    {
        let ghost rest = tags@.skip(i as int);
        assert(rest[0] == tags@[i as int]);
        assert(rest.drop_first() =~= tags@.skip(i as int + 1));
        let hit = match &tags[i].key {
            Some(k) => same_text(k.as_str(), key),
            None => false,
        };
        if hit {
            return as_opt_str(&tags[i].value);
        }
        i += 1;
    }
    None
}

/// What is shown of an EC2 resource of any kind.
#[derive(Debug, PartialEq, Eq)]
pub struct Resource {
    /// The identifier of the resource.
    pub id: Option<String>,
    /// The description, for the kinds of resource that have one.
    pub description: Option<String>,
    /// The tags of the resource.
    pub tags: Vec<Tag>,
    /// The VPC that the resource names as its own or, for a resource that is
    /// attached to VPCs, the VPC of each attachment.
    pub vpc_ids: Vec<Option<String>>,
    /// For a VPN connection, the VPN gateway that it ends at.
    pub gateway_id: Option<String>,
}

impl Show for Resource {
    open spec fn shown_id(&self) -> Seq<char> {
        text_or_empty(self.id)
    }

    open spec fn shown_tag(&self, key: Seq<char>) -> Option<Seq<char>> {
        tag_value(self.tags@, key)
    }

    open spec fn shown_description(&self) -> Option<Seq<char>> {
        opt_text(self.description)
    }

    fn id(&self) -> (r: String) {
        str_or_empty(&self.id).to_owned()
    }

    fn tag(&self, key: &str) -> (r: Option<&str>) {
        find_tag(&self.tags, key)
    }

    fn description(&self) -> (r: Option<&str>) {
        as_opt_str(&self.description)
    }

    fn name(&self) -> (r: Option<&str>) {
        self.tag("Name")
    }

    fn id_and_name(&self) -> (r: String) {
        label(self.id(), self.name(), self.description())
    }
}

/// The region that a set of resources was collected from, if it is known.
/// A region is shown by its name alone.
#[derive(Debug, PartialEq, Eq)]
pub struct Region {
    pub name: Option<String>,
}

impl Show for Region {
    open spec fn shown_id(&self) -> Seq<char> {
        text_or_empty(self.name)
    }

    open spec fn shown_tag(&self, key: Seq<char>) -> Option<Seq<char>> {
        None
    }

    open spec fn shown(&self) -> Seq<char> {
        self.shown_id()
    }

    fn id(&self) -> (r: String) {
        str_or_empty(&self.name).to_owned()
    }

    fn tag(&self, key: &str) -> (r: Option<&str>) {
        None
    }

    fn description(&self) -> (r: Option<&str>) {
        None
    }

    fn name(&self) -> (r: Option<&str>) {
        self.tag("Name")
    }

    fn id_and_name(&self) -> (r: String) {
        self.id()
    }
}

} // verus!
