//! The EC2 resources of one region, and the trees that show them.

use vstd::prelude::*;
use vstd::seq_lib::lemma_flatten_concat;
use crate::filter::{
    filter_texts, opt_filter_text, request_of, scope_filter, scope_of, tag_filter_of, tag_filters,
    Filter, Request,
};
use crate::group::{group_rows, grouped};
use crate::kind::ResourceKind;
use crate::show::{Resource, Show};
use crate::text::{opt_text, same_text, str_or_empty, text_or_empty};
use crate::tree::{indented, leaves, outline, outlines, tree_new, tree_push, tree_with_leaves, Entry};

verus! {

/// A tag as the region lists it: its key and value, and the resource that
/// carries it.
#[derive(Debug, PartialEq, Eq)]
pub struct TagDescription {
    pub key: Option<String>,
    pub value: Option<String>,
    pub resource_type: Option<String>,
    pub resource_id: Option<String>,
}

impl TagDescription {
    /// The place of the tag in the tree of tags: below its key, its value
    /// and the type of its resource, with the empty text for what is missing.
    pub open spec fn path(self) -> Seq<Seq<char>> {
        seq![
            text_or_empty(self.key),
            text_or_empty(self.value),
            text_or_empty(self.resource_type),
            text_or_empty(self.resource_id),
        ]
    }

    /// The place of the tag in the tree of tags.
    pub fn row(&self) -> (r: Vec<String>)
        ensures
            r.deep_view() == self.path(),
    {
        let mut r: Vec<String> = Vec::new();
        r.push(str_or_empty(&self.key).to_owned());
        r.push(str_or_empty(&self.value).to_owned());
        r.push(str_or_empty(&self.resource_type).to_owned());
        r.push(str_or_empty(&self.resource_id).to_owned());
        assert(r.deep_view() =~= self.path());
        r
    }
}

/// The places of the tags in the tree of tags.
pub open spec fn tag_paths(tags: Seq<TagDescription>) -> Seq<Seq<Seq<char>>> {
    tags.map_values(|tag: TagDescription| tag.path())
}

/// Whether the resource names the VPC as its own, or as that of one of its
/// attachments.
pub open spec fn attached_to(resource: Resource, vpc: Seq<char>) -> bool {
    exists|i: int|
        0 <= i < resource.vpc_ids.len() && opt_text(#[trigger] resource.vpc_ids[i]) == Some(vpc)
}

/// Whether `gateway` is the VPN gateway that the resource ends at.
pub open spec fn is_gateway_of(gateway: Resource, resource: Resource) -> bool {
    gateway.id is Some && opt_text(gateway.id) == opt_text(resource.gateway_id)
}

/// Whether the resource ends at one of the VPN gateways given that is
/// attached to the VPC.
pub open spec fn gateway_in(resource: Resource, gateways: Seq<Resource>, vpc: Seq<char>) -> bool {
    exists|i: int|
        0 <= i < gateways.len() && is_gateway_of(#[trigger] gateways[i], resource) && attached_to(
            gateways[i],
            vpc,
        )
}

/// Whether a resource of a kind belongs to the VPC: it names the VPC or, for
/// a VPN connection, it ends at a VPN gateway that is attached to the VPC.
pub open spec fn in_vpc(
    kind: ResourceKind,
    resource: Resource,
    gateways: Seq<Resource>,
    vpc: Seq<char>,
) -> bool {
    attached_to(resource, vpc) || (kind == ResourceKind::VpnConnection && gateway_in(
        resource,
        gateways,
        vpc,
    ))
}

/// The test for a resource of a kind to be shown below a VPC: it belongs
/// to the VPC.
pub open spec fn shown_below(kind: ResourceKind, gateways: Seq<Resource>, vpc: Seq<char>) -> spec_fn(
    Resource,
) -> bool {
    |resource: Resource| in_vpc(kind, resource, gateways, vpc)
}

/// The resources of a kind that belong to a VPC, in their order. The VPN
/// gateways of the region say which VPCs a VPN connection belongs to.
pub open spec fn members(
    items: Seq<Resource>,
    kind: ResourceKind,
    gateways: Seq<Resource>,
    vpc: Seq<char>,
) -> Seq<Resource> {
    items.filter(shown_below(kind, gateways, vpc))
}

/// The resources behind a list of references.
pub open spec fn referred<S>(items: Seq<&S>) -> Seq<S> {
    items.map_values(|item: &S| *item)
}

/// The labels of a list of resources.
pub open spec fn labels<S: Show>(items: Seq<S>) -> Seq<Seq<char>> {
    items.map_values(|item: S| item.shown())
}

/// The outline of a section below the root of a tree: nothing where there
/// is nothing to show, else the title with one leaf for each label.
pub open spec fn section(title: Seq<char>, labels: Seq<Seq<char>>) -> Seq<Entry> {
    if labels.len() == 0 {
        Seq::empty()
    } else {
        indented(seq![(0nat, title)] + leaves(labels))
    }
}

/// Adds to the tree a section with the labels of the resources, unless
/// there are none.
pub fn child_tree<S: Show>(tree: &mut termtree::Tree<String>, title: &str, resources: &Vec<&S>)
    ensures
        outline(*final(tree)) == outline(*old(tree)) + section(
            title@,
            labels(referred(resources@)),
        ),
{
    if resources.len() > 0 {
        let mut names: Vec<String> = Vec::new();
        let mut i: usize = 0;
        while i < resources.len()
            invariant
                i <= resources.len(),
                names.len() == i,
                forall|j: int| 0 <= j < i ==> (#[trigger] names[j])@ == resources[j].shown(),
            decreases resources.len() - i,
        {
            names.push(resources[i].id_and_name());
            i += 1;
        }
        assert(names.deep_view() =~= labels(referred(resources@)));
        let ghost root = seq![(0nat, title@)];
        let leaf = tree_with_leaves(tree_new(title.to_owned()), names);
        assert(root.take(1) =~= root);
        tree_push(tree, leaf);
    } else {
        assert(outline(*tree) + Seq::<Entry>::empty() =~= outline(*tree));
    }
}

/// Whether the resource names the VPC as its own, or as that of one of its
/// attachments.
pub fn is_attached_to(resource: &Resource, vpc_id: &str) -> (r: bool)
    ensures
        r == attached_to(*resource, vpc_id@),
{
    let mut i: usize = 0;
    while i < resource.vpc_ids.len()
        invariant
            i <= resource.vpc_ids.len(),
            forall|j: int| 0 <= j < i ==> opt_text(#[trigger] resource.vpc_ids[j]) != Some(vpc_id@),
        decreases resource.vpc_ids.len() - i,
    {
        let hit = match &resource.vpc_ids[i] {
            Some(id) => same_text(id.as_str(), vpc_id),
            None => false,
        };
        if hit {
            return true;
        }
        i += 1;
    }
    false
}

/// Whether the resource ends at one of the VPN gateways given that is
/// attached to the VPC.
pub fn is_gateway_in(resource: &Resource, gateways: &Vec<Resource>, vpc_id: &str) -> (r: bool)
    ensures
        r == gateway_in(*resource, gateways@, vpc_id@),
{
    match &resource.gateway_id {
        Some(wanted) => {
            let mut i: usize = 0;
            while i < gateways.len()
                invariant
                    i <= gateways.len(),
                    resource.gateway_id == Some(*wanted),
                    forall|j: int|
                        0 <= j < i ==> !(is_gateway_of(#[trigger] gateways@[j], *resource)
                            && attached_to(gateways@[j], vpc_id@)),
                decreases gateways.len() - i,
            {
                let ends_here = match &gateways[i].id {
                    Some(id) => same_text(id.as_str(), wanted.as_str()),
                    None => false,
                };
                if ends_here && is_attached_to(&gateways[i], vpc_id) {
                    return true;
                }
                i += 1;
            }
            false
        },
        None => false,
    }
}

/// Whether a resource of a kind belongs to the VPC: it names the VPC or, for
/// a VPN connection, it ends at a VPN gateway that is attached to the VPC.
pub fn is_in_vpc(kind: ResourceKind, resource: &Resource, gateways: &Vec<Resource>, vpc_id: &str) -> (r:
    bool)
    ensures
        r == in_vpc(kind, *resource, gateways@, vpc_id@),
{
    if is_attached_to(resource, vpc_id) {
        true
    } else {
        match kind {
            ResourceKind::VpnConnection => is_gateway_in(resource, gateways, vpc_id),
            _ => false,
        }
    }
}

/// The resources of a kind that belong to a VPC, in their order. The VPN
/// gateways of the region say which VPCs a VPN connection belongs to.
pub fn select<'a>(
    items: &'a Vec<Resource>,
    kind: ResourceKind,
    gateways: &Vec<Resource>,
    vpc_id: &str,
) -> (r: Vec<&'a Resource>)
    ensures
        referred(r@) == members(items@, kind, gateways@, vpc_id@),
{
    let ghost pred = shown_below(kind, gateways@, vpc_id@);
    let mut r: Vec<&'a Resource> = Vec::new();
    let mut i: usize = 0;
    proof {
        reveal(Seq::filter);
        assert(items@.take(0) =~= Seq::empty());
        assert(referred(r@) =~= Seq::empty());
    }
    while i < items.len()
        invariant
            i <= items.len(),
            pred == shown_below(kind, gateways@, vpc_id@),
            referred(r@) == items@.take(i as int).filter(pred),
        decreases items.len() - i,
    {
        let ghost before = referred(r@);
        proof {
            items@.take(i as int).lemma_filter_push(items@[i as int], pred);
            assert(items@.take(i as int).push(items@[i as int]) =~= items@.take(i as int + 1));
        }
        if is_in_vpc(kind, &items[i], gateways, vpc_id) {
            r.push(&items[i]);
            assert(referred(r@) =~= before.push(items@[i as int]));
        }
        i += 1;
    }
    assert(items@.take(items.len() as int) =~= items@);
    r
}

/// The resources of a list of lists, one list after the other.
pub open spec fn joined(lists: Seq<Vec<Resource>>) -> Seq<Resource> {
    lists.map_values(|list: Vec<Resource>| list@).flatten()
}

/// The instances of a list of reservations, in the order of the
/// reservations and, within each, of its instances.
pub fn instances_of(reservations: Vec<Vec<Resource>>) -> (r: Vec<Resource>)
    ensures
        r@ == joined(reservations@),
{
    let mut rest = reservations;
    let mut all: Vec<Resource> = Vec::new();
    assert(joined(rest@) + all@ =~= joined(reservations@));
    while rest.len() > 0
        invariant
            joined(rest@) + all@ == joined(reservations@),
        decreases rest.len(),
    {
        let ghost before = rest@;
        let ghost tail = all@;
        let mut last = rest.pop().unwrap();
        proof {
            let views = |list: Vec<Resource>| list@;
            assert(before =~= rest@.push(last));
            assert(before.map_values(views) =~= rest@.map_values(views) + seq![last@]);
            lemma_flatten_concat(rest@.map_values(views), seq![last@]);
            seq![last@].lemma_flatten_one_element();
        }
        last.append(&mut all);
        all = last;
        assert(joined(rest@) + all@ =~= joined(before) + tail);
    }
    assert(joined(rest@) =~= Seq::<Resource>::empty());
    all
}

/// What to ask the region next: the resources of one kind.
#[derive(Debug, PartialEq, Eq)]
pub struct Step {
    /// The kind of resource to describe.
    pub kind: ResourceKind,
    /// What the progress bar says meanwhile.
    pub title: String,
    /// The filters of the request.
    pub request: Request,
}

/// The resources shown below a VPC are resources of the collection that
/// belong to that VPC.
pub proof fn lemma_members_belong(
    items: Seq<Resource>,
    kind: ResourceKind,
    gateways: Seq<Resource>,
    vpc: Seq<char>,
    i: int,
)
    requires
        0 <= i < members(items, kind, gateways, vpc).len(),
    ensures
        items.contains(members(items, kind, gateways, vpc)[i]),
        in_vpc(kind, members(items, kind, gateways, vpc)[i], gateways, vpc),
{
    let found = members(items, kind, gateways, vpc);
    assert(found.contains(found[i]));
    items.lemma_filter_contains_rev(shown_below(kind, gateways, vpc), found[i]);
    items.lemma_filter_pred(shown_below(kind, gateways, vpc), i);
}

/// Every resource of the collection that belongs to a VPC is shown below
/// it.
pub proof fn lemma_owned_are_members(
    items: Seq<Resource>,
    kind: ResourceKind,
    gateways: Seq<Resource>,
    vpc: Seq<char>,
    i: int,
)
    requires
        0 <= i < items.len(),
        in_vpc(kind, items[i], gateways, vpc),
    ensures
        members(items, kind, gateways, vpc).contains(items[i]),
{
    items.lemma_filter_contains(shown_below(kind, gateways, vpc), i);
}

/// A section is there exactly when there is something to show: then it is
/// its title and one leaf for each label.
pub proof fn lemma_section_shows_labels(title: Seq<char>, labels: Seq<Seq<char>>)
    ensures
        labels.len() == 0 <==> section(title, labels).len() == 0,
        labels.len() > 0 ==> {
            &&& section(title, labels).len() == labels.len() + 1
            &&& section(title, labels)[0] == (1nat, title)
            &&& forall|i: int|
                0 <= i < labels.len() ==> #[trigger] section(title, labels)[i + 1] == (
                    2nat,
                    labels[i],
                )
        },
{
}

/// The EC2 resources that were collected from one region.
#[derive(Debug)]
pub struct Ec2Resources {
    /// The tags that every request is scoped to.
    pub tags: Vec<(String, String)>,
    /// The tags of the region, where they were asked for.
    pub tag_descriptions: Vec<TagDescription>,
    /// The VPCs: first those asked for, by their identifiers alone, then
    /// the VPCs that the region lists.
    pub vpcs: Vec<Resource>,
    /// How many kinds of resource the run has collected so far, in their
    /// order.
    pub collected: usize,
    pub subnets: Vec<Resource>,
    pub instances: Vec<Resource>,
    pub internet_gateways: Vec<Resource>,
    pub route_tables: Vec<Resource>,
    pub network_acls: Vec<Resource>,
    pub vpc_peerings: Vec<Resource>,
    pub vpc_endpoints: Vec<Resource>,
    pub nat_gateways: Vec<Resource>,
    pub security_groups: Vec<Resource>,
    pub vpn_connections: Vec<Resource>,
    pub vpn_gateways: Vec<Resource>,
    pub network_interfaces: Vec<Resource>,
}

impl Ec2Resources {
    /// The resources of a kind.
    pub open spec fn items(self, kind: ResourceKind) -> Seq<Resource> {
        match kind {
            ResourceKind::Subnet => self.subnets@,
            ResourceKind::Instance => self.instances@,
            ResourceKind::InternetGateway => self.internet_gateways@,
            ResourceKind::RouteTable => self.route_tables@,
            ResourceKind::NetworkAcl => self.network_acls@,
            ResourceKind::VpcPeering => self.vpc_peerings@,
            ResourceKind::VpcEndpoint => self.vpc_endpoints@,
            ResourceKind::NatGateway => self.nat_gateways@,
            ResourceKind::SecurityGroup => self.security_groups@,
            ResourceKind::VpnConnection => self.vpn_connections@,
            ResourceKind::VpnGateway => self.vpn_gateways@,
            ResourceKind::NetworkInterface => self.network_interfaces@,
        }
    }

    /// The filters by tag of every request, as plain text.
    pub open spec fn tag_scope(self) -> Seq<(Seq<char>, Seq<Seq<char>>)> {
        self.tags@.map_values(|tag: (String, String)| tag_filter_of(tag))
    }

    /// The sections of the tree of a VPC for the kinds given, one after the
    /// other.
    pub open spec fn sections(self, vpc: Seq<char>, kinds: Seq<ResourceKind>) -> Seq<Entry>
        decreases kinds.len(),
    {
        if kinds.len() == 0 {
            Seq::empty()
        } else {
            let kind = kinds.last();
            self.sections(vpc, kinds.drop_last()) + section(
                kind.section(),
                labels(members(self.items(kind), kind, self.vpn_gateways@, vpc)),
            )
        }
    }

    /// The outline of the tree of a VPC: its label, and a section for each
    /// kind of which a resource belongs to the VPC.
    pub open spec fn vpc_outline(self, vpc: Resource) -> Seq<Entry> {
        seq![(0nat, vpc.shown())] + self.sections(vpc.shown_id(), ResourceKind::all())
    }

    /// The outline of the tree of tags: the tags of the region by key, then
    /// by value, then by the type of the resource, with the resources as
    /// leaves.
    pub open spec fn tag_outline(self) -> Seq<Entry> {
        grouped(tag_paths(self.tag_descriptions@), 0, 4, "Tags"@)
    }

    /// The outlines of the trees to print: one for each VPC, unless tags
    /// were collected; then the tree of tags alone.
    pub open spec fn tree_outlines(self) -> Seq<Seq<Entry>> {
        if self.tag_descriptions@.len() == 0 {
            self.vpcs@.map_values(|vpc: Resource| self.vpc_outline(vpc))
        } else {
            seq![self.tag_outline()]
        }
    }

    /// Nothing collected yet, with the tags that every request is scoped to.
    pub fn new(tags: &Vec<(String, String)>) -> (r: Ec2Resources)
        ensures
            r.tags@ == tags@,
            r.tag_descriptions@.len() == 0,
            r.vpcs@.len() == 0,
            r.collected == 0,
            forall|kind: ResourceKind| (#[trigger] r.items(kind)).len() == 0,
    {
        let mut copy: Vec<(String, String)> = Vec::new();
        let mut i: usize = 0;
        while i < tags.len()
            invariant
                i <= tags.len(),
                copy@ == tags@.take(i as int),
            decreases tags.len() - i,
        {
            copy.push((tags[i].0.clone(), tags[i].1.clone()));
            assert(copy@ =~= tags@.take(i as int + 1));
            i += 1;
        }
        assert(tags@.take(tags.len() as int) =~= tags@);
        Ec2Resources {
            tags: copy,
            tag_descriptions: Vec::new(),
            vpcs: Vec::new(),
            collected: 0,
            subnets: Vec::new(),
            instances: Vec::new(),
            internet_gateways: Vec::new(),
            route_tables: Vec::new(),
            network_acls: Vec::new(),
            vpc_peerings: Vec::new(),
            vpc_endpoints: Vec::new(),
            nat_gateways: Vec::new(),
            security_groups: Vec::new(),
            vpn_connections: Vec::new(),
            vpn_gateways: Vec::new(),
            network_interfaces: Vec::new(),
        }
    }

    /// The VPCs.
    pub fn vpcs(&self) -> (r: &Vec<Resource>)
        ensures
            r == &self.vpcs,
    {
        &self.vpcs
    }

    /// The resources of a kind.
    pub fn collection(&self, kind: ResourceKind) -> (r: &Vec<Resource>)
        ensures
            r@ == self.items(kind),
    {
        match kind {
            ResourceKind::Subnet => &self.subnets,
            ResourceKind::Instance => &self.instances,
            ResourceKind::InternetGateway => &self.internet_gateways,
            ResourceKind::RouteTable => &self.route_tables,
            ResourceKind::NetworkAcl => &self.network_acls,
            ResourceKind::VpcPeering => &self.vpc_peerings,
            ResourceKind::VpcEndpoint => &self.vpc_endpoints,
            ResourceKind::NatGateway => &self.nat_gateways,
            ResourceKind::SecurityGroup => &self.security_groups,
            ResourceKind::VpnConnection => &self.vpn_connections,
            ResourceKind::VpnGateway => &self.vpn_gateways,
            ResourceKind::NetworkInterface => &self.network_interfaces,
        }
    }

    /// The resources of a kind that belong to a VPC, in their order.
    pub fn resources_in(&self, kind: ResourceKind, vpc_id: &str) -> (r: Vec<&Resource>)
        ensures
            referred(r@) == members(self.items(kind), kind, self.vpn_gateways@, vpc_id@),
    {
        select(self.collection(kind), kind, &self.vpn_gateways, vpc_id)
    }

    /// Keeps the resources of a kind that the region listed, in place of
    /// those held before.
    pub fn store(&mut self, kind: ResourceKind, items: Vec<Resource>)
        ensures
            final(self).items(kind) == items@,
            forall|other: ResourceKind|
                other != kind ==> (#[trigger] final(self).items(other)) == old(self).items(other),
            final(self).tags == old(self).tags,
            final(self).tag_descriptions == old(self).tag_descriptions,
            final(self).vpcs == old(self).vpcs,
            final(self).collected == old(self).collected,
    {
        match kind {
            ResourceKind::Subnet => { self.subnets = items; },
            ResourceKind::Instance => { self.instances = items; },
            ResourceKind::InternetGateway => { self.internet_gateways = items; },
            ResourceKind::RouteTable => { self.route_tables = items; },
            ResourceKind::NetworkAcl => { self.network_acls = items; },
            ResourceKind::VpcPeering => { self.vpc_peerings = items; },
            ResourceKind::VpcEndpoint => { self.vpc_endpoints = items; },
            ResourceKind::NatGateway => { self.nat_gateways = items; },
            ResourceKind::SecurityGroup => { self.security_groups = items; },
            ResourceKind::VpnConnection => { self.vpn_connections = items; },
            ResourceKind::VpnGateway => { self.vpn_gateways = items; },
            ResourceKind::NetworkInterface => { self.network_interfaces = items; },
        }
    }

    /// Keeps the tags that the region listed.
    pub fn store_tags(&mut self, tags: Vec<TagDescription>)
        ensures
            final(self).tag_descriptions == tags,
            final(self).tags == old(self).tags,
            final(self).vpcs == old(self).vpcs,
            final(self).collected == old(self).collected,
            forall|kind: ResourceKind| (#[trigger] final(self).items(kind)) == old(self).items(kind),
    {
        self.tag_descriptions = tags;
    }

    /// Keeps the VPCs that the region listed.
    pub fn store_vpcs(&mut self, vpcs: Vec<Resource>)
        ensures
            final(self).vpcs == vpcs,
            final(self).tags == old(self).tags,
            final(self).tag_descriptions == old(self).tag_descriptions,
            final(self).collected == old(self).collected,
            forall|kind: ResourceKind| (#[trigger] final(self).items(kind)) == old(self).items(kind),
    {
        self.vpcs = vpcs;
    }

    /// Takes the VPCs asked for, known so far by their identifiers alone, so
    /// that the requests that follow are scoped to them.
    pub fn select_vpcs(&mut self, ids: &Vec<String>)
        ensures
            final(self).vpcs@.len() == ids@.len(),
            forall|i: int|
                0 <= i < ids@.len() ==> {
                    &&& opt_text((#[trigger] final(self).vpcs@[i]).id) == Some(ids@[i]@)
                    &&& final(self).vpcs@[i].description is None
                    &&& final(self).vpcs@[i].tags@.len() == 0
                    &&& final(self).vpcs@[i].vpc_ids@.len() == 0
                    &&& final(self).vpcs@[i].gateway_id is None
                },
            final(self).tags == old(self).tags,
            final(self).tag_descriptions == old(self).tag_descriptions,
            final(self).collected == old(self).collected,
            forall|kind: ResourceKind| (#[trigger] final(self).items(kind)) == old(self).items(kind),
    {
        let mut vpcs: Vec<Resource> = Vec::new();
        let mut i: usize = 0;
        while i < ids.len()
            invariant
                i <= ids.len(),
                vpcs@.len() == i,
                forall|j: int|
                    0 <= j < i ==> {
                        &&& opt_text((#[trigger] vpcs@[j]).id) == Some(ids@[j]@)
                        &&& vpcs@[j].description is None
                        &&& vpcs@[j].tags@.len() == 0
                        &&& vpcs@[j].vpc_ids@.len() == 0
                        &&& vpcs@[j].gateway_id is None
                    },
            decreases ids.len() - i,
        {
            vpcs.push(
                Resource {
                    id: Some(ids[i].clone()),
                    description: None,
                    tags: Vec::new(),
                    vpc_ids: Vec::new(),
                    gateway_id: None,
                },
            );
            i += 1;
        }
        self.vpcs = vpcs;
    }

    /// The filter by the identifiers of the VPCs, if any VPC has one.
    pub fn vpc_filter(&self) -> (f: Option<Filter>)
        ensures
            opt_filter_text(f) == scope_of(self.vpcs@, "vpc-id"@),
    {
        scope_filter(&self.vpcs, "vpc-id")
    }

    /// The filter by the VPC of an attachment, if any VPC has an identifier.
    pub fn attachment_vpc_filter(&self) -> (f: Option<Filter>)
        ensures
            opt_filter_text(f) == scope_of(self.vpcs@, "attachment.vpc-id"@),
    {
        scope_filter(&self.vpcs, "attachment.vpc-id")
    }

    /// The filter by the VPC that asked for a peering, if any VPC has an
    /// identifier.
    pub fn requester_vpc_filter(&self) -> (f: Option<Filter>)
        ensures
            opt_filter_text(f) == scope_of(self.vpcs@, "requester-vpc-info.vpc-id"@),
    {
        scope_filter(&self.vpcs, "requester-vpc-info.vpc-id")
    }

    /// The filters by tag: one for each tag that requests are scoped to.
    pub fn tag_filter(&self) -> (filters: Vec<Filter>)
        ensures
            filter_texts(filters@) == self.tag_scope(),
    {
        tag_filters(&self.tags)
    }

    /// The request for the VPCs: scoped to the VPCs asked for, if any, and
    /// to the tags.
    pub fn vpcs_request(&self) -> (r: Request)
        ensures
            filter_texts(r.filters@) == request_of(
                scope_of(self.vpcs@, "vpc-id"@),
                self.tag_scope(),
            ),
    {
        let scope = self.vpc_filter();
        let tags = self.tag_filter();
        let r = Request::new().optionally_filter(scope).fold_filters(tags);
        assert(filter_texts(r.filters@) =~= request_of(
            scope_of(self.vpcs@, "vpc-id"@),
            self.tag_scope(),
        ));
        r
    }

    /// The request for the resources of a kind: scoped to the VPCs, if any
    /// has an identifier, under the filter name of the kind, and to the tags.
    pub fn request(&self, kind: ResourceKind) -> (r: Request)
        ensures
            filter_texts(r.filters@) == request_of(
                scope_of(self.vpcs@, kind.scope_name()),
                self.tag_scope(),
            ),
    {
        let scope = scope_filter(&self.vpcs, kind.scope_filter_name());
        let tags = self.tag_filter();
        let r = Request::new().optionally_filter(scope).fold_filters(tags);
        assert(filter_texts(r.filters@) =~= request_of(
            scope_of(self.vpcs@, kind.scope_name()),
            self.tag_scope(),
        ));
        r
    }

    /// Starts a run over the kinds: the next kind to collect is the first
    /// one again. What is held stays until the run replaces it.
    pub fn begin_run(&mut self)
        ensures
            final(self).collected == 0,
            final(self).tags == old(self).tags,
            final(self).tag_descriptions == old(self).tag_descriptions,
            final(self).vpcs == old(self).vpcs,
            forall|kind: ResourceKind| (#[trigger] final(self).items(kind)) == old(self).items(kind),
    {
        self.collected = 0;
    }

    /// What to ask the region next in this run: the resources of the first
    /// kind that the run has not collected yet, if there is one.
    pub fn pending(&self) -> (r: Option<Step>)
        ensures
            r is Some <==> self.collected < ResourceKind::all().len(),
            r matches Some(step) ==> {
                &&& step.kind == ResourceKind::all()[self.collected as int]
                &&& step.title@ == step.kind.progress()
                &&& filter_texts(step.request.filters@) == request_of(
                    scope_of(self.vpcs@, step.kind.scope_name()),
                    self.tag_scope(),
                )
            },
    {
        let kinds = ResourceKind::every();
        if self.collected < kinds.len() {
            let kind = kinds[self.collected];
            Some(
                Step {
                    kind,
                    title: kind.progress_title().to_owned(),
                    request: self.request(kind),
                },
            )
        } else {
            None
        }
    }

    /// Keeps the resources that the region listed for the pending kind, and
    /// moves on to the next kind. Where no kind is pending, nothing changes
    /// and the result is `false`.
    pub fn collect(&mut self, items: Vec<Resource>) -> (taken: bool)
        ensures
            taken == (old(self).collected < ResourceKind::all().len()),
            final(self).tags == old(self).tags,
            final(self).tag_descriptions == old(self).tag_descriptions,
            final(self).vpcs == old(self).vpcs,
            taken ==> {
                let kind = ResourceKind::all()[old(self).collected as int];
                &&& final(self).collected == old(self).collected + 1
                &&& final(self).items(kind) == items@
                &&& forall|other: ResourceKind|
                    other != kind ==> (#[trigger] final(self).items(other)) == old(self).items(
                        other,
                    )
            },
            !taken ==> *final(self) == *old(self),
    {
        let kinds = ResourceKind::every();
        if self.collected < kinds.len() {
            let kind = kinds[self.collected];
            self.store(kind, items);
            let ghost stored = *self;
            self.collected = self.collected + 1;
            assert forall|other: ResourceKind| #[trigger] self.items(other) == stored.items(other) by {}
            true
        } else {
            false
        }
    }

    /// The tree of a VPC: its label at the root, and below it a section for
    /// each kind of which a resource belongs to the VPC, in the order of the
    /// kinds, with those resources as leaves.
    pub fn vpc_tree(&self, vpc: &Resource) -> (tree: termtree::Tree<String>)
        ensures
            outline(tree) == self.vpc_outline(*vpc),
    {
        let mut tree = tree_new(vpc.id_and_name());
        let vpc_id = vpc.id();
        let kinds = ResourceKind::every();
        let ghost root = seq![(0nat, vpc.shown())];
        let mut i: usize = 0;
        assert(kinds@.take(0) =~= Seq::empty());
        assert(outline(tree) =~= root + self.sections(vpc.shown_id(), kinds@.take(0)));
        while i < kinds.len()
            invariant
                i <= kinds.len(),
                vpc_id@ == vpc.shown_id(),
                outline(tree) == root + self.sections(vpc.shown_id(), kinds@.take(i as int)),
            decreases kinds.len() - i,
        {
            let kind = kinds[i];
            let ghost next = kinds@.take(i as int + 1);
            assert(next.drop_last() =~= kinds@.take(i as int));
            assert(next.last() == kind);
            let found = self.resources_in(kind, vpc_id.as_str());
            child_tree(&mut tree, kind.section_title(), &found);
            assert(outline(tree) =~= root + self.sections(vpc.shown_id(), next));
            i += 1;
        }
        assert(kinds@.take(kinds.len() as int) =~= kinds@);
        tree
    }

    /// The tree of the tags of the region: below the root `Tags` the keys,
    /// below a key its values, below a value the types of the resources
    /// that carry the tag, and below a type those resources. Keys, values
    /// and types stand where they first occur.
    pub fn tag_tree(&self) -> (tree: termtree::Tree<String>)
        ensures
            outline(tree) == self.tag_outline(),
    {
        let mut rows: Vec<Vec<String>> = Vec::new();
        let mut i: usize = 0;
        while i < self.tag_descriptions.len()
            invariant
                i <= self.tag_descriptions.len(),
                rows.len() == i,
                forall|j: int|
                    0 <= j < i ==> (#[trigger] rows[j]).deep_view() == self.tag_descriptions[j].path(),
            decreases self.tag_descriptions.len() - i,
        {
            rows.push(self.tag_descriptions[i].row());
            i += 1;
        }
        assert(rows.deep_view() =~= tag_paths(self.tag_descriptions@));
        group_rows(&rows, 0, 4, "Tags".to_owned())
    }

    /// The trees to print: one for each VPC, unless tags were collected;
    /// then the tree of tags alone.
    pub fn trees(&self) -> (r: Vec<termtree::Tree<String>>)
        ensures
            outlines(r@) == self.tree_outlines(),
    {
        let mut r: Vec<termtree::Tree<String>> = Vec::new();
        if self.tag_descriptions.len() == 0 {
            let mut i: usize = 0;
            while i < self.vpcs.len()
                invariant
                    i <= self.vpcs.len(),
                    r.len() == i,
                    forall|j: int|
                        0 <= j < i ==> outline(#[trigger] r[j]) == self.vpc_outline(self.vpcs[j]),
                decreases self.vpcs.len() - i,
            {
                r.push(self.vpc_tree(&self.vpcs[i]));
                i += 1;
            }
            assert(outlines(r@) =~= self.tree_outlines());
        } else {
            r.push(self.tag_tree());
            assert(outlines(r@) =~= self.tree_outlines());
        }
        r
    }
}

} // verus!
