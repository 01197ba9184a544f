//! The kinds of EC2 resource that are collected for a VPC.

use vstd::prelude::*;

verus! {

/// A kind of EC2 resource that is collected and shown below its VPC.
#[derive(Debug, Clone, Copy, PartialEq, Eq, Structural)]
pub enum ResourceKind {
    Subnet,
    Instance,
    InternetGateway,
    RouteTable,
    NetworkAcl,
    VpcPeering,
    VpcEndpoint,
    NatGateway,
    SecurityGroup,
    VpnConnection,
    VpnGateway,
    NetworkInterface,
}

impl ResourceKind {
    /// Every kind, in the order in which the kinds are collected and in
    /// which their sections stand in the tree of a VPC.
    pub open spec fn all() -> Seq<ResourceKind> {
        seq![
            ResourceKind::Subnet,
            ResourceKind::Instance,
            ResourceKind::InternetGateway,
            ResourceKind::RouteTable,
            ResourceKind::NetworkAcl,
            ResourceKind::VpcPeering,
            ResourceKind::VpcEndpoint,
            ResourceKind::NatGateway,
            ResourceKind::SecurityGroup,
            ResourceKind::VpnConnection,
            ResourceKind::VpnGateway,
            ResourceKind::NetworkInterface,
        ]
    }

    /// What the progress bar says while the kind is collected.
    pub open spec fn progress(self) -> Seq<char> {
        match self {
            ResourceKind::Subnet => "Subnets"@,
            ResourceKind::Instance => "Instances"@,
            ResourceKind::InternetGateway => "Internet Gateways"@,
            ResourceKind::RouteTable => "Route Tables"@,
            ResourceKind::NetworkAcl => "Network ACLs"@,
            ResourceKind::VpcPeering => "VPC Peerings"@,
            ResourceKind::VpcEndpoint => "VPC Endpoints"@,
            ResourceKind::NatGateway => "NAT Gateways"@,
            ResourceKind::SecurityGroup => "Security Groups"@,
            ResourceKind::VpnConnection => "VPN Connections"@,
            ResourceKind::VpnGateway => "VPN Gateways"@,
            ResourceKind::NetworkInterface => "Network Interfaces"@,
        }
    }

    /// The title of the kind's section in the tree of a VPC.
    pub open spec fn section(self) -> Seq<char> {
        match self {
            ResourceKind::Subnet => "Subnets"@,
            ResourceKind::Instance => "Instances"@,
            ResourceKind::InternetGateway => "Internet Gateways"@,
            ResourceKind::RouteTable => "Route Tables"@,
            ResourceKind::NetworkAcl => "Network ACLs"@,
            ResourceKind::VpcPeering => "VPC Peering Connections"@,
            ResourceKind::VpcEndpoint => "VPC Endpoints"@,
            ResourceKind::NatGateway => "NAT Gateways"@,
            ResourceKind::SecurityGroup => "Security Groups"@,
            ResourceKind::VpnConnection => "VPN Connections"@,
            ResourceKind::VpnGateway => "VPN Gateways"@,
            ResourceKind::NetworkInterface => "Network Interfaces"@,
        }
    }

    /// The name of the filter that scopes a request for the kind to VPCs.
    pub open spec fn scope_name(self) -> Seq<char> {
        match self {
            ResourceKind::Subnet => "vpc-id"@,
            ResourceKind::Instance => "vpc-id"@,
            ResourceKind::InternetGateway => "attachment.vpc-id"@,
            ResourceKind::RouteTable => "vpc-id"@,
            ResourceKind::NetworkAcl => "vpc-id"@,
            ResourceKind::VpcPeering => "requester-vpc-info.vpc-id"@,
            ResourceKind::VpcEndpoint => "vpc-id"@,
            ResourceKind::NatGateway => "vpc-id"@,
            ResourceKind::SecurityGroup => "vpc-id"@,
            ResourceKind::VpnConnection => "vpc-id"@,
            ResourceKind::VpnGateway => "attachment.vpc-id"@,
            ResourceKind::NetworkInterface => "vpc-id"@,
        }
    }

    /// Every kind, in the order in which the kinds are collected and in
    /// which their sections stand in the tree of a VPC.
    pub fn every() -> (kinds: Vec<ResourceKind>)
        ensures
            kinds@ == ResourceKind::all(),
    {
        let kinds = vec![
            ResourceKind::Subnet,
            ResourceKind::Instance,
            ResourceKind::InternetGateway,
            ResourceKind::RouteTable,
            ResourceKind::NetworkAcl,
            ResourceKind::VpcPeering,
            ResourceKind::VpcEndpoint,
            ResourceKind::NatGateway,
            ResourceKind::SecurityGroup,
            ResourceKind::VpnConnection,
            ResourceKind::VpnGateway,
            ResourceKind::NetworkInterface,
        ];
        assert(kinds@ =~= ResourceKind::all());
        kinds
    }

    /// What the progress bar says while the kind is collected.
    pub fn progress_title(self) -> (title: &'static str)
        ensures
            title@ == self.progress(),
    {
        match self {
            ResourceKind::Subnet => "Subnets",
            ResourceKind::Instance => "Instances",
            ResourceKind::InternetGateway => "Internet Gateways",
            ResourceKind::RouteTable => "Route Tables",
            ResourceKind::NetworkAcl => "Network ACLs",
            ResourceKind::VpcPeering => "VPC Peerings",
            ResourceKind::VpcEndpoint => "VPC Endpoints",
            ResourceKind::NatGateway => "NAT Gateways",
            ResourceKind::SecurityGroup => "Security Groups",
            ResourceKind::VpnConnection => "VPN Connections",
            ResourceKind::VpnGateway => "VPN Gateways",
            ResourceKind::NetworkInterface => "Network Interfaces",
        }
    }

    /// The title of the kind's section in the tree of a VPC.
    pub fn section_title(self) -> (title: &'static str)
        ensures
            title@ == self.section(),
    {
        match self {
            ResourceKind::Subnet => "Subnets",
            ResourceKind::Instance => "Instances",
            ResourceKind::InternetGateway => "Internet Gateways",
            ResourceKind::RouteTable => "Route Tables",
            ResourceKind::NetworkAcl => "Network ACLs",
            ResourceKind::VpcPeering => "VPC Peering Connections",
            ResourceKind::VpcEndpoint => "VPC Endpoints",
            ResourceKind::NatGateway => "NAT Gateways",
            ResourceKind::SecurityGroup => "Security Groups",
            ResourceKind::VpnConnection => "VPN Connections",
            ResourceKind::VpnGateway => "VPN Gateways",
            ResourceKind::NetworkInterface => "Network Interfaces",
        }
    }

    /// The name of the filter that scopes a request for the kind to VPCs.
    pub fn scope_filter_name(self) -> (name: &'static str)
        ensures
            name@ == self.scope_name(),
    {
        match self {
            ResourceKind::Subnet => "vpc-id",
            ResourceKind::Instance => "vpc-id",
            ResourceKind::InternetGateway => "attachment.vpc-id",
            ResourceKind::RouteTable => "vpc-id",
            ResourceKind::NetworkAcl => "vpc-id",
            ResourceKind::VpcPeering => "requester-vpc-info.vpc-id",
            ResourceKind::VpcEndpoint => "vpc-id",
            ResourceKind::NatGateway => "vpc-id",
            ResourceKind::SecurityGroup => "vpc-id",
            ResourceKind::VpnConnection => "vpc-id",
            ResourceKind::VpnGateway => "attachment.vpc-id",
            ResourceKind::NetworkInterface => "vpc-id",
        }
    }
}

} // verus!
