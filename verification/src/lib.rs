//! Aggregation of EC2 and CloudFormation resources into presentation trees.
//!
//! The resources of a region arrive as flat lists. This library decides
//! what to ask the region for, scoped to the VPCs and tags that were chosen,
//! keeps what comes back, and puts each resource below the VPC or the stack
//! that it belongs to, in a tree that can be printed.

pub mod args;
pub mod ec2;
pub mod filter;
pub mod group;
pub mod kind;
pub mod show;
pub mod stack;
pub mod status;
pub mod text;
pub mod tree;
