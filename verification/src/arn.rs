//! Parsing of colon-delimited resource identifiers.
//!
//! An identifier has the shape
//! `literal:partition:service:region:account-id:resource[:resource...]`:
//! at least six top-level colon-delimited fields, of which the first is
//! discarded and the sixth and later form the ordered resource parts.
//! Fields may be empty; no content validation happens here.

use vstd::prelude::*;

verus! {

use crate::strutil::{spec_split, split_char};

/// A parsed resource identifier. The fields borrow from the source text and
/// must not outlive it.
#[derive(Debug, Eq, PartialEq)]
pub struct Arn<'a> {
    pub partition: &'a str,
    pub service: &'a str,
    pub region: &'a str,
    pub account_id: &'a str,
    pub resource_id: Vec<&'a str>,
}

impl<'a> Arn<'a> {
    pub fn partition(&self) -> (r: &'a str)
        ensures
            r@ == self.partition@,
    {
        self.partition
    }

    pub fn service(&self) -> (r: &'a str)
        ensures
            r@ == self.service@,
    {
        self.service
    }

    pub fn region(&self) -> (r: &'a str)
        ensures
            r@ == self.region@,
    {
        self.region
    }

    pub fn account_id(&self) -> (r: &'a str)
        ensures
            r@ == self.account_id@,
    {
        self.account_id
    }

    pub fn resource_id(&self) -> (r: &Vec<&'a str>)
        ensures
            r.deep_view() == self.resource_id.deep_view(),
    {
        &self.resource_id
    }
}

impl<'a> Arn<'a> {
    /// Splits on ':'. Yields nothing when fewer than six top-level fields
    /// exist; otherwise the leading literal field is discarded and the sixth
    /// and later fields become the ordered resource parts.
    pub fn parse(arn: &'a str) -> (r: Option<Self>)
        ensures
            r is Some <==> spec_split(arn@, ':').len() >= 6,
            r matches Some(a) ==> {
                let parts = spec_split(arn@, ':');
                &&& a.partition@ == parts[1]
                &&& a.service@ == parts[2]
                &&& a.region@ == parts[3]
                &&& a.account_id@ == parts[4]
                &&& a.resource_id.deep_view() == parts.skip(5)
            },
    {
        let parts = split_char(arn, ':');
        if parts.len() < 6 {
            return None;
        }
        let mut resource_id: Vec<&'a str> = Vec::new();
        let mut i: usize = 5;
        proof {
            assert(resource_id.deep_view() =~= parts.deep_view().subrange(5, 5));
        }
        while i < parts.len()
            invariant
                5 <= i <= parts.len(),
                parts.deep_view() == spec_split(arn@, ':'),
                parts.deep_view().len() == parts.len(),
                resource_id.deep_view() == parts.deep_view().subrange(5, i as int),
            decreases parts.len() - i,
        {
            let ghost old_dv = resource_id.deep_view();
            resource_id.push(parts[i]);
            proof {
                assert(resource_id.deep_view() =~= old_dv.push(parts@[i as int]@));
                assert(resource_id.deep_view() =~= parts.deep_view().subrange(5, i + 1));
            }
            i += 1;
        }
        proof {
            assert(parts.deep_view().subrange(5, parts.len() as int) =~= parts.deep_view().skip(
                5,
            ));
        }
        Some(
            Arn {
                partition: parts[1],
                service: parts[2],
                region: parts[3],
                account_id: parts[4],
                resource_id,
            },
        )
    }
}

/// See [`Arn::parse`].
pub fn parse_arn(input: &str) -> (r: Option<Arn<'_>>)
    ensures
        r is Some <==> spec_split(input@, ':').len() >= 6,
        r matches Some(a) ==> {
            let parts = spec_split(input@, ':');
            &&& a.partition@ == parts[1]
            &&& a.service@ == parts[2]
            &&& a.region@ == parts[3]
            &&& a.account_id@ == parts[4]
            &&& a.resource_id.deep_view() == parts.skip(5)
        },
{
    Arn::parse(input)
}

} // verus!
