//! The opaque identifier and its codec.
//!
//! An instance is addressed by an opaque `"group/name"` identifier: exactly
//! two `/`-free segments joined by one `/`. The cloud addresses the same
//! instance by a composite resource path of exactly nine `/`-separated
//! segments, whose fifth segment is the resource group and whose ninth is
//! the machine name.

use crate::split::{
    count_char, lemma_split_len, lemma_split_pair, lemma_split_parts_free, split_of, split_str,
};
use vstd::prelude::*;

verus! {

/// The cloud's composite resource path does not have the expected shape.
#[derive(Debug)]
pub struct ModelIdParsingError;

/// The opaque identifier does not have the `"group/name"` shape.
#[derive(Debug)]
pub struct IdParsingError;

/// A parsed identifier: resource group and machine name.
#[derive(Debug, Clone, PartialEq, Eq)]
pub struct Id {
    pub resource_group_name: String,
    pub vm_name: String,
}

/// The opaque form of an identifier: the two segments joined by `/`.
pub open spec fn spec_encode(group: Seq<char>, name: Seq<char>) -> Seq<char> {
    group + seq!['/'] + name
}

/// The segments of an opaque identifier, if it has exactly two.
pub open spec fn spec_decode(s: Seq<char>) -> Option<(Seq<char>, Seq<char>)> {
    let parts = split_of(s, '/');
    if parts.len() == 2 {
        Some((parts[0], parts[1]))
    } else {
        None
    }
}

/// The group and name segments of a composite resource path, if it has
/// exactly nine segments.
pub open spec fn spec_decode_model(s: Seq<char>) -> Option<(Seq<char>, Seq<char>)> {
    let parts = split_of(s, '/');
    if parts.len() == 9 {
        Some((parts[4], parts[8]))
    } else {
        None
    }
}

impl Id {
    /// Neither segment contains the separator.
    pub open spec fn wf(&self) -> bool {
        &&& !self.resource_group_name@.contains('/')
        &&& !self.vm_name@.contains('/')
    }

    /// Parses the cloud's composite resource path: it must split into exactly
    /// nine `/`-separated segments; the group is the fifth and the name the
    /// ninth.
    pub fn from_model(id: &str) -> (r: Result<Id, ModelIdParsingError>)
        ensures
            r is Ok <==> spec_decode_model(id@) is Some,
            r matches Ok(v) ==> {
                &&& v.resource_group_name@ == spec_decode_model(id@).unwrap().0
                &&& v.vm_name@ == spec_decode_model(id@).unwrap().1
                &&& v.wf()
            },
    {
        let parts = split_str(id, '/');
        if parts.len() == 9 {
            proof {
                lemma_split_parts_free(id@, '/');
            }
            Ok(
                Id {
                    resource_group_name: parts[4].clone(),
                    vm_name: parts[8].clone(),
                },
            )
        } else {
            Err(ModelIdParsingError)
        }
    }

    /// Parses an opaque identifier: exactly two `/`-free segments joined by
    /// one `/`; any other number of separators is rejected.
    pub fn from_opaque(value: &str) -> (r: Result<Id, IdParsingError>)
        ensures
            r is Ok <==> spec_decode(value@) is Some,
            r matches Ok(v) ==> {
                &&& v.resource_group_name@ == spec_decode(value@).unwrap().0
                &&& v.vm_name@ == spec_decode(value@).unwrap().1
                &&& v.wf()
            },
    {
        let parts = split_str(value, '/');
        if parts.len() == 2 {
            proof {
                lemma_split_parts_free(value@, '/');
            }
            Ok(
                Id {
                    resource_group_name: parts[0].clone(),
                    vm_name: parts[1].clone(),
                },
            )
        } else {
            Err(IdParsingError)
        }
    }

    /// The opaque `"group/name"` form of this identifier.
    pub fn to_opaque(&self) -> (r: String)
        ensures
            r@ == spec_encode(self.resource_group_name@, self.vm_name@),
    {
        proof {
            reveal_strlit("/");
            assert("/"@ =~= seq!['/']);
        }
        let s = self.resource_group_name.clone();
        let s = s.concat("/");
        let s = s.concat(self.vm_name.as_str());
        s
    }
}

/// Round trip: encoding any two `/`-free segments and decoding the result
/// returns exactly those segments.
pub proof fn lemma_round_trip(group: Seq<char>, name: Seq<char>)
    requires
        !group.contains('/'),
        !name.contains('/'),
    ensures
        spec_decode(spec_encode(group, name)) == Some((group, name)),
{
    lemma_split_pair(group, name, '/');
}

/// An opaque identifier with zero or more than one `/` fails to decode.
pub proof fn lemma_malformed_opaque(s: Seq<char>)
    requires
        count_char(s, '/') != 1,
    ensures
        spec_decode(s) is None,
{
    lemma_split_len(s, '/');
}

/// A composite path decodes exactly when it has nine segments, that is,
/// eight separators.
pub proof fn lemma_model_segment_count(s: Seq<char>)
    ensures
        spec_decode_model(s) is Some <==> count_char(s, '/') == 8,
{
    lemma_split_len(s, '/');
}

} // verus!
