//! Names and places in the object store that holds the media.

use vstd::prelude::*;
use vstd::string::*;

use crate::text::str_eq;

verus! {

/// The region of every bucket that states no location constraint.
pub open spec fn default_region() -> Seq<char> {
    "us-east-1"@
}

/// The region that a location constraint stands for: the constraint
/// itself, or the default region where it is empty.
pub open spec fn region_of(location_constraint: Seq<char>) -> Seq<char> {
    if location_constraint.len() == 0 {
        default_region()
    } else {
        location_constraint
    }
}

/// The place of an object in a bucket, as a URI.
pub open spec fn object_uri_of(bucket: Seq<char>, key: Seq<char>) -> Seq<char> {
    seq!['s', '3', ':', '/', '/'] + bucket + seq!['/'] + key
}

/// The views of a list of names.
pub open spec fn names_of(names: Seq<String>) -> Seq<Seq<char>> {
    names.map_values(|name: String| name@)
}

/// The region that a bucket lies in, given its location constraint.
pub fn bucket_region_name(location_constraint: &str) -> (region: String)
    ensures
        region@ == region_of(location_constraint@),
{
    if location_constraint.is_empty() {
        "us-east-1".to_owned()
    } else {
        location_constraint.to_owned()
    }
}

/// The URI under which the transcription service finds an object.
pub fn object_uri(bucket: &str, key: &str) -> (uri: String)
    ensures
        uri@ == object_uri_of(bucket@, key@),
{
    proof {
        reveal_strlit("s3://");
        reveal_strlit("/");
    }
    let mut uri = "s3://".to_owned();
    uri.append(bucket);
    uri.append("/");
    uri.append(key);
    assert(uri@ =~= object_uri_of(bucket@, key@));
    uri
}

/// Whether a bucket of a given name is among the buckets listed.
pub fn bucket_is_listed(buckets: &Vec<String>, name: &str) -> (listed: bool)
    ensures
        listed == names_of(buckets@).contains(name@),
{
    let mut index: usize = 0;
    while index < buckets.len()
        invariant
            index <= buckets.len(),
            forall|i: int| 0 <= i < index ==> names_of(buckets@)[i] != name@,
        decreases buckets.len() - index,
    {
        if str_eq(buckets[index].as_str(), name) {
            assert(names_of(buckets@)[index as int] == name@);
            return true;
        }
        index += 1;
    }
    false
}

} // verus!
