//! Small things that several parts of a node use.
use vstd::prelude::*;
use vstd::string::StringExecFns;
use crate::trusted::{json_object, json_object_text};

verus! {

/// The JSON object that introduces `name`: one member, `name`.
pub fn intro(name: &str) -> (text: String)
    ensures
        text@ == json_object(seq![("name"@, name@)]),
{
    let mut members: Vec<(String, String)> = Vec::new();
    members.push((String::from_str("name"), String::from_str(name)));
    assert(members.deep_view() =~= seq![("name"@, name@)]);
    json_object_text(&members)
}

} // verus!
