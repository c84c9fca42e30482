//! Names of nodes and bones: how they are looked up and compared.

use vstd::prelude::*;

verus! {

/// `str::eq` of the standard library: two string slices are equal exactly
/// when they hold the same characters in the same order. Not proved here.
#[verifier::external_body]
pub(crate) fn same_text(a: &str, b: &str) -> (same: bool)
    ensures
        same == (a@ == b@),
{
    a == b
}

/// The name of the node at index `node`, if the model has such a node and
/// its name is known.
pub open spec fn name_of(node: usize, node_names: Seq<Option<String>>) -> Option<Seq<char>> {
    if node < node_names.len() {
        match node_names[node as int] {
            Some(name) => Some(name@),
            None => None,
        }
    } else {
        None
    }
}

/// The name of the node at index `node`, if the model has such a node and
/// its name is known.
pub fn node_name(node: usize, node_names: &Vec<Option<String>>) -> (name: Option<String>)
    ensures
        match name {
            Some(name) => name_of(node, node_names@) == Some(name@),
            None => name_of(node, node_names@) is None,
        },
{
    if node < node_names.len() {
        match &node_names[node] {
            Some(name) => Some(name.clone()),
            None => None,
        }
    } else {
        None
    }
}

/// What `str::to_uppercase` of the standard library makes of a text.
pub uninterp spec fn uppercase(text: Seq<char>) -> Seq<char>;

/// `str::to_uppercase` of the standard library: the text with every letter
/// in upper case, as Unicode defines it. Not proved here; the result is
/// only named.
#[verifier::external_body]
pub(crate) fn to_uppercase(text: &str) -> (upper: String)
    ensures
        upper@ == uppercase(text@),
{
    text.to_uppercase()
}

} // verus!
