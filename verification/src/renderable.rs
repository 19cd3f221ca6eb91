use crate::json::{
    items, items_member, json_items, json_member, json_text, member, text, text_member,
};
use serde_json::Value;
use vstd::prelude::*;

verus! {

/// How deep environments may nest for the check below to follow them. No value
/// that fits into memory nests this deep: the bound only makes the descent
/// well-founded.
pub const NESTING_BOUND: u64 = 0xFFFF_FFFF_FFFF_FFFF;

/// Whether the engine can turn the element with this document into markup.
///
/// The engine renders an element from its content (the member `value`). Content
/// tagged as a list is rendered from its `items`, content tagged as an
/// environment from its `elements`, and the engine gives up where that member is
/// absent. The elements of an environment are rendered in turn, so each of them
/// has to be renderable too. Every other kind of content renders as it is.
pub open spec fn renders_within(element: Value, depth: nat) -> bool
    decreases depth,
{
    match json_member(element, "value"@) {
        None => false,
        Some(content) => {
            let kind = text_member(content, "type_"@);
            if kind == Some("T_List"@) {
                items_member(content, "items"@) is Some
            } else if kind == Some("T_Environment"@) {
                match items_member(content, "elements"@) {
                    None => false,
                    Some(children) => depth > 0 && forall|i: int|
                        #![trigger children[i]]
                        0 <= i < children.len() ==> renders_within(
                            children[i],
                            (depth - 1) as nat,
                        ),
                }
            } else {
                true
            }
        },
    }
}

/// Whether `value` is a string that reads exactly `expected`.
fn text_is(value: &Value, expected: &str) -> (same: bool)
    ensures
        same == (json_text(*value) == Some(expected@)),
{
    match text(value) {
        Some(found) => found.to_owned() == expected.to_owned(),
        None => false,
    }
}

/// Whether `content` has a string member `type_` that reads `expected`.
fn kind_is(content: &Value, expected: &str) -> (same: bool)
    ensures
        same == (text_member(*content, "type_"@) == Some(expected@)),
{
    match member(content, "type_") {
        Some(kind) => text_is(kind, expected),
        None => false,
    }
}

/// Decides `renders_within` by walking the document.
#[verifier::loop_isolation(false)]
pub fn check_renders(element: &Value, depth: u64) -> (ok: bool)
    ensures
        ok == renders_within(*element, depth as nat),
    decreases depth,
{
    let content = match member(element, "value") {
        Some(content) => content,
        None => { return false; },
    };
    if kind_is(content, "T_List") {
        match member(content, "items") {
            Some(list) => items(list).is_some(),
            None => false,
        }
    } else if kind_is(content, "T_Environment") {
        let children = match member(content, "elements") {
            Some(array) => match items(array) {
                Some(children) => children,
                None => { return false; },
            },
            None => { return false; },
        };
        if depth == 0 {
            return false;
        }
        let mut i: usize = 0;
        while i < children.len()
            invariant
                i <= children.len(),
                forall|j: int|
                    #![trigger children@[j]]
                    0 <= j < i ==> renders_within(children@[j], (depth - 1) as nat),
            decreases children.len() - i,
        {
            if !check_renders(&children[i], depth - 1) {
                return false;
            }
            i += 1;
        }
        true
    } else {
        true
    }
}

} // verus!
