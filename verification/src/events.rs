//! Plain data model of the host's event machinery: an event is a type tag
//! with a list of key/value attributes, and the outcome of a forwarded call
//! carries a list of events. The correlation protocol reads these.

use vstd::prelude::*;

verus! {

#[derive(Debug)]
pub struct Attribute {
    pub key: String,
    pub value: String,
}

#[derive(Debug)]
pub struct Event {
    pub ty: String,
    pub attributes: Vec<Attribute>,
}

/// What the continuation of a forwarded call sees of its outcome.
#[derive(Debug)]
pub struct SubMsgResponse {
    pub events: Vec<Event>,
}

/// Some attribute in `attrs` has this key and value.
pub open spec fn attrs_contain(attrs: Seq<Attribute>, key: Seq<char>, value: Seq<char>) -> bool {
    exists|i: int|
        0 <= i < attrs.len() && (#[trigger] attrs[i]).key@ == key && attrs[i].value@ == value
}

/// The value of the first attribute with this key, scanning from index `i`.
pub open spec fn first_attr_from(attrs: Seq<Attribute>, key: Seq<char>, i: int) -> Option<
    Seq<char>,
>
    decreases attrs.len() - i,
{
    if i < 0 || i >= attrs.len() {
        None
    } else if attrs[i].key@ == key {
        Some(attrs[i].value@)
    } else {
        first_attr_from(attrs, key, i + 1)
    }
}

/// The value of the first attribute with this key, if any.
pub open spec fn first_attr_value(attrs: Seq<Attribute>, key: Seq<char>) -> Option<Seq<char>> {
    first_attr_from(attrs, key, 0)
}

/// Finds the first attribute named `key` and hands its value back.
pub fn find_attr(attrs: &Vec<Attribute>, key: &str) -> (r: Option<String>)
    ensures
        match r {
            Some(v) => first_attr_value(attrs@, key@) == Some(v@),
            None => first_attr_value(attrs@, key@) is None,
        },
{
    let n = attrs.len();
    let mut i: usize = 0;
    while i < n
        invariant
            i <= n,
            n == attrs@.len(),
            first_attr_value(attrs@, key@) == first_attr_from(attrs@, key@, i as int),
        decreases n - i,
    {
        if crate::text::str_eq(attrs[i].key.as_str(), key) {
            return Some(attrs[i].value.clone());
        }
        i = i + 1;
    }
    None
}

/// Some attribute of `event` carries this key and value.
pub fn event_contains_attr(event: &Event, key: &str, value: &str) -> (r: bool)
    ensures
        r == attrs_contain(event.attributes@, key@, value@),
{
    let n = event.attributes.len();
    let mut i: usize = 0;
    while i < n
        invariant
            i <= n,
            n == event.attributes@.len(),
            forall|j: int|
                0 <= j < i ==> !((#[trigger] event.attributes@[j]).key@ == key@
                    && event.attributes@[j].value@ == value@),
        decreases n - i,
    {
        if crate::text::str_eq(event.attributes[i].key.as_str(), key) && crate::text::str_eq(
            event.attributes[i].value.as_str(),
            value,
        ) {
            return true;
        }
        i = i + 1;
    }
    false
}

} // verus!
