//! What the webhook makes of a delivery: the API calls the listener with the
//! message in the query of the request.

use vstd::prelude::*;

verus! {

/// Query parameters by their characters.
pub open spec fn params_view(params: Seq<(String, String)>) -> Seq<(Seq<char>, Seq<char>)> {
    params.map_values(|p: (String, String)| (p.0@, p.1@))
}

/// Parameter `i` has this name and none before it has.
pub open spec fn is_first_named(params: Seq<(Seq<char>, Seq<char>)>, name: Seq<char>, i: int)
    -> bool {
    &&& 0 <= i < params.len()
    &&& params[i].0 == name
    &&& forall|j: int| 0 <= j < i ==> (#[trigger] params[j]).0 != name
}

/// The value of the first parameter with this name, if there is one.
pub open spec fn value_of(params: Seq<(Seq<char>, Seq<char>)>, name: Seq<char>) -> Option<
    Seq<char>,
> {
    if exists|i: int| is_first_named(params, name, i) {
        Some(params[choose|i: int| is_first_named(params, name, i)].1)
    } else {
        None
    }
}

/// The inbound message that a delivery carries: the text under `Body` and
/// the sender's number under `From`, in that order. There is none unless
/// both are there.
pub open spec fn delivery_of(params: Seq<(Seq<char>, Seq<char>)>) -> Option<
    (Seq<char>, Seq<char>),
> {
    match (value_of(params, "Body"@), value_of(params, "From"@)) {
        (Some(text), Some(number)) => Some((text, number)),
        _ => None,
    }
}

/// The text and number of an inbound message, by their characters.
pub open spec fn delivery_view(delivery: Option<(String, String)>) -> Option<
    (Seq<char>, Seq<char>),
> {
    match delivery {
        Some(pair) => Some((pair.0@, pair.1@)),
        None => None,
    }
}

/// The value of the first parameter called `name`.
pub fn param(params: &Vec<(String, String)>, name: &String) -> (value: Option<String>)
    ensures
        match value {
            Some(v) => value_of(params_view(params@), name@) == Some(v@),
            None => value_of(params_view(params@), name@) is None,
        },
{
    let ghost view = params_view(params@);
    let mut i: usize = 0;
    while i < params.len()
        invariant
            i <= params.len(),
            view == params_view(params@),
            forall|j: int| 0 <= j < i ==> (#[trigger] view[j]).0 != name@,
        decreases params.len() - i,
    {
        if params[i].0 == *name {
            assert(is_first_named(view, name@, i as int));
            return Some(params[i].1.clone());
        }
        i += 1;
    }
    None
}

/// Takes the inbound message out of the query of a delivery: the text, then
/// the number it came from.
pub fn query_handler(params: &Vec<(String, String)>) -> (delivery: Option<(String, String)>)
    ensures
        delivery_view(delivery) == delivery_of(params_view(params@)),
{
    let text = param(params, &"Body".to_owned());
    let number = param(params, &"From".to_owned());
    match (text, number) {
        (Some(text), Some(number)) => Some((text, number)),
        _ => None,
    }
}

} // verus!
