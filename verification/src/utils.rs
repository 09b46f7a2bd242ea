//! A helper for values that are made on demand and kept while they are
//! good.

use vstd::prelude::*;

verus! {

/// Makes sure that `optional` holds a value that is good, and gives the
/// value that it holds then. An empty option receives a value from
/// `creator`. A value that `predicate` accepts stays; one that it refuses is
/// replaced by a value from `creator` and handed back beside the new one.
pub fn get_or_insert_with_condition<T, F, P>(optional: &mut Option<T>, creator: F, predicate: P) -> (kept: (
    &mut T,
    Option<T>,
))
    where
        F: FnOnce() -> T,
        P: FnOnce(&T) -> bool,

    requires
        creator.requires(()),
        *old(optional) matches Some(v) ==> predicate.requires((&v,)),
    ensures
        *final(optional) == Some(*final(kept.0)),
        match *old(optional) {
            Some(v) => {
                ||| predicate.ensures((&v,), true) && *kept.0 == v && kept.1 is None
                ||| predicate.ensures((&v,), false) && creator.ensures((), *kept.0) && kept.1
                    == Some(v)
            },
            None => creator.ensures((), *kept.0) && kept.1 is None,
        },
{
    let old_value = match optional.take() {
        Some(v) => {
            if predicate(&v) {
                *optional = Some(v);
                None
            } else {
                *optional = Some(creator());
                Some(v)
            }
        },
        None => {
            *optional = Some(creator());
            None
        },
    };
    (optional.as_mut().unwrap(), old_value)
}

} // verus!
