//! Taking a handler's resources out of the bag of a call.

use vstd::prelude::*;

verus! {

/// A type that can be taken out of a resource bag `B`.
///
/// The bag is the caller's: the dispatch core only asks each resource type
/// for its value. Extraction reads the bag and changes nothing.
pub trait FromResources<B>: Sized {
    /// Whether `outcome` is what extraction from `bag` may give. An
    /// implementation that states nothing leaves every outcome open.
    open spec fn extracts(bag: &B, outcome: Option<Self>) -> bool {
        true
    }

    /// Takes the value out of `bag`; `None` where the bag cannot give it.
    fn from_resources(bag: &B) -> (outcome: Option<Self>)
        ensures
            Self::extracts(bag, outcome),
    ;
}

/// A handler that needs nothing from the bag.
impl<B> FromResources<B> for () {
    open spec fn extracts(bag: &B, outcome: Option<Self>) -> bool {
        outcome == Some(())
    }

    fn from_resources(bag: &B) -> (outcome: Option<Self>) {
        Some(())
    }
}

/// One resource.
impl<B, T1: FromResources<B>> FromResources<B> for (T1,) {
    open spec fn extracts(bag: &B, outcome: Option<Self>) -> bool {
        match outcome {
            Some(all) => T1::extracts(bag, Some(all.0)),
            None => T1::extracts(bag, None),
        }
    }

    fn from_resources(bag: &B) -> (outcome: Option<Self>) {
        match T1::from_resources(bag) {
            Some(t1) => Some((t1,)),
            None => None,
        }
    }
}

/// Two resources, taken from left to right. The second is not asked for
/// where the first could not be had.
impl<B, T1: FromResources<B>, T2: FromResources<B>> FromResources<B> for (T1, T2) {
    open spec fn extracts(bag: &B, outcome: Option<Self>) -> bool {
        match outcome {
            Some(all) => T1::extracts(bag, Some(all.0)) && T2::extracts(bag, Some(all.1)),
            None => T1::extracts(bag, None) || (T2::extracts(bag, None) && exists|t1: T1|
                T1::extracts(bag, Some(t1))),
        }
    }

    fn from_resources(bag: &B) -> (outcome: Option<Self>) {
        let t1 = match T1::from_resources(bag) {
            Some(t1) => t1,
            None => {
                return None;
            },
        };
        match T2::from_resources(bag) {
            Some(t2) => Some((t1, t2)),
            None => None,
        }
    }
}

/// Three resources, taken from left to right, up to the first that could not
/// be had.
impl<B, T1: FromResources<B>, T2: FromResources<B>, T3: FromResources<B>> FromResources<B> for (
    T1,
    T2,
    T3,
) {
    open spec fn extracts(bag: &B, outcome: Option<Self>) -> bool {
        match outcome {
            Some(all) => T1::extracts(bag, Some(all.0)) && T2::extracts(bag, Some(all.1))
                && T3::extracts(bag, Some(all.2)),
            None => T1::extracts(bag, None) || (exists|t1: T1| T1::extracts(bag, Some(t1))) && (
            T2::extracts(bag, None) || (T3::extracts(bag, None) && exists|t2: T2|
                T2::extracts(bag, Some(t2)))),
        }
    }

    fn from_resources(bag: &B) -> (outcome: Option<Self>) {
        let t1 = match T1::from_resources(bag) {
            Some(t1) => t1,
            None => {
                return None;
            },
        };
        let t2 = match T2::from_resources(bag) {
            Some(t2) => t2,
            None => {
                return None;
            },
        };
        match T3::from_resources(bag) {
            Some(t3) => Some((t1, t2, t3)),
            None => None,
        }
    }
}

} // verus!
