//! The binder of one conversion: which interpolated host expression a
//! placeholder of the document stands for.
//!
//! The interpolated expressions of a template are known by their positions,
//! in template order. An expression that is a plain identifier is bound
//! under its name, and a placeholder of the document names its expression by
//! that key; any other expression has no key, and no placeholder names it. A
//! binder is made for one conversion and dropped after it.

use vstd::prelude::*;
use crate::text::optional_text;

verus! {

/// The keys of the interpolated expressions of a template, in template
/// order: the name of an expression that is a plain identifier, and `None`
/// for any other.
pub type Keys = Seq<Option<Seq<char>>>;

/// The keys that a list of optional strings holds.
pub open spec fn optional_texts(list: Seq<Option<String>>) -> Keys {
    Seq::new(list.len(), |i: int| optional_text(list[i]))
}

/// The position that `key` is bound to: the last position that holds it.
pub open spec fn bound_position(keys: Keys, key: Seq<char>) -> Option<nat>
    decreases keys.len(),
{
    if keys.len() == 0 {
        None
    } else if keys.last() == Some(key) {
        Some((keys.len() - 1) as nat)
    } else {
        bound_position(keys.drop_last(), key)
    }
}

/// The keys of the interpolated expressions of one template, in template
/// order; `None` for an expression without a key.
#[derive(Debug, PartialEq, Eq)]
pub struct Binder {
    pub keys: Vec<Option<String>>,
}

impl View for Binder {
    type V = Keys;

    open spec fn view(&self) -> Keys {
        optional_texts(self.keys@)
    }
}

impl Binder {
    /// The binder of a template whose interpolated expressions have these
    /// keys, in order.
    pub fn new(keys: Vec<Option<String>>) -> (binder: Binder)
        ensures
            binder@ == optional_texts(keys@),
            binder.keys == keys,
    {
        Binder { keys }
    }

    /// The position of the expression that `key` stands for, if it is bound.
    pub fn resolve(&self, key: &String) -> (position: Option<usize>)
        ensures
            match position {
                Some(i) => bound_position(self@, key@) == Some(i as nat),
                None => bound_position(self@, key@) is None,
            },
    {
        let mut i: usize = self.keys.len();
        assert(self@.take(i as int) == self@);
        while i > 0
            invariant
                i <= self.keys.len(),
                bound_position(self@, key@) == bound_position(self@.take(i as int), key@),
            decreases i,
        {
            proof {
                let prefix = self@.take(i as int);
                assert(prefix.last() == optional_text(self.keys@[i - 1]));
                assert(prefix.drop_last() == self@.take(i - 1));
            }
            match &self.keys[i - 1] {
                Some(bound) => {
                    if bound.eq(key) {
                        return Some(i - 1);
                    }
                },
                None => {},
            }
            i -= 1;
        }
        assert(self@.take(0).len() == 0);
        None
    }
}

/// A bound key names a position of the template, and that position holds the
/// key; a key is unbound exactly if no position holds it.
pub proof fn bound_position_holds_key(keys: Keys, key: Seq<char>)
    ensures
        match bound_position(keys, key) {
            Some(i) => i < keys.len() && keys[i as int] == Some(key) && forall|j: int|
                i < j < keys.len() ==> keys[j] != Some(key),
            None => !keys.contains(Some(key)),
        },
    decreases keys.len(),
{
    if keys.len() > 0 && keys.last() != Some(key) {
        bound_position_holds_key(keys.drop_last(), key);
        match bound_position(keys, key) {
            Some(i) => {
                assert(keys.drop_last()[i as int] == keys[i as int]);
                assert forall|j: int| i < j < keys.len() implies keys[j] != Some(key) by {
                    if j < keys.len() - 1 {
                        assert(keys.drop_last()[j] == keys[j]);
                    }
                }
            },
            None => {
                assert forall|j: int| 0 <= j < keys.len() implies keys[j] != Some(key) by {
                    if j < keys.len() - 1 {
                        assert(keys.drop_last()[j] == keys[j]);
                        assert(keys.drop_last().contains(keys[j]));
                    }
                }
            },
        }
    }
}

} // verus!
