use std::fmt::Debug;
use std::hash::Hash;
use vstd::prelude::*;

verus! {

/// A message kind: the key under which payloads are dispatched and subscribed to.
pub trait Message: Copy + Debug + Eq + Hash {}

/// The payload carried by a message; each subscription receives its own clone.
pub trait MessageData: Clone + Debug + PartialEq + Send {}

} // verus!
