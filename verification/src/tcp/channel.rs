//! The channel on which sockets report that they are dead.

use futures::channel::mpsc::{UnboundedReceiver, UnboundedSender};
use vstd::prelude::*;

verus! {

/// `futures::channel::mpsc::UnboundedSender`, the sending end of a channel.
#[verifier::external_type_specification]
#[verifier::external_body]
#[verifier::reject_recursive_types(T)]
pub struct ExUnboundedSender<T>(UnboundedSender<T>);

/// `futures::channel::mpsc::UnboundedReceiver`, the receiving end of a channel.
#[verifier::external_type_specification]
#[verifier::external_body]
#[verifier::reject_recursive_types(T)]
pub struct ExUnboundedReceiver<T>(UnboundedReceiver<T>);

/// `futures::channel::mpsc::unbounded` makes a channel and returns its two
/// ends. Both are opaque here, so nothing is claimed of them.
pub assume_specification<T>[ futures::channel::mpsc::unbounded::<T> ]() -> (ends: (
    UnboundedSender<T>,
    UnboundedReceiver<T>,
));

} // verus!
