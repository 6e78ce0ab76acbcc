use vstd::prelude::*;

/// The bundle of a cart and a view, its families and capabilities, and the
/// operations that build, read and rebuild it.
///
/// A view is a plain value that the bundle owns beside the cart. It names no
/// borrow: a view that refers into the cart's content does so by position.
/// On a shared bundle such a view is read against `backing_cart`; a mutable
/// bundle hands out its cart only when it ends. Once a bundle is built,
/// nothing writes to its cart.
pub mod bundle;
/// Construction from a derivation, direct access, and the ways to end a
/// bundle.
pub mod helpers;
/// What holds between the operations on a bundle.
pub mod laws;

pub use bundle::{Mutable, Output, Yoke, Yokeable};
pub use helpers::CovariantYokeable;

verus! {

/// A bundle whose view may be written.
pub type YokeMut<Y, C> = Yoke<Y, C, Mutable>;

} // verus!
