use vstd::prelude::*;
use std::ops::Deref;
use stable_deref_trait::StableDeref;
use crate::bundle::{is_content, Output, Yoke, YokeGen, Yokeable};
use crate::helpers::CovariantYokeable;

verus! {

/// Attaching a view to a cart and taking the bundle apart again with a
/// function that hands its argument back yields a view that the derivation
/// made from the cart's content, and the cart that went in.
pub proof fn lemma_round_trip<Y: Yokeable, C: StableDeref, D, G>(
    cart: C,
    derive: D,
    bundle: Yoke<Y, C>,
    identity: G,
    out: (Output<Y>, C),
) where D: FnOnce(&<C as Deref>::Target) -> Output<Y>, G: FnOnce(Output<Y>) -> Output<Y>
    requires
        Yoke::<Y, C>::attached(cart, derive, bundle),
        bundle.extracted(identity, out),
        forall|x: Output<Y>, y: Output<Y>| #[trigger] identity.ensures((x,), y) ==> y == x,
    ensures
        out.1 == cart,
        exists|t: &C::Target| #[trigger] is_content(&cart, t) && derive.ensures((t,), out.0),
{
}

/// A bundle that was moved to the end of a container is read there as it
/// was read before the move: the same function may return the same results
/// on it, and its cart is the same.
pub proof fn lemma_read_after_move<Y: Yokeable, C, K, F, O>(
    bundle: YokeGen<Y, C, K>,
    held: Seq<YokeGen<Y, C, K>>,
    f: F,
    out: O,
) where F: FnOnce(&Output<Y>) -> O
    ensures
        held.push(bundle).last().read_with(f, out) <==> bundle.read_with(f, out),
        held.push(bundle).last().yokeable() == bundle.yokeable(),
        held.push(bundle).last().cart() == bundle.cart(),
{
}

/// A derivation that fails on every content makes `try_attach_to_cart`
/// fail: it hands back an error that the derivation gave, and the cart
/// that went in.
pub proof fn lemma_failed_attach_returns_cart<Y: Yokeable, C: StableDeref, D, E>(
    cart: C,
    derive: D,
    out: Result<Yoke<Y, C>, (E, C)>,
) where D: FnOnce(&<C as Deref>::Target) -> Result<Output<Y>, E>
    requires
        Yoke::<Y, C>::try_attached_with(cart, derive, out),
        forall|t: &C::Target, made: Result<Output<Y>, E>| #[trigger]
            derive.ensures((t,), made) ==> made is Err,
    ensures
        out is Err,
        out->Err_0.1 == cart,
        exists|t: &C::Target| #[trigger]
            is_content(&cart, t) && derive.ensures(
                (t,),
                Err::<Output<Y>, E>(out->Err_0.0),
            ),
{
}

/// Mapping with `f` and then with `g` gives the bundle that mapping once
/// with their composition gives, where `f` and `g` each have one result
/// for an argument.
pub proof fn lemma_map_composition<Y: Yokeable, Y1: Yokeable, Y2: Yokeable, C, K, F, G, H>(
    bundle: YokeGen<Y, C, K>,
    f: F,
    g: G,
    composed: H,
    after_f: YokeGen<Y1, C, K>,
    after_g: YokeGen<Y2, C, K>,
    at_once: YokeGen<Y2, C, K>,
) where
    F: FnOnce(Output<Y>) -> Output<Y1>,
    G: FnOnce(Output<Y1>) -> Output<Y2>,
    H: FnOnce(Output<Y>) -> Output<Y2>,

    requires
        forall|x: Output<Y>, y: Output<Y1>, z: Output<Y1>|
            #[trigger] f.ensures((x,), y) && #[trigger] f.ensures((x,), z) ==> y == z,
        forall|x: Output<Y1>, y: Output<Y2>, z: Output<Y2>|
            #[trigger] g.ensures((x,), y) && #[trigger] g.ensures((x,), z) ==> y == z,
        forall|x: Output<Y>, z: Output<Y2>| #[trigger]
            composed.ensures((x,), z) ==> exists|y: Output<Y1>| #[trigger]
                f.ensures((x,), y) && g.ensures((y,), z),
        bundle.mapped(f, after_f),
        after_f.mapped(g, after_g),
        bundle.mapped(composed, at_once),
    ensures
        after_g == at_once,
{
    after_g.lemma_same_parts(at_once);
}

/// For a covariant family, what `get` borrows is what `with_ref` returns
/// when it is given a function that hands its argument back.
pub proof fn lemma_get_is_identity_read<'a, Y: CovariantYokeable, C, K, F>(
    bundle: &'a YokeGen<Y, C, K>,
    identity: F,
    read: &'a Output<Y>,
    direct: &'a Output<Y>,
) where F: FnOnce(&'a Output<Y>) -> &'a Output<Y>
    requires
        forall|x: &'a Output<Y>, y: &'a Output<Y>| #[trigger]
            identity.ensures((x,), y) ==> y == x,
        bundle.read_with(identity, read),
        *direct == bundle.yokeable(),
    ensures
        read == direct,
{
}

} // verus!
