use vstd::prelude::*;
use std::convert::Infallible;
use std::ops::{Deref, DerefMut};
use stable_deref_trait::StableDeref;
use crate::bundle::{
    bundled_or_returned, is_content, is_content_mut, Mutable, Output, Yoke, YokeGen, Yokeable,
};

verus! {

/// A family whose view may be borrowed directly for as long as the bundle
/// is borrowed. An implementation has to hand back a borrow of a view equal
/// to the one it was given. The clause speaks of the value behind the
/// borrow, not of its address: a borrow of another, equal value meets it.
pub trait CovariantYokeable: Yokeable {
    fn cast_ref<'a>(x: &'a Output<Self>) -> (out: &'a Output<Self>)
        ensures
            *out == *x,
    ;
}

/// The family without views: no bundle of it can be made.
impl Yokeable for Infallible {
    type Output = Infallible;
}

/// The family without views may be borrowed directly: there is nothing to
/// borrow.
impl CovariantYokeable for Infallible {
    fn cast_ref<'a>(x: &'a Infallible) -> (out: &'a Infallible) {
        x
    }
}

impl<Y: Yokeable, C, K> YokeGen<Y, C, K> {
    /// `out` is the bundle that `map` makes of `self` with `f`.
    pub open spec fn mapped<F, Y2: Yokeable>(self, f: F, out: YokeGen<Y2, C, K>) -> bool where
        F: FnOnce(Output<Y>) -> Output<Y2>,
     {
        &&& out.cart() == self.cart()
        &&& f.ensures((self.yokeable(),), out.yokeable())
    }

    /// `out` is what `into_inner_cart` makes of `self` with `f`.
    pub open spec fn extracted<F, Out>(self, f: F, out: (Out, C)) -> bool where
        F: FnOnce(Output<Y>) -> Out,
     {
        &&& out.1 == self.cart()
        &&& f.ensures((self.yokeable(),), out.0)
    }

    /// A borrow of the view, for as long as the bundle is borrowed.
    pub fn get<'a>(&'a self) -> (out: &'a Output<Y>) where Y: CovariantYokeable
        ensures
            *out == self.yokeable(),
    {
        self.with_ref::<_, &'a Output<Y>>(Y::cast_ref)
    }

    /// As `try_map_or_cart`, but a failure drops the cart and keeps only the
    /// error.
    pub fn try_map<F, Y2: Yokeable, E>(self, f: F) -> (out: Result<YokeGen<Y2, C, K>, E>) where
        F: FnOnce(Output<Y>) -> Result<Output<Y2>, E>,

        requires
            f.requires((self.yokeable(),)),
        ensures
            exists|made: Result<Output<Y2>, E>| #[trigger]
                f.ensures((self.yokeable(),), made) && match made {
                    Ok(view) => out is Ok && out->Ok_0.yokeable() == view && out->Ok_0.cart()
                        == self.cart(),
                    Err(err) => out == Err::<YokeGen<Y2, C, K>, E>(err),
                },
    {
        match self.try_map_or_cart(f) {
            Ok(bundle) => Ok(bundle),
            Err((err, _)) => Err(err),
        }
    }

    /// Replaces the view by what `f` makes of it; cart and capability stay.
    pub fn map<F, Y2: Yokeable>(self, f: F) -> (out: YokeGen<Y2, C, K>) where
        F: FnOnce(Output<Y>) -> Output<Y2>,

        requires
            f.requires((self.yokeable(),)),
        ensures
            self.mapped(f, out),
    {
        let (yokeable, cart) = self.dismantle();
        YokeGen::assemble(f(yokeable), cart)
    }

    /// Ends the bundle: `f` turns the view into an owned result, which comes
    /// back with the cart.
    pub fn into_inner_cart<F, Out>(self, f: F) -> (out: (Out, C)) where
        F: FnOnce(Output<Y>) -> Out,

        requires
            f.requires((self.yokeable(),)),
        ensures
            self.extracted(f, out),
    {
        let (yokeable, cart) = self.dismantle();
        (f(yokeable), cart)
    }

    /// Ends the bundle and keeps only what `f` makes of the view.
    pub fn into_inner<F, Out>(self, f: F) -> (out: Out) where F: FnOnce(Output<Y>) -> Out
        requires
            f.requires((self.yokeable(),)),
        ensures
            f.ensures((self.yokeable(),), out),
    {
        self.into_inner_cart(f).0
    }

    /// Ends the bundle, drops the view and hands back the cart.
    pub fn into_cart(self) -> (out: C)
        ensures
            out == self.cart(),
    {
        self.dismantle().1
    }
}

impl<Y: Yokeable, C: StableDeref> Yoke<Y, C> {
    /// `out` is a bundle that `attach_to_cart` may make of `cart` with `f`.
    pub open spec fn attached<F>(cart: C, f: F, out: Self) -> bool where
        F: FnOnce(&<C as Deref>::Target) -> Output<Y>,
     {
        &&& out.cart() == cart
        &&& exists|t: &C::Target| #[trigger] is_content(&cart, t) && f.ensures((t,), out.yokeable())
    }

    /// `out` is an outcome that `try_attach_to_cart` may have on `cart`
    /// with `f`.
    pub open spec fn try_attached_with<F, E>(cart: C, f: F, out: Result<Self, (E, C)>) -> bool where
        F: FnOnce(&<C as Deref>::Target) -> Result<Output<Y>, E>,
     {
        exists|t: &C::Target, made: Result<Output<Y>, E>|
            is_content(&cart, t) && #[trigger] f.ensures((t,), made) && bundled_or_returned(
                cart,
                made,
                out,
            )
    }

    /// A shared bundle of `cart` and the view that `f` derives from a borrow
    /// of its content. `f` runs once.
    pub fn attach_to_cart<F>(cart: C, f: F) -> (out: Self) where
        F: FnOnce(&<C as Deref>::Target) -> Output<Y>,

        requires
            forall|t: &C::Target| #[trigger] is_content(&cart, t) ==> f.requires((t,)),
        ensures
            Self::attached(cart, f, out),
    {
        let content = cart.deref();
        let yokeable = f(content);
        YokeGen::assemble(yokeable, cart)
    }

    /// As `attach_to_cart` with a derivation that may fail: a failure hands
    /// the cart back unchanged beside the error, and no bundle is made.
    pub fn try_attach_to_cart<F, E>(cart: C, f: F) -> (out: Result<Self, (E, C)>) where
        F: FnOnce(&<C as Deref>::Target) -> Result<Output<Y>, E>,

        requires
            forall|t: &C::Target| #[trigger] is_content(&cart, t) ==> f.requires((t,)),
        ensures
            Self::try_attached_with(cart, f, out),
    {
        let content = cart.deref();
        let made = f(content);
        match made {
            Ok(yokeable) => Ok(YokeGen::assemble(yokeable, cart)),
            Err(err) => Err((err, cart)),
        }
    }
}

impl<Y: Yokeable, C: StableDeref + DerefMut> Yoke<Y, C, Mutable> {
    /// A mutable bundle of `cart` and the view that `f` derives from an
    /// exclusive borrow of its content. The cart is held as `f` left it.
    pub fn attach_to_cart_mut<F>(cart: C, f: F) -> (out: Self) where
        F: FnOnce(&mut <C as Deref>::Target) -> Output<Y>,

        requires
            forall|c: &mut C, t: &mut C::Target|
                *c == cart && #[trigger] is_content_mut(c, t) ==> f.requires((t,)),
        ensures
            exists|c: &mut C, t: &mut C::Target|
                *c == cart && *final(c) == out.cart() && #[trigger] is_content_mut(c, t)
                    && f.ensures((t,), out.yokeable()),
    {
        let mut held = cart;
        let yokeable = f(held.deref_mut());
        YokeGen::assemble(yokeable, held)
    }

    /// As `attach_to_cart_mut` with a derivation that may fail: a failure
    /// hands the cart back, as `f` left it, beside the error.
    pub fn try_attach_to_cart_mut<F, E>(cart: C, f: F) -> (out: Result<Self, (E, C)>) where
        F: FnOnce(&mut <C as Deref>::Target) -> Result<Output<Y>, E>,

        requires
            forall|c: &mut C, t: &mut C::Target|
                *c == cart && #[trigger] is_content_mut(c, t) ==> f.requires((t,)),
        ensures
            exists|c: &mut C, t: &mut C::Target, made: Result<Output<Y>, E>|
                *c == cart && #[trigger] is_content_mut(c, t) && #[trigger] f.ensures((t,), made)
                    && bundled_or_returned(*final(c), made, out),
    {
        let mut held = cart;
        let made = f(held.deref_mut());
        match made {
            Ok(yokeable) => Ok(YokeGen::assemble(yokeable, held)),
            Err(err) => Err((err, held)),
        }
    }
}

} // verus!
