use vstd::prelude::*;
use std::marker::PhantomData;
use std::ops::{Deref, DerefMut};
use stable_deref_trait::StableDeref;

verus! {

/// A family of view shapes. `Output` is the shape a bundle stores: a value
/// derived from the cart's content that names no borrow scope of its own.
/// A shape that is itself a borrow of the content has no place here, so
/// there is no family of plain references and no bundle built without a
/// derivation.
pub trait Yokeable {
    type Output;
}

pub type Output<Y> = <Y as Yokeable>::Output;

/// Capability tag of a bundle whose view is only read.
pub struct Shared;

/// Capability tag of a bundle whose view may be written.
pub struct Mutable;

/// An owned cart together with the view derived from its content.
pub struct YokeGen<Y: Yokeable, C, K = Shared> {
    yokeable: Output<Y>,
    cart: C,
    kind: PhantomData<K>,
}

pub type Yoke<Y, C, K = Shared> = YokeGen<Y, C, K>;

/// `t` is what dereferencing `cart` hands out.
#[verifier::inline]
pub open spec fn is_content<C: Deref>(cart: &C, t: &C::Target) -> bool {
    call_ensures(<C as Deref>::deref, (cart,), t)
}

/// `t` is the exclusive borrow that `c` hands out when dereferenced mutably.
#[verifier::inline]
pub open spec fn is_content_mut<C: DerefMut>(c: &mut C, t: &mut C::Target) -> bool {
    call_ensures(<C as DerefMut>::deref_mut, (c,), t)
}

/// What a step that may fail hands back once it has made `made`: on
/// success the bundle of the view and `cart`, on failure the error beside
/// `cart`.
pub open spec fn bundled_or_returned<Y: Yokeable, C, K, E>(
    cart: C,
    made: Result<Output<Y>, E>,
    out: Result<YokeGen<Y, C, K>, (E, C)>,
) -> bool {
    match made {
        Ok(view) => out is Ok && out->Ok_0.yokeable() == view && out->Ok_0.cart() == cart,
        Err(err) => out == Err::<YokeGen<Y, C, K>, (E, C)>((err, cart)),
    }
}

/// A function that may be run on an exclusive borrow of a view.
pub trait WithMutFn<Y: Yokeable>: Sized {
    type Output;

    /// The function may be called on any borrow that holds `y`.
    spec fn accepts(self, y: Output<Y>) -> bool;

    /// Called on the borrow `y`, the function may return `out`.
    spec fn relates(self, y: &mut Output<Y>, out: Self::Output) -> bool;

    fn call(self, y: &mut Output<Y>) -> (out: Self::Output)
        requires
            self.accepts(*old(y)),
        ensures
            exists|r: &mut Output<Y>|
                *r == *old(y) && *final(r) == *final(y) && #[trigger] self.relates(r, out),
    ;
}

impl<Y: Yokeable, F: FnOnce(&mut Output<Y>) -> O, O> WithMutFn<Y> for F {
    type Output = O;

    open spec fn accepts(self, y: Output<Y>) -> bool {
        forall|r: &mut Output<Y>| *r == y ==> #[trigger] self.requires((r,))
    }

    open spec fn relates(self, y: &mut Output<Y>, out: O) -> bool {
        self.ensures((y,), out)
    }

    fn call(self, y: &mut Output<Y>) -> (out: O) {
        let out = self(y);
        proof {
            let r = choose|r: &mut Output<Y>|
                *r == *old(y) && *final(r) == *y && #[trigger] self.ensures((r,), out);
            assert(<F as WithMutFn<Y>>::relates(self, r, out));
        }
        out
    }
}

impl<Y: Yokeable, C, K> YokeGen<Y, C, K> {
    /// The view that the bundle holds.
    pub closed spec fn yokeable(&self) -> Output<Y> {
        self.yokeable
    }

    /// The cart that the bundle holds.
    pub closed spec fn cart(&self) -> C {
        self.cart
    }

    /// A bundle is its view and its cart, nothing more.
    pub proof fn lemma_same_parts(self, other: Self)
        requires
            self.yokeable() == other.yokeable(),
            self.cart() == other.cart(),
        ensures
            self == other,
    {
    }

    /// `out` is what `with_ref` may return on `self` with `f`.
    pub open spec fn read_with<'a, F, O>(&'a self, f: F, out: O) -> bool where
        F: FnOnce(&'a Output<Y>) -> O,
     {
        f.ensures((&self.yokeable(),), out)
    }

    /// Runs `f` on a borrow of the view and hands back what it returns.
    pub fn with_ref<'a, F, O>(&'a self, f: F) -> (out: O) where F: FnOnce(&'a Output<Y>) -> O
        requires
            f.requires((&self.yokeable(),)),
        ensures
            self.read_with(f, out),
    {
        f(&self.yokeable)
    }
}

impl<Y: Yokeable, C> YokeGen<Y, C, Mutable> {
    /// Runs `f` on an exclusive borrow of the view: the view is afterwards
    /// what `f` left in it, the cart is untouched.
    pub fn with_mut<'a, F, O>(&'a mut self, f: F) -> (out: O) where
        F: FnOnce(&'a mut Output<Y>) -> O,

        requires
            forall|r: &mut Output<Y>| *r == old(self).yokeable() ==> #[trigger] f.requires((r,)),
        ensures
            final(self).cart() == old(self).cart(),
            exists|r: &mut Output<Y>|
                *r == old(self).yokeable() && *final(r) == final(self).yokeable()
                    && #[trigger] f.ensures((r,), out),
    {
        f(&mut self.yokeable)
    }
}

impl<Y: Yokeable, C, K> YokeGen<Y, C, K> {
    /// Puts a view and a cart together under the capability `K`.
    pub(crate) fn assemble(yokeable: Output<Y>, cart: C) -> (out: Self)
        ensures
            out.yokeable() == yokeable,
            out.cart() == cart,
    {
        YokeGen { yokeable, cart, kind: PhantomData }
    }

    /// Takes the bundle apart: the view first, then the cart.
    pub(crate) fn dismantle(self) -> (out: (Output<Y>, C))
        ensures
            out.0 == self.yokeable(),
            out.1 == self.cart(),
    {
        let YokeGen { yokeable, cart, kind: _ } = self;
        (yokeable, cart)
    }

    /// Replaces the view by what `f` makes of it and keeps the cart. Where
    /// `f` fails, the bundle is gone and the cart comes back with the error.
    pub fn try_map_or_cart<F, Y2: Yokeable, E>(self, f: F) -> (out: Result<
        YokeGen<Y2, C, K>,
        (E, C),
    >) where F: FnOnce(Output<Y>) -> Result<Output<Y2>, E>
        requires
            f.requires((self.yokeable(),)),
        ensures
            exists|made: Result<Output<Y2>, E>| #[trigger]
                f.ensures((self.yokeable(),), made) && bundled_or_returned(self.cart(), made, out),
    {
        let YokeGen { yokeable, cart, kind } = self;
        let made = f(yokeable);
        match made {
            Ok(view) => Ok(YokeGen { yokeable: view, cart, kind }),
            Err(err) => Err((err, cart)),
        }
    }
}

impl<Y: Yokeable, C: StableDeref> YokeGen<Y, C> {
    /// The cart alone, read-only.
    pub fn backing_cart(&self) -> (out: &C)
        ensures
            *out == self.cart(),
    {
        &self.cart
    }
}

} // verus!
