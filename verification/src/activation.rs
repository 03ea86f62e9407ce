use vstd::prelude::*;

verus! {

/// The scalar function a network applies element-wise after each linear map.
///
/// The network stores an `Activation` value as injected configuration, so
/// alternative activations can be substituted without touching the training
/// algorithm. The backward pass hard-codes the logistic sigmoid's derivative
/// shortcut `f'(x) = f(x) * (1 - f(x))` in terms of the forward output, so
/// the computed gradients are those of the logistic sigmoid: an
/// implementation of this trait other than a sigmoid changes the forward
/// pass but is trained with the sigmoid's derivative.
pub trait Activation<T>: Sized {
    /// The value of the function at `x`.
    spec fn apply_spec(self, x: T) -> T;

    /// Applies the function to one scalar.
    fn apply(&self, x: T) -> (r: T)
        ensures
            r == self.apply_spec(x),
    ;
}

/// The identity function: a neutral activation for exact, integer-valued
/// networks, where saturation plays no role.
pub struct Identity;

impl<T> Activation<T> for Identity {
    open spec fn apply_spec(self, x: T) -> T {
        x
    }

    fn apply(&self, x: T) -> (r: T) {
        x
    }
}

} // verus!
