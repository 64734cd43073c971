//! Attacker-controlled byte buffers, as `untrusted::Input` carries them.
use vstd::prelude::*;

verus! {

#[verifier::external_type_specification]
#[verifier::external_body]
pub struct ExInput<'a>(untrusted::Input<'a>);

/// The bytes that an `untrusted::Input` wraps.
pub uninterp spec fn input_bytes(i: untrusted::Input) -> Seq<u8>;

/// Relies on `untrusted::Input::as_slice_less_safe`: it hands back the wrapped
/// slice itself.
pub assume_specification<'a>[ untrusted::Input::<'a>::as_slice_less_safe ](
    i: &untrusted::Input<'a>,
) -> (r: &'a [u8])
    ensures
        r@ == input_bytes(*i),
;

} // verus!
