//! The interface shared by the two kinds of port identifier.
//!
//! A port is named by a number, but the same port may have another number in
//! another context. A type per context keeps the two apart; this trait lets
//! code handle either kind.
use vstd::prelude::*;
use vstd::std_specs::convert::FromSpec;
use vstd::std_specs::convert::IntoSpec;

verus! {

/// A port identifier: a type that is made from a port number and gives it back.
pub trait PortId: Into<u8> + From<u8> + Copy + Clone + PartialEq + Eq {
    /// Both conversions are specified, and each undoes the other.
    proof fn conversions_agree()
        ensures
            <Self as FromSpec<u8>>::obeys_from_spec(),
            <Self as IntoSpec<u8>>::obeys_into_spec(),
            forall|number: u8| #[trigger]
                <Self as FromSpec<u8>>::from_spec(number).into_spec() == number,
            forall|port: Self| <Self as FromSpec<u8>>::from_spec(#[trigger] port.into_spec()) == port,
    ;
}

} // verus!
