//! Serving parameters and the INI-define normalization.

use vstd::prelude::*;

use crate::bytes_util::push_all;
use crate::bytes_util::to_vec;

verus! {

/// ASCII for `=On`, the value an INI switch defaults to.
pub const DEFINE_DEFAULT: [u8; 3] = [61u8, 79u8, 110u8];

/// A define that names no value is turned on.
pub open spec fn spec_parse_define(arg: Seq<u8>) -> Seq<u8> {
    if exists|i: int| 0 <= i < arg.len() && arg[i] == 61 {
        arg
    } else {
        arg + DEFINE_DEFAULT@
    }
}

/// Normalizes an INI define: `key=value` passes through, a bare `key`
/// becomes `key=On`.
pub fn parse_define(arg: &[u8]) -> (r: Vec<u8>)
    ensures
        r@ == spec_parse_define(arg@),
{
    if crate::bytes_util::contains_byte(arg, 61) {
        to_vec(arg)
    } else {
        let mut r = to_vec(arg);
        push_all(&mut r, DEFINE_DEFAULT.as_slice());
        r
    }
}

/// What one serving process binds and serves: an address, a port and the
/// document root.
pub struct Serve {
    address: Vec<u8>,
    port: u16,
    root: Vec<u8>,
}

/// Mathematical image of a [`Serve`].
pub ghost struct ServeView {
    pub address: Seq<u8>,
    pub port: u16,
    pub root: Seq<u8>,
}

impl View for Serve {
    type V = ServeView;

    closed spec fn view(&self) -> ServeView {
        ServeView { address: self.address@, port: self.port, root: self.root@ }
    }
}

impl Serve {
    /// Pairs a bind address and port with the document root to serve.
    pub fn new(address: Vec<u8>, port: u16, root: Vec<u8>) -> (r: Serve)
        ensures
            r@ == (ServeView { address: address@, port, root: root@ }),
    {
        Serve { address, port, root }
    }

    /// The address to bind.
    pub fn address(&self) -> (r: &Vec<u8>)
        ensures
            r@ == self@.address,
    {
        &self.address
    }

    /// The port to bind.
    pub fn port(&self) -> (r: u16)
        ensures
            r == self@.port,
    {
        self.port
    }

    /// The document root to serve.
    pub fn root(&self) -> (r: &Vec<u8>)
        ensures
            r@ == self@.root,
    {
        &self.root
    }
}

} // verus!
