//! Octets that came in on a socket, and are handed to a function once.
//!
//! Only what takes octets off a socket makes a `Piece`. All that can be done with it is to hand
//! it over, which uses it up, to a function that is called once. What comes back names the
//! function, by type and value, so that a record can be kept of what was handed to whom.
use crate::addr::IpAddr;
use vstd::prelude::*;

verus! {

/// Octets that came in on a socket and can be handed over once.
pub struct Piece {
    octets: Vec<u8>,
}

/// Octets were handed to a function of type `F`, which answered with an `A`.
pub struct Given<F, A> {
    function: Ghost<F>,
    octets: Ghost<Seq<u8>>,
    answer: A,
}

/// A datagram was handed to a function of type `F`, which answered with an `A`.
pub struct GivenFrom<F, A> {
    function: Ghost<F>,
    octets: Ghost<Seq<u8>>,
    addr: Ghost<IpAddr>,
    port: Ghost<u16>,
    answer: A,
}

impl View for Piece {
    type V = Seq<u8>;

    closed spec fn view(&self) -> Seq<u8> {
        self.octets@
    }
}

impl<F, A> Given<F, A> {
    pub closed spec fn function(self) -> F {
        self.function@
    }

    pub closed spec fn octets(self) -> Seq<u8> {
        self.octets@
    }

    pub closed spec fn answer(self) -> A {
        self.answer
    }

    /// What the function answered.
    pub fn into_answer(self) -> (r: A)
        ensures
            r == self.answer(),
    {
        self.answer
    }
}

impl<F, A> GivenFrom<F, A> {
    pub closed spec fn function(self) -> F {
        self.function@
    }

    pub closed spec fn octets(self) -> Seq<u8> {
        self.octets@
    }

    pub closed spec fn addr(self) -> IpAddr {
        self.addr@
    }

    pub closed spec fn port(self) -> u16 {
        self.port@
    }

    pub closed spec fn answer(self) -> A {
        self.answer
    }

    /// What the function answered.
    pub fn into_answer(self) -> (r: A)
        ensures
            r == self.answer(),
    {
        self.answer
    }
}

impl Piece {
    /// Closes octets off, to be handed over once.
    pub(super) fn seal(octets: Vec<u8>) -> (r: Piece)
        ensures
            r@ == octets@,
    {
        Piece { octets }
    }

    /// Hands the octets to `f`.
    pub fn give_to<F, A>(self, f: F) -> (r: Given<F, A>) where F: FnOnce(&[u8]) -> A
        requires
            forall|octets: &[u8]| octets@ == self@ ==> #[trigger] call_requires(f, (octets,)),
        ensures
            r.function() == f,
            r.octets() == self@,
            exists|octets: &[u8]|
                octets@ == self@ && #[trigger] call_ensures(f, (octets,), r.answer()),
    {
        let ghost function = f;
        let answer = f(self.octets.as_slice());
        let r = Given { function: Ghost(function), octets: Ghost(self.octets@), answer };
        assert(r.answer() == answer);
        r
    }

    /// Hands the octets to `f` as a datagram from `addr` and `port`.
    pub fn give_from<F, A>(self, addr: IpAddr, port: u16, f: F) -> (r: GivenFrom<F, A>) where
        F: FnOnce(&[u8], IpAddr, u16) -> A,

        requires
            forall|octets: &[u8]|
                octets@ == self@ ==> #[trigger] call_requires(f, (octets, addr, port)),
        ensures
            r.function() == f,
            r.octets() == self@,
            r.addr() == addr,
            r.port() == port,
            exists|octets: &[u8]|
                octets@ == self@ && #[trigger] call_ensures(f, (octets, addr, port), r.answer()),
    {
        let ghost function = f;
        let answer = f(self.octets.as_slice(), addr, port);
        let r = GivenFrom {
            function: Ghost(function),
            octets: Ghost(self.octets@),
            addr: Ghost(addr),
            port: Ghost(port),
            answer,
        };
        assert(r.answer() == answer);
        r
    }
}

} // verus!
