//! A buffer that is handed to a function once, to be filled.
use vstd::prelude::*;

verus! {

/// A buffer that can be handed over once.
pub struct Blank {
    octets: Vec<u8>,
}

/// A buffer was handed to a function of type `F`, which wrote into it and answered with an `A`.
pub struct Filled<F, A> {
    function: Ghost<F>,
    before: Ghost<Seq<u8>>,
    buffer: Vec<u8>,
    answer: A,
}

impl View for Blank {
    type V = Seq<u8>;

    closed spec fn view(&self) -> Seq<u8> {
        self.octets@
    }
}

impl<F, A> Filled<F, A> {
    pub closed spec fn function(self) -> F {
        self.function@
    }

    /// What the buffer held before.
    pub closed spec fn before(self) -> Seq<u8> {
        self.before@
    }

    /// What the buffer holds now.
    pub closed spec fn octets(self) -> Seq<u8> {
        self.buffer@
    }

    pub closed spec fn answer(self) -> A {
        self.answer
    }

    /// The buffer as it was left, and what the function answered.
    pub fn into_parts(self) -> (r: (Vec<u8>, A))
        ensures
            r.0@ == self.octets(),
            r.1 == self.answer(),
    {
        (self.buffer, self.answer)
    }
}

impl Blank {
    /// Closes a buffer off, to be handed over once.
    pub(super) fn seal(octets: Vec<u8>) -> (r: Blank)
        ensures
            r@ == octets@,
    {
        Blank { octets }
    }

    /// Hands the buffer to `f`, which may write into it.
    pub fn fill_by<F, A>(self, f: F) -> (r: Filled<F, A>) where F: FnOnce(&mut [u8]) -> A
        requires
            forall|buffer: &mut [u8]| buffer@ == self@ ==> #[trigger] call_requires(f, (buffer,)),
        ensures
            r.function() == f,
            r.before() == self@,
            exists|buffer: &mut [u8]|
                {
                    &&& buffer@ == self@
                    &&& final(buffer)@ == r.octets()
                    &&& #[trigger] call_ensures(f, (buffer,), r.answer())
                },
    {
        let ghost function = f;
        let ghost before = self.octets@;
        let mut buffer = self.octets;
        let answer = f(buffer.as_mut_slice());
        let r = Filled { function: Ghost(function), before: Ghost(before), buffer, answer };
        assert(r.answer() == answer);
        r
    }
}

} // verus!
