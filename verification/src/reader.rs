//! The reading callback of a virtual device, with a record of its calls.
use crate::calls::{ReadCall, ReadCalls};
use crate::virtual_tun::blank::Blank;
use crate::virtual_tun::{OnVirtualTunRead, VirtualTunReadError};
use vstd::prelude::*;

verus! {

/// A reading callback of type `R`, which is called through this alone, and the calls made.
pub struct Reader<R> {
    on: OnVirtualTunRead<R>,
    calls: ReadCalls<R>,
}

impl<R> Reader<R> {
    /// The callback.
    pub closed spec fn callback(self) -> OnVirtualTunRead<R> {
        self.on
    }

    /// The calls of the callback that were made through this reader, in order.
    pub closed spec fn calls(self) -> Seq<ReadCall<R>> {
        self.calls@
    }

    /// A reader through which no call was made yet.
    pub fn new(on: OnVirtualTunRead<R>) -> (r: Reader<R>)
        ensures
            r.callback() == on,
            r.calls() == Seq::<ReadCall<R>>::empty(),
    {
        Reader { on, calls: ReadCalls::none() }
    }

    /// Another reader for the same callback, through which no call was made yet.
    pub fn another(&self) -> (r: Reader<R>)
        ensures
            r.callback() == self.callback(),
            r.calls() == Seq::<ReadCall<R>>::empty(),
    {
        Reader { on: self.on.clone(), calls: ReadCalls::none() }
    }
}

impl<R: Fn(&mut [u8]) -> Result<usize, VirtualTunReadError>> Reader<R> {
    /// Has the callback fill a buffer, and says what it said.
    pub fn read(&mut self, blank: Blank) -> (r: (Vec<u8>, Result<usize, VirtualTunReadError>))
        requires
            forall|buffer: &mut [u8]|
                buffer@ == blank@ ==> #[trigger] call_requires(*old(self).callback(), (buffer,)),
        ensures
            final(self).callback() == old(self).callback(),
            final(self).calls() == old(self).calls().push(
                (ReadCall {
                    on: *old(self).callback(),
                    before: blank@,
                    filled: r.0@,
                    said: r.1,
                }),
            ),
            exists|buffer: &mut [u8]|
                {
                    &&& buffer@ == blank@
                    &&& final(buffer)@ == r.0@
                    &&& #[trigger] call_ensures(*old(self).callback(), (buffer,), r.1)
                },
    {
        assert(self.callback() == self.on);
        let filled = blank.fill_by(&*self.on);
        self.calls.record(filled)
    }
}

} // verus!
