//! Signals from request handlers to the control loop.
//!
//! Handlers put signals into a `SignalChannel`; the control loop takes them
//! out without ever waiting. Signals leave in the order in which they came.

use vstd::prelude::*;

verus! {

/// What a handler asks of the control loop.
#[derive(Clone, Copy, Debug, PartialEq, Eq, Structural)]
pub enum Msg {
    /// Restart the device.
    Restart,
    /// A client is polling: keep the device in normal operation.
    KeepAlive,
}

/// The signals that wait for the control loop, oldest first.
#[derive(Debug)]
pub struct SignalChannel {
    queue: Vec<Msg>,
}

impl View for SignalChannel {
    type V = Seq<Msg>;

    closed spec fn view(&self) -> Seq<Msg> {
        self.queue@
    }
}

impl SignalChannel {
    /// A channel in which nothing waits.
    pub fn new() -> (r: Self)
        ensures
            r@ == Seq::<Msg>::empty(),
    {
        SignalChannel { queue: Vec::new() }
    }

    /// Puts `m` behind the signals that wait.
    pub fn send(&mut self, m: Msg)
        ensures
            final(self)@ == old(self)@.push(m),
    {
        self.queue.push(m);
    }

    /// Takes the oldest signal out, if one waits.
    pub fn try_recv(&mut self) -> (r: Option<Msg>)
        ensures
            old(self)@.len() == 0 ==> r is None && final(self)@ == old(self)@,
            old(self)@.len() > 0 ==> r == Some(old(self)@.first()) && final(self)@ == old(
                self,
            )@.drop_first(),
    {
        if self.queue.len() == 0 {
            None
        } else {
            let m = self.queue.remove(0);
            assert(self.queue@ =~= old(self)@.drop_first());
            Some(m)
        }
    }

    /// Takes out all signals that wait, oldest first, and leaves none.
    pub fn drain(&mut self) -> (r: Vec<Msg>)
        ensures
            r@ == old(self)@,
            final(self)@ == Seq::<Msg>::empty(),
    {
        let mut out: Vec<Msg> = Vec::new();
        let mut i: usize = 0;
        while i < self.queue.len()
            invariant
                i <= self.queue.len(),
                self.queue@ == old(self)@,
                out@ == self.queue@.take(i as int),
            decreases self.queue.len() - i,
        {
            out.push(self.queue[i]);
            assert(out@ =~= self.queue@.take(i as int + 1));
            i = i + 1;
        }
        assert(out@ =~= old(self)@);
        self.queue.clear();
        out
    }
}

} // verus!
