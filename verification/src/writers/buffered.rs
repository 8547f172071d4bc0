use vstd::prelude::*;
use vstd::slice::*;
use vstd::string::*;
use super::ClippyWriter;

verus! {

/// A sink that keeps what is written to it.
pub struct BufferedWriter {
    buffer: Vec<u8>,
}

impl View for BufferedWriter {
    type V = Seq<u8>;

    closed spec fn view(&self) -> Seq<u8> {
        self.buffer@
    }
}

impl BufferedWriter {
    /// An empty sink.
    pub fn new() -> (r: Self)
        ensures
            r@ == Seq::<u8>::empty(),
    {
        BufferedWriter { buffer: Vec::new() }
    }

    /// Appends `buf`; says how many bytes were taken, which is all of them.
    pub fn write(&mut self, buf: &[u8]) -> (n: usize)
        ensures
            final(self)@ == old(self)@ + buf@,
            n == buf@.len(),
    {
        let mut i: usize = 0;
        while i < buf.len()
            invariant
                i <= buf.len(),
                self.buffer@ == old(self).buffer@ + buf@.take(i as int),
            decreases buf.len() - i,
        {
            self.buffer.push(buf[i]);
            i += 1;
        }
        buf.len()
    }

    /// Nothing is held back, so there is nothing to do.
    pub fn flush(&mut self)
        ensures
            final(self)@ == old(self)@,
    {
    }

    /// Appends the bytes of `s` and a line feed.
    pub fn write_line(&mut self, s: &str)
        ensures
            final(self)@ == old(self)@ + s.spec_bytes() + seq![10u8],
    {
        self.write(s.as_bytes());
        self.buffer.push(10u8);
    }

    /// What was written, or nothing if nothing was.
    pub fn get_buffer(&self) -> (r: Option<&Vec<u8>>)
        ensures
            self@.len() == 0 ==> r is None,
            self@.len() > 0 ==> r is Some && r->Some_0@ == self@,
    {
        if self.buffer.len() == 0 {
            return None;
        }
        Some(&self.buffer)
    }
}

impl ClippyWriter for BufferedWriter {
    fn write_line(&mut self, s: &str)
        ensures
            final(self)@ == old(self)@ + s.spec_bytes() + seq![10u8],
    {
        BufferedWriter::write_line(self, s)
    }

    fn get_buffer(&self) -> (r: Option<&Vec<u8>>)
        ensures
            self@.len() == 0 ==> r is None,
            self@.len() > 0 ==> r is Some && r->Some_0@ == self@,
    {
        BufferedWriter::get_buffer(self)
    }
}

} // verus!
