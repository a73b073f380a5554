//! Readers of source bytes.

use vstd::prelude::*;

verus! {

/// The most bytes that one step of [`Reader::read_to_end`] reads.
pub const CHUNK: usize = 1024;

/// A source of bytes that is read front to back.
pub trait Reader {
    /// The bytes that have not been read yet. An implementation that does not
    /// say what they are leaves them open.
    open spec fn remaining(&self) -> Seq<u8> {
        arbitrary()
    }

    /// Reads up to `limit` of the remaining bytes, front first; nothing only
    /// where nothing remains or `limit` is 0.
    fn read(&mut self, limit: usize) -> (bytes: Vec<u8>)
        ensures
            bytes@.len() <= limit,
            old(self).remaining() == bytes@ + final(self).remaining(),
            bytes@.len() == 0 ==> limit == 0 || old(self).remaining().len() == 0,
    ;

    /// Reads all remaining bytes to the end of `buf`.
    fn read_to_end(&mut self, buf: &mut Vec<u8>) -> (read: ReadToEnd)
        ensures
            final(buf)@ == old(buf)@ + old(self).remaining(),
            final(self).remaining().len() == 0,
            read.bytes_read == old(self).remaining().len(),
    ;
}

/// What a [`Reader::read_to_end`] did: the number of bytes it read.
#[derive(Debug, Clone, Copy, PartialEq, Eq)]
pub struct ReadToEnd {
    pub bytes_read: usize,
}

/// A reader that can read a vector.
#[derive(Debug)]
pub struct VecReader {
    buffer: Vec<u8>,
    read_bytes: usize,
}

impl VecReader {
    /// The reader has not read past the end of its vector.
    #[verifier::type_invariant]
    spec fn inv(self) -> bool {
        self.read_bytes <= self.buffer@.len()
    }

    /// A reader that has all of `vec` before it.
    pub fn new(vec: Vec<u8>) -> (reader: Self)
        ensures
            reader.remaining() == vec@,
    {
        let reader = Self { buffer: vec, read_bytes: 0 };
        assert(reader.remaining() =~= vec@);
        reader
    }
}

impl Reader for VecReader {
    closed spec fn remaining(&self) -> Seq<u8> {
        self.buffer@.skip(self.read_bytes as int)
    }

    fn read(&mut self, limit: usize) -> (bytes: Vec<u8>) {
        proof {
            use_type_invariant(&*self);
        }
        let mut bytes: Vec<u8> = Vec::new();
        let start = self.read_bytes;
        let mut at = start;
        while at < self.buffer.len() && bytes.len() < limit
            invariant
                start <= at <= self.buffer@.len(),
                bytes@.len() == at - start,
                bytes@.len() <= limit,
                bytes@ == self.buffer@.subrange(start as int, at as int),
                self.buffer == old(self).buffer,
            decreases self.buffer@.len() - at,
        {
            bytes.push(self.buffer[at]);
            at += 1;
            assert(bytes@ =~= self.buffer@.subrange(start as int, at as int));
        }
        self.read_bytes = at;
        assert(old(self).remaining() =~= bytes@ + self.remaining());
        bytes
    }

    fn read_to_end(&mut self, buf: &mut Vec<u8>) -> (read: ReadToEnd) {
        let ghost all = self.remaining();
        let ghost before = buf@;
        let mut bytes_read: usize = 0;
        let total = self.buffer.len();
        proof {
            use_type_invariant(&*self);
            assert(all.len() <= total);
            assert(before + all.take(0) =~= before);
            assert(all.skip(0) =~= all);
        }
        loop
            invariant
                bytes_read <= all.len(),
                buf@ == before + all.take(bytes_read as int),
                self.remaining() == all.skip(bytes_read as int),
                all.len() <= usize::MAX,
            ensures
                self.remaining().len() == 0,
            decreases all.len() - bytes_read,
        {
            let mut chunk = self.read(CHUNK);
            let n = chunk.len();
            if n == 0 {
                assert(all.skip(bytes_read as int) == chunk@ + self.remaining());
                assert(chunk@ + self.remaining() =~= self.remaining());
                break;
            }
            proof {
                let left = all.skip(bytes_read as int);
                let rest = self.remaining();
                assert(left == chunk@ + rest);
                assert(left.len() == chunk@.len() + rest.len());
                assert forall|j: int| 0 <= j < n implies all[bytes_read + j] == chunk@[j] by {
                    assert(left[j] == (chunk@ + rest)[j]);
                }
                assert forall|j: int| 0 <= j < rest.len() implies all[bytes_read + n + j]
                    == rest[j] by {
                    assert(left[n + j] == (chunk@ + rest)[n + j]);
                }
                assert(all.take(bytes_read + n) =~= all.take(bytes_read as int) + chunk@);
                assert(rest =~= all.skip(bytes_read + n));
            }
            buf.append(&mut chunk);
            bytes_read = bytes_read + n;
        }
        proof {
            assert(all.skip(bytes_read as int).len() == 0);
            assert(all.take(bytes_read as int) =~= all);
        }
        ReadToEnd { bytes_read }
    }
}

} // verus!
