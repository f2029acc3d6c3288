use vstd::prelude::*;

verus! {

pub const BUFFER_CAPACITY: usize = 256;

/// One USB transfer: a fixed backing array and the number of bytes in use.
pub struct Buffer {
    pub data: [u8; 256],
    pub len: usize,
}

impl Buffer {
    pub open spec fn wf(&self) -> bool {
        self.len <= BUFFER_CAPACITY
    }

    /// The bytes in use.
    pub open spec fn contents(&self) -> Seq<u8> {
        self.data@.subrange(0, self.len as int)
    }

    pub fn new() -> (r: Self)
        ensures
            r.wf(),
            r.len == 0,
            r.contents() == Seq::<u8>::empty(),
    {
        let r = Buffer { data: [0u8; 256], len: 0 };
        assert(r.contents() =~= Seq::<u8>::empty());
        r
    }

    /// Copies `bytes` to the front of the buffer and makes them its contents.
    pub fn fill_from(&mut self, bytes: &[u8])
        requires
            bytes@.len() <= BUFFER_CAPACITY,
        ensures
            final(self).wf(),
            final(self).contents() == bytes@,
    {
        let n = bytes.len();
        let mut i: usize = 0;
        while i < n
            invariant
                0 <= i <= n,
                n == bytes@.len(),
                n <= 256,
                self.data@.len() == 256,
                forall|j: int| 0 <= j < i ==> self.data@[j] == bytes@[j],
            decreases n - i,
        {
            self.data[i] = bytes[i];
            i = i + 1;
        }
        self.len = n;
        assert(self.contents() =~= bytes@);
    }

    /// Whether both buffers hold the same bytes.
    pub fn same_contents(&self, other: &Buffer) -> (r: bool)
        requires
            self.wf(),
            other.wf(),
        ensures
            r == (self.contents() == other.contents()),
    {
        if self.len != other.len {
            return false;
        }
        let mut i: usize = 0;
        while i < self.len
            invariant
                self.wf(),
                other.wf(),
                self.len == other.len,
                0 <= i <= self.len,
                forall|j: int| 0 <= j < i ==> self.data@[j] == other.data@[j],
            decreases self.len - i,
        {
            if self.data[i] != other.data[i] {
                assert(self.contents()[i as int] != other.contents()[i as int]);
                return false;
            }
            i = i + 1;
        }
        assert(self.contents() =~= other.contents());
        true
    }

    /// A copy of the bytes in use.
    pub fn to_vec(&self) -> (r: Vec<u8>)
        requires
            self.wf(),
        ensures
            r@ == self.contents(),
    {
        let mut r: Vec<u8> = Vec::new();
        let mut i: usize = 0;
        while i < self.len
            invariant
                self.wf(),
                0 <= i <= self.len,
                r@ == self.data@.subrange(0, i as int),
            decreases self.len - i,
        {
            r.push(self.data[i]);
            assert(r@ =~= self.data@.subrange(0, i + 1));
            i = i + 1;
        }
        r
    }
}

} // verus!
