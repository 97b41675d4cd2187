use vstd::prelude::*;

use crate::text::push_char;

verus! {

/// Whether a byte is printable 7-bit ASCII.
pub open spec fn printable(b: u8) -> bool {
    0x20 <= b && b <= 0x7e
}

/// The ten-byte printable identifier of an inverter or of its datalogger.
#[derive(Clone, Copy, Debug, PartialEq, Eq)]
pub struct Serial {
    data: [u8; 10],
}

impl View for Serial {
    type V = Seq<u8>;

    closed spec fn view(&self) -> Seq<u8> {
        self.data@
    }
}

impl Serial {
    /// A serial holds exactly ten printable bytes.
    pub open spec fn valid_bytes(s: Seq<u8>) -> bool {
        s.len() == 10 && forall|i: int| 0 <= i < s.len() ==> printable(#[trigger] s[i])
    }

    #[verifier::type_invariant]
    spec fn inv(&self) -> bool {
        Serial::valid_bytes(self.data@)
    }

    /// A serial's view has ten bytes.
    pub proof fn lemma_len(&self)
        ensures
            self@.len() == 10,
    {
    }

    /// Accepts exactly ten printable bytes.
    pub fn new(input: &[u8]) -> (r: Option<Serial>)
        ensures
            r is Some <==> Serial::valid_bytes(input@),
            r matches Some(s) ==> s@ == input@,
    {
        if input.len() != 10 {
            return None;
        }
        let mut data: [u8; 10] = [0u8; 10];
        let mut i: usize = 0;
        while i < 10
            invariant
                input@.len() == 10,
                0 <= i <= 10,
                data@.len() == 10,
                forall|j: int| 0 <= j < i ==> data@[j] == input@[j],
                forall|j: int| 0 <= j < i ==> printable(#[trigger] input@[j]),
            decreases 10 - i,
        {
            let b = input[i];
            if !(0x20 <= b && b <= 0x7e) {
                return None;
            }
            data[i] = b;
            i = i + 1;
        }
        assert(data@ =~= input@);
        Some(Serial { data })
    }

    /// Whether two serials hold the same bytes.
    pub fn same(&self, other: &Serial) -> (r: bool)
        ensures
            r == (self@ == other@),
    {
        let mut i: usize = 0;
        while i < 10
            invariant
                0 <= i <= 10,
                self.data@.len() == 10,
                other.data@.len() == 10,
                forall|j: int| 0 <= j < i ==> self.data@[j] == other.data@[j],
            decreases 10 - i,
        {
            if self.data[i] != other.data[i] {
                return false;
            }
            i = i + 1;
        }
        assert(self.data@ =~= other.data@);
        true
    }

    /// The serial's bytes.
    pub fn data(&self) -> (r: [u8; 10])
        ensures
            r@ == self@,
    {
        self.data
    }

    /// Appends the serial's bytes to `out`.
    pub fn append_to(&self, out: &mut Vec<u8>)
        ensures
            final(out)@ == old(out)@ + self@,
    {
        let ghost start = out@;
        let mut i: usize = 0;
        while i < 10
            invariant
                0 <= i <= 10,
                self.data@.len() == 10,
                out@ == start + self.data@.subrange(0, i as int),
            decreases 10 - i,
        {
            out.push(self.data[i]);
            i = i + 1;
            assert(self.data@.subrange(0, i as int) =~= self.data@.subrange(0, i - 1).push(
                self.data@[i - 1],
            ));
        }
        assert(self.data@.subrange(0, 10) =~= self.data@);
    }

    /// The serial as text; each byte is one printable character.
    pub fn to_text(&self) -> (r: String)
        ensures
            r@ == Serial::text_of(self@),
    {
        proof {
            use_type_invariant(self);
        }
        let mut s = String::new();
        let mut i: usize = 0;
        while i < 10
            invariant
                0 <= i <= 10,
                self.data@.len() == 10,
                s@ == Serial::text_of(self.data@.subrange(0, i as int)),
            decreases 10 - i,
        {
            push_char(&mut s, self.data[i] as char);
            i = i + 1;
            assert(self.data@.subrange(0, i as int).drop_last() =~= self.data@.subrange(
                0,
                i - 1,
            ));
        }
        assert(self.data@.subrange(0, 10) =~= self.data@);
        s
    }

    /// The characters of a serial, one per byte.
    pub open spec fn text_of(b: Seq<u8>) -> Seq<char>
        decreases b.len(),
    {
        if b.len() == 0 {
            Seq::empty()
        } else {
            Serial::text_of(b.drop_last()).push(b.last() as char)
        }
    }
}

} // verus!
