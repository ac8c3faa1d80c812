//! The word codec: how a 64-bit word splits into the four fields of an
//! instruction. Big-endian, the eight bytes of a word are
//! `[a0, a1, a2, a3, a4, index, modifier, opcode]`.

use vstd::prelude::*;

verus! {

/// The operation code of `w`: its lowest byte.
pub open spec fn opcode_of(w: u64) -> u8 {
    (w % 256) as u8
}

/// The modifier of `w`: its second-lowest byte.
pub open spec fn modifier_of(w: u64) -> u8 {
    ((w / 256) % 256) as u8
}

/// The index field of `w`: its third-lowest byte.
pub open spec fn index_of(w: u64) -> u8 {
    ((w / 65536) % 256) as u8
}

/// The address field of `w`: its five high-order bytes as one number.
pub open spec fn address_of(w: u64) -> u64 {
    w / 16777216
}

/// The byte of `w` at big-endian position `k`, for `k` from 0 to 7.
pub open spec fn be_byte(w: u64, k: int) -> u8 {
    if k == 7 {
        (w % 256) as u8
    } else if k == 6 {
        ((w / 256) % 256) as u8
    } else if k == 5 {
        ((w / 65536) % 256) as u8
    } else if k == 4 {
        ((w / 16777216) % 256) as u8
    } else if k == 3 {
        ((w / 4294967296) % 256) as u8
    } else if k == 2 {
        ((w / 1099511627776) % 256) as u8
    } else if k == 1 {
        ((w / 281474976710656) % 256) as u8
    } else {
        ((w / 72057594037927936) % 256) as u8
    }
}

/// The eight bytes of `w`, most significant first.
pub open spec fn be_bytes_of(w: u64) -> Seq<u8> {
    Seq::new(8, |k: int| be_byte(w, k))
}

/// The text that std's `Debug` gives for an array of eight bytes.
pub uninterp spec fn bytes_text(bytes: Seq<u8>) -> Seq<char>;

/// The word that an author writes for the four fields:
/// `(address << 24) | (index << 16) | (modifier << 8) | opcode`, as a sum.
pub open spec fn encode(address: int, index: int, modifier: int, opcode: int) -> int {
    address * 16777216 + index * 65536 + modifier * 256 + opcode
}

/// A value that can be read as a machine word.
pub trait Word {
    /// The 64-bit word that this value stands for.
    spec fn word(&self) -> u64;

    /// The eight bytes of the word, big-endian, as a bracketed list of
    /// decimal numbers.
    fn as_word(&self) -> (text: String)
        ensures
            text@ == bytes_text(be_bytes_of(self.word())),
    ;

    fn op_code(&self) -> (op: u8)
        ensures
            op == opcode_of(self.word()),
    ;

    fn modifier(&self) -> (m: u8)
        ensures
            m == modifier_of(self.word()),
    ;

    fn index(&self) -> (ix: u8)
        ensures
            ix == index_of(self.word()),
    ;

    /// The five high-order bytes, most significant first.
    fn address_bytes(&self) -> (bytes: [u8; 5])
        ensures
            forall|k: int| 0 <= k < 5 ==> bytes@[k] == be_byte(self.word(), k),
    ;

    fn address(&self) -> (addr: u64)
        ensures
            addr == address_of(self.word()),
    ;

    /// Address, index, modifier and operation code at once.
    fn fields(&self) -> (f: (u64, u8, u8, u8))
        ensures
            f.0 == address_of(self.word()),
            f.1 == index_of(self.word()),
            f.2 == modifier_of(self.word()),
            f.3 == opcode_of(self.word()),
    ;
}

/// Formats the eight bytes with std's `Debug` for arrays (`format!` with
/// `{:?}`). Nothing is proved of the text: the contract only names it, as
/// what that formatting gives for these bytes.
#[verifier::external_body]
fn debug_text(bytes: &[u8; 8]) -> (text: String)
    ensures
        text@ == bytes_text(bytes@),
{
    format!("{:?}", bytes)
}

/// The eight bytes of `w`, most significant first.
pub fn be_bytes(w: u64) -> (bytes: [u8; 8])
    ensures
        bytes@ == be_bytes_of(w),
{
    let bytes: [u8; 8] = [
        ((w / 72057594037927936) % 256) as u8,
        ((w / 281474976710656) % 256) as u8,
        ((w / 1099511627776) % 256) as u8,
        ((w / 4294967296) % 256) as u8,
        ((w / 16777216) % 256) as u8,
        ((w / 65536) % 256) as u8,
        ((w / 256) % 256) as u8,
        (w % 256) as u8,
    ];
    assert(bytes@ =~= be_bytes_of(w));
    bytes
}

impl Word for u64 {
    open spec fn word(&self) -> u64 {
        *self
    }

    fn as_word(&self) -> (text: String) {
        let bytes = be_bytes(*self);
        debug_text(&bytes)
    }

    fn op_code(&self) -> (op: u8) {
        (*self % 256) as u8
    }

    fn modifier(&self) -> (m: u8) {
        ((*self / 256) % 256) as u8
    }

    fn index(&self) -> (ix: u8) {
        ((*self / 65536) % 256) as u8
    }

    fn address_bytes(&self) -> (bytes: [u8; 5]) {
        let w: u64 = *self;
        [
            ((w / 72057594037927936) % 256) as u8,
            ((w / 281474976710656) % 256) as u8,
            ((w / 1099511627776) % 256) as u8,
            ((w / 4294967296) % 256) as u8,
            ((w / 16777216) % 256) as u8,
        ]
    }

    fn address(&self) -> (addr: u64) {
        *self / 16777216
    }

    fn fields(&self) -> (f: (u64, u8, u8, u8)) {
        (self.address(), self.index(), self.modifier(), self.op_code())
    }
}

} // verus!
