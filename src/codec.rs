//! Little-endian encoding of register values, used at the bus boundary.
use vstd::prelude::*;
use vstd::assert_seqs_equal;

verus! {

/// The two's-complement value of a 16-bit word.
pub open spec fn i16_of_word(w: int) -> i16 {
    if w >= 32768 {
        (w - 65536) as i16
    } else {
        w as i16
    }
}

/// The 16-bit word that holds `x` in two's complement.
pub open spec fn word_of_i16(x: i16) -> int {
    if x < 0 {
        x + 65536
    } else {
        x as int
    }
}

/// The `u16` read from the little-endian pair `lo`, `hi`.
pub open spec fn u16_le(lo: u8, hi: u8) -> u16 {
    (lo + 256 * hi) as u16
}

/// The `i16` samples held, two bytes each and little-endian, in `b`.
pub open spec fn decode_i16_le(b: Seq<u8>) -> Seq<i16> {
    Seq::new(b.len() / 2, |i: int| i16_of_word(b[2 * i] + 256 * b[2 * i + 1]))
}

/// The little-endian bytes of `x`.
pub open spec fn u16_bytes(x: u16) -> Seq<u8> {
    seq![(x % 256) as u8, (x / 256) as u8]
}

/// The little-endian bytes of `x`.
pub open spec fn i16_bytes(x: i16) -> Seq<u8> {
    seq![(word_of_i16(x) % 256) as u8, (word_of_i16(x) / 256) as u8]
}

/// The little-endian bytes of `x`.
pub open spec fn u32_bytes(x: u32) -> Seq<u8> {
    seq![
        (x % 256) as u8,
        ((x / 256) % 256) as u8,
        ((x / 65536) % 256) as u8,
        (x / 16777216) as u8,
    ]
}

/// The `i32` read from four little-endian bytes of `b`, from `at` on.
pub open spec fn i32_le(b: Seq<u8>, at: int) -> i32 {
    let w = b[at] + 256 * b[at + 1] + 65536 * b[at + 2] + 16777216 * b[at + 3];
    if w >= 0x8000_0000 {
        (w - 0x1_0000_0000) as i32
    } else {
        w as i32
    }
}

/// Reads a little-endian `u16` from `b[at]` and `b[at + 1]`.
pub fn read_u16_le(b: &[u8], at: usize) -> (r: u16)
    requires
        at + 1 < b@.len(),
    ensures
        r == u16_le(b@[at as int], b@[at + 1]),
{
    b[at] as u16 + 256 * (b[at + 1] as u16)
}

/// Reads a little-endian `i32` from `b[at..at + 4]`.
pub fn read_i32_le(b: &[u8], at: usize) -> (r: i32)
    requires
        at + 3 < b@.len(),
    ensures
        r == i32_le(b@, at as int),
{
    let w: u32 = b[at] as u32 + 256 * (b[at + 1] as u32) + 65536 * (b[at + 2] as u32)
        + 16777216 * (b[at + 3] as u32);
    if w >= 0x8000_0000 {
        (w as i64 - 0x1_0000_0000) as i32
    } else {
        w as i32
    }
}

/// Decodes little-endian `i16` samples; a trailing odd byte is ignored.
pub fn decode_samples(b: &[u8]) -> (r: Vec<i16>)
    ensures
        r@ == decode_i16_le(b@),
{
    let len: usize = b.len();
    let n: usize = len / 2;
    let mut r: Vec<i16> = Vec::with_capacity(n);
    let mut i: usize = 0;
    while i < n
        invariant
            len == b@.len(),
            n == len / 2,
            i <= n,
            r@.len() == i,
            forall|k: int| 0 <= k < i ==> r@[k] == decode_i16_le(b@)[k],
        decreases n - i,
    {
        assert(2 * i + 1 < b@.len());
        let w: u16 = b[2 * i] as u16 + 256 * (b[2 * i + 1] as u16);
        let x: i16 = if w >= 32768 {
            (w as i32 - 65536) as i16
        } else {
            w as i16
        };
        r.push(x);
        i = i + 1;
    }
    proof {
        assert_seqs_equal!(r@, decode_i16_le(b@));
    }
    r
}

/// A value with a fixed-width little-endian byte form, as registers hold it.
pub trait LeBytes: Sized {
    /// The number of bytes of the form.
    spec fn width() -> nat;

    /// The bytes of `self`, least significant first.
    spec fn spec_le_bytes(&self) -> Seq<u8>;

    /// The form is `width()` bytes long.
    proof fn lemma_width(&self)
        ensures
            self.spec_le_bytes().len() == Self::width(),
    ;

    fn le_bytes(&self) -> (r: Vec<u8>)
        ensures
            r@ == self.spec_le_bytes(),
            r@.len() == Self::width(),
    ;
}

impl LeBytes for u16 {
    open spec fn width() -> nat {
        2
    }

    open spec fn spec_le_bytes(&self) -> Seq<u8> {
        u16_bytes(*self)
    }

    proof fn lemma_width(&self) {
    }

    fn le_bytes(&self) -> (r: Vec<u8>) {
        let x = *self;
        let r = vec![(x % 256) as u8, (x / 256) as u8];
        assert(r@ =~= u16_bytes(x));
        r
    }
}

impl LeBytes for i16 {
    open spec fn width() -> nat {
        2
    }

    open spec fn spec_le_bytes(&self) -> Seq<u8> {
        i16_bytes(*self)
    }

    proof fn lemma_width(&self) {
    }

    fn le_bytes(&self) -> (r: Vec<u8>) {
        let x = *self;
        let w: u16 = if x < 0 {
            (x as i32 + 65536) as u16
        } else {
            x as u16
        };
        let r = vec![(w % 256) as u8, (w / 256) as u8];
        assert(r@ =~= i16_bytes(x));
        r
    }
}

impl LeBytes for u32 {
    open spec fn width() -> nat {
        4
    }

    open spec fn spec_le_bytes(&self) -> Seq<u8> {
        u32_bytes(*self)
    }

    proof fn lemma_width(&self) {
    }

    fn le_bytes(&self) -> (r: Vec<u8>) {
        let x = *self;
        let r = vec![
            (x % 256) as u8,
            ((x / 256) % 256) as u8,
            ((x / 65536) % 256) as u8,
            (x / 16777216) as u8,
        ];
        assert(r@ =~= u32_bytes(x));
        r
    }
}

impl LeBytes for i32 {
    open spec fn width() -> nat {
        4
    }

    open spec fn spec_le_bytes(&self) -> Seq<u8> {
        u32_bytes(if *self < 0 {
            (*self + 0x1_0000_0000) as u32
        } else {
            *self as u32
        })
    }

    proof fn lemma_width(&self) {
    }

    fn le_bytes(&self) -> (r: Vec<u8>) {
        let x = *self;
        let w: u32 = if x < 0 {
            (x as i64 + 0x1_0000_0000) as u32
        } else {
            x as u32
        };
        w.le_bytes()
    }
}

/// The byte forms of the values of `s`, one after the other.
pub open spec fn bytes_of<A: LeBytes>(s: Seq<A>) -> Seq<u8>
    decreases s.len(),
{
    if s.len() == 0 {
        Seq::empty()
    } else {
        bytes_of(s.drop_last()) + s.last().spec_le_bytes()
    }
}

proof fn lemma_bytes_of_len<A: LeBytes>(s: Seq<A>)
    ensures
        bytes_of(s).len() == s.len() * A::width(),
    decreases s.len(),
{
    if s.len() > 0 {
        lemma_bytes_of_len(s.drop_last());
        s.last().lemma_width();
        assert((s.len() - 1) * A::width() + A::width() == s.len() * A::width()) by (nonlinear_arith);
    }
}

/// The bytes of `orig`, value after value, each least significant first.
pub fn as_bytes<A: LeBytes>(orig: &[A]) -> (r: Vec<u8>)
    ensures
        r@ == bytes_of(orig@),
        r@.len() == orig@.len() * A::width(),
{
    let mut r: Vec<u8> = Vec::new();
    let mut i: usize = 0;
    while i < orig.len()
        invariant
            i <= orig@.len(),
            r@ == bytes_of(orig@.subrange(0, i as int)),
        decreases orig@.len() - i,
    {
        let mut b = orig[i].le_bytes();
        r.append(&mut b);
        proof {
            let t = orig@.subrange(0, i + 1);
            assert(t.drop_last() =~= orig@.subrange(0, i as int));
        }
        i = i + 1;
    }
    proof {
        assert(orig@.subrange(0, orig@.len() as int) =~= orig@);
        lemma_bytes_of_len(orig@);
    }
    r
}

} // verus!
