//! Fixed-size on-wire records: the instruction kind and the instruction header.
use vstd::prelude::*;

verus! {

/// The closed set of instruction kinds understood by the state-storage program.
#[derive(Clone, Copy, Debug, PartialEq, Eq, Structural)]
pub enum MojoInstructions {
    CreateAccount,
    DelegateAccount,
    Commit,
    UpdateDelegatedAccount,
    UndelegateAccount,
}

/// Wire value of an instruction kind.
pub open spec fn discriminator_of(k: MojoInstructions) -> u8 {
    match k {
        MojoInstructions::CreateAccount => 0,
        MojoInstructions::DelegateAccount => 1,
        MojoInstructions::Commit => 2,
        MojoInstructions::UpdateDelegatedAccount => 3,
        MojoInstructions::UndelegateAccount => 4,
    }
}

impl MojoInstructions {
    /// The leading byte that selects this kind on the wire.
    pub fn discriminator(self) -> (r: u8)
        ensures
            r == discriminator_of(self),
    {
        match self {
            MojoInstructions::CreateAccount => 0,
            MojoInstructions::DelegateAccount => 1,
            MojoInstructions::Commit => 2,
            MojoInstructions::UpdateDelegatedAccount => 3,
            MojoInstructions::UndelegateAccount => 4,
        }
    }

    /// The kind selected by a leading byte; unknown values give `None`.
    pub fn from_discriminator(d: u8) -> (r: Option<MojoInstructions>)
        ensures
            r is Some <==> d <= 4,
            r matches Some(k) ==> discriminator_of(k) == d,
    {
        match d {
            0 => Some(MojoInstructions::CreateAccount),
            1 => Some(MojoInstructions::DelegateAccount),
            2 => Some(MojoInstructions::Commit),
            3 => Some(MojoInstructions::UpdateDelegatedAccount),
            4 => Some(MojoInstructions::UndelegateAccount),
            _ => None,
        }
    }
}

/// The eight little-endian bytes of `n`.
pub open spec fn le_bytes(n: u64) -> Seq<u8> {
    seq![
        n as u8,
        (n >> 8u64) as u8,
        (n >> 16u64) as u8,
        (n >> 24u64) as u8,
        (n >> 32u64) as u8,
        (n >> 40u64) as u8,
        (n >> 48u64) as u8,
        (n >> 56u64) as u8,
    ]
}

/// The number whose little-endian bytes are the first eight of `b`.
pub open spec fn le_value(b: Seq<u8>) -> u64 {
    (b[0] as u64) | ((b[1] as u64) << 8u64) | ((b[2] as u64) << 16u64) | ((b[3] as u64) << 24u64)
        | ((b[4] as u64) << 32u64) | ((b[5] as u64) << 40u64) | ((b[6] as u64) << 48u64) | ((
    b[7] as u64) << 56u64)
}

/// Reading back the little-endian bytes of a number gives the number.
pub proof fn lemma_le_round_trip(n: u64)
    ensures
        le_value(le_bytes(n)) == n,
{
    let b = le_bytes(n);
    let (b0, b1, b2, b3, b4, b5, b6, b7) = (b[0], b[1], b[2], b[3], b[4], b[5], b[6], b[7]);
    assert(b0 == n as u8 && b1 == (n >> 8u64) as u8 && b2 == (n >> 16u64) as u8 && b3 == (n
        >> 24u64) as u8 && b4 == (n >> 32u64) as u8 && b5 == (n >> 40u64) as u8 && b6 == (n
        >> 48u64) as u8 && b7 == (n >> 56u64) as u8);
    assert(b0 == n as u8 && b1 == (n >> 8u64) as u8 && b2 == (n >> 16u64) as u8 && b3 == (n
        >> 24u64) as u8 && b4 == (n >> 32u64) as u8 && b5 == (n >> 40u64) as u8 && b6 == (n
        >> 48u64) as u8 && b7 == (n >> 56u64) as u8 ==> (b0 as u64) | ((b1 as u64) << 8u64) | ((
    b2 as u64) << 16u64) | ((b3 as u64) << 24u64) | ((b4 as u64) << 32u64) | ((b5 as u64)
        << 40u64) | ((b6 as u64) << 48u64) | ((b7 as u64) << 56u64) == n) by (bit_vector);
}

/// The little-endian bytes of `n`.
pub fn u64_to_le(n: u64) -> (r: [u8; 8])
    ensures
        r@ == le_bytes(n),
{
    let r: [u8; 8] = [
        n as u8,
        (n >> 8u64) as u8,
        (n >> 16u64) as u8,
        (n >> 24u64) as u8,
        (n >> 32u64) as u8,
        (n >> 40u64) as u8,
        (n >> 48u64) as u8,
        (n >> 56u64) as u8,
    ];
    assert(r@ =~= le_bytes(n));
    r
}

/// The number whose little-endian bytes are `b`.
pub fn u64_from_le(b: [u8; 8]) -> (r: u64)
    ensures
        r == le_value(b@),
{
    (b[0] as u64) | ((b[1] as u64) << 8u64) | ((b[2] as u64) << 16u64) | ((b[3] as u64) << 24u64)
        | ((b[4] as u64) << 32u64) | ((b[5] as u64) << 40u64) | ((b[6] as u64) << 48u64) | ((
    b[7] as u64) << 56u64)
}

/// Byte length of an encoded header: the seed hash and the payload length.
pub const HEADER_LEN: usize = 40;

/// The fixed header of every instruction: the seed hash of the target
/// account and the payload length as little-endian bytes.
#[derive(Clone, Copy, Debug, PartialEq, Eq)]
pub struct GenIxHandler {
    pub seeds: [u8; 32],
    pub size: [u8; 8],
}

/// Padding-free layout of a header: seeds, then size.
pub open spec fn header_bytes(h: GenIxHandler) -> Seq<u8> {
    h.seeds@ + h.size@
}

impl GenIxHandler {
    /// A header with a zero seed hash and the given size bytes.
    pub fn new(size: [u8; 8]) -> (r: Self)
        ensures
            r.size == size,
            r.seeds@ == Seq::new(32, |i: int| 0u8),
    {
        let r = GenIxHandler { seeds: [0u8; 32], size };
        assert(r.seeds@ =~= Seq::new(32, |i: int| 0u8));
        r
    }

    /// The header's bytes: the 32 seed bytes followed by the 8 size bytes.
    pub fn to_bytes(&self) -> (r: Vec<u8>)
        ensures
            r@ == header_bytes(*self),
    {
        let mut r: Vec<u8> = Vec::with_capacity(HEADER_LEN);
        let mut i: usize = 0;
        while i < 32
            invariant
                0 <= i <= 32,
                r@ == self.seeds@.subrange(0, i as int),
            decreases 32 - i,
        {
            r.push(self.seeds[i]);
            i = i + 1;
            assert(r@ =~= self.seeds@.subrange(0, i as int));
        }
        let mut j: usize = 0;
        while j < 8
            invariant
                0 <= j <= 8,
                r@ == self.seeds@ + self.size@.subrange(0, j as int),
            decreases 8 - j,
        {
            r.push(self.size[j]);
            j = j + 1;
            assert(r@ =~= self.seeds@ + self.size@.subrange(0, j as int));
        }
        assert(self.seeds@.subrange(0, 32) =~= self.seeds@);
        assert(self.size@.subrange(0, 8) =~= self.size@);
        r
    }
}

} // verus!
