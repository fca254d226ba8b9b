use vstd::prelude::*;

verus! {

/// A 32-byte ledger address (an account, a mint, a program or a wallet),
/// held as two 128-bit halves: the first sixteen bytes and the last sixteen.
#[derive(Clone, Copy, Debug, PartialEq, Eq, Structural)]
pub struct Address {
    pub high: u128,
    pub low: u128,
}

impl Address {
    /// The all-zero address, the owner field of a record that was never filled in.
    pub fn zero() -> (r: Address)
        ensures
            r == (Address { high: 0, low: 0 }),
    {
        Address { high: 0, low: 0 }
    }

    pub fn is_zero(&self) -> (r: bool)
        ensures
            r <==> *self == Address::zero_spec(),
    {
        self.high == 0 && self.low == 0
    }

    pub open spec fn zero_spec() -> Address {
        Address { high: 0, low: 0 }
    }

    /// The address whose 32 bytes are `bytes`.
    pub fn from_bytes(bytes: &[u8; 32]) -> (r: Address)
        ensures
            r == address_from_bytes(bytes@),
    {
        let high = be_word(bytes, 0);
        let low = be_word(bytes, 16);
        Address { high, low }
    }
}

/// The value of bytes read big-endian.
pub open spec fn be_value(s: Seq<u8>) -> nat
    decreases s.len(),
{
    if s.len() == 0 {
        0
    } else {
        be_value(s.drop_last()) * 256 + s.last() as nat
    }
}

/// `256^n`.
pub open spec fn byte_pow(n: nat) -> nat
    decreases n,
{
    if n == 0 {
        1
    } else {
        256 * byte_pow((n - 1) as nat)
    }
}

/// The address of 32 bytes: the first sixteen, then the last sixteen, each read big-endian.
pub open spec fn address_from_bytes(b: Seq<u8>) -> Address {
    Address { high: be_value(b.subrange(0, 16)) as u128, low: be_value(b.subrange(16, 32)) as u128 }
}

/// `n` bytes read big-endian stay below `256^n`.
proof fn lemma_be_value_bound(s: Seq<u8>)
    ensures
        be_value(s) < byte_pow(s.len()),
    decreases s.len(),
{
    if s.len() > 0 {
        lemma_be_value_bound(s.drop_last());
        let p = byte_pow((s.len() - 1) as nat);
        let v = be_value(s.drop_last());
        assert(v * 256 + s.last() < 256 * p) by (nonlinear_arith)
            requires
                v < p,
                s.last() < 256,
        ;
    }
}

/// `256^16 = 2^128`.
proof fn lemma_byte_pow_16()
    ensures
        byte_pow(16) == 0x1_0000_0000_0000_0000_0000_0000_0000_0000,
{
    reveal_with_fuel(byte_pow, 17);
}

/// The sixteen bytes from `start`, read big-endian.
fn be_word(bytes: &[u8; 32], start: usize) -> (r: u128)
    requires
        start == 0 || start == 16,
    ensures
        r == be_value(bytes@.subrange(start as int, start + 16)),
{
    let mut acc: u128 = 0;
    let mut i: usize = 0;
    proof {
        lemma_byte_pow_16();
        assert(bytes@.subrange(start as int, start as int) =~= Seq::<u8>::empty());
    }
    while i < 16
        invariant
            0 <= i <= 16,
            start == 0 || start == 16,
            bytes@.len() == 32,
            acc == be_value(bytes@.subrange(start as int, start + i)),
            byte_pow(16) == 0x1_0000_0000_0000_0000_0000_0000_0000_0000,
        decreases 16 - i,
    {
        let ghost prefix = bytes@.subrange(start as int, start + i);
        let ghost next = bytes@.subrange(start as int, start + i + 1);
        proof {
            assert(next.drop_last() =~= prefix);
            lemma_be_value_bound(next);
            lemma_byte_pow_mono(next.len(), 16);
        }
        acc = acc * 256 + bytes[start + i] as u128;
        i = i + 1;
    }
    acc
}

/// Powers of 256 grow with the exponent.
proof fn lemma_byte_pow_mono(m: nat, n: nat)
    requires
        m <= n,
    ensures
        byte_pow(m) <= byte_pow(n),
    decreases n - m,
{
    if m < n {
        lemma_byte_pow_mono(m, (n - 1) as nat);
    }
}

/// What the logic reads of a token account: who owns it, which asset it holds, how much.
#[derive(Clone, Copy, Debug, PartialEq, Eq, Structural)]
pub struct TokenHolding {
    pub owner: Address,
    pub mint: Address,
    pub amount: u64,
}

} // verus!
