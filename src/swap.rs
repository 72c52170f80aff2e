use vstd::prelude::*;

verus! {

/// The venue's instruction tag for a swap with a fixed input amount.
pub const SWAP_BASE_IN_TAG: u8 = 9;

/// The `n` little-endian bytes of `x`, lowest first.
pub open spec fn le_bytes(x: nat, n: nat) -> Seq<u8>
    decreases n,
{
    if n == 0 {
        seq![]
    } else {
        seq![(x % 256) as u8] + le_bytes(x / 256, (n - 1) as nat)
    }
}

/// The instruction data of a fixed-input swap: the tag, then the input
/// amount and the minimum acceptable output, each as eight little-endian
/// bytes.
pub open spec fn swap_base_in_bytes(amount_in: u64, minimum_amount_out: u64) -> Seq<u8> {
    seq![SWAP_BASE_IN_TAG] + le_bytes(amount_in as nat, 8) + le_bytes(minimum_amount_out as nat, 8)
}

fn push_le_u64(out: &mut Vec<u8>, x: u64)
    ensures
        final(out)@ == old(out)@ + le_bytes(x as nat, 8),
{
    let mut y: u64 = x;
    let mut i: usize = 0;
    while i < 8
        invariant
            i <= 8,
            out@ + le_bytes(y as nat, (8 - i) as nat) == old(out)@ + le_bytes(x as nat, 8),
        decreases 8 - i,
    {
        let ghost before = out@;
        let ghost rest = le_bytes(y as nat, (8 - i) as nat);
        assert(rest == seq![(y % 256) as u8] + le_bytes((y / 256) as nat, (8 - i - 1) as nat));
        out.push((y % 256) as u8);
        y = y / 256;
        i = i + 1;
        assert(out@ + le_bytes(y as nat, (8 - i) as nat) =~= before + rest);
    }
    assert(le_bytes(y as nat, 0) == Seq::<u8>::empty());
    assert(out@ =~= out@ + le_bytes(y as nat, 0));
}

/// Encodes the data of a fixed-input swap call for the venue.
pub fn swap_base_in_data(amount_in: u64, minimum_amount_out: u64) -> (r: Vec<u8>)
    ensures
        r@ == swap_base_in_bytes(amount_in, minimum_amount_out),
        r@.len() == 17,
{
    let mut out: Vec<u8> = Vec::new();
    out.push(SWAP_BASE_IN_TAG);
    push_le_u64(&mut out, amount_in);
    push_le_u64(&mut out, minimum_amount_out);
    assert(out@ =~= swap_base_in_bytes(amount_in, minimum_amount_out));
    proof {
        lemma_le_bytes_len(amount_in as nat, 8);
        lemma_le_bytes_len(minimum_amount_out as nat, 8);
    }
    out
}

proof fn lemma_le_bytes_len(x: nat, n: nat)
    ensures
        le_bytes(x, n).len() == n,
    decreases n,
{
    if n > 0 {
        lemma_le_bytes_len(x / 256, (n - 1) as nat);
    }
}

} // verus!
