use vstd::prelude::*;

verus! {

/// One byte of a child: each bit is the first parent's where the selector's
/// bit is set, the second parent's where it is clear.
pub open spec fn crossover_byte(selector: u8, first: u8, second: u8) -> u8 {
    (selector & first) | (!selector & second)
}

/// Bit `k` of a byte.
pub open spec fn bit(x: u8, k: u8) -> bool {
    (x >> k) & 1u8 == 1u8
}

/// The child of two sixteen-byte payloads under a selector.
pub open spec fn crossover_spec(selector: Seq<u8>, first: Seq<u8>, second: Seq<u8>) -> Seq<u8> {
    Seq::new(16, |i: int| crossover_byte(selector[i], first[i], second[i]))
}

/// Every bit of a child's byte is the first parent's bit where the selector's
/// bit is one, and the second parent's bit where it is zero.
pub proof fn lemma_crossover_bitwise(selector: u8, first: u8, second: u8, k: u8)
    requires
        k < 8,
    ensures
        bit(crossover_byte(selector, first, second), k) == if bit(selector, k) {
            bit(first, k)
        } else {
            bit(second, k)
        },
{
    assert(k < 8 ==> ((((selector & first) | (!selector & second)) >> k) & 1u8 == 1u8) == (if (selector
        >> k) & 1u8 == 1u8 {
        (first >> k) & 1u8 == 1u8
    } else {
        (second >> k) & 1u8 == 1u8
    })) by (bit_vector);
}

/// Crosses two payloads over: byte by byte, bit by bit, the selector picks
/// the parent.
pub fn crossover(selector: &[u8; 16], first: &[u8; 16], second: &[u8; 16]) -> (child: [u8; 16])
    ensures
        child@ == crossover_spec(selector@, first@, second@),
        forall|i: int, k: u8|
            0 <= i < 16 && k < 8 ==> bit(#[trigger] child@[i], k) == if #[trigger] bit(selector@[i], k) {
                bit(first@[i], k)
            } else {
                bit(second@[i], k)
            },
{
    let mut child: [u8; 16] = [0u8; 16];
    let mut i: usize = 0;
    while i < 16
        invariant
            i <= 16,
            forall|j: int| 0 <= j < i ==> child@[j] == crossover_byte(selector@[j], first@[j], second@[j]),
        decreases 16 - i,
    {
        child[i] = (selector[i] & first[i]) | (!selector[i] & second[i]);
        i += 1;
    }
    proof {
        assert(child@ =~= crossover_spec(selector@, first@, second@));
        assert forall|i: int, k: u8| 0 <= i < 16 && k < 8 implies bit(#[trigger] child@[i], k) == if #[trigger] bit(
            selector@[i],
            k,
        ) {
            bit(first@[i], k)
        } else {
            bit(second@[i], k)
        } by {
            lemma_crossover_bitwise(selector@[i], first@[i], second@[i], k);
        }
    }
    child
}

} // verus!
