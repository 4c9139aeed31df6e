//! Rules of one generation: which creatures survive, and the genome that a
//! survivor hands on.

use crate::gene::Gene;
use crate::world::Position;
use vstd::prelude::*;

verus! {

/// The gene after flipping bit `bit % 32` of its packed form.
pub open spec fn flipped(g: Gene, bit: u8) -> Gene {
    Gene::unpacked(g.packed() ^ (1u32 << (bit % 32)))
}

/// Whether a creature standing on `position` at the end of a generation
/// survives: it must have reached past column 100.
pub fn is_alive(position: &Position) -> (r: bool)
    ensures
        r == (position.x > 100),
{
    position.x > 100
}

/// The genome handed on by a creature with genome `genes`: gene `i` is
/// copied as it is where `mutations[i]` is `None`, and with bit `b % 32`
/// flipped where it is `Some(b)`.
pub fn offspring_genes(genes: &Vec<Gene>, mutations: &Vec<Option<u8>>) -> (r: Vec<Gene>)
    requires
        mutations@.len() == genes@.len(),
    ensures
        r@.len() == genes@.len(),
        forall|i: int|
            0 <= i < genes@.len() ==> #[trigger] r@[i] == match mutations@[i] {
                Some(b) => flipped(genes@[i], b),
                None => genes@[i],
            },
{
    let mut r: Vec<Gene> = Vec::new();
    let mut i: usize = 0;
    while i < genes.len()
        invariant
            i <= genes@.len(),
            mutations@.len() == genes@.len(),
            r@.len() == i,
            forall|j: int|
                0 <= j < i ==> #[trigger] r@[j] == match mutations@[j] {
                    Some(b) => flipped(genes@[j], b),
                    None => genes@[j],
                },
        decreases genes@.len() - i,
    {
        let mut gene = genes[i];
        match mutations[i] {
            Some(b) => {
                let _ = gene.mutate(b % 32);
            },
            None => {},
        }
        r.push(gene);
        i = i + 1;
    }
    r
}

} // verus!
