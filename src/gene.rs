//! Genes: one neural connection packed into a source byte, a destination
//! byte and a signed 16-bit weight.

use crate::brain::{BrainDescription, NeuronDescription, NeuronLayer};
use vstd::prelude::*;
use vstd::string::StrSliceExecFns;
use vstd::string::StringExecFns;

verus! {

/// Why a gene could not be built or changed.
#[derive(Clone, Copy, Debug, PartialEq, Eq, Structural)]
pub enum GeneError {
    /// An Output neuron as source, or an Input neuron as destination.
    InvalidGeneTopology,
    /// A bit index of 32 or more for a 32-bit gene.
    BitIndexOutOfRange,
}

/// One connection of a brain.
///
/// The high bit of `source` selects the Input (0) or Internal (1) layer; the
/// high bit of `destination` selects the Internal (0) or Output (1) layer.
/// The low seven bits of each byte select the neuron inside its layer. Every
/// byte value is meaningful, so every gene is well formed.
#[derive(Clone, Copy, Debug, PartialEq, Eq, Structural)]
pub struct Gene {
    pub source: u8,
    pub destination: u8,
    pub weight: i16,
}

/// Layer selected by a source byte.
pub open spec fn source_layer_of(b: u8) -> NeuronLayer {
    if b < 128 {
        NeuronLayer::Input
    } else {
        NeuronLayer::Internal
    }
}

/// Layer selected by a destination byte.
pub open spec fn destination_layer_of(b: u8) -> NeuronLayer {
    if b < 128 {
        NeuronLayer::Internal
    } else {
        NeuronLayer::Output
    }
}

/// Source byte for a neuron of the Input or Internal layer.
pub open spec fn source_byte(layer: NeuronLayer, number: u8) -> u8 {
    (number % 128 + if layer == NeuronLayer::Internal { 128u8 } else { 0u8 }) as u8
}

/// Destination byte for a neuron of the Internal or Output layer.
pub open spec fn destination_byte(layer: NeuronLayer, number: u8) -> u8 {
    (number % 128 + if layer == NeuronLayer::Output { 128u8 } else { 0u8 }) as u8
}

/// The neuron that a raw byte of the given layer designates in `brain`.
pub open spec fn neuron_of(layer: NeuronLayer, raw: u8, brain: BrainDescription) -> NeuronDescription
    recommends
        brain.count(layer) > 0,
{
    NeuronDescription {
        neuron_layer: layer,
        neuron_number: ((raw % 128) as nat % brain.count(layer)) as u8,
    }
}

/// The sixteen hexadecimal digits, upper case.
pub open spec fn hex_digits() -> Seq<char> {
    seq!['0', '1', '2', '3', '4', '5', '6', '7', '8', '9', 'A', 'B', 'C', 'D', 'E', 'F']
}

/// `value` written with exactly `width` hexadecimal digits, most significant
/// first (higher digits of `value` are dropped).
pub open spec fn hex_text(value: nat, width: nat) -> Seq<char>
    decreases width,
{
    if width == 0 {
        Seq::empty()
    } else {
        hex_text(value / 16, (width - 1) as nat).push(hex_digits()[(value % 16) as int])
    }
}

/// Text form of a gene: two digits for the source byte, two for the
/// destination byte and four for the weight read as an unsigned 16-bit number.
pub open spec fn gene_text(g: Gene) -> Seq<char> {
    hex_text(g.source as nat, 2) + hex_text(g.destination as nat, 2) + hex_text(
        g.weight as u16 as nat,
        4,
    )
}

/// Appends `value` to `out` with exactly `width` hexadecimal digits.
fn push_hex(out: &mut String, value: u32, width: u8)
    ensures
        final(out)@ == old(out)@ + hex_text(value as nat, width as nat),
    decreases width,
{
    if width > 0 {
        push_hex(out, value / 16, width - 1);
        let digits = "0123456789ABCDEF";
        proof {
            reveal_strlit("0123456789ABCDEF");
        }
        let n = (value % 16) as usize;
        let digit = digits.substring_ascii(n, n + 1);
        out.append(digit);
        assert(final(out)@ =~= old(out)@ + hex_text(value as nat, width as nat));
    }
}

impl Gene {
    /// The gene that `init` builds from a valid layer pair.
    pub open spec fn encoded(
        source_layer: NeuronLayer,
        source_number: u8,
        destination_layer: NeuronLayer,
        destination_number: u8,
        weight: i16,
    ) -> Gene {
        Gene {
            source: source_byte(source_layer, source_number),
            destination: destination_byte(destination_layer, destination_number),
            weight,
        }
    }

    /// The gene as one 32-bit value: source, destination, then the weight
    /// read as an unsigned 16-bit number.
    pub open spec fn packed(&self) -> u32 {
        ((self.source as u32) << 24u32) | ((self.destination as u32) << 16u32) | (
        self.weight as u16 as u32)
    }

    /// The gene that a 32-bit value splits into.
    pub open spec fn unpacked(v: u32) -> Gene {
        Gene { source: (v >> 24u32) as u8, destination: (v >> 16u32) as u8, weight: v as u16 as i16 }
    }

    /// Builds the gene connecting neuron `source_number` of `source_layer` to
    /// neuron `destination_number` of `destination_layer`. Only the low seven
    /// bits of each number are kept.
    pub fn init(
        source_layer: NeuronLayer,
        source_number: u8,
        destination_layer: NeuronLayer,
        destination_number: u8,
        weight: i16,
    ) -> (r: Result<Gene, GeneError>)
        ensures
            r is Err <==> (source_layer == NeuronLayer::Output || destination_layer
                == NeuronLayer::Input),
            r is Err ==> r->Err_0 == GeneError::InvalidGeneTopology,
            r is Ok ==> r->Ok_0 == Gene::encoded(
                source_layer,
                source_number,
                destination_layer,
                destination_number,
                weight,
            ),
    {
        let source: u8 = match source_layer {
            NeuronLayer::Input => source_number & 0x7f,
            NeuronLayer::Internal => 0x80 | (source_number & 0x7f),
            NeuronLayer::Output => {
                return Err(GeneError::InvalidGeneTopology);
            },
        };
        let destination: u8 = match destination_layer {
            NeuronLayer::Input => {
                return Err(GeneError::InvalidGeneTopology);
            },
            NeuronLayer::Internal => destination_number & 0x7f,
            NeuronLayer::Output => 0x80 | (destination_number & 0x7f),
        };
        proof {
            lemma_byte_split(source_number);
            lemma_byte_split(destination_number);
        }
        Ok(Gene { source, destination, weight })
    }

    /// A gene with random source, destination and weight. Every such triple
    /// is a well-formed gene.
    pub fn init_random() -> (r: Gene) {
        let source: u8 = rand::random();
        let destination: u8 = rand::random();
        let weight: i16 = rand::random();
        Gene { source, destination, weight }
    }

    /// Layer of the neuron this gene reads from.
    pub fn get_source_neuron_layer(&self) -> (r: NeuronLayer)
        ensures
            r == source_layer_of(self.source),
    {
        proof {
            lemma_high_bit(self.source);
        }
        if self.source & 0x80 == 0 {
            NeuronLayer::Input
        } else {
            NeuronLayer::Internal
        }
    }

    /// Layer of the neuron this gene writes to.
    pub fn get_destination_neuron_layer(&self) -> (r: NeuronLayer)
        ensures
            r == destination_layer_of(self.destination),
    {
        proof {
            lemma_high_bit(self.destination);
        }
        if self.destination & 0x80 == 0 {
            NeuronLayer::Internal
        } else {
            NeuronLayer::Output
        }
    }

    /// The neuron this gene reads from, in `brain`.
    pub fn get_source_neuron(&self, brain: &BrainDescription) -> (r: NeuronDescription)
        requires
            brain.count(source_layer_of(self.source)) > 0,
        ensures
            r == neuron_of(source_layer_of(self.source), self.source, *brain),
    {
        let neuron_layer = self.get_source_neuron_layer();
        Gene::get_neuron(neuron_layer, self.source, brain)
    }

    /// The neuron this gene writes to, in `brain`.
    pub fn get_destination_neuron(&self, brain: &BrainDescription) -> (r: NeuronDescription)
        requires
            brain.count(destination_layer_of(self.destination)) > 0,
        ensures
            r == neuron_of(destination_layer_of(self.destination), self.destination, *brain),
    {
        let neuron_layer = self.get_destination_neuron_layer();
        Gene::get_neuron(neuron_layer, self.destination, brain)
    }

    /// Flips bit `bit` of the gene read as one 32-bit value (bit 0 is the
    /// lowest bit of the weight, bit 31 the highest bit of the source).
    /// A bit index of 32 or more leaves the gene as it is.
    pub fn mutate(&mut self, bit: u8) -> (r: Result<(), GeneError>)
        ensures
            r is Err <==> bit >= 32,
            r is Err ==> r->Err_0 == GeneError::BitIndexOutOfRange && *final(self) == *old(self),
            r is Ok ==> *final(self) == Gene::unpacked(old(self).packed() ^ (1u32 << bit)),
    {
        if bit >= 32 {
            return Err(GeneError::BitIndexOutOfRange);
        }
        let raw_gene: u32 = ((self.source as u32) << 24u32) | ((self.destination as u32) << 16u32)
            | (self.weight as u16 as u32);
        let new_raw_gene: u32 = raw_gene ^ (1u32 << bit);
        self.source = (new_raw_gene >> 24u32) as u8;
        self.destination = (new_raw_gene >> 16u32) as u8;
        self.weight = new_raw_gene as u16 as i16;
        Ok(())
    }

    /// Canonical text form: eight upper-case hexadecimal digits, `SSDDWWWW`.
    pub fn to_text(&self) -> (r: String)
        ensures
            r@ == gene_text(*self),
    {
        let mut out = String::new();
        push_hex(&mut out, self.source as u32, 2);
        push_hex(&mut out, self.destination as u32, 2);
        push_hex(&mut out, self.weight as u16 as u32, 4);
        assert(out@ =~= gene_text(*self));
        out
    }

    fn get_neuron(neuron_layer: NeuronLayer, raw_number: u8, brain: &BrainDescription) -> (r:
        NeuronDescription)
        requires
            brain.count(neuron_layer) > 0,
        ensures
            r == neuron_of(neuron_layer, raw_number, *brain),
    {
        proof {
            lemma_byte_split(raw_number);
        }
        let count = brain.count_for_layer(neuron_layer);
        let neuron_number = (raw_number & 0x7f) % count;
        NeuronDescription { neuron_layer, neuron_number }
    }
}

/// Decoding a gene built from a valid layer pair gives back both layers, and
/// each index reduced modulo the neuron count of its layer.
pub proof fn lemma_decode_round_trip(
    source_layer: NeuronLayer,
    source_number: u8,
    destination_layer: NeuronLayer,
    destination_number: u8,
    weight: i16,
    brain: BrainDescription,
)
    requires
        source_layer != NeuronLayer::Output,
        destination_layer != NeuronLayer::Input,
        source_number < 128,
        destination_number < 128,
        brain.count(source_layer) > 0,
        brain.count(destination_layer) > 0,
    ensures
        ({
            let g = Gene::encoded(
                source_layer,
                source_number,
                destination_layer,
                destination_number,
                weight,
            );
            &&& source_layer_of(g.source) == source_layer
            &&& destination_layer_of(g.destination) == destination_layer
            &&& neuron_of(source_layer, g.source, brain) == (NeuronDescription {
                neuron_layer: source_layer,
                neuron_number: (source_number as nat % brain.count(source_layer)) as u8,
            })
            &&& neuron_of(destination_layer, g.destination, brain) == (NeuronDescription {
                neuron_layer: destination_layer,
                neuron_number: (destination_number as nat % brain.count(destination_layer)) as u8,
            })
            &&& g.weight == weight
        }),
{
}

/// Splitting the packed form of a gene gives the gene back, and packing the
/// split of a 32-bit value gives the value back.
pub proof fn lemma_pack_unpack(g: Gene, v: u32)
    ensures
        Gene::unpacked(g.packed()) == g,
        Gene::unpacked(v).packed() == v,
{
    let (s, d, w) = (g.source, g.destination, g.weight);
    assert((((((s as u32) << 24u32) | ((d as u32) << 16u32) | (w as u16 as u32)) >> 24u32) as u8)
        == s) by (bit_vector);
    assert((((((s as u32) << 24u32) | ((d as u32) << 16u32) | (w as u16 as u32)) >> 16u32) as u8)
        == d) by (bit_vector);
    assert(((((s as u32) << 24u32) | ((d as u32) << 16u32) | (w as u16 as u32)) as u16 as i16)
        == w) by (bit_vector);
    assert((((v >> 24u32) as u8 as u32) << 24u32) | (((v >> 16u32) as u8 as u32) << 16u32) | (
    v as u16 as i16 as u16 as u32) == v) by (bit_vector);
}

/// Flipping the same bit twice gives the same gene back.
pub proof fn lemma_mutate_involution(g: Gene, bit: u8)
    requires
        bit < 32,
    ensures
        Gene::unpacked(Gene::unpacked(g.packed() ^ (1u32 << bit)).packed() ^ (1u32 << bit)) == g,
{
    let m = 1u32 << bit;
    let p = g.packed();
    let v = p ^ m;
    lemma_pack_unpack(g, v);
    assert(v ^ m == p) by (bit_vector)
        requires
            v == p ^ m,
    ;
}

proof fn lemma_high_bit(n: u8)
    ensures
        (n & 0x80 == 0) <==> n < 128,
{
    assert((n & 0x80 == 0) <==> n < 128) by (bit_vector);
}

proof fn lemma_byte_split(n: u8)
    ensures
        n & 0x7f == n % 128,
        (n & 0x7f) as int + 128 == (0x80u8 | (n & 0x7f)) as int,
{
    assert(n & 0x7f == n % 128) by (bit_vector);
    assert((n & 0x7f) as int + 128 == (0x80u8 | (n & 0x7f)) as int) by (bit_vector);
}

} // verus!
