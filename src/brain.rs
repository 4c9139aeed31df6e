//! Brain topology: neuron layers, neuron catalogs and connection wiring.

use crate::gene::{destination_layer_of, neuron_of, source_layer_of, Gene};
use crate::world::{left_of, occupied_step, right_of, step_towards, Direction, Position, Size, World};
use vstd::prelude::*;

verus! {

/// The three layers of a brain. Genes connect Input or Internal neurons
/// to Internal or Output neurons.
#[derive(Clone, Copy, Debug, PartialEq, Eq, Structural)]
pub enum NeuronLayer {
    Input,
    Internal,
    Output,
}

/// How many neurons a brain has in each layer.
#[derive(Clone, Copy, Debug, PartialEq, Eq, Structural)]
pub struct BrainDescription {
    pub num_input: u8,
    pub num_internal: u8,
    pub num_output: u8,
}

/// What a neuron senses or drives. Sensor kinds sit in the Input layer,
/// actuator kinds in the Output layer; Internal neurons carry no kind.
#[derive(Clone, Copy, Debug, PartialEq, Eq, Hash, Structural)]
pub enum NeuronType {
    // Input
    Random,
    BlockLeftRight,
    BlockForward,
    LastMovementY,
    LastMovementX,
    BorderDistanceNorthSouth,
    BorderDistanceEastWest,
    WordLocationNorthSouth,
    WordLocationEastWest,
    // Internal
    Internal,
    // Output
    MoveForward,
    MoveRandom,
    MoveReverse,
    MoveLeftRight,
    MoveEastWest,
    MoveNorthSouth,
}

/// The sensor kind of each Input neuron, by index.
pub open spec fn input_catalog() -> Seq<NeuronType> {
    seq![
        NeuronType::Random,
        NeuronType::BlockLeftRight,
        NeuronType::BlockForward,
        NeuronType::LastMovementY,
        NeuronType::LastMovementX,
        NeuronType::BorderDistanceNorthSouth,
        NeuronType::BorderDistanceEastWest,
        NeuronType::WordLocationNorthSouth,
        NeuronType::WordLocationEastWest,
    ]
}

/// The actuator kind of each Output neuron, by index.
pub open spec fn output_catalog() -> Seq<NeuronType> {
    seq![
        NeuronType::MoveForward,
        NeuronType::MoveRandom,
        NeuronType::MoveReverse,
        NeuronType::MoveLeftRight,
        NeuronType::MoveEastWest,
        NeuronType::MoveNorthSouth,
    ]
}

/// The sensor kind of each Input neuron, by index.
pub fn input_neuron_types() -> (r: Vec<NeuronType>)
    ensures
        r@ == input_catalog(),
{
    let mut r: Vec<NeuronType> = Vec::new();
    r.push(NeuronType::Random);
    r.push(NeuronType::BlockLeftRight);
    r.push(NeuronType::BlockForward);
    r.push(NeuronType::LastMovementY);
    r.push(NeuronType::LastMovementX);
    r.push(NeuronType::BorderDistanceNorthSouth);
    r.push(NeuronType::BorderDistanceEastWest);
    r.push(NeuronType::WordLocationNorthSouth);
    r.push(NeuronType::WordLocationEastWest);
    assert(r@ =~= input_catalog());
    r
}

/// The actuator kind of each Output neuron, by index.
pub fn output_neuron_types() -> (r: Vec<NeuronType>)
    ensures
        r@ == output_catalog(),
{
    let mut r: Vec<NeuronType> = Vec::new();
    r.push(NeuronType::MoveForward);
    r.push(NeuronType::MoveRandom);
    r.push(NeuronType::MoveReverse);
    r.push(NeuronType::MoveLeftRight);
    r.push(NeuronType::MoveEastWest);
    r.push(NeuronType::MoveNorthSouth);
    assert(r@ =~= output_catalog());
    r
}

impl BrainDescription {
    /// The topology of a brain with `num_internal` Internal neurons and one
    /// neuron for each sensor and each actuator kind.
    pub fn init(num_internal: u8) -> (r: BrainDescription)
        ensures
            r.num_input == input_catalog().len(),
            r.num_internal == num_internal,
            r.num_output == output_catalog().len(),
    {
        BrainDescription { num_internal, num_input: 9, num_output: 6 }
    }

    /// Number of neurons in `layer`.
    pub open spec fn count(&self, layer: NeuronLayer) -> nat {
        match layer {
            NeuronLayer::Input => self.num_input as nat,
            NeuronLayer::Internal => self.num_internal as nat,
            NeuronLayer::Output => self.num_output as nat,
        }
    }

    /// Number of neurons in `layer`.
    pub fn count_for_layer(&self, layer: NeuronLayer) -> (r: u8)
        ensures
            r == self.count(layer),
    {
        match layer {
            NeuronLayer::Input => self.num_input,
            NeuronLayer::Internal => self.num_internal,
            NeuronLayer::Output => self.num_output,
        }
    }
}

/// One neuron of a brain: its layer and its index inside that layer.
#[derive(Clone, Copy, Debug, PartialEq, Eq, Structural)]
pub struct NeuronDescription {
    pub neuron_layer: NeuronLayer,
    pub neuron_number: u8,
}


/// A gene decoded against a topology: the neuron it reads, the neuron it
/// feeds, and its raw weight (the effective weight is `weight / 8192`).
#[derive(Clone, Copy, Debug, PartialEq, Eq, Structural)]
pub struct NeuronConnection {
    pub source: NeuronDescription,
    pub destination: NeuronDescription,
    pub weight: i16,
}

/// Whether both layers that `g` names have neurons in `brain`, so that `g`
/// can be decoded against it.
pub open spec fn fits(brain: BrainDescription, g: Gene) -> bool {
    brain.count(source_layer_of(g.source)) > 0 && brain.count(destination_layer_of(g.destination))
        > 0
}

/// The connection that `g` decodes to in `brain`.
pub open spec fn connection_of(brain: BrainDescription, g: Gene) -> NeuronConnection {
    NeuronConnection {
        source: neuron_of(source_layer_of(g.source), g.source, brain),
        destination: neuron_of(destination_layer_of(g.destination), g.destination, brain),
        weight: g.weight,
    }
}

/// One term of a neuron's update: the index of the source neuron whose
/// value is read, and the raw weight it is multiplied by.
#[derive(Clone, Copy, Debug, PartialEq, Eq, Structural)]
pub struct Contribution {
    pub source: u8,
    pub weight: i16,
}

/// Whether `c` goes from `source_layer` to neuron `destination` of
/// `destination_layer`.
pub open spec fn feeds(
    c: NeuronConnection,
    source_layer: NeuronLayer,
    destination_layer: NeuronLayer,
    destination: nat,
) -> bool {
    c.source.neuron_layer == source_layer && c.destination.neuron_layer == destination_layer
        && c.destination.neuron_number == destination
}

/// The terms that feed neuron `destination` of `destination_layer` from
/// `source_layer`, in the order of the connections.
pub open spec fn contributions(
    connections: Seq<NeuronConnection>,
    source_layer: NeuronLayer,
    destination_layer: NeuronLayer,
    destination: nat,
) -> Seq<Contribution>
    decreases connections.len(),
{
    if connections.len() == 0 {
        Seq::empty()
    } else {
        let c = connections.last();
        let before = contributions(
            connections.drop_last(),
            source_layer,
            destination_layer,
            destination,
        );
        if feeds(c, source_layer, destination_layer, destination) {
            before.push(Contribution { source: c.source.neuron_number, weight: c.weight })
        } else {
            before
        }
    }
}

/// Source and destination layers of each of the four stages, in the order
/// they run: Input to Internal, Input to Output, Internal to Internal,
/// Internal to Output.
pub open spec fn stage_layers(k: int) -> (NeuronLayer, NeuronLayer) {
    if k == 0 {
        (NeuronLayer::Input, NeuronLayer::Internal)
    } else if k == 1 {
        (NeuronLayer::Input, NeuronLayer::Output)
    } else if k == 2 {
        (NeuronLayer::Internal, NeuronLayer::Internal)
    } else {
        (NeuronLayer::Internal, NeuronLayer::Output)
    }
}

/// The updates of one stage. `updates[d]` lists the terms feeding neuron `d`
/// of the destination layer; all of them are summed from the values as they
/// stood before the stage, and only then is any neuron changed. A neuron
/// with no terms keeps its value.
#[derive(Clone, Debug)]
pub struct Stage {
    pub source_layer: NeuronLayer,
    pub destination_layer: NeuronLayer,
    pub updates: Vec<Vec<Contribution>>,
}

/// Whether `stage` holds, for every neuron of its destination layer in
/// `brain`, exactly the terms that `connections` give it.
pub open spec fn is_stage_of(
    stage: Stage,
    brain: BrainDescription,
    connections: Seq<NeuronConnection>,
    source_layer: NeuronLayer,
    destination_layer: NeuronLayer,
) -> bool {
    &&& stage.source_layer == source_layer
    &&& stage.destination_layer == destination_layer
    &&& stage.updates@.len() == brain.count(destination_layer)
    &&& forall|d: int|
        0 <= d < stage.updates@.len() ==> #[trigger] stage.updates@[d]@ == contributions(
            connections,
            source_layer,
            destination_layer,
            d as nat,
        )
}

impl BrainDescription {
    /// Decodes every gene against this topology, in order.
    pub fn get_connection_from_genes(&self, genes: &Vec<Gene>) -> (r: Vec<NeuronConnection>)
        requires
            forall|i: int| 0 <= i < genes@.len() ==> fits(*self, #[trigger] genes@[i]),
        ensures
            r@ == genes@.map_values(|g: Gene| connection_of(*self, g)),
    {
        let mut connections: Vec<NeuronConnection> = Vec::new();
        let mut i: usize = 0;
        while i < genes.len()
            invariant
                i <= genes@.len(),
                forall|j: int| 0 <= j < genes@.len() ==> fits(*self, #[trigger] genes@[j]),
                connections@ == genes@.subrange(0, i as int).map_values(
                    |g: Gene| connection_of(*self, g),
                ),
            decreases genes@.len() - i,
        {
            let gene = &genes[i];
            let source = gene.get_source_neuron(self);
            let destination = gene.get_destination_neuron(self);
            connections.push(NeuronConnection { source, destination, weight: gene.weight });
            i = i + 1;
            assert(connections@ =~= genes@.subrange(0, i as int).map_values(
                |g: Gene| connection_of(*self, g),
            ));
        }
        assert(genes@.subrange(0, genes@.len() as int) =~= genes@);
        connections
    }

    /// The terms feeding neuron `destination` of `destination_layer` from
    /// `source_layer`.
    fn gather(
        connections: &Vec<NeuronConnection>,
        source_layer: NeuronLayer,
        destination_layer: NeuronLayer,
        destination: u8,
    ) -> (r: Vec<Contribution>)
        ensures
            r@ == contributions(connections@, source_layer, destination_layer, destination as nat),
    {
        let mut terms: Vec<Contribution> = Vec::new();
        let mut i: usize = 0;
        while i < connections.len()
            invariant
                i <= connections@.len(),
                terms@ == contributions(
                    connections@.subrange(0, i as int),
                    source_layer,
                    destination_layer,
                    destination as nat,
                ),
            decreases connections@.len() - i,
        {
            let c = connections[i];
            proof {
                assert(connections@.subrange(0, i + 1).drop_last() =~= connections@.subrange(
                    0,
                    i as int,
                ));
            }
            if c.source.neuron_layer == source_layer && c.destination.neuron_layer
                == destination_layer && c.destination.neuron_number == destination {
                terms.push(Contribution { source: c.source.neuron_number, weight: c.weight });
            }
            i = i + 1;
        }
        assert(connections@.subrange(0, connections@.len() as int) =~= connections@);
        terms
    }

    /// The stage that carries `connections` from `source_layer` to
    /// `destination_layer`: one list of terms per destination neuron.
    pub fn stage_plan(
        &self,
        connections: &Vec<NeuronConnection>,
        source_layer: NeuronLayer,
        destination_layer: NeuronLayer,
    ) -> (r: Stage)
        ensures
            is_stage_of(r, *self, connections@, source_layer, destination_layer),
    {
        let count = self.count_for_layer(destination_layer);
        let mut updates: Vec<Vec<Contribution>> = Vec::new();
        let mut d: u8 = 0;
        while d < count
            invariant
                d <= count,
                count == self.count(destination_layer),
                updates@.len() == d,
                forall|j: int|
                    0 <= j < d ==> #[trigger] updates@[j]@ == contributions(
                        connections@,
                        source_layer,
                        destination_layer,
                        j as nat,
                    ),
            decreases count - d,
        {
            let terms = BrainDescription::gather(connections, source_layer, destination_layer, d);
            updates.push(terms);
            d = d + 1;
        }
        Stage { source_layer, destination_layer, updates }
    }

    /// The four stages that one compute cycle runs for `genes`, in order:
    /// Input to Internal, Input to Output, Internal to Internal, Internal to
    /// Output.
    pub fn compute_plan(&self, genes: &Vec<Gene>) -> (r: Vec<Stage>)
        requires
            forall|i: int| 0 <= i < genes@.len() ==> fits(*self, #[trigger] genes@[i]),
        ensures
            r@.len() == 4,
            forall|k: int|
                0 <= k < 4 ==> is_stage_of(
                    #[trigger] r@[k],
                    *self,
                    genes@.map_values(|g: Gene| connection_of(*self, g)),
                    stage_layers(k).0,
                    stage_layers(k).1,
                ),
    {
        let connections = self.get_connection_from_genes(genes);
        let mut r: Vec<Stage> = Vec::new();
        r.push(self.stage_plan(&connections, NeuronLayer::Input, NeuronLayer::Internal));
        r.push(self.stage_plan(&connections, NeuronLayer::Input, NeuronLayer::Output));
        r.push(self.stage_plan(&connections, NeuronLayer::Internal, NeuronLayer::Internal));
        r.push(self.stage_plan(&connections, NeuronLayer::Internal, NeuronLayer::Output));
        r
    }
}

/// How an Output neuron turns its value into a movement request.
#[derive(Clone, Copy, Debug, PartialEq, Eq, Structural)]
pub enum Actuation {
    /// No movement.
    Still,
    /// `value` cells towards `direction`; where `positive_only` holds, a
    /// value below zero asks for no movement instead of the opposite one.
    Along { direction: Direction, positive_only: bool },
    /// A uniformly random vector in `[-1, 1] x [-1, 1]`.
    Scatter,
}

/// What a sensor reports.
#[derive(Clone, Copy, Debug, PartialEq, Eq, Structural)]
pub enum Reading {
    /// The neuron keeps its value.
    Unchanged,
    /// 1 where `true`, 0 where `false`.
    Blocked(bool),
    /// A fresh uniform value in `[-1, 1]`.
    Noise,
}

/// The movement request of a neuron of kind `t` on a creature facing
/// `facing`.
pub open spec fn actuation_of(t: NeuronType, facing: Direction) -> Actuation {
    match t {
        NeuronType::MoveForward => Actuation::Along { direction: facing, positive_only: true },
        NeuronType::MoveReverse => Actuation::Along {
            direction: left_of(left_of(facing)),
            positive_only: true,
        },
        NeuronType::MoveLeftRight => Actuation::Along {
            direction: right_of(facing),
            positive_only: false,
        },
        NeuronType::MoveEastWest => Actuation::Along {
            direction: Direction::East,
            positive_only: false,
        },
        NeuronType::MoveNorthSouth => Actuation::Along {
            direction: Direction::North,
            positive_only: false,
        },
        NeuronType::MoveRandom => Actuation::Scatter,
        _ => Actuation::Still,
    }
}

/// What a sensor of kind `t` reports for a creature on `position` facing
/// `facing`, in a world with occupancy `occupancy` and extent `boundary`.
pub open spec fn reading_of(
    t: NeuronType,
    occupancy: Map<Position, usize>,
    boundary: Size,
    position: Position,
    facing: Direction,
) -> Reading {
    match t {
        NeuronType::Random => Reading::Noise,
        NeuronType::BlockForward => Reading::Blocked(
            match step_towards(position, facing, 1, boundary) {
                Some(ahead) => occupancy.contains_key(ahead),
                None => true,
            },
        ),
        NeuronType::BlockLeftRight => Reading::Blocked(
            occupied_step(occupancy, position, right_of(facing), boundary) || occupied_step(
                occupancy,
                position,
                left_of(facing),
                boundary,
            ),
        ),
        _ => Reading::Unchanged,
    }
}

impl NeuronType {
    /// The movement request of a neuron of this kind on a creature facing
    /// `facing`. Only actuator kinds move.
    pub fn actuation(&self, facing: &Direction) -> (r: Actuation)
        ensures
            r == actuation_of(*self, *facing),
    {
        match self {
            NeuronType::MoveForward => Actuation::Along { direction: *facing, positive_only: true },
            NeuronType::MoveReverse => Actuation::Along {
                direction: facing.rotate_left().rotate_left(),
                positive_only: true,
            },
            NeuronType::MoveLeftRight => Actuation::Along {
                direction: facing.rotate_right(),
                positive_only: false,
            },
            NeuronType::MoveEastWest => Actuation::Along {
                direction: Direction::East,
                positive_only: false,
            },
            NeuronType::MoveNorthSouth => Actuation::Along {
                direction: Direction::North,
                positive_only: false,
            },
            NeuronType::MoveRandom => Actuation::Scatter,
            _ => Actuation::Still,
        }
    }

    /// What a sensor of this kind reports for a creature on `position`
    /// facing `facing` in `world`. Only the implemented sensor kinds report.
    pub fn reading(&self, world: &World, position: &Position, facing: &Direction) -> (r: Reading)
        ensures
            r == reading_of(*self, world@, world.size(), *position, *facing),
    {
        match self {
            NeuronType::Random => Reading::Noise,
            NeuronType::BlockForward => Reading::Blocked(world.block_forward(position, facing)),
            NeuronType::BlockLeftRight => Reading::Blocked(
                world.block_left_right(position, facing),
            ),
            _ => Reading::Unchanged,
        }
    }
}

} // verus!
