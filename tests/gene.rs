use biosim::brain::{BrainDescription, NeuronDescription, NeuronLayer};
use biosim::gene::{Gene, GeneError};
use biosim::population::offspring_genes;

fn gene(
    source_layer: NeuronLayer,
    source_number: u8,
    destination_layer: NeuronLayer,
    destination_number: u8,
    weight: i16,
) -> Gene {
    Gene::init(source_layer, source_number, destination_layer, destination_number, weight).unwrap()
}

#[test]
fn should_select_source_type() {
    assert_eq!(
        gene(NeuronLayer::Input, 0, NeuronLayer::Internal, 0, 0).get_source_neuron_layer(),
        NeuronLayer::Input
    );
    assert_eq!(
        gene(NeuronLayer::Internal, 128, NeuronLayer::Internal, 0, 0).get_source_neuron_layer(),
        NeuronLayer::Internal
    );
}

#[test]
fn should_select_destination_type() {
    assert_eq!(
        gene(NeuronLayer::Input, 0, NeuronLayer::Internal, 0, 0).get_destination_neuron_layer(),
        NeuronLayer::Internal
    );
    assert_eq!(
        gene(NeuronLayer::Internal, 128, NeuronLayer::Output, 0, 0).get_destination_neuron_layer(),
        NeuronLayer::Output
    );
}

#[test]
fn should_select_source_neuron() {
    let brain = BrainDescription {
        num_input: 5,
        num_output: 5,
        num_internal: 5,
    };
    assert_eq!(
        gene(NeuronLayer::Input, 0, NeuronLayer::Internal, 0, 0).get_source_neuron(&brain),
        NeuronDescription {
            neuron_layer: NeuronLayer::Input,
            neuron_number: 0
        }
    );
    assert_eq!(
        gene(NeuronLayer::Input, 1, NeuronLayer::Internal, 0, 0).get_source_neuron(&brain),
        NeuronDescription {
            neuron_layer: NeuronLayer::Input,
            neuron_number: 1
        }
    );
    assert_eq!(
        gene(NeuronLayer::Input, 5, NeuronLayer::Internal, 0, 0).get_source_neuron(&brain),
        NeuronDescription {
            neuron_layer: NeuronLayer::Input,
            neuron_number: 0
        }
    );
    assert_eq!(
        gene(NeuronLayer::Internal, 0, NeuronLayer::Internal, 0, 0).get_source_neuron(&brain),
        NeuronDescription {
            neuron_layer: NeuronLayer::Internal,
            neuron_number: 0
        }
    );
    assert_eq!(
        gene(NeuronLayer::Internal, 1, NeuronLayer::Internal, 0, 0).get_source_neuron(&brain),
        NeuronDescription {
            neuron_layer: NeuronLayer::Internal,
            neuron_number: 1
        }
    );
    assert_eq!(
        gene(NeuronLayer::Internal, 5, NeuronLayer::Internal, 0, 0).get_source_neuron(&brain),
        NeuronDescription {
            neuron_layer: NeuronLayer::Internal,
            neuron_number: 0
        }
    );
}

#[test]
fn should_display_correctly() {
    assert_eq!(
        gene(NeuronLayer::Input, 0, NeuronLayer::Internal, 0, 0).to_text(),
        "00000000"
    );
    assert_eq!(
        gene(NeuronLayer::Internal, 127, NeuronLayer::Output, 127, -1).to_text(),
        "FFFFFFFF"
    );
    assert_eq!(
        gene(NeuronLayer::Internal, 127, NeuronLayer::Internal, 0, -1).to_text(),
        "FF00FFFF"
    );
    assert_eq!(
        gene(NeuronLayer::Input, 0, NeuronLayer::Output, 127, -1).to_text(),
        "00FFFFFF"
    );
    assert_eq!(
        gene(NeuronLayer::Internal, 127, NeuronLayer::Output, 127, 0).to_text(),
        "FFFF0000"
    );
}

fn init_and_mutate(bit: u8) -> Gene {
    let mut g = gene(NeuronLayer::Input, 0, NeuronLayer::Internal, 0, 0);
    g.mutate(bit).unwrap();
    g
}

#[test]
fn should_mutate() {
    assert_eq!(init_and_mutate(0).to_text(), "00000001");
    assert_eq!(init_and_mutate(1).to_text(), "00000002");
    assert_eq!(init_and_mutate(2).to_text(), "00000004");
    assert_eq!(init_and_mutate(3).to_text(), "00000008");
    assert_eq!(init_and_mutate(4).to_text(), "00000010");
    assert_eq!(init_and_mutate(31).to_text(), "80000000");
}

#[test]
fn mixed_digits_render_in_upper_case() {
    let g = gene(NeuronLayer::Internal, 0x2a, NeuronLayer::Output, 0x0c, 0x3bd);
    assert_eq!(g.to_text(), "AA8C03BD");
    let g = gene(NeuronLayer::Input, 9, NeuronLayer::Internal, 100, -2);
    assert_eq!(g.to_text(), "0964FFFE");
}

#[test]
fn output_source_is_rejected() {
    assert_eq!(
        Gene::init(NeuronLayer::Output, 0, NeuronLayer::Internal, 0, 0),
        Err(GeneError::InvalidGeneTopology)
    );
}

#[test]
fn input_destination_is_rejected() {
    assert_eq!(
        Gene::init(NeuronLayer::Input, 0, NeuronLayer::Input, 0, 0),
        Err(GeneError::InvalidGeneTopology)
    );
    assert_eq!(
        Gene::init(NeuronLayer::Output, 3, NeuronLayer::Input, 3, 7),
        Err(GeneError::InvalidGeneTopology)
    );
}

#[test]
fn index_keeps_its_low_seven_bits() {
    let g = gene(NeuronLayer::Input, 200, NeuronLayer::Internal, 129, 5);
    assert_eq!(g.get_source_neuron_layer(), NeuronLayer::Input);
    assert_eq!(g.get_destination_neuron_layer(), NeuronLayer::Internal);
    assert_eq!(g.source, 72);
    assert_eq!(g.destination, 1);
}

#[test]
fn decoding_recovers_layers_and_indices() {
    let brain = BrainDescription::init(3);
    let g = gene(NeuronLayer::Internal, 7, NeuronLayer::Output, 4, -300);
    assert_eq!(
        g.get_source_neuron(&brain),
        NeuronDescription {
            neuron_layer: NeuronLayer::Internal,
            neuron_number: 1
        }
    );
    assert_eq!(
        g.get_destination_neuron(&brain),
        NeuronDescription {
            neuron_layer: NeuronLayer::Output,
            neuron_number: 4
        }
    );
    assert_eq!(g.weight, -300);
}

#[test]
fn internal_indices_use_the_internal_count() {
    let brain = BrainDescription {
        num_input: 9,
        num_internal: 2,
        num_output: 6,
    };
    let g = gene(NeuronLayer::Internal, 5, NeuronLayer::Internal, 8, 0);
    assert_eq!(g.get_source_neuron(&brain).neuron_number, 1);
    assert_eq!(g.get_destination_neuron(&brain).neuron_number, 0);
}

#[test]
fn mutating_twice_restores_the_gene() {
    let start = gene(NeuronLayer::Internal, 17, NeuronLayer::Output, 3, -12345);
    for bit in 0..32u8 {
        let mut g = start;
        g.mutate(bit).unwrap();
        assert_ne!(g, start);
        g.mutate(bit).unwrap();
        assert_eq!(g, start);
    }
}

#[test]
fn mutating_high_weight_bit_changes_sign() {
    let mut g = gene(NeuronLayer::Input, 0, NeuronLayer::Internal, 0, 1);
    g.mutate(15).unwrap();
    assert_eq!(g.weight, -32767);
    g.mutate(16).unwrap();
    assert_eq!(g.destination, 1);
    assert_eq!(g.to_text(), "00018001");
}

#[test]
fn out_of_range_bit_is_refused() {
    let start = gene(NeuronLayer::Input, 1, NeuronLayer::Output, 2, 3);
    let mut g = start;
    assert_eq!(g.mutate(32), Err(GeneError::BitIndexOutOfRange));
    assert_eq!(g.mutate(255), Err(GeneError::BitIndexOutOfRange));
    assert_eq!(g, start);
}

#[test]
fn offspring_flip_only_the_drawn_genes() {
    let genes = vec![
        gene(NeuronLayer::Input, 0, NeuronLayer::Internal, 0, 0),
        gene(NeuronLayer::Input, 1, NeuronLayer::Output, 2, 3),
        gene(NeuronLayer::Internal, 4, NeuronLayer::Output, 5, 6),
    ];
    let child = offspring_genes(&genes, &vec![Some(33), None, Some(31)]);
    assert_eq!(child.len(), 3);
    assert_eq!(child[0].to_text(), "00000002");
    assert_eq!(child[1], genes[1]);
    assert_eq!(child[2].to_text(), "04850006");
}

#[test]
fn random_genes_render_as_eight_digits() {
    for _ in 0..20 {
        let g = Gene::init_random();
        let text = g.to_text();
        assert_eq!(text.len(), 8);
        assert_ne!(g.get_source_neuron_layer(), NeuronLayer::Output);
        assert_ne!(g.get_destination_neuron_layer(), NeuronLayer::Input);
    }
}
