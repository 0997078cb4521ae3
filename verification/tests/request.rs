use molcv::error::ArgumentError;
use molcv::request::{prepare, validate_outputs, Request};
use molcv::structure::{Chain, Position, Residue, Structure};

fn structure() -> Structure {
    let atom = Position { x: 1.0f32.to_bits(), y: 2.0f32.to_bits(), z: 3.0f32.to_bits() };
    Structure {
        chains: vec![
            Chain { id: "A".to_string(), residues: vec![Residue { atoms: vec![atom, atom] }] },
            Chain { id: "B".to_string(), residues: vec![Residue { atoms: vec![atom] }] },
        ],
    }
}

fn request(chains: &[&str], cutoffs: &[f32], annotate: bool) -> Request {
    Request {
        chains: chains.iter().map(|id| id.to_string()).collect(),
        cutoffs: cutoffs.iter().map(|cutoff| cutoff.to_bits()).collect(),
        annotate,
    }
}

#[test]
fn two_cutoffs_with_a_single_value_output_are_rejected() {
    assert_eq!(validate_outputs(2, true), Err(ArgumentError::CutoffCountForAnnotation));
    assert_eq!(
        prepare(&structure(), &request(&[], &[5.0, 10.0], true)),
        Err(ArgumentError::CutoffCountForAnnotation)
    );
}

#[test]
fn single_value_output_takes_exactly_one_cutoff() {
    assert_eq!(validate_outputs(0, true), Err(ArgumentError::CutoffCountForAnnotation));
    assert_eq!(validate_outputs(1, true), Ok(()));
    assert_eq!(validate_outputs(3, true), Err(ArgumentError::CutoffCountForAnnotation));
    for cutoff_count in 0..4 {
        assert_eq!(validate_outputs(cutoff_count, false), Ok(()));
    }
}

#[test]
fn unknown_chain_is_reported_by_its_position() {
    assert_eq!(
        prepare(&structure(), &request(&["A", "X", "Y"], &[5.0], false)),
        Err(ArgumentError::UnknownChain { requested: 1 })
    );
}

#[test]
fn unknown_chain_is_reported_before_the_cutoffs() {
    assert_eq!(
        prepare(&structure(), &request(&["X"], &[5.0, 10.0], true)),
        Err(ArgumentError::UnknownChain { requested: 0 })
    );
}

#[test]
fn accepted_request_yields_the_selected_residues() {
    let selection = prepare(&structure(), &request(&["B"], &[5.0], true)).unwrap();
    assert_eq!(selection.residue_atom_counts, vec![1]);
    assert_eq!(
        selection.atoms_data,
        vec![1.0f32.to_bits(), 2.0f32.to_bits(), 3.0f32.to_bits(), 0]
    );
    let selection = prepare(&structure(), &request(&[], &[5.0, 10.0], false)).unwrap();
    assert_eq!(selection.residue_atom_counts, vec![2, 1]);
    assert_eq!(selection.atoms_data.len(), 12);
}
