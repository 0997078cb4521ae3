use molcv::annotation::annotate;
use molcv::engine::{Engine, Handshake, Step};
use molcv::error::ArgumentError;
use molcv::matrix::ResultMatrix;
use molcv::range::TargetRange;
use molcv::readback::ReadbackEvent;
use molcv::request::{prepare, Request};
use molcv::structure::{Chain, Position, Residue, Structure};

fn residue(atom_count: usize) -> Residue {
    Residue {
        atoms: (0..atom_count)
            .map(|atom| Position { x: (atom as f32).to_bits(), y: 0, z: 0 })
            .collect(),
    }
}

fn two_chains() -> Structure {
    Structure {
        chains: vec![
            Chain { id: "A".to_string(), residues: vec![residue(2), residue(1), residue(3)] },
            Chain { id: "B".to_string(), residues: vec![residue(2), residue(4)] },
        ],
    }
}

fn row(values: &[f32]) -> ResultMatrix {
    let bits: Vec<u32> = values.iter().map(|value| value.to_bits()).collect();
    ResultMatrix::assemble(bits, 1, values.len()).unwrap()
}

#[test]
fn chain_filter_gives_one_row_and_zero_outside_the_chain() {
    let structure = two_chains();
    let request = Request {
        chains: vec!["A".to_string()],
        cutoffs: vec![10.0f32.to_bits()],
        annotate: true,
    };
    let selection = prepare(&structure, &request).unwrap();
    assert_eq!(selection.residue_atom_counts, vec![2, 1, 3]);

    let mut engine = Engine::new(Handshake::Ready).unwrap();
    let step = engine
        .run(
            &selection.residue_atom_counts,
            &selection.atoms_data,
            TargetRange::all(),
            &request.cutoffs,
        )
        .unwrap();
    let submission = match step {
        Step::Submit(submission) => submission,
        Step::Done(_) => panic!("one cutoff was given"),
    };
    assert_eq!((submission.grid.x, submission.grid.y, submission.grid.z), (3, 1, 1));
    assert_eq!(submission.map_bytes, 12);

    let computed = [0.125f32, 0.5, 0.875];
    let bytes: Vec<u8> = computed.iter().flat_map(|value| value.to_le_bytes()).collect();
    let matrix = engine.complete(ReadbackEvent::Mapped(bytes)).unwrap();
    assert_eq!((matrix.rows(), matrix.cols()), (1, 3));

    let values = annotate(&structure, &request.chains, &matrix).unwrap();
    let as_numbers: Vec<Vec<Vec<f32>>> = values
        .iter()
        .map(|chain| {
            chain.iter().map(|atoms| atoms.iter().map(|&bits| f32::from_bits(bits)).collect()).collect()
        })
        .collect();
    assert_eq!(
        as_numbers,
        vec![
            vec![vec![0.125, 0.125], vec![0.5], vec![0.875, 0.875, 0.875]],
            vec![vec![0.0, 0.0], vec![0.0, 0.0, 0.0, 0.0]],
        ]
    );
}

#[test]
fn without_filter_every_residue_has_its_value() {
    let values = annotate(&two_chains(), &vec![], &row(&[1.0, 2.0, 3.0, 4.0, 5.0])).unwrap();
    let one = 1.0f32.to_bits();
    let four = 4.0f32.to_bits();
    let five = 5.0f32.to_bits();
    assert_eq!(values[0][0], vec![one, one]);
    assert_eq!(values[1], vec![vec![four, four], vec![five, five, five, five]]);
}

#[test]
fn second_chain_alone_takes_the_first_values() {
    let values = annotate(&two_chains(), &vec!["B".to_string()], &row(&[7.0, 8.0])).unwrap();
    let seven = 7.0f32.to_bits();
    let eight = 8.0f32.to_bits();
    assert_eq!(values[0], vec![vec![0, 0], vec![0], vec![0, 0, 0]]);
    assert_eq!(values[1], vec![vec![seven, seven], vec![eight, eight, eight, eight]]);
}

#[test]
fn annotation_takes_exactly_one_cutoff() {
    let structure = two_chains();
    let two_rows = ResultMatrix::assemble(vec![0; 10], 2, 5).unwrap();
    assert_eq!(
        annotate(&structure, &vec![], &two_rows),
        Err(ArgumentError::CutoffCountForAnnotation)
    );
    assert_eq!(
        annotate(&structure, &vec![], &ResultMatrix::empty(5)),
        Err(ArgumentError::CutoffCountForAnnotation)
    );
}

#[test]
fn annotation_needs_one_value_for_each_selected_residue() {
    let structure = two_chains();
    assert_eq!(
        annotate(&structure, &vec![], &row(&[1.0, 2.0, 3.0, 4.0])),
        Err(ArgumentError::ResultShapeMismatch)
    );
    assert_eq!(
        annotate(&structure, &vec![], &row(&[1.0, 2.0, 3.0, 4.0, 5.0, 6.0])),
        Err(ArgumentError::ResultShapeMismatch)
    );
    assert_eq!(
        annotate(&structure, &vec!["A".to_string()], &row(&[1.0, 2.0])),
        Err(ArgumentError::ResultShapeMismatch)
    );
    assert_eq!(
        annotate(&structure, &vec!["B".to_string()], &row(&[1.0, 2.0, 3.0])),
        Err(ArgumentError::ResultShapeMismatch)
    );
}

#[test]
fn structure_without_chains_is_annotated_by_an_empty_row() {
    let empty = Structure { chains: vec![] };
    assert_eq!(annotate(&empty, &vec![], &row(&[])), Ok(vec![]));
}
