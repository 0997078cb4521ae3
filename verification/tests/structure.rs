use molcv::structure::{
    find_unknown_chain, gather, is_chain, is_named, is_selected, Chain, Position, Residue,
    Selection, Structure,
};

fn position(x: f32, y: f32, z: f32) -> Position {
    Position { x: x.to_bits(), y: y.to_bits(), z: z.to_bits() }
}

fn residue(first: usize, atom_count: usize) -> Residue {
    Residue {
        atoms: (first..first + atom_count)
            .map(|atom| position(atom as f32, 0.5, -1.0 * atom as f32))
            .collect(),
    }
}

fn sample() -> Structure {
    Structure {
        chains: vec![
            Chain { id: "A".to_string(), residues: vec![residue(0, 2), residue(2, 1)] },
            Chain { id: "B".to_string(), residues: vec![residue(3, 3)] },
            Chain { id: "C".to_string(), residues: vec![] },
            Chain { id: "A".to_string(), residues: vec![residue(6, 1)] },
        ],
    }
}

fn names(ids: &[&str]) -> Vec<String> {
    ids.iter().map(|id| id.to_string()).collect()
}

fn packed(atoms: &[usize]) -> Vec<u32> {
    atoms
        .iter()
        .flat_map(|&atom| {
            [
                (atom as f32).to_bits(),
                0.5f32.to_bits(),
                (-1.0 * atom as f32).to_bits(),
                0.0f32.to_bits(),
            ]
        })
        .collect()
}

#[test]
fn without_names_every_chain_is_selected() {
    assert!(is_selected(&vec![], &"A".to_string()));
    assert!(is_selected(&vec![], &"".to_string()));
    assert!(!is_named(&vec![], &"A".to_string()));
}

#[test]
fn named_chains_are_selected() {
    let requested = names(&["B", "C"]);
    assert!(is_selected(&requested, &"B".to_string()));
    assert!(is_selected(&requested, &"C".to_string()));
    assert!(!is_selected(&requested, &"A".to_string()));
    assert!(!is_selected(&requested, &"b".to_string()));
    assert!(is_named(&requested, &"C".to_string()));
}

#[test]
fn chains_are_found_by_name() {
    let structure = sample();
    assert!(is_chain(&structure, &"A".to_string()));
    assert!(is_chain(&structure, &"C".to_string()));
    assert!(!is_chain(&structure, &"D".to_string()));
    assert_eq!(find_unknown_chain(&structure, &names(&["A", "B"])), None);
    assert_eq!(find_unknown_chain(&structure, &vec![]), None);
    assert_eq!(find_unknown_chain(&structure, &names(&["A", "X", "Y"])), Some(1));
    assert_eq!(find_unknown_chain(&structure, &names(&["Z"])), Some(0));
}

#[test]
fn all_residues_are_gathered_in_structure_order() {
    let selection = gather(&sample(), &vec![]).unwrap();
    assert_eq!(selection.residue_atom_counts, vec![2, 1, 3, 1]);
    assert_eq!(selection.atoms_data, packed(&[0, 1, 2, 3, 4, 5, 6]));
    assert_eq!(selection.atoms_data.len(), 4 * 7);
}

#[test]
fn only_selected_chains_are_gathered() {
    let selection = gather(&sample(), &names(&["B"])).unwrap();
    assert_eq!(
        selection,
        Selection { residue_atom_counts: vec![3], atoms_data: packed(&[3, 4, 5]) }
    );
    let selection = gather(&sample(), &names(&["A"])).unwrap();
    assert_eq!(selection.residue_atom_counts, vec![2, 1, 1]);
    assert_eq!(selection.atoms_data, packed(&[0, 1, 2, 6]));
    let selection = gather(&sample(), &names(&["C"])).unwrap();
    assert_eq!(selection, Selection { residue_atom_counts: vec![], atoms_data: vec![] });
}

#[test]
fn every_atom_is_padded_with_zero() {
    let structure = Structure {
        chains: vec![Chain {
            id: "A".to_string(),
            residues: vec![Residue { atoms: vec![position(1.5, -2.0, 3.25)] }],
        }],
    };
    let selection = gather(&structure, &vec![]).unwrap();
    assert_eq!(selection.atoms_data, vec![0x3fc0_0000, 0xc000_0000, 0x4050_0000, 0]);
    assert_eq!(selection.residue_atom_counts, vec![1]);
}

#[test]
fn gathered_data_is_accepted_by_the_engine() {
    let selection = gather(&sample(), &names(&["A", "B"])).unwrap();
    let total: u32 = selection.residue_atom_counts.iter().sum();
    assert_eq!(selection.atoms_data.len(), 4 * total as usize);
}
