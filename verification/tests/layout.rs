use molcv::layout::{count_atoms, ResidueEntry, ResidueTable};

#[test]
fn offsets_are_the_prefix_sums_of_the_counts() {
    let counts = [3u32, 0, 5, 1, 7];
    let table = ResidueTable::build(&counts).unwrap();
    assert_eq!(table.residue_count(), 5);
    let mut before = 0u32;
    for (i, &count) in counts.iter().enumerate() {
        let row = table.entry(i).unwrap();
        assert_eq!(row, ResidueEntry { atom_count: count, atom_offset: before });
        before += count;
    }
    assert_eq!(table.entry(5), None);
    let last = table.entry(4).unwrap();
    assert_eq!(last.atom_offset + last.atom_count, 16);
    assert_eq!(table.atom_count(), 16);
}

#[test]
fn table_goes_out_as_count_and_offset_pairs() {
    let table = ResidueTable::build(&[2, 3, 1]).unwrap();
    assert_eq!(table.words(), vec![2, 0, 3, 2, 1, 5]);
    assert_eq!(
        table.encode(),
        vec![2, 0, 0, 0, 0, 0, 0, 0, 3, 0, 0, 0, 2, 0, 0, 0, 1, 0, 0, 0, 5, 0, 0, 0]
    );
}

#[test]
fn structure_without_residues_has_an_empty_table() {
    let table = ResidueTable::build(&[]).unwrap();
    assert_eq!(table.residue_count(), 0);
    assert_eq!(table.atom_count(), 0);
    assert_eq!(table.words(), Vec::<u32>::new());
    assert_eq!(table.encode(), Vec::<u8>::new());
}

#[test]
fn atoms_that_do_not_fit_thirty_two_bits_give_no_table() {
    assert!(ResidueTable::build(&[u32::MAX, 1]).is_none());
    assert!(ResidueTable::build(&[1, u32::MAX, 0]).is_none());
    let table = ResidueTable::build(&[u32::MAX - 1, 1, 0]).unwrap();
    assert_eq!(table.atom_count(), u32::MAX);
    assert_eq!(table.entry(2).unwrap().atom_offset, u32::MAX);
}

#[test]
fn atoms_are_counted_without_wrapping() {
    assert_eq!(count_atoms(&[]), 0);
    assert_eq!(count_atoms(&[10, 5, 20]), 35);
    assert_eq!(count_atoms(&[u32::MAX, u32::MAX, 2]), 2 * (u32::MAX as u128) + 2);
}
