use poke_fighting_rust::Grid2D;

#[test]
fn test_access() {
    let grid = Grid2D::new_with((10, 2), || 1);
    assert_eq!(grid.get((9, 1)), Some(&1));
    assert_eq!(grid.get((1, 9)), None);
}

#[test]
fn grid_get_rejects_column_past_width() {
    let grid = Grid2D::from_cells((3, 2), vec![0, 1, 2, 3, 4, 5]).unwrap();
    assert_eq!(grid.get((2, 0)), Some(&2));
    assert_eq!(grid.get((0, 1)), Some(&3));
    assert_eq!(grid.get((3, 0)), None);
    assert_eq!(grid.get((0, 2)), None);
}

#[test]
fn grid_size_and_count() {
    let grid = Grid2D::new_with((7, 3), || 'a');
    assert_eq!(grid.size(), (7, 3));
    assert_eq!(grid.count(), 21);
}

#[test]
fn grid_from_cells_needs_one_cell_per_location() {
    assert!(Grid2D::from_cells((2, 2), vec![1, 2, 3]).is_none());
    assert!(Grid2D::from_cells((2, 2), vec![1, 2, 3, 4, 5]).is_none());
    assert!(Grid2D::from_cells((0, 5), Vec::<u8>::new()).is_some());
}

#[test]
fn get_pair_mut_same_location_is_none() {
    let mut grid = Grid2D::from_cells((2, 2), vec![1, 2, 3, 4]).unwrap();
    assert!(grid.get_pair_mut((1, 1), (1, 1)).is_none());
    assert!(grid.get_pair_mut((0, 0), (0, 0)).is_none());
}

#[test]
fn get_pair_mut_out_of_bounds_is_none() {
    let mut grid = Grid2D::from_cells((2, 2), vec![1, 2, 3, 4]).unwrap();
    assert!(grid.get_pair_mut((2, 0), (0, 0)).is_none());
    assert!(grid.get_pair_mut((0, 0), (0, 2)).is_none());
}

#[test]
fn get_pair_mut_gives_independent_references() {
    let mut grid = Grid2D::from_cells((2, 2), vec![1, 2, 3, 4]).unwrap();
    {
        let (a, b) = grid.get_pair_mut((1, 1), (0, 0)).unwrap();
        assert_eq!((*a, *b), (4, 1));
        *a = 40;
        assert_eq!(*b, 1);
        *b = 10;
        assert_eq!(*a, 40);
    }
    assert_eq!(grid.get((0, 0)), Some(&10));
    assert_eq!(grid.get((1, 0)), Some(&2));
    assert_eq!(grid.get((0, 1)), Some(&3));
    assert_eq!(grid.get((1, 1)), Some(&40));
}
