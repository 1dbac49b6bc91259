use radiance::field::Cell;
use radiance::field::FieldError;
use radiance::field::RadianceField;
use radiance::field::SPHERICAL_HARMONIC_WIDTH;

fn cell_with(tag: u32) -> Cell {
    Cell {
        density: tag,
        sh_r: [tag + 1; SPHERICAL_HARMONIC_WIDTH],
        sh_g: [tag + 2; SPHERICAL_HARMONIC_WIDTH],
        sh_b: [tag + 3; SPHERICAL_HARMONIC_WIDTH],
    }
}

fn grid(size: usize) -> RadianceField {
    let volume = size * size * size;
    let cells = (0..volume).map(|i| cell_with(i as u32)).collect();
    RadianceField::new(size, cells).unwrap()
}

#[test]
fn field_new_accepts_exact_cube() {
    let field = grid(3);
    assert_eq!(field.size(), 3);
    assert_eq!(field.cells().len(), 27);
}

#[test]
fn field_new_rejects_wrong_cell_count() {
    let cells = vec![cell_with(0); 7];
    let r = RadianceField::new(2, cells);
    assert_eq!(r.unwrap_err(), FieldError::CellCountMismatch);
}

#[test]
fn field_new_rejects_overflowing_size() {
    let r = RadianceField::new(usize::MAX, Vec::new());
    assert_eq!(r.unwrap_err(), FieldError::CellCountMismatch);
}

#[test]
fn index_of_is_row_major() {
    assert_eq!(RadianceField::index_of(4, [0, 0, 0]), 0);
    assert_eq!(RadianceField::index_of(4, [1, 0, 0]), 1);
    assert_eq!(RadianceField::index_of(4, [0, 1, 0]), 4);
    assert_eq!(RadianceField::index_of(4, [0, 0, 1]), 16);
    assert_eq!(RadianceField::index_of(4, [3, 2, 1]), 3 + 8 + 16);
}

#[test]
fn get_fetches_by_flat_index() {
    let field = grid(3);
    let c = field.get([2, 1, 0]).unwrap();
    assert_eq!(c.density, 5);
    assert!(field.get([3, 0, 0]).is_none());
    assert!(field.get([0, 3, 0]).is_none());
    assert!(field.get([0, 0, 3]).is_none());
}

#[test]
fn set_writes_in_bounds_only() {
    let mut field = grid(2);
    let replacement = cell_with(99);
    assert!(field.set([1, 1, 1], replacement));
    assert_eq!(field.get([1, 1, 1]).unwrap().density, 99);
    assert!(!field.set([2, 0, 0], replacement));
}

#[test]
fn trilinear_gather_orders_the_stencil() {
    let field = grid(3);
    let vals = field.trilinear_gather([0, 1, 0]).unwrap();
    // Entry 0bXYZ is the cell at (0 + X, 1 + Y, 0 + Z) in a 3-wide grid.
    assert_eq!(vals[0].density, field.get([0, 1, 0]).unwrap().density);
    assert_eq!(vals[1].density, field.get([0, 1, 1]).unwrap().density);
    assert_eq!(vals[2].density, field.get([0, 2, 0]).unwrap().density);
    assert_eq!(vals[3].density, field.get([0, 2, 1]).unwrap().density);
    assert_eq!(vals[4].density, field.get([1, 1, 0]).unwrap().density);
    assert_eq!(vals[5].density, field.get([1, 1, 1]).unwrap().density);
    assert_eq!(vals[6].density, field.get([1, 2, 0]).unwrap().density);
    assert_eq!(vals[7].density, field.get([1, 2, 1]).unwrap().density);
}

#[test]
fn trilinear_gather_anchors_on_the_cell_itself() {
    // A grid-aligned sample position anchors the stencil at its own cell:
    // the first stencil entry is exactly that cell.
    let field = grid(4);
    let vals = field.trilinear_gather([2, 1, 2]).unwrap();
    let own = field.get([2, 1, 2]).unwrap();
    assert_eq!(vals[0], *own);
}

#[test]
fn trilinear_gather_refuses_the_border() {
    let field = grid(3);
    assert!(field.trilinear_gather([2, 0, 0]).is_none());
    assert!(field.trilinear_gather([0, 2, 0]).is_none());
    assert!(field.trilinear_gather([0, 0, 2]).is_none());
    let tiny = grid(1);
    assert!(tiny.trilinear_gather([0, 0, 0]).is_none());
}
