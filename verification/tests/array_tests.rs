use fluid_simulation::index;
use fluid_simulation::Array3D;
use fluid_simulation::Coords;
use fluid_simulation::CoordsDiff;
use fluid_simulation::Fillable;
use fluid_simulation::FlatIndex;
use fluid_simulation::Sized3D;
use fluid_simulation::SizedArray3D;

#[test]
fn index_formula() {
    assert_eq!(index(0, 0, 0, 4, 5, 6), 0);
    assert_eq!(index(1, 2, 3, 4, 5, 6), 1 + 4 * (2 + 5 * 3));
    assert_eq!(index(3, 4, 5, 4, 5, 6), 4 * 5 * 6 - 1);
}

#[test]
fn coords_unit_offsets() {
    assert_eq!(fluid_simulation::coords::ones(), CoordsDiff(1, 1, 1));
    assert_eq!(fluid_simulation::coords::zeros(), CoordsDiff(0, 0, 0));
    assert_eq!(fluid_simulation::coords::x_forw(), CoordsDiff(1, 0, 0));
    assert_eq!(fluid_simulation::coords::y_forw(), CoordsDiff(0, 1, 0));
    assert_eq!(fluid_simulation::coords::z_forw(), CoordsDiff(0, 0, 1));
    assert_eq!(fluid_simulation::coords::x_back(), CoordsDiff(-1, 0, 0));
    assert_eq!(fluid_simulation::coords::y_back(), CoordsDiff(0, -1, 0));
    assert_eq!(fluid_simulation::coords::z_back(), CoordsDiff(0, 0, -1));
    let d: CoordsDiff = (2isize, -3isize, 4isize).into();
    assert_eq!(d, CoordsDiff(2, -3, 4));
}

#[test]
fn coords_add_sub() {
    let c = Coords(4, 5, 6);
    let d = CoordsDiff(1, -2, 3);
    assert_eq!(c.add(d), Coords(5, 3, 9));
    assert_eq!(c.sub(d), Coords(3, 7, 3));
    let e = CoordsDiff(-1, 1, 0);
    assert_eq!(d.add(e), CoordsDiff(0, -1, 3));
    assert_eq!(d.sub(e), CoordsDiff(2, -3, 3));
    assert_eq!(Coords::default(), Coords(0, 0, 0));
}

#[test]
fn array3d_write_then_read() {
    let mut grid: Array3D<f32> = Array3D::new(Coords(3, 3, 3), 0.0);
    assert_eq!(grid.size(), Coords(3, 3, 3));
    *grid.write(&Coords(1, 2, 0)) = 7.5;
    assert_eq!(*grid.read(&Coords(1, 2, 0)), 7.5);
    assert_eq!(*grid.read(&Coords(0, 0, 0)), 0.0);
    assert_eq!(*grid.read(&Coords(2, 2, 2)), 0.0);
}

#[test]
fn array3d_fill_overwrites_everything() {
    let mut grid: Array3D<u32> = Array3D::new(Coords(2, 2, 2), 1);
    *grid.write(&Coords(1, 1, 1)) = 9;
    grid.fill(4);
    assert_eq!(*grid.read(&Coords(1, 1, 1)), 4);
    assert_eq!(*grid.read(&Coords(0, 1, 0)), 4);
    assert_eq!(grid.size(), Coords(2, 2, 2));
}

#[test]
fn array3d_index_round_trip() {
    let grid: Array3D<u8> = Array3D::new(Coords(4, 5, 6), 0);
    for z in 0..6 {
        for y in 0..5 {
            for x in 0..4 {
                let c = Coords(x, y, z);
                let i = grid.to_index(&c);
                assert_eq!(grid.from_index(i), c);
            }
        }
    }
    assert_eq!(grid.to_index(&Coords(1, 2, 3)), 1 + 4 * (2 + 5 * 3));
}

#[test]
fn sized_array3d_write_then_read() {
    let mut grid: SizedArray3D<f32, 3, 3, 3> = SizedArray3D::new(0.0);
    assert_eq!(grid.size(), Coords(3, 3, 3));
    *grid.write(&Coords(0, 0, 0)) = 32.0;
    assert_eq!(*grid.read(&Coords(0, 0, 0)), 32.0);
    assert_eq!(*grid.read(&Coords(1, 0, 0)), 0.0);
}

#[test]
fn sized_array3d_fill_and_index() {
    let mut grid: SizedArray3D<i64, 2, 3, 4> = SizedArray3D::new(-1);
    grid.fill(5);
    assert_eq!(*grid.read(&Coords(1, 2, 3)), 5);
    assert_eq!(grid.to_index(&Coords(1, 2, 3)), 1 + 2 * (2 + 3 * 3));
    assert_eq!(grid.from_index(23), Coords(1, 2, 3));
}
