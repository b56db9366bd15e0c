use fluid_simulation::iterator::iterate;
use fluid_simulation::iterator::iterate_range;
use fluid_simulation::Coords;

#[test]
fn iterator_test() {
    let vec1: Vec<Coords> = iterate((1, 1, 1).into());
    assert_eq!(vec1, vec![(0, 0, 0).into()]);
    let vec2: Vec<Coords> = iterate((1, 1, 2).into());
    assert_eq!(vec2, vec![(0, 0, 0).into(), (0, 0, 1).into()]);
    let vec3: Vec<Coords> = iterate((1, 2, 1).into());
    assert_eq!(vec3, vec![(0, 0, 0).into(), (0, 1, 0).into()]);
    let vec4: Vec<Coords> = iterate((2, 1, 1).into());
    assert_eq!(vec4, vec![(0, 0, 0).into(), (1, 0, 0).into()]);
    let vec5: Vec<Coords> = iterate((3, 3, 3).into());
    let vec5_t = vec![
        (0, 0, 0).into(),
        (1, 0, 0).into(),
        (2, 0, 0).into(),
        (0, 1, 0).into(),
        (1, 1, 0).into(),
        (2, 1, 0).into(),
        (0, 2, 0).into(),
        (1, 2, 0).into(),
        (2, 2, 0).into(),
        (0, 0, 1).into(),
        (1, 0, 1).into(),
        (2, 0, 1).into(),
        (0, 1, 1).into(),
        (1, 1, 1).into(),
        (2, 1, 1).into(),
        (0, 2, 1).into(),
        (1, 2, 1).into(),
        (2, 2, 1).into(),
        (0, 0, 2).into(),
        (1, 0, 2).into(),
        (2, 0, 2).into(),
        (0, 1, 2).into(),
        (1, 1, 2).into(),
        (2, 1, 2).into(),
        (0, 2, 2).into(),
        (1, 2, 2).into(),
        (2, 2, 2).into(),
    ];
    assert_eq!(vec5, vec5_t);
}

#[test]
fn iterator_order_landmarks() {
    let cells = iterate(Coords(3, 3, 3));
    assert_eq!(cells.len(), 27);
    assert_eq!(cells[0], Coords(0, 0, 0));
    assert_eq!(cells[2], Coords(2, 0, 0));
    assert_eq!(cells[3], Coords(0, 1, 0));
    assert_eq!(cells[9], Coords(0, 0, 1));
    assert_eq!(cells[26], Coords(2, 2, 2));
}

#[test]
fn iterator_empty_on_zero_axis() {
    assert_eq!(iterate(Coords(0, 5, 5)).len(), 0);
    assert_eq!(iterate(Coords(5, 0, 5)).len(), 0);
    assert_eq!(iterate(Coords(5, 5, 0)).len(), 0);
}

#[test]
fn iterator_range_box() {
    let cells = iterate_range(Coords(1, 1, 1), Coords(3, 3, 3));
    assert_eq!(cells.len(), 8);
    assert_eq!(
        cells,
        vec![
            Coords(1, 1, 1),
            Coords(2, 1, 1),
            Coords(1, 2, 1),
            Coords(2, 2, 1),
            Coords(1, 1, 2),
            Coords(2, 1, 2),
            Coords(1, 2, 2),
            Coords(2, 2, 2),
        ]
    );
}

#[test]
fn iterator_range_empty_box() {
    let cells = iterate_range(Coords(2, 2, 2), Coords(2, 5, 5));
    assert_eq!(cells.len(), 0);
}
