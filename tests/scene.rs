use langtons_ant::{find_ants, find_behavior, Color, LibError, Pattern, Scene};

fn positions(scene: &Scene) -> Vec<(i32, i32)> {
    scene.ants().iter().map(|a| a.position()).collect()
}

#[test]
fn classic_ant_on_three_by_three() {
    let mut scene = Scene::init(3, 3, 0, 1).ok().unwrap();
    assert_eq!(positions(&scene), vec![(1, 1)]);
    assert_eq!(scene.field().clone(), vec![vec![0; 3]; 3]);

    scene.work();
    assert_eq!(scene.field()[1][1], 1);
    assert_eq!(positions(&scene), vec![(0, 1)]);
    assert_eq!(scene.loop_count(), 1);

    scene.work();
    assert_eq!(scene.field()[1][0], 1);
    assert_eq!(positions(&scene), vec![(0, 0)]);
    assert_eq!(scene.loop_count(), 2);
    assert_eq!(
        scene.field().clone(),
        vec![vec![0, 0, 0], vec![1, 1, 0], vec![0, 0, 0]]
    );
}

#[test]
fn single_cell_cycles_through_every_condition() {
    let mut scene = Scene::init(1, 1, 1, 1).ok().unwrap();
    let n = scene.indexed_conditions().len();
    assert_eq!(n, 9);
    for k in 1..n {
        scene.work();
        assert_eq!(scene.field()[0][0], k);
        assert_eq!(positions(&scene), vec![(0, 0)]);
    }
    scene.work();
    assert_eq!(scene.field()[0][0], 0);
    assert_eq!(scene.loop_count(), 9);
}

#[test]
fn identical_scenes_stay_identical() {
    let mut a = Scene::init(17, 11, 2, 3).ok().unwrap();
    let mut b = Scene::init(17, 11, 2, 3).ok().unwrap();
    for _ in 0..500 {
        a.work();
        b.work();
        assert_eq!(a.field(), b.field());
        assert_eq!(positions(&a), positions(&b));
        assert_eq!(a.loop_count(), b.loop_count());
    }
}

#[test]
fn cells_and_ants_stay_in_range() {
    for behavior in 0..4u8 {
        let mut scene = Scene::init(13, 7, behavior, 3).ok().unwrap();
        let n = scene.indexed_conditions().len();
        for _ in 0..2000 {
            scene.work();
            assert_eq!(scene.field().len(), 7);
            for row in scene.field() {
                assert_eq!(row.len(), 13);
                assert!(row.iter().all(|&c| c < n));
            }
            for (x, y) in positions(&scene) {
                assert!((0..13).contains(&x));
                assert!((0..7).contains(&y));
            }
        }
        assert_eq!(scene.loop_count(), 2000);
    }
}

#[test]
fn columns_wrap_at_the_width_not_the_height() {
    let mut scene = Scene::init(9, 2, 0, 1).ok().unwrap();
    assert_eq!(positions(&scene), vec![(4, 1)]);
    let mut widest = 0;
    for _ in 0..300 {
        scene.work();
        let (x, y) = positions(&scene)[0];
        assert!((0..9).contains(&x));
        assert!((0..2).contains(&y));
        widest = widest.max(x);
    }
    assert!(widest >= 2);
}

#[test]
fn unknown_behavior_is_refused() {
    assert!(matches!(Scene::init(10, 10, 4, 1), Err(LibError::UnknownBehavior(4))));
    assert!(matches!(Scene::init(10, 10, 255, 0), Err(LibError::UnknownBehavior(255))));
    assert!(matches!(find_behavior(4), Err(LibError::UnknownBehavior(4))));
}

#[test]
fn unknown_agent_count_is_refused() {
    assert!(matches!(Scene::init(10, 10, 0, 0), Err(LibError::UnknownAgentCount(0))));
    assert!(matches!(Scene::init(10, 10, 3, 4), Err(LibError::UnknownAgentCount(4))));
    assert!(matches!(find_ants(7, 10, 10), Err(LibError::UnknownAgentCount(7))));
}

#[test]
fn preset_tables_have_their_sizes() {
    let sizes: Vec<usize> = (0..4u8)
        .map(|id| find_behavior(id).ok().unwrap().len())
        .collect();
    assert_eq!(sizes, vec![2, 9, 12, 12]);
}

#[test]
fn classic_preset_rules_and_colours() {
    let b = find_behavior(0).ok().unwrap();
    assert_eq!(b.lookup(0).pattern(), Pattern::Right);
    assert_eq!(b.lookup(1).pattern(), Pattern::Left);
    assert_eq!(*b.lookup(0).color(), Color { r: 0, g: 0, b: 0 });
    assert_eq!(*b.lookup(1).color(), Color { r: 255, g: 255, b: 255 });
    let last = find_behavior(3).ok().unwrap();
    assert_eq!(last.lookup(11).pattern(), Pattern::Right);
    assert_eq!(*last.lookup(11).color(), Color { r: 0, g: 0, b: 128 });
    assert_eq!(last.lookup(2).pattern(), Pattern::Left);
}

#[test]
fn scene_exposes_its_colour_table() {
    let scene = Scene::init(4, 4, 1, 2).ok().unwrap();
    let table = scene.indexed_conditions();
    assert_eq!(table.len(), 9);
    assert_eq!(*table[1].color(), Color { r: 255, g: 0, b: 0 });
    assert_eq!(*table[8].color(), Color { r: 128, g: 128, b: 128 });
    assert_eq!(table[0].pattern(), Pattern::Left);
}

#[test]
fn ants_start_evenly_spaced_on_the_middle_row() {
    let one = find_ants(1, 40, 20).ok().unwrap();
    assert_eq!(one.iter().map(|a| a.position()).collect::<Vec<_>>(), vec![(20, 10)]);
    let two = find_ants(2, 40, 20).ok().unwrap();
    assert_eq!(
        two.iter().map(|a| a.position()).collect::<Vec<_>>(),
        vec![(13, 10), (26, 10)]
    );
    let three = find_ants(3, 40, 21).ok().unwrap();
    assert_eq!(
        three.iter().map(|a| a.position()).collect::<Vec<_>>(),
        vec![(10, 10), (20, 10), (30, 10)]
    );
}

#[test]
fn ants_move_in_order_within_a_tick() {
    // Two ants on a one-row grid of width 3: both start on row 0, at columns 1 and 2.
    let mut scene = Scene::init(3, 1, 0, 2).ok().unwrap();
    assert_eq!(positions(&scene), vec![(1, 0), (2, 0)]);
    scene.work();
    // First ant reads 0 at column 1: turns right from Down to Left, marks it 1, moves to column 0.
    // Second ant reads 0 at column 2: turns right from Down to Left, marks it 1, moves to column 1.
    assert_eq!(positions(&scene), vec![(0, 0), (1, 0)]);
    assert_eq!(scene.field().clone(), vec![vec![0, 1, 1]]);
    scene.work();
    // First ant reads 0 at column 0: turns right from Left to Up, marks it 1, wraps back to row 0.
    // Second ant reads 1 at column 1: turns left from Left to Down, marks it 0, wraps back to row 0.
    assert_eq!(scene.field().clone(), vec![vec![1, 0, 1]]);
    assert_eq!(positions(&scene), vec![(0, 0), (1, 0)]);
}
