use valk::drag::{step_count, DragPathPlanner};

#[test]
fn plan_straight_hundred_pixels() {
    let plan = DragPathPlanner::plan((0, 0), (100, 0));
    assert_eq!(plan, vec![(10, 0); 10]);
}

#[test]
fn plan_same_point_is_one_empty_step() {
    assert_eq!(DragPathPlanner::plan((7, 7), (7, 7)), vec![(0, 0)]);
}

#[test]
fn plan_rounds_count_up_and_steps_toward_zero() {
    assert_eq!(DragPathPlanner::plan((0, 0), (3, 4)), vec![(3, 4)]);
    assert_eq!(DragPathPlanner::plan((0, 0), (0, 101)), vec![(0, 9); 11]);
    assert_eq!(DragPathPlanner::plan((50, 50), (0, 0)), vec![(-6, -6); 8]);
}

#[test]
fn step_count_is_ceiling_of_tenths() {
    assert_eq!(step_count(0, 0), 1);
    assert_eq!(step_count(10, 0), 1);
    assert_eq!(step_count(11, 0), 2);
    assert_eq!(step_count(-30, 40), 5);
    assert_eq!(step_count(4_294_967_295, -4_294_967_295), 607_400_100);
}
