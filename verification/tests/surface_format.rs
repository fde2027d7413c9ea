use ball_simulation::surface::pick_surface_format;

#[test]
fn first_srgb_format_wins() {
    assert_eq!(pick_surface_format(&vec![false, true, false, true]), 1);
    assert_eq!(pick_surface_format(&vec![true, true]), 0);
}

#[test]
fn falls_back_to_first_format() {
    assert_eq!(pick_surface_format(&vec![false, false, false]), 0);
    assert_eq!(pick_surface_format(&vec![false]), 0);
}
