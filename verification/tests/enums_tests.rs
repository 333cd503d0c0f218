use voxrender::enums::{Side, View};

#[test]
fn side_to_str_names() {
    assert_eq!(Side::Top.to_str(), "top");
    assert_eq!(Side::Front.to_str(), "front");
    assert_eq!(Side::Left.to_str(), "left");
    assert_eq!(Side::Right.to_str(), "right");
    assert_eq!(Side::Back.to_str(), "back");
    assert_eq!(Side::Bottom.to_str(), "bottom");
}

#[test]
fn view_to_str_names() {
    assert_eq!(View::Face.to_str(), "face");
    assert_eq!(View::FourtyFive.to_str(), "45");
    assert_eq!(View::FourtyFiveIso.to_str(), "45_iso");
    assert_eq!(View::TwentyTwoPointFive.to_str(), "22.5");
    assert_eq!(View::TwentyTwoPointFiveIso.to_str(), "22.5_iso");
}

#[test]
fn side_all_in_order() {
    let all = Side::all();
    assert_eq!(
        all,
        vec![
            Side::Top,
            Side::Front,
            Side::Left,
            Side::Right,
            Side::Back,
            Side::Bottom
        ]
    );
}

#[test]
fn view_all_in_order() {
    let all = View::all();
    assert_eq!(
        all,
        vec![
            View::Face,
            View::FourtyFive,
            View::FourtyFiveIso,
            View::TwentyTwoPointFive,
            View::TwentyTwoPointFiveIso
        ]
    );
}

#[test]
fn side_from_str_parses_every_name() {
    assert_eq!(Side::from_str("top"), Ok(Side::Top));
    assert_eq!(Side::from_str("front"), Ok(Side::Front));
    assert_eq!(Side::from_str("left"), Ok(Side::Left));
    assert_eq!(Side::from_str("right"), Ok(Side::Right));
    assert_eq!(Side::from_str("back"), Ok(Side::Back));
    assert_eq!(Side::from_str("bottom"), Ok(Side::Bottom));
}

#[test]
fn side_from_str_reports_unknown_token() {
    assert_eq!(Side::from_str("sideways"), Err(String::from("sideways")));
    assert_eq!(Side::from_str(""), Err(String::from("")));
    assert_eq!(Side::from_str("Top"), Err(String::from("Top")));
}

#[test]
fn view_from_str_parses_every_name() {
    assert_eq!(View::from_str("face"), Ok(View::Face));
    assert_eq!(View::from_str("45"), Ok(View::FourtyFive));
    assert_eq!(View::from_str("45 iso"), Ok(View::FourtyFiveIso));
    assert_eq!(View::from_str("22.5"), Ok(View::TwentyTwoPointFive));
    assert_eq!(View::from_str("22.5 iso"), Ok(View::TwentyTwoPointFiveIso));
}

#[test]
fn view_from_str_reports_unknown_token() {
    assert_eq!(View::from_str("60"), Err(String::from("60")));
    // the selection tokens of the oblique views use a space, not the
    // underscore of their file-name form
    assert_eq!(View::from_str("45_iso"), Err(String::from("45_iso")));
}
