use refx_ui::appearance::{flip_horizontal, plan_flip, Flip, FlipTarget};
use refx_ui::selection::ItemId;

#[test]
fn h_toggles_the_horizontal_mirror_and_keeps_the_vertical_one() {
    assert_eq!(flip_horizontal(Flip::Unflipped), Flip::Horizontal);
    assert_eq!(flip_horizontal(Flip::Horizontal), Flip::Unflipped);
    assert_eq!(flip_horizontal(Flip::Vertical), Flip::Both);
    assert_eq!(flip_horizontal(Flip::Both), Flip::Vertical);
}

#[test]
fn pressing_h_twice_gives_back_the_start() {
    for f in [Flip::Unflipped, Flip::Horizontal, Flip::Vertical, Flip::Both] {
        assert_eq!(flip_horizontal(flip_horizontal(f)), f);
    }
}

#[test]
fn a_value_from_a_newer_version_is_overwritten_only_when_the_user_asks() {
    assert_eq!(flip_horizontal(Flip::Unknown(9)), Flip::Horizontal);
}

#[test]
fn locked_images_are_not_mirrored() {
    let a = ItemId::from_parts(0, 0);
    let b = ItemId::from_parts(1, 0);
    let c = ItemId::from_parts(2, 3);
    let items = vec![
        FlipTarget { id: a, locked: false, flip: Flip::Unflipped },
        FlipTarget { id: b, locked: true, flip: Flip::Unflipped },
        FlipTarget { id: c, locked: false, flip: Flip::Vertical },
    ];
    assert_eq!(plan_flip(&items), vec![(a, Flip::Horizontal), (c, Flip::Both)]);
}
