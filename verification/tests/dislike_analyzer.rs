use material_color_utilities::dislike_analyzer::{fix_if_disliked, is_disliked};
use material_color_utilities::fixed::Fixed;
use material_color_utilities::hct::Hct;

#[test]
fn likes_monk_skin_tone_scale_colors() {
    let monk_skin_tone_scale_colors: [u32; 10] = [
        0xfff6ede4, 0xfff3e7db, 0xfff7ead0, 0xffeadaba, 0xffd7bd96, 0xffa07e56, 0xff825c43,
        0xff604134, 0xff3a312a, 0xff292420,
    ];
    for color in monk_skin_tone_scale_colors {
        assert!(!is_disliked(&Hct::from_int(color)));
    }
}

#[test]
fn dislikes_bile_colors() {
    let unlikable: [u32; 5] = [0xff95884b, 0xff716b40, 0xffb08e00, 0xff4c4308, 0xff464521];
    for color in unlikable {
        assert!(is_disliked(&Hct::from_int(color)));
    }
}

#[test]
fn makes_bile_colors_likable() {
    let unlikable: [u32; 5] = [0xff95884b, 0xff716b40, 0xffb08e00, 0xff4c4308, 0xff464521];
    for color in unlikable {
        let hct = Hct::from_int(color);
        assert!(is_disliked(&hct));
        let likable = fix_if_disliked(hct);
        assert!(!is_disliked(&likable));
    }
}

#[test]
fn fixing_twice_is_fixing_once() {
    let colors: [u32; 8] = [
        0xff95884b, 0xff716b40, 0xffb08e00, 0xff4c4308, 0xff464521, 0xff6750a4, 0xffff0000,
        0xfff6ede4,
    ];
    for color in colors {
        let once = fix_if_disliked(Hct::from_int(color));
        assert_eq!(fix_if_disliked(once), once);
    }
}

#[test]
fn tone_67_is_not_disliked() {
    let color = Hct::from(Fixed::from_int(100), Fixed::from_int(50), Fixed::from_int(67));
    assert!(!is_disliked(&color));
    assert_eq!(fix_if_disliked(color), color);
}
