use material_color_utilities::fixed::Fixed;
use material_color_utilities::hct::Hct;
use material_color_utilities::score::{excited, score_of, score_with, ScoredHct};

#[test]
fn scoring_prioritizes_chroma() {
    let colors = vec![(0xff000000, 1), (0xffffffff, 1), (0xff0000ff, 1)];
    let ranked = score_with(&colors, Some(4), None, None);
    assert_eq!(ranked.len(), 1);
    assert_eq!(ranked[0], 0xff0000ff);
}

#[test]
fn scoring_prioritizes_chroma_when_proportions_equal() {
    let colors = vec![(0xffff0000, 1), (0xff00ff00, 1), (0xff0000ff, 1)];
    let ranked = score_with(&colors, Some(4), None, None);
    assert_eq!(ranked.len(), 3);
    assert_eq!(ranked[0], 0xffff0000);
    assert_eq!(ranked[1], 0xff00ff00);
    assert_eq!(ranked[2], 0xff0000ff);
}

#[test]
fn greys_give_the_fallback() {
    let colors = vec![(0xff000000, 7), (0xff777777, 3)];
    assert_eq!(score_with(&colors, None, None, None), vec![0xff4285f4]);
    assert_eq!(score_with(&colors, None, Some(0xff112233), None), vec![0xff112233]);
    assert_eq!(score_with(&Vec::new(), None, None, None), vec![0xff4285f4]);
}

#[test]
fn unfiltered_scoring_keeps_greys() {
    let colors = vec![(0xff777777, 3)];
    assert_eq!(score_with(&colors, Some(4), None, Some(false)), vec![0xff777777]);
}

#[test]
fn no_more_than_desired() {
    let colors = vec![(0xffff0000, 1), (0xff00ff00, 1), (0xff0000ff, 1)];
    assert_eq!(score_with(&colors, Some(2), None, None), vec![0xffff0000, 0xff00ff00]);
    assert_eq!(score_with(&colors, Some(1), None, None), vec![0xffff0000]);
}

#[test]
fn near_hues_are_chosen_once() {
    let colors = vec![(0xffff0000, 5), (0xfffe0000, 5), (0xff0000ff, 1)];
    let ranked = score_with(&colors, Some(2), None, None);
    assert_eq!(ranked.len(), 2);
    assert!(ranked.contains(&0xff0000ff));
}

#[test]
fn shares_spread_over_thirty_degrees() {
    let shares = excited(&vec![(0xffff0000, 1)]);
    assert_eq!(shares.len(), 360);
    let hue = 27;
    assert_eq!(shares[hue], Fixed::from_int(1));
    assert_eq!(shares[hue - 14], Fixed::from_int(1));
    assert_eq!(shares[hue + 15], Fixed::from_int(1));
    assert_eq!(shares[hue + 16], Fixed::from_int(0));
    assert_eq!(shares[(hue + 360 - 15) % 360], Fixed::from_int(0));
}

#[test]
fn score_formula() {
    let red = Hct::from_int(0xffff0000);
    let entry = ScoredHct { hct: red, score: score_of(&red, Fixed::from_int(1)) };
    let chroma = red.chroma().raw as f64 / 1e12;
    let expected = 70.0 + (chroma - 48.0) * 0.3;
    assert!((entry.score.raw as f64 / 1e12 - expected).abs() < 1e-6);
}
