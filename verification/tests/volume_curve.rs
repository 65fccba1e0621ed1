use qbz::volume_curve::{set_volume_curve, volume_curve, VolumeCurve, VolumeCurveSetting};

#[test]
fn keys_round_trip_and_reject_nonsense() {
    assert_eq!(VolumeCurve::from_key("perceptual"), Some(VolumeCurve::Perceptual));
    assert_eq!(VolumeCurve::from_key("MPD"), Some(VolumeCurve::Perceptual));
    assert_eq!(VolumeCurve::from_key(" linear "), Some(VolumeCurve::Linear));
    assert_eq!(VolumeCurve::from_key("loud"), None);
    assert_eq!(VolumeCurve::Perceptual.as_key(), "perceptual");
    assert_eq!(VolumeCurve::Linear.as_key(), "linear");
}

#[test]
fn other_names_of_the_curves() {
    assert_eq!(VolumeCurve::from_key("Exponential\n"), Some(VolumeCurve::Perceptual));
    assert_eq!(VolumeCurve::from_key("\u{3000}AMPLITUDE"), Some(VolumeCurve::Linear));
    assert_eq!(VolumeCurve::from_key(""), None);
    for curve in [VolumeCurve::Perceptual, VolumeCurve::Linear] {
        assert_eq!(VolumeCurve::from_key(curve.as_key()), Some(curve));
    }
}

#[test]
fn the_curve_in_force_is_the_one_set_last() {
    let mut setting = VolumeCurveSetting::default();
    assert_eq!(volume_curve(&setting), VolumeCurve::default());
    assert_eq!(volume_curve(&setting), VolumeCurve::Perceptual);
    set_volume_curve(&mut setting, VolumeCurve::Linear);
    assert_eq!(volume_curve(&setting), VolumeCurve::Linear);
}
