use material_color_utilities::fixed::Fixed;
use material_color_utilities::hct::Hct;
use material_color_utilities::temperature::TemperatureCache;

fn approx(actual: Fixed, expected: f64) -> bool {
    (actual.raw as f64 / 1e12 - expected).abs() <= 0.0005
}

#[test]
fn computes_raw_temperatures_correctly() {
    let blue_temp = TemperatureCache::raw_temperature(Hct::from_int(0xff0000ff));
    assert!(approx(blue_temp, -1.393));

    let red_temp = TemperatureCache::raw_temperature(Hct::from_int(0xffff0000));
    assert!(approx(red_temp, 2.351));

    let green_temp = TemperatureCache::raw_temperature(Hct::from_int(0xff00ff00));
    assert!(approx(green_temp, -0.267));

    let white_temp = TemperatureCache::raw_temperature(Hct::from_int(0xffffffff));
    assert!(approx(white_temp, -0.5));

    let black_temp = TemperatureCache::raw_temperature(Hct::from_int(0xff000000));
    assert!(approx(black_temp, -0.5));
}

#[test]
fn relative_temperature() {
    let blue_temp = TemperatureCache::new(Hct::from_int(0xff0000ff)).input_relative_temperature();
    assert!(approx(blue_temp, 0.0));

    let red_temp = TemperatureCache::new(Hct::from_int(0xffff0000)).input_relative_temperature();
    assert!(approx(red_temp, 1.0));

    let green_temp = TemperatureCache::new(Hct::from_int(0xff00ff00)).input_relative_temperature();
    assert!(approx(green_temp, 0.467));

    let white_temp = TemperatureCache::new(Hct::from_int(0xffffffff)).input_relative_temperature();
    assert!(approx(white_temp, 0.5));

    let black_temp = TemperatureCache::new(Hct::from_int(0x00000000)).input_relative_temperature();
    assert!(approx(black_temp, 0.5));
}

#[test]
fn complement() {
    let blue_complement = TemperatureCache::new(Hct::from_int(0xff0000ff)).complement().to_int();
    assert_eq!(blue_complement, 0xff9d0006);

    let red_complement = TemperatureCache::new(Hct::from_int(0xffff0000)).complement().to_int();
    assert_eq!(red_complement, 0xff007bfc);

    let green_complement = TemperatureCache::new(Hct::from_int(0xff00ff00)).complement().to_int();
    assert_eq!(green_complement, 0xffffd2c9);

    let white_complement = TemperatureCache::new(Hct::from_int(0xffffffff)).complement().to_int();
    assert_eq!(white_complement, 0xffffffff);

    let black_complement = TemperatureCache::new(Hct::from_int(0xff000000)).complement().to_int();
    assert_eq!(black_complement, 0xff000000);
}

#[test]
fn analogous() {
    let blue_analogous = TemperatureCache::new(Hct::from_int(0xff0000ff))
        .analogous()
        .into_iter()
        .map(|hct| hct.to_int())
        .collect::<Vec<_>>();
    assert_eq!(blue_analogous[0], 0xff00590c);
    assert_eq!(blue_analogous[1], 0xff00564e);
    assert_eq!(blue_analogous[2], 0xff0000ff);
    assert_eq!(blue_analogous[3], 0xff6700cc);
    assert_eq!(blue_analogous[4], 0xff81009f);

    let red_analogous = TemperatureCache::new(Hct::from_int(0xffff0000))
        .analogous()
        .into_iter()
        .map(|hct| hct.to_int())
        .collect::<Vec<_>>();
    assert_eq!(red_analogous[0], 0xfff60082);
    assert_eq!(red_analogous[1], 0xfffc004c);
    assert_eq!(red_analogous[2], 0xffff0000);
    assert_eq!(red_analogous[3], 0xffd95500);
    assert_eq!(red_analogous[4], 0xffb07200);

    let green_analogous = TemperatureCache::new(Hct::from_int(0xff00ff00))
        .analogous()
        .into_iter()
        .map(|hct| hct.to_int())
        .collect::<Vec<_>>();
    assert_eq!(green_analogous[0], 0xffcee900);
    assert_eq!(green_analogous[1], 0xff92f500);
    assert_eq!(green_analogous[2], 0xff00ff00);
    assert_eq!(green_analogous[3], 0xff00fd6f);
    assert_eq!(green_analogous[4], 0xff00fab3);

    let black_analogous = TemperatureCache::new(Hct::from_int(0xff000000))
        .analogous()
        .into_iter()
        .map(|hct| hct.to_int())
        .collect::<Vec<_>>();
    assert_eq!(black_analogous[0], 0xff000000);
    assert_eq!(black_analogous[1], 0xff000000);
    assert_eq!(black_analogous[2], 0xff000000);
    assert_eq!(black_analogous[3], 0xff000000);
    assert_eq!(black_analogous[4], 0xff000000);

    let white_analogous = TemperatureCache::new(Hct::from_int(0xffffffff))
        .analogous()
        .into_iter()
        .map(|hct| hct.to_int())
        .collect::<Vec<_>>();
    assert_eq!(white_analogous[0], 0xffffffff);
    assert_eq!(white_analogous[1], 0xffffffff);
    assert_eq!(white_analogous[2], 0xffffffff);
    assert_eq!(white_analogous[3], 0xffffffff);
    assert_eq!(white_analogous[4], 0xffffffff);
}

#[test]
fn colours_by_temperature_run_from_cold_to_warm() {
    let cache = TemperatureCache::new(Hct::from_int(0xff6750a4));
    let by_temp = cache.hcts_by_temp();
    assert_eq!(by_temp.len(), 362);
    let mut last = Fixed { raw: i128::MIN };
    for hct in by_temp {
        let temp = cache.relative_temperature(hct);
        assert!(temp.raw >= last.raw);
        last = temp;
    }
    assert_eq!(cache.relative_temperature(cache.coldest()), Fixed::from_int(0));
    assert_eq!(cache.relative_temperature(cache.warmest()), Fixed::from_int(1));
}

#[test]
fn analogous_with_one_colour_is_the_input() {
    let input = Hct::from_int(0xff6750a4);
    let cache = TemperatureCache::new(input);
    assert_eq!(cache.analogous_with(1, 6), vec![input]);
    assert_eq!(cache.analogous_with(3, 6).len(), 3);
    assert_eq!(cache.analogous_with(3, 6)[1], input);
    assert_eq!(cache.analogous_with(4, 2).len(), 4);
}
