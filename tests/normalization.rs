use n3rgy_loader::models::{
    construct_influx_measurements, midnight_utc_of, ApiError, Consumption, ConsumptionOrTariff,
    IntervalValue, Price, PriceKind, StandingCharge, StoragePoint, Tariff, TariffValues,
};

const JAN_1_2024: i64 = 1_704_067_200;
const JAN_1_2024_FROM_CE: i32 = 738_886;

fn consumption(resource: &str, values: Vec<IntervalValue>) -> Consumption {
    Consumption {
        resource: resource.to_string(),
        response_timestamp: String::new(),
        start: String::new(),
        end: String::new(),
        granularity: "halfhour".to_string(),
        values,
        message: None,
        unit: "kWh".to_string(),
    }
}

fn tariff(resource: &str, values: Vec<TariffValues>) -> Tariff {
    Tariff {
        resource: resource.to_string(),
        response_timestamp: String::new(),
        start: String::new(),
        end: String::new(),
        values,
    }
}

#[test]
fn midnight_of_new_year_2024() {
    assert_eq!(midnight_utc_of(JAN_1_2024_FROM_CE), JAN_1_2024);
    assert_eq!(midnight_utc_of(719_163), 0);
    assert_eq!(midnight_utc_of(719_162), -86_400);
}

#[test]
fn one_reading_gives_one_consumption_point() {
    let c = consumption(
        "electricity",
        vec![IntervalValue { timestamp: JAN_1_2024, value_bits: 1.23f64.to_bits(), status: None }],
    );
    let points = c.influx_format();
    assert_eq!(points.len(), 1);
    assert_eq!(points[0].time, JAN_1_2024);
    assert_eq!(f64::from_bits(points[0].consumption_bits), 1.23);
    assert_eq!(points[0].measurement, "electricity");
}

#[test]
fn readings_with_status_are_kept_in_order() {
    let values = vec![
        IntervalValue { timestamp: JAN_1_2024, value_bits: 0.5f64.to_bits(), status: None },
        IntervalValue {
            timestamp: JAN_1_2024 + 1800,
            value_bits: 0.75f64.to_bits(),
            status: Some("estimated".to_string()),
        },
        IntervalValue { timestamp: JAN_1_2024 + 3600, value_bits: 0.0f64.to_bits(), status: None },
    ];
    let p = ConsumptionOrTariff::Consumption(consumption("gas", values));
    let points = construct_influx_measurements(&p);
    assert_eq!(points.len(), 3);
    let expected = [(JAN_1_2024, 0.5), (JAN_1_2024 + 1800, 0.75), (JAN_1_2024 + 3600, 0.0)];
    for (point, (t, v)) in points.iter().zip(expected.iter()) {
        match point {
            StoragePoint::Consumption(c) => {
                assert_eq!(c.time, *t);
                assert_eq!(f64::from_bits(c.consumption_bits), *v);
                assert_eq!(c.measurement, "gas");
            }
            StoragePoint::Tariff(_) => panic!("expected a consumption point"),
        }
    }
}

#[test]
fn empty_consumption_gives_no_points() {
    let p = ConsumptionOrTariff::Consumption(consumption("electricity", vec![]));
    assert!(construct_influx_measurements(&p).is_empty());
    assert!(p.error_message().is_none());
}

#[test]
fn tariff_window_with_two_prices_and_one_charge() {
    let w = TariffValues {
        prices: vec![
            Price { timestamp: JAN_1_2024 + 600, value_bits: 21.5f64.to_bits() },
            Price { timestamp: JAN_1_2024 + 1800, value_bits: 22.0f64.to_bits() },
        ],
        standing_charges: vec![StandingCharge {
            start_date: JAN_1_2024_FROM_CE,
            value_bits: 45.1f64.to_bits(),
        }],
    };
    let t = tariff("electricity", vec![w]);
    let points = t.influx_format();
    assert_eq!(points.len(), 3);
    assert_eq!(points[0].price_type, PriceKind::Price);
    assert_eq!(points[0].time, JAN_1_2024 + 600);
    assert_eq!(f64::from_bits(points[0].price_bits), 21.5);
    assert_eq!(points[1].price_type, PriceKind::Price);
    assert_eq!(points[1].time, JAN_1_2024 + 1800);
    assert_eq!(points[2].price_type, PriceKind::StandingCharge);
    assert_eq!(points[2].time, JAN_1_2024);
    assert_eq!(f64::from_bits(points[2].price_bits), 45.1);
    for p in &points {
        assert_eq!(p.measurement, "electricity");
    }
}

#[test]
fn tariff_windows_are_flattened_in_order() {
    let w1 = TariffValues {
        prices: vec![Price { timestamp: 10, value_bits: 1.0f64.to_bits() }],
        standing_charges: vec![StandingCharge { start_date: 719_164, value_bits: 2.0f64.to_bits() }],
    };
    let w2 = TariffValues {
        prices: vec![Price { timestamp: 20, value_bits: 3.0f64.to_bits() }],
        standing_charges: vec![],
    };
    let p = ConsumptionOrTariff::Tariff(tariff("gas", vec![w1, w2]));
    let points = construct_influx_measurements(&p);
    let times: Vec<(i64, PriceKind)> = points
        .iter()
        .map(|p| match p {
            StoragePoint::Tariff(t) => (t.time, t.price_type),
            StoragePoint::Consumption(_) => panic!("expected a tariff point"),
        })
        .collect();
    assert_eq!(
        times,
        vec![(10, PriceKind::Price), (86_400, PriceKind::StandingCharge), (20, PriceKind::Price)]
    );
}

#[test]
fn error_payload_gives_no_points_and_keeps_its_message() {
    let p = ConsumptionOrTariff::Error(ApiError { message: "no data for MPAN".to_string() });
    assert!(construct_influx_measurements(&p).is_empty());
    assert_eq!(p.error_message(), Some("no data for MPAN".to_string()));
}

#[test]
fn normalizing_twice_gives_identical_points() {
    let values = vec![
        IntervalValue { timestamp: JAN_1_2024, value_bits: 0.1f64.to_bits(), status: None },
        IntervalValue { timestamp: JAN_1_2024 + 1800, value_bits: 0.2f64.to_bits(), status: None },
    ];
    let p = ConsumptionOrTariff::Consumption(consumption("electricity", values));
    let a = construct_influx_measurements(&p);
    let b = construct_influx_measurements(&p);
    assert_eq!(format!("{:?}", a), format!("{:?}", b));
}

#[test]
fn price_kind_tags() {
    assert_eq!(PriceKind::Price.tag(), "Price");
    assert_eq!(PriceKind::StandingCharge.tag(), "StandingCharge");
}
