use vstd::prelude::*;

use crate::window::SECONDS_PER_DAY;

verus! {

/// Day number (counted from 0001-01-01 as day 1) of 1970-01-01.
pub const UNIX_EPOCH_DAY_FROM_CE: i64 = 719163;

/// Which utility commodity the data concerns.
#[derive(Clone, Copy, Debug, PartialEq, Eq, Structural)]
pub enum EnergyType {
    Electricity,
    Gas,
}

/// Whether consumption readings or tariff prices are requested.
#[derive(Clone, Copy, Debug, PartialEq, Eq, Structural)]
pub enum RequestType {
    Consumption,
    Tariff,
}

/// One interval reading of a consumption response.
#[derive(Clone, Debug)]
pub struct IntervalValue {
    /// Start of the interval, Unix seconds (UTC).
    pub timestamp: i64,
    /// Bit pattern of the `f64` reading.
    pub value_bits: u64,
    /// Informational flag of the provider (such as "estimated"); never filtered on.
    pub status: Option<String>,
}

/// A consumption response: interval readings of one resource.
#[derive(Clone, Debug)]
pub struct Consumption {
    pub resource: String,
    pub response_timestamp: String,
    pub start: String,
    pub end: String,
    pub granularity: String,
    pub values: Vec<IntervalValue>,
    pub message: Option<String>,
    pub unit: String,
}

/// A unit price that applies from a given instant.
#[derive(Clone, Debug)]
pub struct Price {
    /// Unix seconds (UTC).
    pub timestamp: i64,
    /// Bit pattern of the `f64` price.
    pub value_bits: u64,
}

/// A daily standing charge that applies from a calendar date.
#[derive(Clone, Debug)]
pub struct StandingCharge {
    /// The effective date, as its day number counted from 0001-01-01 (day 1).
    pub start_date: i32,
    /// Bit pattern of the `f64` charge.
    pub value_bits: u64,
}

/// One tariff window: its prices and its standing charges.
#[derive(Clone, Debug)]
pub struct TariffValues {
    pub standing_charges: Vec<StandingCharge>,
    pub prices: Vec<Price>,
}

/// A tariff response: tariff windows of one resource.
#[derive(Clone, Debug)]
pub struct Tariff {
    pub resource: String,
    pub response_timestamp: String,
    pub start: String,
    pub end: String,
    pub values: Vec<TariffValues>,
}

/// An error reported by the API, or a body that could not be read.
#[derive(Clone, Debug)]
pub struct ApiError {
    pub message: String,
}

/// One response of the API, of one of its three shapes.
#[derive(Clone, Debug)]
pub enum ConsumptionOrTariff {
    Consumption(Consumption),
    Tariff(Tariff),
    Error(ApiError),
}

/// Whether a tariff point is a unit price or a standing charge.
#[derive(Clone, Copy, Debug, PartialEq, Eq, Structural)]
pub enum PriceKind {
    Price,
    StandingCharge,
}

impl PriceKind {
    /// The tag value under which points of this kind are stored.
    pub fn tag(&self) -> (r: &'static str)
        ensures
            *self == PriceKind::Price ==> r@ == "Price"@,
            *self == PriceKind::StandingCharge ==> r@ == "StandingCharge"@,
    {
        match self {
            PriceKind::Price => "Price",
            PriceKind::StandingCharge => "StandingCharge",
        }
    }
}

/// A stored consumption point.
#[derive(Clone, Debug)]
pub struct ConsumptionReading {
    /// Unix seconds (UTC).
    pub time: i64,
    /// Bit pattern of the `f64` reading.
    pub consumption_bits: u64,
    /// The resource the reading belongs to.
    pub measurement: String,
}

/// A stored tariff point.
#[derive(Clone, Debug)]
pub struct TariffPrice {
    /// Unix seconds (UTC).
    pub time: i64,
    /// Bit pattern of the `f64` price.
    pub price_bits: u64,
    /// The resource the price belongs to.
    pub measurement: String,
    pub price_type: PriceKind,
}

/// A stored point of either shape.
#[derive(Clone, Debug)]
pub enum StoragePoint {
    Consumption(ConsumptionReading),
    Tariff(TariffPrice),
}

/// Mathematical form of a consumption point: time, reading, measurement tag.
pub type ConsumptionPointView = (int, u64, Seq<char>);

/// Mathematical form of a tariff point: time, price, measurement tag, kind.
pub type TariffPointView = (int, u64, Seq<char>, PriceKind);

/// Mathematical form of a stored point.
pub enum PointView {
    Consumption(ConsumptionPointView),
    Tariff(TariffPointView),
}

impl View for ConsumptionReading {
    type V = ConsumptionPointView;

    open spec fn view(&self) -> ConsumptionPointView {
        (self.time as int, self.consumption_bits, self.measurement@)
    }
}

impl View for TariffPrice {
    type V = TariffPointView;

    open spec fn view(&self) -> TariffPointView {
        (self.time as int, self.price_bits, self.measurement@, self.price_type)
    }
}

impl View for StoragePoint {
    type V = PointView;

    open spec fn view(&self) -> PointView {
        match self {
            StoragePoint::Consumption(c) => PointView::Consumption(c@),
            StoragePoint::Tariff(t) => PointView::Tariff(t@),
        }
    }
}

/// The mathematical forms of a sequence of consumption points.
pub open spec fn consumption_views(s: Seq<ConsumptionReading>) -> Seq<ConsumptionPointView> {
    s.map_values(|x: ConsumptionReading| x@)
}

/// The mathematical forms of a sequence of tariff points.
pub open spec fn tariff_views(s: Seq<TariffPrice>) -> Seq<TariffPointView> {
    s.map_values(|x: TariffPrice| x@)
}

/// The mathematical forms of a sequence of stored points.
pub open spec fn point_views(s: Seq<StoragePoint>) -> Seq<PointView> {
    s.map_values(|x: StoragePoint| x@)
}

/// Unix seconds of midnight UTC at the start of day `day` (counted from 0001-01-01 as day 1).
pub open spec fn midnight_utc(day: int) -> int {
    (day - UNIX_EPOCH_DAY_FROM_CE) * 86400
}

/// The points of a consumption response: one per reading, in order.
pub open spec fn consumption_points(resource: Seq<char>, values: Seq<IntervalValue>) -> Seq<
    ConsumptionPointView,
> {
    values.map_values(|v: IntervalValue| (v.timestamp as int, v.value_bits, resource))
}

/// The points of one tariff window: its prices, then its standing charges.
pub open spec fn window_points(resource: Seq<char>, w: TariffValues) -> Seq<TariffPointView> {
    w.prices@.map_values(|p: Price| (p.timestamp as int, p.value_bits, resource, PriceKind::Price))
        + w.standing_charges@.map_values(
        |c: StandingCharge|
            (midnight_utc(c.start_date as int), c.value_bits, resource, PriceKind::StandingCharge),
    )
}

/// The points of a tariff response: those of each window, window after window.
pub open spec fn tariff_points(resource: Seq<char>, ws: Seq<TariffValues>) -> Seq<TariffPointView>
    decreases ws.len(),
{
    if ws.len() == 0 {
        Seq::empty()
    } else {
        tariff_points(resource, ws.drop_last()) + window_points(resource, ws.last())
    }
}

/// The stored points that a response turns into.
pub open spec fn points_of(p: ConsumptionOrTariff) -> Seq<PointView> {
    match p {
        ConsumptionOrTariff::Consumption(c) => consumption_points(c.resource@, c.values@).map_values(
            |v: ConsumptionPointView| PointView::Consumption(v),
        ),
        ConsumptionOrTariff::Tariff(t) => tariff_points(t.resource@, t.values@).map_values(
            |v: TariffPointView| PointView::Tariff(v),
        ),
        ConsumptionOrTariff::Error(_) => Seq::empty(),
    }
}

/// Unix seconds of midnight UTC at the start of day `day` (counted from 0001-01-01 as day 1).
pub fn midnight_utc_of(day: i32) -> (r: i64)
    ensures
        r == midnight_utc(day as int),
{
    (day as i64 - UNIX_EPOCH_DAY_FROM_CE) * SECONDS_PER_DAY
}

impl Consumption {
    /// One point per interval reading, in order, tagged with the response's resource.
    pub fn influx_format(&self) -> (r: Vec<ConsumptionReading>)
        ensures
            consumption_views(r@) == consumption_points(
                self.resource@,
                self.values@,
            ),
    {
        let mut readings: Vec<ConsumptionReading> = Vec::new();
        let mut i: usize = 0;
        while i < self.values.len()
            invariant
                i <= self.values@.len(),
                readings@.len() == i,
                forall|j: int|
                    0 <= j < i ==> (#[trigger] readings@[j])@ == consumption_points(
                        self.resource@,
                        self.values@,
                    )[j],
            decreases self.values@.len() - i,
        {
            let v = &self.values[i];
            readings.push(
                ConsumptionReading {
                    time: v.timestamp,
                    consumption_bits: v.value_bits,
                    measurement: self.resource.clone(),
                },
            );
            i = i + 1;
        }
        assert(consumption_views(readings@) =~= consumption_points(
            self.resource@,
            self.values@,
        ));
        readings
    }
}

/// Appends the points of one tariff window to `out`: its prices, then its standing charges.
fn push_window_points(out: &mut Vec<TariffPrice>, resource: &String, w: &TariffValues)
    ensures
        tariff_views(final(out)@) == tariff_views(old(out)@)
            + window_points(resource@, *w),
{
    let ghost start = tariff_views(old(out)@);
    let ghost target = window_points(resource@, *w);
    let np = w.prices.len();
    let mut i: usize = 0;
    while i < np
        invariant
            np == w.prices@.len(),
            i <= np,
            target == window_points(resource@, *w),
            out@.len() == start.len() + i,
            forall|j: int| 0 <= j < start.len() ==> (#[trigger] out@[j])@ == start[j],
            forall|j: int| 0 <= j < i ==> (#[trigger] out@[start.len() + j])@ == target[j],
        decreases np - i,
    {
        let p = &w.prices[i];
        out.push(
            TariffPrice {
                time: p.timestamp,
                price_bits: p.value_bits,
                measurement: resource.clone(),
                price_type: PriceKind::Price,
            },
        );
        i = i + 1;
    }
    let nc = w.standing_charges.len();
    let mut k: usize = 0;
    while k < nc
        invariant
            np == w.prices@.len(),
            nc == w.standing_charges@.len(),
            k <= nc,
            target == window_points(resource@, *w),
            out@.len() == start.len() + np + k,
            forall|j: int| 0 <= j < start.len() ==> (#[trigger] out@[j])@ == start[j],
            forall|j: int| 0 <= j < np + k ==> (#[trigger] out@[start.len() + j])@ == target[j],
        decreases nc - k,
    {
        let c = &w.standing_charges[k];
        out.push(
            TariffPrice {
                time: midnight_utc_of(c.start_date),
                price_bits: c.value_bits,
                measurement: resource.clone(),
                price_type: PriceKind::StandingCharge,
            },
        );
        k = k + 1;
    }
    assert forall|j: int| 0 <= j < out@.len() implies (#[trigger] tariff_views(out@)[j]) == (start + target)[j] by {
        if j >= start.len() {
            assert(out@[start.len() + (j - start.len())] == out@[j]);
        }
    }
    assert(tariff_views(out@) =~= start + target);
}

impl Tariff {
    /// For each tariff window in order, one point per price and then one per standing
    /// charge (at midnight UTC of its date), all tagged with the response's resource.
    pub fn influx_format(&self) -> (r: Vec<TariffPrice>)
        ensures
            tariff_views(r@) == tariff_points(self.resource@, self.values@),
    {
        let mut readings: Vec<TariffPrice> = Vec::new();
        let mut i: usize = 0;
        while i < self.values.len()
            invariant
                i <= self.values@.len(),
                tariff_views(readings@) == tariff_points(
                    self.resource@,
                    self.values@.subrange(0, i as int),
                ),
            decreases self.values@.len() - i,
        {
            push_window_points(&mut readings, &self.resource, &self.values[i]);
            proof {
                let ws = self.values@.subrange(0, i + 1);
                assert(ws.drop_last() =~= self.values@.subrange(0, i as int));
                assert(ws.last() == self.values@[i as int]);
            }
            i = i + 1;
        }
        assert(self.values@.subrange(0, i as int) =~= self.values@);
        readings
    }
}

impl ConsumptionOrTariff {
    /// The message of an error response; `None` for the other shapes.
    pub fn error_message(&self) -> (r: Option<String>)
        ensures
            match self {
                ConsumptionOrTariff::Error(e) => r matches Some(m) && m@ == e.message@,
                _ => r is None,
            },
    {
        match self {
            ConsumptionOrTariff::Error(e) => Some(e.message.clone()),
            _ => None,
        }
    }
}

/// A consumption response with N readings gives exactly N consumption points, the
/// i-th carrying the i-th reading's timestamp and value and the response's resource
/// as its measurement tag.
pub proof fn lemma_consumption_point_per_reading(p: ConsumptionOrTariff)
    requires
        p is Consumption,
    ensures
        points_of(p).len() == p->Consumption_0.values@.len(),
        forall|i: int|
            0 <= i < points_of(p).len() ==> #[trigger] points_of(p)[i] == PointView::Consumption(
                (
                    p->Consumption_0.values@[i].timestamp as int,
                    p->Consumption_0.values@[i].value_bits,
                    p->Consumption_0.resource@,
                ),
            ),
{
}

/// A tariff window gives one point per price and one per standing charge: first its
/// prices, each of kind `Price` at the price's timestamp, then its standing charges,
/// each of kind `StandingCharge` at midnight UTC of its effective date; all carry the
/// resource as measurement tag.
pub proof fn lemma_window_point_kinds(resource: Seq<char>, w: TariffValues)
    ensures
        window_points(resource, w).len() == w.prices@.len() + w.standing_charges@.len(),
        forall|i: int|
            0 <= i < w.prices@.len() ==> #[trigger] window_points(resource, w)[i] == (
                w.prices@[i].timestamp as int,
                w.prices@[i].value_bits,
                resource,
                PriceKind::Price,
            ),
        forall|i: int|
            0 <= i < w.standing_charges@.len() ==> #[trigger] window_points(resource, w)[w.prices@.len()
                + i] == (
                midnight_utc(w.standing_charges@[i].start_date as int),
                w.standing_charges@[i].value_bits,
                resource,
                PriceKind::StandingCharge,
            ),
{
}

/// An error response gives no point (its message is read with `error_message`).
pub proof fn lemma_error_gives_no_points(p: ConsumptionOrTariff)
    requires
        p is Error,
    ensures
        points_of(p).len() == 0,
{
}

/// Normalization is a function of the response alone: the same response always
/// gives the same points.
pub proof fn lemma_normalize_deterministic(p1: ConsumptionOrTariff, p2: ConsumptionOrTariff)
    requires
        p1 == p2,
    ensures
        points_of(p1) == points_of(p2),
{
}

/// The stored points of a response: its readings, or its prices and standing
/// charges, in order; none for an error response.
pub fn construct_influx_measurements(parsed_messages: &ConsumptionOrTariff) -> (r: Vec<
    StoragePoint,
>)
    ensures
        point_views(r@) == points_of(*parsed_messages),
{
    let mut points: Vec<StoragePoint> = Vec::new();
    match parsed_messages {
        ConsumptionOrTariff::Consumption(c) => {
            let readings = c.influx_format();
            let ghost cv = consumption_views(readings@);
            let mut i: usize = 0;
            while i < readings.len()
                invariant
                    i <= readings@.len(),
                    cv == consumption_views(readings@),
                    points@.len() == i,
                    forall|j: int|
                        0 <= j < i ==> (#[trigger] points@[j])@ == PointView::Consumption(cv[j]),
                decreases readings@.len() - i,
            {
                let x = &readings[i];
                points.push(
                    StoragePoint::Consumption(
                        ConsumptionReading {
                            time: x.time,
                            consumption_bits: x.consumption_bits,
                            measurement: x.measurement.clone(),
                        },
                    ),
                );
                proof {
                    assert(readings@[i as int]@ == cv[i as int]);
                }
                i = i + 1;
            }
            assert(point_views(points@) =~= points_of(*parsed_messages));
        },
        ConsumptionOrTariff::Tariff(t) => {
            let prices = t.influx_format();
            let ghost tv = tariff_views(prices@);
            let mut i: usize = 0;
            while i < prices.len()
                invariant
                    i <= prices@.len(),
                    tv == tariff_views(prices@),
                    points@.len() == i,
                    forall|j: int| 0 <= j < i ==> (#[trigger] points@[j])@ == PointView::Tariff(tv[j]),
                decreases prices@.len() - i,
            {
                let x = &prices[i];
                points.push(
                    StoragePoint::Tariff(
                        TariffPrice {
                            time: x.time,
                            price_bits: x.price_bits,
                            measurement: x.measurement.clone(),
                            price_type: x.price_type,
                        },
                    ),
                );
                proof {
                    assert(prices@[i as int]@ == tv[i as int]);
                }
                i = i + 1;
            }
            assert(point_views(points@) =~= points_of(*parsed_messages));
        },
        ConsumptionOrTariff::Error(_) => {
            assert(point_views(points@) =~= points_of(*parsed_messages));
        },
    }
    points
}

} // verus!
