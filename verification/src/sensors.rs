//! The per-sensor readings that stand for one logical sample.

use vstd::prelude::*;

use crate::outside::draw_between;
use crate::temperature::DEGREE;

verus! {

/// The sum of a sequence of values.
pub open spec fn total(values: Seq<int>) -> int
    decreases values.len(),
{
    if values.len() == 0 {
        0
    } else {
        total(values.drop_last()) + values.last()
    }
}

/// Whether `offset` is a deviation that a sensor may show: at least minus one
/// degree and under one degree.
pub open spec fn valid_offset(offset: int) -> bool {
    -DEGREE <= offset < DEGREE
}

/// The readings of all sensors but the last: the average plus each offset.
pub open spec fn offset_values(average: int, offsets: Seq<int>) -> Seq<int> {
    Seq::new(offsets.len(), |i: int| average + offsets[i])
}

/// The readings of `offsets.len() + 1` sensors around `average`: every sensor
/// but the last deviates by its offset, and the last one makes up for them, so
/// that the mean of all readings is the average.
pub open spec fn sensor_values(average: int, offsets: Seq<int>) -> Seq<int> {
    offset_values(average, offsets).push(
        (offsets.len() + 1) * average - total(offset_values(average, offsets)),
    )
}

/// Whether the readings of `sensors` sensors around `average` are all `i64`.
pub open spec fn readings_fit(average: int, sensors: int) -> bool {
    &&& i64::MIN <= average - (sensors - 1) * DEGREE
    &&& average + (sensors - 1) * DEGREE <= i64::MAX
}

/// The readings of any number of sensors sum to that number times the average.
pub proof fn lemma_sensor_values_average(average: int, offsets: Seq<int>)
    ensures
        sensor_values(average, offsets).len() == offsets.len() + 1,
        total(sensor_values(average, offsets)) == (offsets.len() + 1) * average,
{
    let others = offset_values(average, offsets);
    let all = sensor_values(average, offsets);
    assert(all.drop_last() =~= others);
}

/// The offset readings sum to their number times the average plus the offsets.
pub proof fn lemma_offset_values_total(average: int, offsets: Seq<int>)
    ensures
        total(offset_values(average, offsets)) == offsets.len() * average + total(offsets),
    decreases offsets.len(),
{
    let others = offset_values(average, offsets);
    if offsets.len() == 0 {
    } else {
        lemma_offset_values_total(average, offsets.drop_last());
        assert(others.drop_last() =~= offset_values(average, offsets.drop_last()));
        assert(offsets.len() * average == (offsets.len() - 1) * average + average)
            by (nonlinear_arith);
    }
}

/// A sum of valid offsets is bounded by their number, in degrees.
pub proof fn lemma_offsets_total_bound(offsets: Seq<int>)
    requires
        forall|i: int| 0 <= i < offsets.len() ==> valid_offset(#[trigger] offsets[i]),
    ensures
        -(offsets.len() * DEGREE) <= total(offsets) <= offsets.len() * DEGREE,
    decreases offsets.len(),
{
    if offsets.len() > 0 {
        lemma_offsets_total_bound(offsets.drop_last());
        assert(offsets.len() * DEGREE == (offsets.len() - 1) * DEGREE + DEGREE)
            by (nonlinear_arith);
    }
}

/// The last sensor reads the average less the sum of the other sensors'
/// offsets: it is within a degree of the average for each other sensor.
pub proof fn lemma_last_sensor_balances(average: int, offsets: Seq<int>)
    requires
        forall|i: int| 0 <= i < offsets.len() ==> valid_offset(#[trigger] offsets[i]),
    ensures
        sensor_values(average, offsets)[offsets.len() as int] == average - total(offsets),
        -(offsets.len() * DEGREE) <= sensor_values(average, offsets)[offsets.len() as int]
            - average <= offsets.len() * DEGREE,
{
    lemma_offset_values_total(average, offsets);
    lemma_offsets_total_bound(offsets);
    assert((offsets.len() + 1) * average == offsets.len() * average + average)
        by (nonlinear_arith);
}

/// The offsets as mathematical integers.
pub open spec fn as_ints(offsets: Seq<i64>) -> Seq<int> {
    Seq::new(offsets.len(), |i: int| offsets[i] as int)
}

/// The reading of each sensor for the given offsets: sensor `i` reads
/// `sensor_values(average, offsets)[i]`.
pub fn sensor_temperatures_with<'a>(
    sensors: &'a [String],
    average_temperature: i64,
    offsets: &Vec<i64>,
) -> (readings: Vec<(&'a str, i64)>)
    requires
        sensors.len() >= 1,
        offsets.len() == sensors.len() - 1,
        forall|i: int| 0 <= i < offsets.len() ==> valid_offset(#[trigger] offsets[i] as int),
        readings_fit(average_temperature as int, sensors.len() as int),
    ensures
        readings.len() == sensors.len(),
        forall|i: int|
            0 <= i < readings.len() ==> (#[trigger] readings[i]).0@ == sensors[i]@
                && readings[i].1 == sensor_values(average_temperature as int, as_ints(offsets@))[i],
        total(sensor_values(average_temperature as int, as_ints(offsets@))) == sensors.len()
            * average_temperature,
{
    let ghost ints = as_ints(offsets@);
    let ghost others = offset_values(average_temperature as int, ints);
    let count: usize = sensors.len();
    let mut cumulative_temperature: i128 = 0;
    let mut sensor_events: Vec<(&'a str, i64)> = Vec::new();
    let mut i: usize = 0;
    while i < count - 1
        invariant
            count == sensors.len(),
            count >= 1,
            offsets.len() == count - 1,
            ints == as_ints(offsets@),
            others == offset_values(average_temperature as int, ints),
            forall|j: int| 0 <= j < offsets.len() ==> valid_offset(#[trigger] offsets[j] as int),
            readings_fit(average_temperature as int, count as int),
            0 <= i <= count - 1,
            sensor_events.len() == i,
            cumulative_temperature == total(others.take(i as int)),
            cumulative_temperature == i * average_temperature + total(ints.take(i as int)),
            -(i * DEGREE) <= total(ints.take(i as int)) <= i * DEGREE,
            forall|j: int|
                0 <= j < i ==> (#[trigger] sensor_events[j]).0@ == sensors[j]@
                    && sensor_events[j].1 == others[j],
        decreases count - 1 - i,
    {
        proof {
            assert((count - 1) * DEGREE >= DEGREE) by (nonlinear_arith)
                requires
                    count - 1 >= 1,
            ;
            assert(ints.take(i + 1).drop_last() =~= ints.take(i as int));
            assert(others.take(i + 1).drop_last() =~= others.take(i as int));
            assert((i + 1) * average_temperature == i * average_temperature + average_temperature)
                by (nonlinear_arith);
            assert((i + 1) * DEGREE == i * DEGREE + DEGREE) by (nonlinear_arith);
            assert(i * DEGREE <= (count - 1) * DEGREE) by (nonlinear_arith)
                requires
                    0 <= i <= count - 1,
            ;
            assert(count * i64::MIN <= i * average_temperature <= count * i64::MAX)
                by (nonlinear_arith)
                requires
                    0 <= i <= count,
                    i64::MIN <= average_temperature <= i64::MAX,
            ;
        }
        let sensor_temperature: i64 = average_temperature + offsets[i];
        cumulative_temperature = cumulative_temperature + sensor_temperature as i128;
        sensor_events.push((sensors[i].as_str(), sensor_temperature));
        i = i + 1;
    }
    proof {
        assert(others.take(i as int) =~= others);
        lemma_sensor_values_average(average_temperature as int, ints);
        assert(count * average_temperature == (count - 1) * average_temperature
            + average_temperature) by (nonlinear_arith);
        assert(count * i64::MIN <= count * average_temperature <= count * i64::MAX)
            by (nonlinear_arith)
            requires
                count >= 0,
                i64::MIN <= average_temperature <= i64::MAX,
        ;
    }
    let sensor_temperature: i128 = (count as i128) * (average_temperature as i128)
        - cumulative_temperature;
    sensor_events.push((sensors[count - 1].as_str(), sensor_temperature as i64));
    sensor_events
}

/// Draws `count` offsets at random, each at least minus one degree and under
/// one degree.
pub fn draw_offsets(count: usize) -> (offsets: Vec<i64>)
    ensures
        offsets.len() == count,
        forall|i: int| 0 <= i < offsets.len() ==> valid_offset(#[trigger] offsets[i] as int),
{
    let mut offsets: Vec<i64> = Vec::new();
    let mut i: usize = 0;
    while i < count
        invariant
            i <= count,
            offsets.len() == i,
            forall|j: int| 0 <= j < offsets.len() ==> valid_offset(#[trigger] offsets[j] as int),
        decreases count - i,
    {
        let relative_diff: i64 = draw_between(-DEGREE, DEGREE);
        offsets.push(relative_diff);
        i = i + 1;
    }
    offsets
}

/// Spreads a logical sample over the sensors: every sensor but the last reads
/// the average plus an offset drawn at random, the last one what makes the
/// mean of all readings equal to the average.
pub fn compute_sensor_temperatures<'a>(sensors: &'a [String], average_temperature: i64) -> (readings:
    Vec<(&'a str, i64)>)
    requires
        sensors.len() >= 1,
        readings_fit(average_temperature as int, sensors.len() as int),
    ensures
        readings.len() == sensors.len(),
        exists|offsets: Seq<int>|
            {
                &&& offsets.len() == sensors.len() - 1
                &&& forall|i: int| 0 <= i < offsets.len() ==> valid_offset(#[trigger] offsets[i])
                &&& total(#[trigger] sensor_values(average_temperature as int, offsets))
                    == sensors.len() * average_temperature
                &&& forall|i: int|
                    0 <= i < readings.len() ==> (#[trigger] readings[i]).0@ == sensors[i]@
                        && readings[i].1 == sensor_values(average_temperature as int, offsets)[i]
            },
{
    let offsets = draw_offsets(sensors.len() - 1);
    let readings = sensor_temperatures_with(sensors, average_temperature, &offsets);
    readings
}

} // verus!
