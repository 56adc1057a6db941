use temple_stats::dataset::Dataset;
use temple_stats::labels::{midpoint, right_align, time_labels, value_labels};
use temple_stats::series::{axis_bounds, chart, comparison_series, extract_series, Bounds};
use temple_stats::skills::Skills;
use temple_stats::timestamp::Timestamp;

fn at(text: &str) -> Timestamp {
    Timestamp::parse(text).unwrap()
}

fn skills(overall: u64, hunter: u32) -> Skills {
    Skills {
        overall,
        attack: 1,
        defence: 2,
        strength: 3,
        hitpoints: 4,
        ranged: 5,
        prayer: 6,
        magic: 7,
        cooking: 8,
        woodcutting: 9,
        fletching: 10,
        fishing: 11,
        firemaking: 12,
        crafting: 13,
        smithing: 14,
        mining: 15,
        herblore: 16,
        agility: 17,
        thieving: 18,
        slayer: 19,
        farming: 20,
        runecraft: 21,
        hunter,
        construction: 23,
        ehp_bits: 0,
    }
}

const T1: &str = "2023-01-01 00:00:00";
const T2: &str = "2023-01-02 00:00:00";
const T3: &str = "2023-01-03 00:00:00";
const T1_EPOCH: i64 = 1672531200;
const T2_EPOCH: i64 = 1672617600;
const T3_EPOCH: i64 = 1672704000;

fn three() -> Dataset {
    let mut dataset = Dataset::new();
    dataset.insert(at(T2), skills(200, 20));
    dataset.insert(at(T3), skills(300, 30));
    dataset.insert(at(T1), skills(100, 10));
    dataset
}

fn as_floats(series: Vec<(i64, u64)>) -> Vec<(f64, f64)> {
    series.into_iter().map(|(x, y)| (x as f64, y as f64)).collect()
}

#[test]
fn extract_series_gives_overall_by_time() {
    let series = extract_series(&three(), Some(0)).unwrap();
    assert_eq!(series, vec![(T1_EPOCH, 100), (T2_EPOCH, 200), (T3_EPOCH, 300)]);
    assert_eq!(
        as_floats(series),
        vec![(T1_EPOCH as f64, 100.0), (T2_EPOCH as f64, 200.0), (T3_EPOCH as f64, 300.0)]
    );
}

#[test]
fn extract_series_follows_the_selected_skill() {
    let dataset = three();
    assert_eq!(
        extract_series(&dataset, Some(1)).unwrap(),
        vec![(T1_EPOCH, 1), (T2_EPOCH, 1), (T3_EPOCH, 1)]
    );
    assert_eq!(
        extract_series(&dataset, Some(22)).unwrap(),
        vec![(T1_EPOCH, 10), (T2_EPOCH, 20), (T3_EPOCH, 30)]
    );
    assert_eq!(
        extract_series(&dataset, Some(23)).unwrap(),
        vec![(T1_EPOCH, 23), (T2_EPOCH, 23), (T3_EPOCH, 23)]
    );
}

#[test]
fn extract_series_of_empty_dataset_is_none() {
    assert_eq!(extract_series(&Dataset::new(), Some(0)), None);
}

#[test]
fn extract_series_without_selection_is_none() {
    assert_eq!(extract_series(&three(), None), None);
    assert_eq!(extract_series(&Dataset::new(), None), None);
}

#[test]
fn comparison_series_is_hunter_whatever_is_selected() {
    let dataset = three();
    let expected = vec![(T1_EPOCH, 10), (T2_EPOCH, 20), (T3_EPOCH, 30)];
    assert_eq!(comparison_series(&dataset), Some(expected.clone()));
    assert_eq!(chart(&dataset, Some(0)).unwrap().comparison, expected);
    assert_eq!(chart(&dataset, Some(5)).unwrap().comparison, expected);
    assert_eq!(comparison_series(&Dataset::new()), None);
}

#[test]
fn axis_bounds_run_from_first_to_last_and_from_zero_to_last_value() {
    let series = extract_series(&three(), Some(0)).unwrap();
    assert_eq!(
        axis_bounds(&series),
        Some(Bounds { x_min: T1_EPOCH, x_max: T3_EPOCH, y_min: 0, y_max: 300 })
    );
}

#[test]
fn axis_bounds_take_the_last_value_not_the_largest() {
    let series = vec![(1, 500), (2, 900), (3, 700)];
    assert_eq!(axis_bounds(&series), Some(Bounds { x_min: 1, x_max: 3, y_min: 0, y_max: 700 }));
}

#[test]
fn axis_bounds_of_single_point_collapse() {
    let mut dataset = Dataset::new();
    dataset.insert(at(T2), skills(200, 20));
    let series = extract_series(&dataset, Some(0)).unwrap();
    assert_eq!(series, vec![(T2_EPOCH, 200)]);
    let bounds = axis_bounds(&series).unwrap();
    assert_eq!(bounds.x_min, bounds.x_max);
    assert_eq!(bounds, Bounds { x_min: T2_EPOCH, x_max: T2_EPOCH, y_min: 0, y_max: 200 });
    let chart = chart(&dataset, Some(0)).unwrap();
    assert_eq!(chart.bounds, bounds);
    assert_eq!(chart.time_labels, vec!["2023-01-02", "2023-01-02", "2023-01-02"]);
}

#[test]
fn axis_bounds_of_no_points_are_none() {
    assert_eq!(axis_bounds(&Vec::new()), None);
}

#[test]
fn midpoint_lies_halfway() {
    assert_eq!(midpoint(0, 10), 5);
    assert_eq!(midpoint(0, 11), 5);
    assert_eq!(midpoint(7, 7), 7);
    assert_eq!(midpoint(-10, 10), 0);
    assert_eq!(midpoint(-11, -4), -8);
    assert_eq!(midpoint(i64::MIN, i64::MAX), -1);
    assert_eq!(midpoint(T1_EPOCH, T3_EPOCH), T2_EPOCH);
}

#[test]
fn time_labels_are_dates_at_start_middle_and_end() {
    assert_eq!(
        time_labels(T1_EPOCH, T3_EPOCH),
        Some(vec!["2023-01-01".to_string(), "2023-01-02".to_string(), "2023-01-03".to_string()])
    );
    assert_eq!(
        time_labels(1672531200, 1673395200),
        Some(vec!["2023-01-01".to_string(), "2023-01-06".to_string(), "2023-01-11".to_string()])
    );
    assert_eq!(
        time_labels(0, 0),
        Some(vec!["1970-01-01".to_string(), "1970-01-01".to_string(), "1970-01-01".to_string()])
    );
}

#[test]
fn time_labels_are_none_outside_the_calendar() {
    assert_eq!(time_labels(i64::MIN, 0), None);
    assert_eq!(time_labels(0, i64::MAX), None);
}

#[test]
fn value_labels_are_zero_and_the_grouped_top() {
    assert_eq!(value_labels(1234567), vec!["            0", "    1,234,567"]);
    assert_eq!(value_labels(0), vec!["            0", "            0"]);
    assert_eq!(value_labels(999), vec!["            0", "          999"]);
    assert_eq!(value_labels(1000), vec!["            0", "        1,000"]);
    assert_eq!(value_labels(1001001), vec!["            0", "    1,001,001"]);
    assert_eq!(value_labels(4_600_000_000), vec!["            0", "4,600,000,000"]);
    assert_eq!(value_labels(10_000_000_000), vec!["            0", "10,000,000,000"]);
    assert_eq!(value_labels(u64::MAX), vec!["            0", "18,446,744,073,709,551,615"]);
}

#[test]
fn right_align_pads_on_the_left() {
    assert_eq!(right_align("abc", 5), "  abc");
    assert_eq!(right_align("abc", 3), "abc");
    assert_eq!(right_align("abcdef", 3), "abcdef");
    assert_eq!(right_align("", 2), "  ");
    assert_eq!(right_align("é", 3), "  é");
    assert_eq!(right_align("x", 0), "x");
}

#[test]
fn chart_holds_series_bounds_and_labels() {
    let chart = chart(&three(), Some(0)).unwrap();
    assert_eq!(chart.name, "Overall");
    assert_eq!(chart.selected, vec![(T1_EPOCH, 100), (T2_EPOCH, 200), (T3_EPOCH, 300)]);
    assert_eq!(chart.comparison, vec![(T1_EPOCH, 10), (T2_EPOCH, 20), (T3_EPOCH, 30)]);
    assert_eq!(chart.bounds, Bounds { x_min: T1_EPOCH, x_max: T3_EPOCH, y_min: 0, y_max: 300 });
    assert_eq!(chart.time_labels, vec!["2023-01-01", "2023-01-02", "2023-01-03"]);
    assert_eq!(chart.value_labels, vec!["            0", "          300"]);
}

#[test]
fn chart_is_named_after_the_selected_skill() {
    assert_eq!(chart(&three(), Some(22)).unwrap().name, "Hunter");
    assert_eq!(chart(&three(), Some(23)).unwrap().name, "Construction");
}

#[test]
fn chart_is_none_without_series() {
    assert_eq!(chart(&Dataset::new(), Some(0)), None);
    assert_eq!(chart(&three(), None), None);
}
