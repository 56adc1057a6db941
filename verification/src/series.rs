//! What a chart of one skill over time is made of: the series of the selected
//! skill, the fixed comparison series, the axis bounds and the axis labels.

use crate::dataset::Dataset;
use crate::labels::{texts, time_labels, time_labels_spec, value_labels, value_labels_spec};
use crate::skills::{name_at, skill_name_spec, Skills, CATALOG_SIZE, COMPARISON_SKILL};
use vstd::prelude::*;
use vstd::string::StringExecFns;

verus! {

/// The points of the skill at `index` over a chronological listing: for each
/// entry its second and the skill's value.
pub open spec fn series_of(listing: Seq<(i64, Skills)>, index: int) -> Seq<(i64, u64)> {
    listing.map_values(|e: (i64, Skills)| (e.0, e.1.value_spec(index)))
}

/// The series of the selected skill, one point per entry of the history,
/// earliest first.
///
/// There is nothing to chart, and so no series, when no skill is selected or
/// the history is empty. A selected index must lie in the catalog.
pub fn extract_series(dataset: &Dataset, selection: Option<usize>) -> (series: Option<
    Vec<(i64, u64)>,
>)
    requires
        selection matches Some(index) ==> index < CATALOG_SIZE,
    ensures
        match series {
            Some(points) => {
                &&& selection is Some
                &&& !dataset@.is_empty()
                &&& points@ == series_of(dataset.listing(), selection.unwrap() as int)
                &&& points@.len() > 0
            },
            None => selection is None || dataset@.is_empty(),
        },
{
    let index = match selection {
        Some(index) => index,
        None => {
            return None;
        },
    };
    if dataset.is_empty() {
        return None;
    }
    let entries = dataset.iter_ordered();
    let mut points: Vec<(i64, u64)> = Vec::new();
    let mut i: usize = 0;
    while i < entries.len()
        invariant
            i <= entries@.len(),
            index < CATALOG_SIZE,
            points@.len() == i,
            forall|j: int|
                0 <= j < i ==> (#[trigger] points@[j]) == (
                    entries@[j].0.secs(),
                    entries@[j].1.value_spec(index as int),
                ),
        decreases entries@.len() - i,
    {
        let (at, skills) = entries[i];
        points.push((at.epoch_seconds(), skills.value_at(index)));
        i += 1;
    }
    assert(points@ =~= series_of(dataset.listing(), index as int));
    Some(points)
}

/// The series that is always charted beside the selected one. It does not
/// depend on the selection.
pub fn comparison_series(dataset: &Dataset) -> (series: Option<Vec<(i64, u64)>>)
    ensures
        match series {
            Some(points) => {
                &&& !dataset@.is_empty()
                &&& points@ == series_of(dataset.listing(), COMPARISON_SKILL as int)
            },
            None => dataset@.is_empty(),
        },
{
    extract_series(dataset, Some(COMPARISON_SKILL))
}

/// The extent of the two axes.
#[derive(Debug, Clone, Copy, PartialEq, Eq, Structural)]
pub struct Bounds {
    pub x_min: i64,
    pub x_max: i64,
    pub y_min: u64,
    pub y_max: u64,
}

/// The bounds of a series: in time from its first point to its last, in value
/// from zero to the value of its last point.
///
/// The last value is the top by design: a skill's value never falls, so the
/// series is taken to rise. The values in between are not looked at.
pub open spec fn bounds_spec(series: Seq<(i64, u64)>) -> Bounds {
    Bounds { x_min: series.first().0, x_max: series.last().0, y_min: 0, y_max: series.last().1 }
}

/// The axis bounds of a series; none for a series without points.
pub fn axis_bounds(series: &Vec<(i64, u64)>) -> (bounds: Option<Bounds>)
    ensures
        match bounds {
            Some(b) => series@.len() > 0 && b == bounds_spec(series@),
            None => series@.len() == 0,
        },
{
    let n = series.len();
    if n == 0 {
        None
    } else {
        let first = series[0];
        let last = series[n - 1];
        Some(Bounds { x_min: first.0, x_max: last.0, y_min: 0, y_max: last.1 })
    }
}

/// A series of one point has bounds that meet in that point: its time at both
/// ends of the time axis, its value at the top of the value axis.
pub proof fn lemma_single_point_bounds(series: Seq<(i64, u64)>)
    requires
        series.len() == 1,
    ensures
        bounds_spec(series).x_min == bounds_spec(series).x_max,
        bounds_spec(series).x_min == series[0].0,
        bounds_spec(series).y_max == series[0].1,
{
}

/// Everything a chart shows.
#[derive(Debug, Clone, PartialEq, Eq)]
pub struct Chart {
    /// The name of the selected skill.
    pub name: String,
    /// The series of the selected skill.
    pub selected: Vec<(i64, u64)>,
    /// The comparison series.
    pub comparison: Vec<(i64, u64)>,
    /// The bounds of both axes, taken from the selected series.
    pub bounds: Bounds,
    /// Three dates: start, middle and end of the time axis.
    pub time_labels: Vec<String>,
    /// Two numbers: bottom and top of the value axis.
    pub value_labels: Vec<String>,
}

/// Whether `chart` is the chart of the skill at `index` over `listing`, which
/// holds at least one entry.
pub open spec fn is_chart_of(chart: Chart, listing: Seq<(i64, Skills)>, index: int) -> bool {
    let selected = series_of(listing, index);
    let bounds = bounds_spec(selected);
    &&& chart.name@ == skill_name_spec(index)
    &&& chart.selected@ == selected
    &&& chart.comparison@ == series_of(listing, COMPARISON_SKILL as int)
    &&& chart.bounds == bounds
    &&& time_labels_spec(bounds.x_min, bounds.x_max) == Some(texts(chart.time_labels@))
    &&& texts(chart.value_labels@) == value_labels_spec(bounds.y_max)
}

/// The chart of the selected skill.
///
/// There is no chart when there is no series to show: no skill selected, or
/// an empty history. Nor is there one where a date of the time axis lies
/// outside of what the calendar can write.
pub fn chart(dataset: &Dataset, selection: Option<usize>) -> (chart: Option<Chart>)
    requires
        selection matches Some(index) ==> index < CATALOG_SIZE,
    ensures
        match chart {
            Some(c) => {
                &&& selection is Some
                &&& !dataset@.is_empty()
                &&& is_chart_of(c, dataset.listing(), selection.unwrap() as int)
            },
            None => {
                ||| selection is None
                ||| dataset@.is_empty()
                ||| {
                    let bounds = bounds_spec(
                        series_of(dataset.listing(), selection.unwrap() as int),
                    );
                    time_labels_spec(bounds.x_min, bounds.x_max) is None
                }
            },
        },
{
    let selected = match extract_series(dataset, selection) {
        Some(points) => points,
        None => {
            return None;
        },
    };
    let comparison = comparison_series(dataset).unwrap();
    let bounds = axis_bounds(&selected).unwrap();
    let name = String::from_str(name_at(selection.unwrap()));
    proof {
        dataset.lemma_listing();
    }
    let time_labels = match time_labels(bounds.x_min, bounds.x_max) {
        Some(labels) => labels,
        None => {
            return None;
        },
    };
    let value_labels = value_labels(bounds.y_max);
    Some(Chart { name, selected, comparison, bounds, time_labels, value_labels })
}

} // verus!
