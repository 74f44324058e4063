//! What the charts of the web monitor draw.

use vstd::prelude::*;

use super::loss::{finite_losses, positive_throughputs, LossPoint};
use super::web::{
    blanks, draws_line, is_loss_chart, is_throughput_chart, labels_text, line_of, points_on, AxisLabel,
    Chart, LOSS_END, NOT_ENOUGH_LOSS, NOT_ENOUGH_TPS, POLYLINE, TPS_END, WAITING_HTML,
};
use crate::text::{filled, mentions, views};

verus! {

/// Blanks are counted one by one.
pub proof fn law_blanks_are_counted(s: Seq<char>, c: char)
    ensures
        blanks(Seq::<char>::empty()) == 0,
        blanks(s.push(' ')) == blanks(s) + 1,
        c != ' ' ==> blanks(s.push(c)) == blanks(s),
        points_on(s) == blanks(s) + 1,
{
    assert(s.push(' ').drop_last() =~= s);
    assert(s.push(c).drop_last() =~= s);
}

/// A line goes on to a further point behind a blank, and begins with its first.
pub proof fn law_lines_go_from_point_to_point(before: Chart, after: Chart, point: String)
    requires
        after.points@ == before.points@.push(point),
    ensures
        before.points@.len() == 0 ==> line_of(after) == point@,
        before.points@.len() > 0 ==> line_of(after) == line_of(before) + " "@ + point@,
{
    let a = views(after.points@);
    let b = views(before.points@);
    assert(a.drop_last() =~= b);
    assert(a.last() == point@);
    if before.points@.len() == 0 {
        assert(a.len() == 1);
        assert(a[0] == point@);
    }
}

/// Labels are written one behind the other, each with its place and its words.
pub proof fn law_labels_follow_each_other(template: Seq<char>, labels: Seq<AxisLabel>, l: AxisLabel)
    ensures
        labels_text(template, Seq::<AxisLabel>::empty()) == Seq::<char>::empty(),
        labels_text(template, labels.push(l)) == labels_text(template, labels) + filled(
            template,
            seq![l.at@, l.says@],
        ),
{
    let f = |l: AxisLabel| filled(template, seq![l.at@, l.says@]);
    assert(labels.push(l).map_values(f).drop_last() =~= labels.map_values(f));
    assert(labels.push(l).map_values(f).last() == filled(template, seq![l.at@, l.says@]));
    assert(Seq::<AxisLabel>::empty().map_values(f) =~= Seq::<Seq<char>>::empty());
}

/// A line is drawn where it stands as the points of a polyline, and has as many points as it should.
pub proof fn law_drawn_lines_are_polylines(html: Seq<char>, line: Seq<char>, n: nat)
    ensures
        draws_line(html, line, n) <==> mentions(html, "<polyline points=\""@ + line + "\""@) && blanks(
            line,
        ) == n - 1,
{
    reveal_strlit("<polyline points=\"");
    assert(POLYLINE@ == "<polyline points=\""@);
}

/// A chart of losses has a point for each finite loss, and one of throughputs for each that is
/// positive; both have their words and labels.
pub proof fn law_charts_have_a_point_for_each_value(chart: Chart, losses: Seq<LossPoint>, i: int)
    ensures
        is_loss_chart(chart, losses) ==> {
            &&& chart.points@.len() == finite_losses(losses).len()
            &&& chart.summary@.len() == 4
            &&& chart.y_labels@.len() == 6
            &&& chart.x_labels@.len() == 7
            &&& 0 <= i < chart.points@.len() ==> blanks(chart.points@[i]@) == 0
        },
        is_throughput_chart(chart, losses) ==> {
            &&& chart.points@.len() == positive_throughputs(losses).len()
            &&& chart.summary@.len() == 3
            &&& chart.y_labels@.len() == 5
            &&& chart.x_labels@.len() == 7
            &&& 0 <= i < chart.points@.len() ==> blanks(chart.points@[i]@) == 0
        },
{
}

/// Where there is nothing to show yet, it is said what is waited for; and a line ends its picture.
pub proof fn law_what_is_missing_is_said()
    ensures
        WAITING_HTML@ == "<i>Waiting for coordinator data...</i>"@,
        NOT_ENOUGH_LOSS@ == "<i>Not enough loss data yet</i>"@,
        NOT_ENOUGH_TPS@ == "<i>Not enough throughput data yet</i>"@,
        LOSS_END@ == "\" fill=\"none\" stroke=\"#e2ccb8\"/>\n</svg>\n</div>"@,
        TPS_END@ == "\" fill=\"none\" stroke=\"#52b8cd\"/>\n</svg>\n</div>"@,
{
}

} // verus!
