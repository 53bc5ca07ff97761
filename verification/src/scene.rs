use vstd::prelude::*;

verus! {

/// Control of the scene's nearest-hit scan. Surfaces are visited in
/// insertion order, and each is asked for an intersection inside a distance
/// range whose upper end has been narrowed to the best distance found so
/// far, so a surface can only report a hit that is no farther than the
/// incumbent. The f64 intersection tests are the renderer's work; verified
/// here is the fold that keeps the winning report.
///
/// One step of the scan: a surface that reported a hit inside the narrowed
/// range displaces the incumbent; a surface that reported none leaves the
/// incumbent in place.
pub fn nearest_hit_step<T>(best: Option<T>, report: Option<T>) -> (r: Option<T>)
    ensures
        report is Some ==> r == report,
        report is None ==> r == best,
{
    match report {
        Some(record) => Some(record),
        None => best,
    }
}

/// The scan's outcome over a whole sequence of reports, folding
/// `nearest_hit_step` from an empty incumbent: the last report made, if any
/// was made at all.
pub open spec fn scan_fold<T>(reports: Seq<Option<T>>) -> Option<T>
    decreases reports.len(),
{
    if reports.len() == 0 {
        None
    } else if reports.last() is Some {
        reports.last()
    } else {
        scan_fold(reports.drop_last())
    }
}

/// Nearest hit wins, independent of how many surfaces come after it: the
/// scan ends empty exactly when no surface reported, and otherwise ends on
/// the report of the last surface that made one — which, because every
/// report is made inside a range ending at the incumbent's distance, is the
/// nearest hit found.
pub proof fn lemma_scan_keeps_last_report<T>(reports: Seq<Option<T>>)
    ensures
        scan_fold(reports) is Some <==> exists|i: int|
            0 <= i < reports.len() && reports[i] is Some,
        forall|i: int|
            0 <= i < reports.len() && reports[i] is Some && (forall|j: int|
                i < j < reports.len() ==> reports[j] is None) ==> scan_fold(reports)
                == reports[i],
    decreases reports.len(),
{
    let n = reports.len() as int;
    if n == 0 {
    } else {
        let prefix = reports.drop_last();
        lemma_scan_keeps_last_report(prefix);
        assert forall|i: int|
            0 <= i < n && reports[i] is Some && (forall|j: int|
                i < j < n ==> reports[j] is None) implies scan_fold(reports) == reports[i] by {
            if reports.last() is Some {
                if i < n - 1 {
                    assert(reports[n - 1] is None);
                } else {
                    assert(scan_fold(reports) == reports[n - 1]);
                }
            } else {
                assert(i < n - 1);
                assert(prefix[i] == reports[i]);
                assert(prefix[i] is Some);
                assert(forall|j: int| i < j < n - 1 ==> prefix[j] is None);
                assert(scan_fold(prefix) == prefix[i]);
            }
        }
        if scan_fold(reports) is Some {
            if reports.last() is Some {
                assert(reports[n - 1] is Some);
            } else {
                let i = choose|i: int| 0 <= i < prefix.len() && prefix[i] is Some;
                assert(reports[i] is Some);
            }
        }
        if exists|i: int| 0 <= i < n && reports[i] is Some {
            let i = choose|i: int| 0 <= i < n && reports[i] is Some;
            if reports.last() is None && i < n - 1 {
                assert(prefix[i] is Some);
            }
        }
    }
}

} // verus!
