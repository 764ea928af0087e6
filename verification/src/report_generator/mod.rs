use vstd::prelude::*;

use crate::decimal::{decimal_string, u32_to_decimal};
use crate::query_handler::BusFactorQueryResult;
use vstd::string::{StrSliceExecFns, StringExecFns};

verus! {

/// The report aggregator stage: collects every result the evaluator
/// emitted and orders them into the final report.
pub struct ReportGenerator;

/// Ordered by descending bus-factor percentage.
pub open spec fn sorted_desc(s: Seq<BusFactorQueryResult>) -> bool {
    forall|i: int, j: int| 0 <= i < j < s.len() ==> s[i].bus_factor >= s[j].bus_factor
}

/// Where an insertion sort places `x` in an already sorted run: before
/// the first entry with a strictly smaller percentage, so entries of
/// equal percentage keep their order of arrival.
pub open spec fn insert_position(s: Seq<BusFactorQueryResult>, x: BusFactorQueryResult) -> int
    decreases s.len(),
{
    if s.len() == 0 {
        0
    } else if x.bus_factor > s[0].bus_factor {
        0
    } else {
        1 + insert_position(s.drop_first(), x)
    }
}

/// One sorted run with `x` placed at its insertion position.
pub open spec fn insert_sorted(
    s: Seq<BusFactorQueryResult>,
    x: BusFactorQueryResult,
) -> Seq<BusFactorQueryResult> {
    s.insert(insert_position(s, x), x)
}

/// The report order: every result inserted, in order of arrival, into a
/// run sorted by descending percentage.
pub open spec fn sort_desc(s: Seq<BusFactorQueryResult>) -> Seq<BusFactorQueryResult>
    decreases s.len(),
{
    if s.len() == 0 {
        Seq::empty()
    } else {
        insert_sorted(sort_desc(s.drop_last()), s.last())
    }
}

/// The insertion position is the first position whose entry has a
/// strictly smaller percentage than the inserted result.
pub proof fn lemma_insert_position_properties(s: Seq<BusFactorQueryResult>, x: BusFactorQueryResult)
    ensures
        0 <= insert_position(s, x) <= s.len(),
        forall|j: int| 0 <= j < insert_position(s, x) ==> !(x.bus_factor > s[j].bus_factor),
        insert_position(s, x) < s.len() ==> x.bus_factor > s[insert_position(s, x)].bus_factor,
    decreases s.len(),
{
    if s.len() > 0 && !(x.bus_factor > s[0].bus_factor) {
        lemma_insert_position_properties(s.drop_first(), x);
        let pos = insert_position(s, x);
        assert forall|j: int| 0 <= j < pos implies !(x.bus_factor > s[j].bus_factor) by {
            if j > 0 {
                assert(s.drop_first()[j - 1] == s[j]);
            }
        }
        if pos < s.len() {
            assert(s.drop_first()[pos - 1] == s[pos]);
        }
    }
}

/// Inserting at the insertion position keeps the run sorted.
pub proof fn lemma_insert_sorted_keeps_sorted(s: Seq<BusFactorQueryResult>, x: BusFactorQueryResult)
    requires
        sorted_desc(s),
    ensures
        sorted_desc(insert_sorted(s, x)),
        insert_sorted(s, x).len() == s.len() + 1,
{
    lemma_insert_position_properties(s, x);
    let pos = insert_position(s, x);
    s.insert_ensures(pos, x);
    let t = s.insert(pos, x);
    assert forall|i: int, j: int| 0 <= i < j < t.len() implies t[i].bus_factor
        >= t[j].bus_factor by {
        if i < pos {
            assert(t[i] == s[i]);
        } else if i > pos {
            assert(t[i] == s[i - 1]);
        }
        if j < pos {
            assert(t[j] == s[j]);
        } else if j > pos {
            assert(t[j] == s[j - 1]);
        }
    }
}

/// Sorting yields a run that is ordered and holds exactly the collected
/// results, each as often as it was collected.
pub proof fn lemma_sort_desc_properties(s: Seq<BusFactorQueryResult>)
    ensures
        sorted_desc(sort_desc(s)),
        sort_desc(s).to_multiset() == s.to_multiset(),
        sort_desc(s).len() == s.len(),
    decreases s.len(),
{
    broadcast use vstd::seq_lib::to_multiset_insert, vstd::seq_lib::to_multiset_build;

    if s.len() == 0 {
        assert(s =~= Seq::empty());
    } else {
        let rest = s.drop_last();
        lemma_sort_desc_properties(rest);
        lemma_insert_sorted_keeps_sorted(sort_desc(rest), s.last());
        lemma_insert_position_properties(sort_desc(rest), s.last());
        assert(s =~= rest.push(s.last()));
        assert(sort_desc(s).to_multiset() =~= s.to_multiset());
    }
}

/// Any two orderings of the same collected results that are both sorted
/// by descending percentage agree line for line on the percentage column:
/// the report is unique up to the order of equal-percentage entries.
pub proof fn lemma_sorted_runs_agree_on_percentages(
    s1: Seq<BusFactorQueryResult>,
    s2: Seq<BusFactorQueryResult>,
)
    requires
        sorted_desc(s1),
        sorted_desc(s2),
        s1.to_multiset() == s2.to_multiset(),
    ensures
        s1.len() == s2.len(),
        forall|i: int| 0 <= i < s1.len() ==> s1[i].bus_factor == s2[i].bus_factor,
    decreases s1.len(),
{
    broadcast use vstd::seq_lib::to_multiset_len, vstd::seq_lib::to_multiset_contains, vstd::seq_lib::to_multiset_remove;

    assert(s1.len() == s1.to_multiset().len());
    assert(s2.len() == s2.to_multiset().len());
    if s1.len() > 0 {
        let x = s1[0];
        // the head of each run carries the largest percentage of the shared
        // contents, so the two heads agree on it
        assert(s1.contains(x));
        assert(s1.to_multiset().count(x) > 0);
        assert(s2.to_multiset().count(x) > 0);
        assert(s2.contains(x));
        let j = choose|j: int| 0 <= j < s2.len() && s2[j] == x;
        assert(s2[0].bus_factor >= s2[j].bus_factor);
        assert(s2.contains(s2[0]));
        assert(s2.to_multiset().count(s2[0]) > 0);
        assert(s1.to_multiset().count(s2[0]) > 0);
        assert(s1.contains(s2[0]));
        let i0 = choose|i: int| 0 <= i < s1.len() && s1[i] == s2[0];
        assert(s1[0].bus_factor >= s1[i0].bus_factor);
        assert(s1[0].bus_factor == s2[0].bus_factor);
        // every entry of `s2` up to `j` carries that same percentage
        assert(forall|k: int| 0 <= k <= j ==> s2[k].bus_factor == x.bus_factor);
        // drop `x` from both runs and recurse on what remains
        let t1 = s1.drop_first();
        let t2 = s2.remove(j);
        assert(t1 =~= s1.remove(0));
        assert(t1.to_multiset() == t2.to_multiset());
        s2.remove_ensures(j);
        assert(sorted_desc(t1));
        assert(sorted_desc(t2));
        lemma_sorted_runs_agree_on_percentages(t1, t2);
        assert forall|i: int| 0 <= i < s1.len() implies s1[i].bus_factor == s2[i].bus_factor by {
            if i > 0 {
                assert(s1[i].bus_factor == t1[i - 1].bus_factor);
                assert(t1[i - 1].bus_factor == t2[i - 1].bus_factor);
                if i - 1 < j {
                    assert(t2[i - 1] == s2[i - 1]);
                    assert(s2[i - 1].bus_factor == x.bus_factor);
                    assert(s2[i].bus_factor == x.bus_factor);
                } else {
                    assert(t2[i - 1] == s2[i]);
                }
            }
        }
    }
}

/// The report is driven by the collected results alone: aggregating the
/// same results again yields the same report, line for line.
pub proof fn lemma_report_deterministic(a: Seq<BusFactorQueryResult>, b: Seq<BusFactorQueryResult>)
    requires
        a == b,
    ensures
        sort_desc(a) == sort_desc(b),
{
}

/// `n` space characters.
pub open spec fn spaces(n: int) -> Seq<char>
    decreases n,
{
    if n <= 0 {
        Seq::empty()
    } else {
        spaces(n - 1).push(' ')
    }
}

/// `s` padded on the right with spaces to at least `width` characters:
/// how a report column is laid out.
pub open spec fn padded(s: Seq<char>, width: int) -> Seq<char> {
    if s.len() >= width {
        s
    } else {
        s + spaces(width - s.len())
    }
}

/// One line of the report: the repository, its dominant contributor and
/// their percentage, in fixed-width columns.
pub open spec fn report_line_spec(r: BusFactorQueryResult) -> Seq<char> {
    "project: "@ + padded(r.repo_name@, 20) + "\t\tuser: "@ + padded(r.login@, 20)
        + "\t\tpercentage: "@ + decimal_string(r.bus_factor as int)
}

impl ReportGenerator {
    /// Pads one column of the report to its fixed width.
    fn pad_column(s: String) -> (r: String)
        ensures
            r@ == padded(s@, 20),
    {
        let ghost original = s@;
        let mut column = s;
        let mut length = column.as_str().unicode_len();
        proof {
            assert(original + spaces(0) =~= original);
        }
        while length < 20
            invariant
                length == column@.len(),
                original.len() <= length,
                column@ == original + spaces(length - original.len()),
                original.len() >= 20 ==> length == original.len(),
                original.len() < 20 ==> length <= 20,
            decreases 20 - length,
        {
            column.append(" ");
            length = length + 1;
            proof {
                reveal_strlit(" ");
                assert(column@ =~= original + spaces(length - original.len()));
            }
        }
        proof {
            if original.len() >= 20 {
                assert(column@ =~= original);
            }
        }
        column
    }

    /// Writes one result as the line the report prints for it.
    pub fn format_report_line(result: &BusFactorQueryResult) -> (line: String)
        ensures
            line@ == report_line_spec(*result),
    {
        let mut line = String::from_str("project: ");
        line.append(Self::pad_column(result.repo_name.clone()).as_str());
        line.append("\t\tuser: ");
        line.append(Self::pad_column(result.login.clone()).as_str());
        line.append("\t\tpercentage: ");
        line.append(u32_to_decimal(result.bus_factor).as_str());
        line
    }

    /// The whole report: every collected result, sorted by bus-factor
    /// percentage descending, written as one line each.
    pub fn generate_report(results: Vec<BusFactorQueryResult>) -> (lines: Vec<String>)
        ensures
            lines@.len() == results@.len(),
            forall|i: int|
                0 <= i < lines@.len() ==> lines@[i]@ == report_line_spec(
                    sort_desc(results@)[i],
                ),
    {
        let sorted = Self::sort_results(results);
        let mut lines: Vec<String> = Vec::new();
        let mut index: usize = 0;
        while index < sorted.len()
            invariant
                sorted@.len() == lines@.len() + (sorted@.len() - index),
                index <= sorted@.len(),
                lines@.len() == index,
                forall|i: int|
                    0 <= i < lines@.len() ==> lines@[i]@ == report_line_spec(sorted@[i]),
            decreases sorted@.len() - index,
        {
            lines.push(Self::format_report_line(&sorted[index]));
            index = index + 1;
        }
        lines
    }

    /// Places one result into an already sorted run, keeping it sorted.
    fn insert_result(results: &mut Vec<BusFactorQueryResult>, x: BusFactorQueryResult)
        ensures
            final(results)@ == insert_sorted(old(results)@, x),
    {
        proof {
            lemma_insert_position_properties(results@, x);
        }
        let mut k: usize = 0;
        while k < results.len() && x.bus_factor <= results[k].bus_factor
            invariant
                results@ == old(results)@,
                0 <= k <= results@.len(),
                forall|j: int| 0 <= j < k ==> !(x.bus_factor > results@[j].bus_factor),
            decreases results@.len() - k,
        {
            k = k + 1;
        }
        proof {
            let pos = insert_position(results@, x);
            if pos < k {
                assert(!(x.bus_factor > results@[pos].bus_factor));
                assert(false);
            }
            if (k as int) < pos {
                assert(!(x.bus_factor > results@[k as int].bus_factor));
                assert(false);
            }
        }
        results.insert(k, x);
    }

    /// Sorts the collected results by bus-factor percentage, highest
    /// first; results of equal percentage keep their order of arrival.
    pub fn sort_results(results: Vec<BusFactorQueryResult>) -> (sorted: Vec<BusFactorQueryResult>)
        ensures
            sorted@ == sort_desc(results@),
            sorted_desc(sorted@),
            sorted@.to_multiset() == results@.to_multiset(),
            sorted@.len() == results@.len(),
    {
        proof {
            lemma_sort_desc_properties(results@);
        }
        let ghost original = results@;
        let ghost mut processed: int = 0;
        let mut remaining = results;
        let mut sorted: Vec<BusFactorQueryResult> = Vec::new();
        proof {
            assert(original.skip(0) =~= original);
        }
        while remaining.len() > 0
            invariant
                0 <= processed <= original.len(),
                processed + remaining@.len() == original.len(),
                remaining@ == original.skip(processed),
                sorted@ == sort_desc(original.take(processed)),
            decreases remaining@.len(),
        {
            let x = remaining.remove(0);
            Self::insert_result(&mut sorted, x);
            proof {
                assert(original.skip(processed).drop_first() =~= original.skip(processed + 1));
                processed = processed + 1;
                assert(original.take(processed).drop_last() =~= original.take(processed - 1));
                assert(original.take(processed).last() == original[processed - 1]);
            }
        }
        proof {
            assert(original.take(original.len() as int) =~= original);
        }
        sorted
    }
}

} // verus!
