//! Batch evaluation records: one labelled outcome per uploaded file, and the
//! aggregate tally of hits, misses and failures against the expected label.

use vstd::prelude::*;

verus! {

/// One file's evaluation outcome: the expected label, the label the analyzer
/// actually returned (0 standing for a failed analysis), and the file's name.
pub struct EvalResult {
    pub expected_result: u8,
    pub actual_result: u8,
    pub file_name: String,
}

/// The abstract value of an [`EvalResult`].
pub ghost struct EvalResultView {
    pub expected_result: u8,
    pub actual_result: u8,
    pub file_name: Seq<char>,
}

impl View for EvalResult {
    type V = EvalResultView;

    open spec fn view(&self) -> EvalResultView {
        EvalResultView {
            expected_result: self.expected_result,
            actual_result: self.actual_result,
            file_name: self.file_name@,
        }
    }
}

impl DeepView for EvalResult {
    type V = EvalResultView;

    open spec fn deep_view(&self) -> EvalResultView {
        self.view()
    }
}

impl EvalResult {
    pub fn new(expected_result: u8, actual_result: u8, file_name: String) -> (r: EvalResult)
        ensures
            r.expected_result == expected_result,
            r.actual_result == actual_result,
            r.file_name == file_name,
    {
        EvalResult { expected_result, actual_result, file_name }
    }

    /// The tab-separated display line: expected label, actual label, file name.
    pub fn line(&self) -> (r: String)
        ensures
            r@ == u8_dec(self.expected_result) + seq!['\t'] + u8_dec(self.actual_result)
                + seq!['\t'] + self.file_name@,
    {
        tab_line(self.expected_result, self.actual_result, self.file_name.as_str())
    }
}

/// Rendering a value as one line of text.
pub trait Stringify {
    fn to_string(&self) -> String;
}

impl Stringify for EvalResult {
    fn to_string(&self) -> String {
        self.line()
    }
}

/// The decimal digit characters of a byte value, most significant first,
/// without leading zeros.
pub open spec fn u8_dec(n: u8) -> Seq<char> {
    if n < 10 {
        seq![dec_digit(n as int)]
    } else if n < 100 {
        seq![dec_digit(n as int / 10), dec_digit(n as int % 10)]
    } else {
        seq![dec_digit(n as int / 100), dec_digit((n as int / 10) % 10), dec_digit(n as int % 10)]
    }
}

/// The character of one decimal digit.
pub open spec fn dec_digit(d: int) -> char {
    if d == 0 {
        '0'
    } else if d == 1 {
        '1'
    } else if d == 2 {
        '2'
    } else if d == 3 {
        '3'
    } else if d == 4 {
        '4'
    } else if d == 5 {
        '5'
    } else if d == 6 {
        '6'
    } else if d == 7 {
        '7'
    } else if d == 8 {
        '8'
    } else {
        '9'
    }
}

/// Relies on `format!` with `u8` and `str` arguments: a `u8` displays as its
/// decimal digits without leading zeros, a `str` as its own characters.
#[verifier::external_body]
fn tab_line(expected: u8, actual: u8, name: &str) -> (r: String)
    ensures
        r@ == u8_dec(expected) + seq!['\t'] + u8_dec(actual) + seq!['\t'] + name@,
{
    format!("{}\t{}\t{}", expected, actual, name)
}

/// How many results record a failed analysis.
pub open spec fn count_fails(rs: Seq<EvalResultView>) -> int
    decreases rs.len(),
{
    if rs.len() == 0 {
        0
    } else {
        count_fails(rs.drop_last()) + if rs.last().actual_result == 0 {
            1int
        } else {
            0int
        }
    }
}

/// How many results match their expected label (failures never count).
pub open spec fn count_hits(rs: Seq<EvalResultView>) -> int
    decreases rs.len(),
{
    if rs.len() == 0 {
        0
    } else {
        count_hits(rs.drop_last()) + if rs.last().actual_result != 0 && rs.last().actual_result
            == rs.last().expected_result {
            1int
        } else {
            0int
        }
    }
}

/// How many results came back with the wrong label (failures never count).
pub open spec fn count_misses(rs: Seq<EvalResultView>) -> int
    decreases rs.len(),
{
    if rs.len() == 0 {
        0
    } else {
        count_misses(rs.drop_last()) + if rs.last().actual_result != 0 && rs.last().actual_result
            != rs.last().expected_result {
            1int
        } else {
            0int
        }
    }
}

/// The counts are non-negative and exhaust the result list.
pub proof fn lemma_counts_partition(rs: Seq<EvalResultView>)
    ensures
        count_hits(rs) >= 0,
        count_misses(rs) >= 0,
        count_fails(rs) >= 0,
        count_hits(rs) + count_misses(rs) + count_fails(rs) == rs.len(),
    decreases rs.len(),
{
    if rs.len() > 0 {
        lemma_counts_partition(rs.drop_last());
    }
}

/// When every result of a batch came back with its expected label, the tally
/// is all hits: as many as there are results, with no misses and no failures.
pub proof fn lemma_all_hits(rs: Seq<EvalResultView>)
    requires
        forall|i: int|
            0 <= i < rs.len() ==> (#[trigger] rs[i].actual_result) != 0 && rs[i].actual_result
                == rs[i].expected_result,
    ensures
        count_hits(rs) == rs.len(),
        count_misses(rs) == 0,
        count_fails(rs) == 0,
    decreases rs.len(),
{
    if rs.len() > 0 {
        lemma_all_hits(rs.drop_last());
    }
}

/// The aggregate tally of one evaluation batch.
pub struct EvalReport {
    pub files_analyzed: usize,
    pub expected_result: u8,
    pub hits: usize,
    pub misses: usize,
    pub fails: usize,
    pub results: Vec<EvalResult>,
}

impl EvalReport {
    /// Tally a batch: every result with label 0 is a failure, every other
    /// one a hit when it equals its expected label and a miss otherwise. The
    /// batch's expected label is read off the first result; an empty batch
    /// tallies to all zeros.
    pub fn from(results: Vec<EvalResult>) -> (r: EvalReport)
        ensures
            r.files_analyzed == results@.len(),
            r.results == results,
            r.hits == count_hits(results.deep_view()),
            r.misses == count_misses(results.deep_view()),
            r.fails == count_fails(results.deep_view()),
            r.expected_result == if results@.len() == 0 {
                0u8
            } else {
                results@[0].expected_result
            },
    {
        let files_analyzed = results.len();
        if files_analyzed == 0 {
            proof {
                assert(results.deep_view() =~= Seq::<EvalResultView>::empty());
            }
            return EvalReport {
                files_analyzed,
                expected_result: 0,
                hits: 0,
                misses: 0,
                fails: 0,
                results,
            };
        }
        let ghost rvs = results.deep_view();
        let expected_result = results[0].expected_result;
        let mut hits: usize = 0;
        let mut misses: usize = 0;
        let mut fails: usize = 0;
        let mut i: usize = 0;
        proof {
            assert(rvs.take(0) =~= Seq::<EvalResultView>::empty());
        }
        while i < results.len()
            invariant
                i <= rvs.len() == results@.len(),
                rvs == results.deep_view(),
                hits == count_hits(rvs.take(i as int)),
                misses == count_misses(rvs.take(i as int)),
                fails == count_fails(rvs.take(i as int)),
                hits + misses + fails == i,
            decreases results@.len() - i,
        {
            let result = &results[i];
            proof {
                assert(rvs.take(i + 1).drop_last() =~= rvs.take(i as int));
                assert(rvs.take(i + 1).last() == rvs[i as int]);
            }
            if result.actual_result == 0 {
                fails += 1;
            } else if result.actual_result == result.expected_result {
                hits += 1;
            } else {
                misses += 1;
            }
            i += 1;
        }
        proof {
            assert(rvs.take(rvs.len() as int) =~= rvs);
        }
        EvalReport { files_analyzed, expected_result, hits, misses, fails, results }
    }
}

} // verus!
