//! Reading back the log files: which file is the latest and its last lines.

use vstd::prelude::*;

use crate::sorting::{lex_lt, str_lt};
use crate::text::{join, join_strings, lines, starts_with, str_lines, str_starts_with, views};

verus! {

/// The daily log files are named `findapps.log` followed by their date.
pub open spec fn is_log_name(name: Seq<char>) -> bool {
    starts_with(name, "findapps.log"@)
}

/// Whether a file of the log directory is a log file.
pub fn is_log_file(name: &str) -> (r: bool)
    ensures
        r == is_log_name(name@),
{
    str_starts_with(name, "findapps.log")
}

/// Index of the latest log file among the names of the log directory: the
/// greatest log file name (the last of equal names).
pub fn latest_log(names: &Vec<String>) -> (r: Option<usize>)
    ensures
        r is None ==> forall|j: int| 0 <= j < names@.len() ==> !is_log_name(#[trigger] names@[j]@),
        r matches Some(i) ==> {
            &&& i < names@.len()
            &&& is_log_name(names@[i as int]@)
            &&& forall|j: int|
                0 <= j < i && is_log_name(#[trigger] names@[j]@) ==> !lex_lt(
                    names@[i as int]@,
                    names@[j]@,
                )
            &&& forall|j: int|
                i < j < names@.len() && is_log_name(#[trigger] names@[j]@) ==> lex_lt(
                    names@[j]@,
                    names@[i as int]@,
                )
        },
{
    let n = names.len();
    let mut best: Option<usize> = None;
    for k in 0..n
        invariant
            n == names@.len(),
            best is None ==> forall|j: int| 0 <= j < k ==> !is_log_name(#[trigger] names@[j]@),
            best matches Some(i) ==> {
                &&& i < k
                &&& is_log_name(names@[i as int]@)
                &&& forall|j: int|
                    0 <= j < i && is_log_name(#[trigger] names@[j]@) ==> !lex_lt(
                        names@[i as int]@,
                        names@[j]@,
                    )
                &&& forall|j: int|
                    i < j < k && is_log_name(#[trigger] names@[j]@) ==> lex_lt(
                        names@[j]@,
                        names@[i as int]@,
                    )
            },
    {
        if is_log_file(names[k].as_str()) {
            match best {
                None => {
                    best = Some(k);
                },
                Some(i) => {
                    if !str_lt(names[k].as_str(), names[i].as_str()) {
                        proof {
                            assert forall|j: int|
                                0 <= j < k && is_log_name(#[trigger] names@[j]@) implies !lex_lt(
                                names@[k as int]@,
                                names@[j]@,
                            ) by {
                                if j != i {
                                    if j < i {
                                        crate::sorting::lemma_lex_not_lt_chain(
                                            names@[k as int]@,
                                            names@[j]@,
                                            names@[i as int]@,
                                        );
                                    } else {
                                        crate::sorting::lemma_lex_asymmetric(
                                            names@[j]@,
                                            names@[i as int]@,
                                        );
                                        crate::sorting::lemma_lex_not_lt_chain(
                                            names@[k as int]@,
                                            names@[j]@,
                                            names@[i as int]@,
                                        );
                                    }
                                }
                            }
                        }
                        best = Some(k);
                    }
                },
            }
        }
    }
    best
}

/// The last `max_lines` lines of a log, joined by newlines.
pub open spec fn tail_lines(content: Seq<char>, max_lines: nat) -> Seq<char> {
    let ls = lines(content);
    let start = if ls.len() > max_lines {
        ls.len() - max_lines
    } else {
        0
    };
    join(ls.skip(start), "\n"@)
}

/// The last lines of a log's content.
pub fn recent_lines(content: &str, max_lines: usize) -> (r: String)
    ensures
        r@ == tail_lines(content@, max_lines as nat),
{
    let mut ls = str_lines(content);
    let n = ls.len();
    let start = n - if n > max_lines {
        max_lines
    } else {
        n
    };
    let ghost lv = views(ls@);
    let tail = ls.split_off(start);
    assert(views(tail@) =~= lv.skip(start as int));
    join_strings(&tail, "\n")
}

} // verus!
