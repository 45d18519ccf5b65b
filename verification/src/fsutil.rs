//! Classification of filesystem entries for the batch file test: the
//! caller stats each path and hands in whether it exists and is a
//! directory; the codes reported upward are decided here.

use vstd::prelude::*;

verus! {

/// The code for one path: `0` for a path that could not be read, `1` for a
/// directory, `2` for any other file.
pub open spec fn spec_file_code(stat: Option<bool>) -> int {
    match stat {
        None => 0,
        Some(true) => 1,
        Some(false) => 2,
    }
}

/// Codes a batch of path probes, in order: for each path, whether the
/// probe succeeded and found a directory.
pub fn batch_test_files(stats: &Vec<Option<bool>>) -> (r: Vec<i32>)
    ensures
        r@.len() == stats@.len(),
        forall|i: int| 0 <= i < stats@.len() ==> #[trigger] r@[i] == spec_file_code(stats@[i]),
{
    let n: usize = stats.len();
    let mut r: Vec<i32> = Vec::new();
    let mut i: usize = 0;
    while i < n
        invariant
            n == stats@.len(),
            i <= n,
            r@.len() == i,
            forall|k: int| 0 <= k < i ==> #[trigger] r@[k] == spec_file_code(stats@[k]),
        decreases n - i,
    {
        let code: i32 = match stats[i] {
            None => 0,
            Some(true) => 1,
            Some(false) => 2,
        };
        r.push(code);
        i = i + 1;
    }
    r
}

} // verus!
