use vstd::prelude::*;
use crate::models::StepInfo;
use crate::time::Timestamp;
use crate::validation::{all_digits, is_ascii_digit};

verus! {

/// Name of the snapshot file, kept in the working directory.
pub const STATE_FILE_NAME: &'static str = ".discord-pipeline-state";

/// The persisted progress of a pipeline.
pub struct PipelineState {
    pub message_id: String,
    pub pr_number: u32,
    pub pr_title: String,
    pub author: String,
    pub repository: String,
    pub branch: String,
    pub steps: Vec<StepInfo>,
    pub pipeline_started_at: Timestamp,
}

/// Where the snapshot of a working directory lives.
pub struct MessageStorage {
    file_path: String,
}

/// `dir` joined with `name`, with one `/` between them.
pub open spec fn joined_path(dir: Seq<char>, name: Seq<char>) -> Seq<char> {
    if dir.len() == 0 || dir.last() == '/' {
        dir + name
    } else {
        dir + "/"@ + name
    }
}

/// The number that a run of decimal digits stands for.
pub open spec fn digits_value(d: Seq<char>) -> nat
    decreases d.len(),
{
    if d.len() == 0 {
        0
    } else {
        digits_value(d.drop_last()) * 10 + ((d.last() as int) - ('0' as int)) as nat
    }
}

/// `s` without one leading `+`.
pub open spec fn without_plus(s: Seq<char>) -> Seq<char> {
    if s.len() > 0 && s[0] == '+' {
        s.subrange(1, s.len() as int)
    } else {
        s
    }
}

/// The `u32` that a text writes in decimal (an optional `+`, then digits),
/// if it is one.
pub open spec fn u32_of_text(s: Seq<char>) -> Option<u32> {
    let d = without_plus(s);
    if d.len() > 0 && all_digits(d) && digits_value(d) <= u32::MAX {
        Some(digits_value(d) as u32)
    } else {
        None
    }
}

/// The pull-request number kept in a snapshot: the number the text writes,
/// or 0 where it writes none.
pub open spec fn pr_number_of(s: Seq<char>) -> u32 {
    match u32_of_text(s) {
        Some(n) => n,
        None => 0,
    }
}

/// Reads the pull-request number of a snapshot: the `u32` that the text
/// writes in decimal, or 0.
pub fn parse_pr_number(s: &str) -> (r: u32)
    ensures
        r == pr_number_of(s@),
{
    let n = s.unicode_len();
    let mut i: usize = 0;
    if n > 0 && s.get_char(0) == '+' {
        i = 1;
    }
    let start = i;
    let ghost d = without_plus(s@);
    assert(d =~= s@.subrange(start as int, n as int));
    if start == n {
        return 0;
    }
    let mut value: u64 = 0;
    while i < n
        invariant
            n == s@.len(),
            start <= i <= n,
            d == s@.subrange(start as int, n as int),
            d == without_plus(s@),
            all_digits(d.subrange(0, i - start)),
            value as nat == digits_value(d.subrange(0, i - start)),
            value <= u32::MAX,
        decreases n - i,
    {
        let c = s.get_char(i);
        proof {
            let next = d.subrange(0, i - start + 1);
            assert(next.drop_last() =~= d.subrange(0, i - start));
            assert(next.last() == c);
        }
        if !('0' <= c && c <= '9') {
            assert(!is_ascii_digit(d[i - start]));
            return 0;
        }
        let digit = (c as u32 - '0' as u32) as u64;
        let next_value = value * 10 + digit;
        i = i + 1;
        assert(all_digits(d.subrange(0, i - start)));
        if next_value > u32::MAX as u64 {
            proof {
                if all_digits(d) {
                    lemma_digits_value_grows(d, i - start);
                }
            }
            return 0;
        }
        value = next_value;
    }
    assert(d.subrange(0, n - start) =~= d);
    value as u32
}

/// A longer prefix of digits is worth at least as much as a shorter one.
proof fn lemma_digits_value_grows(d: Seq<char>, k: int)
    requires
        0 <= k <= d.len(),
        all_digits(d),
    ensures
        digits_value(d) >= digits_value(d.subrange(0, k)),
    decreases d.len() - k,
{
    if k < d.len() {
        lemma_digits_value_grows(d, k + 1);
        let p = d.subrange(0, k + 1);
        assert(p.drop_last() =~= d.subrange(0, k));
        assert(is_ascii_digit(d[k]));
    } else {
        assert(d.subrange(0, k) =~= d);
    }
}

impl PipelineState {
    /// The snapshot to store for `message_id`: `existing` with that message
    /// identifier, or, where nothing is stored, one of an unknown pull
    /// request (number 0, texts `Unknown`) with no steps, started at `now`.
    pub fn for_message_id(existing: Option<PipelineState>, message_id: &str, now: Timestamp) -> (r: PipelineState)
        ensures
            r.message_id@ == message_id@,
            existing is Some ==> {
                let e = existing->0;
                &&& r.pr_number == e.pr_number
                &&& r.pr_title == e.pr_title
                &&& r.author == e.author
                &&& r.repository == e.repository
                &&& r.branch == e.branch
                &&& r.steps == e.steps
                &&& r.pipeline_started_at == e.pipeline_started_at
            },
            existing is None ==> {
                &&& r.pr_number == 0
                &&& r.pr_title@ == "Unknown"@
                &&& r.author@ == "Unknown"@
                &&& r.repository@ == "Unknown"@
                &&& r.branch@ == "Unknown"@
                &&& r.steps@.len() == 0
                &&& r.pipeline_started_at == now
            },
    {
        match existing {
            Some(e) => PipelineState { message_id: String::from_str(message_id), ..e },
            None => PipelineState {
                message_id: String::from_str(message_id),
                pr_number: 0,
                pr_title: String::from_str("Unknown"),
                author: String::from_str("Unknown"),
                repository: String::from_str("Unknown"),
                branch: String::from_str("Unknown"),
                steps: Vec::new(),
                pipeline_started_at: now,
            },
        }
    }
}

impl MessageStorage {
    /// The storage of the working directory `current_dir`.
    pub fn new(current_dir: &str) -> (r: MessageStorage)
        ensures
            r.file_path()@ == joined_path(current_dir@, STATE_FILE_NAME@),
    {
        let n = current_dir.unicode_len();
        let mut file_path = String::from_str(current_dir);
        if n > 0 && current_dir.get_char(n - 1) == '/' {
            file_path.append(STATE_FILE_NAME);
        } else if n == 0 {
            file_path.append(STATE_FILE_NAME);
        } else {
            file_path.append("/");
            file_path.append(STATE_FILE_NAME);
        }
        MessageStorage { file_path }
    }

    pub closed spec fn file_path(&self) -> String {
        self.file_path
    }

    /// The path of the snapshot file.
    pub fn get_file_path(&self) -> (r: &String)
        ensures
            r == self.file_path(),
    {
        &self.file_path
    }
}

} // verus!
