use vstd::prelude::*;
use crate::text::{decimal, signed_decimal, three_digits, lowercase_of, to_lowercase, push_decimal, push_signed_decimal, push_three_digits};
use crate::time::{Timestamp, current_time};

verus! {

/// A message posted to a channel: optional text and a list of embeds.
pub struct DiscordMessage {
    pub content: Option<String>,
    pub embeds: Vec<DiscordEmbed>,
}

/// A styled message card.
pub struct DiscordEmbed {
    pub title: String,
    pub description: String,
    pub color: u32,
    pub fields: Vec<DiscordField>,
    pub timestamp: Timestamp,
    pub footer: Option<DiscordFooter>,
}

/// One named value shown in an embed.
pub struct DiscordField {
    pub name: String,
    pub value: String,
    pub inline: bool,
}

/// The small text under an embed.
pub struct DiscordFooter {
    pub text: String,
}

/// The body that the chat service sends with a failed request.
pub struct DiscordErrorResponse {
    pub code: Option<u32>,
    pub message: String,
}

/// A field as (name, value, inline).
pub open spec fn field_view(f: DiscordField) -> (Seq<char>, Seq<char>, bool) {
    (f.name@, f.value@, f.inline)
}

/// The fields of an embed as (name, value, inline) triples.
pub open spec fn fields_view(e: DiscordEmbed) -> Seq<(Seq<char>, Seq<char>, bool)> {
    e.fields@.map_values(|f: DiscordField| field_view(f))
}

/// The state of one step.
#[derive(Debug, Clone, Copy, PartialEq, Eq, Structural)]
pub enum StepStatus {
    Success,
    Pending,
    Failed,
}

/// The status that a lower-case word names, if any.
pub open spec fn status_named(word: Seq<char>) -> Option<StepStatus> {
    if word == "success"@ {
        Some(StepStatus::Success)
    } else if word == "pending"@ {
        Some(StepStatus::Pending)
    } else if word == "failed"@ {
        Some(StepStatus::Failed)
    } else {
        None
    }
}

/// The message given for a status word that names no status.
pub open spec fn invalid_status_message(s: Seq<char>) -> Seq<char> {
    "Invalid status: "@ + s + ". Must be one of: success, pending, failed"@
}

pub open spec fn emoji_of(status: StepStatus) -> Seq<char> {
    match status {
        StepStatus::Success => "✅"@,
        StepStatus::Pending => "⏳"@,
        StepStatus::Failed => "❌"@,
    }
}

pub open spec fn color_of(status: StepStatus) -> u32 {
    match status {
        StepStatus::Success => 0x57F287,
        StepStatus::Pending => 0xFEE75C,
        StepStatus::Failed => 0xED4245,
    }
}

pub open spec fn label_of(status: StepStatus) -> Seq<char> {
    match status {
        StepStatus::Success => "success"@,
        StepStatus::Pending => "pending"@,
        StepStatus::Failed => "failed"@,
    }
}

/// Whether a status ends a step.
pub open spec fn is_finished(status: StepStatus) -> bool {
    status == StepStatus::Success || status == StepStatus::Failed
}

impl StepStatus {
    /// Reads a status word in any letter case: `success`, `pending` or `failed`.
    pub fn from_str(s: &str) -> (r: Result<StepStatus, String>)
        ensures
            r is Ok <==> status_named(lowercase_of(s@)) is Some,
            r is Ok ==> r->Ok_0 == status_named(lowercase_of(s@))->0,
            r is Err ==> r->Err_0@ == invalid_status_message(s@),
    {
        let lower = to_lowercase(s);
        StepStatus::from_lowercase(s, lower.as_str())
    }

    /// Reads a status from `lower`, the lower-case form of the word `s`.
    pub fn from_lowercase(s: &str, lower: &str) -> (r: Result<StepStatus, String>)
        ensures
            r is Ok <==> status_named(lower@) is Some,
            r is Ok ==> r->Ok_0 == status_named(lower@)->0,
            r is Err ==> r->Err_0@ == invalid_status_message(s@),
    {
        let word = String::from_str(lower);
        if word == String::from_str("success") {
            Ok(StepStatus::Success)
        } else if word == String::from_str("pending") {
            Ok(StepStatus::Pending)
        } else if word == String::from_str("failed") {
            Ok(StepStatus::Failed)
        } else {
            let mut msg = String::from_str("Invalid status: ");
            msg.append(s);
            msg.append(". Must be one of: success, pending, failed");
            Err(msg)
        }
    }

    pub fn emoji(&self) -> (r: &'static str)
        ensures
            r@ == emoji_of(*self),
    {
        match self {
            StepStatus::Success => "✅",
            StepStatus::Pending => "⏳",
            StepStatus::Failed => "❌",
        }
    }

    pub fn color(&self) -> (r: u32)
        ensures
            r == color_of(*self),
    {
        match self {
            StepStatus::Success => 0x57F287,
            StepStatus::Pending => 0xFEE75C,
            StepStatus::Failed => 0xED4245,
        }
    }

    /// The lower-case word of the status.
    pub fn label(&self) -> (r: &'static str)
        ensures
            r@ == label_of(*self),
    {
        match self {
            StepStatus::Success => "success",
            StepStatus::Pending => "pending",
            StepStatus::Failed => "failed",
        }
    }
}

/// Key/value pairs as pairs of texts.
pub open spec fn pairs_view(v: Seq<(String, String)>) -> Seq<(Seq<char>, Seq<char>)> {
    v.map_values(|p: (String, String)| (p.0@, p.1@))
}

/// What a step is, as plain values.
pub struct StepView {
    pub number: u32,
    pub name: Seq<char>,
    pub status: StepStatus,
    pub info: Seq<(Seq<char>, Seq<char>)>,
    pub started_at: int,
    pub completed_at: Option<int>,
}

pub open spec fn millis_of(t: Option<Timestamp>) -> Option<int> {
    match t {
        Some(t) => Some(t.millis as int),
        None => None,
    }
}

/// One tracked unit of pipeline work.
#[derive(Debug, Clone)]
pub struct StepInfo {
    pub number: u32,
    pub name: String,
    pub status: StepStatus,
    pub additional_info: Vec<(String, String)>,
    pub started_at: Timestamp,
    pub completed_at: Option<Timestamp>,
}

impl View for StepInfo {
    type V = StepView;

    open spec fn view(&self) -> StepView {
        StepView {
            number: self.number,
            name: self.name@,
            status: self.status,
            info: pairs_view(self.additional_info@),
            started_at: self.started_at.millis as int,
            completed_at: millis_of(self.completed_at),
        }
    }
}

/// `k1:v1, k2:v2, ...`
pub open spec fn pairs_text(p: Seq<(Seq<char>, Seq<char>)>) -> Seq<char>
    decreases p.len(),
{
    if p.len() == 0 {
        Seq::empty()
    } else if p.len() == 1 {
        p[0].0 + ":"@ + p[0].1
    } else {
        pairs_text(p.drop_last()) + ", "@ + p.last().0 + ":"@ + p.last().1
    }
}

/// The elapsed time of a step: `(+Nms)` below one second, `(+Ns)` on whole
/// seconds, `(+N.MMMs)` with `MMM` the leftover milliseconds in three digits
/// otherwise; empty
/// while the step is not done.
pub open spec fn step_duration_text(elapsed: Option<int>) -> Seq<char> {
    match elapsed {
        None => Seq::empty(),
        Some(ms) => if ms < 1000 {
            "(+"@ + signed_decimal(ms) + "ms)"@
        } else if ms % 1000 == 0 {
            "(+"@ + decimal((ms / 1000) as nat) + "s)"@
        } else {
            "(+"@ + decimal((ms / 1000) as nat) + "."@ + three_digits((ms % 1000) as nat) + "s)"@
        },
    }
}

pub open spec fn elapsed_of(s: StepView) -> Option<int> {
    match s.completed_at {
        Some(c) => Some(c - s.started_at),
        None => None,
    }
}

/// `{emoji} {number}. {name}[ {duration}][ - {k:v, ...}]`
pub open spec fn step_line(s: StepView) -> Seq<char> {
    let head = decimal(s.number as nat) + ". "@ + s.name;
    let dur = step_duration_text(elapsed_of(s));
    let with_dur = if dur.len() > 0 { head + " "@ + dur } else { head };
    let with_info = if s.info.len() > 0 {
        with_dur + " - "@ + pairs_text(s.info)
    } else {
        with_dur
    };
    emoji_of(s.status) + " "@ + with_info
}

/// A copy of key/value pairs.
pub fn copy_pairs(v: &[(String, String)]) -> (r: Vec<(String, String)>)
    ensures
        pairs_view(r@) == pairs_view(v@),
{
    let mut out: Vec<(String, String)> = Vec::new();
    let mut i: usize = 0;
    while i < v.len()
        invariant
            i <= v@.len(),
            out@.len() == i,
            pairs_view(out@) == pairs_view(v@.subrange(0, i as int)),
        decreases v@.len() - i,
    {
        let k = v[i].0.clone();
        let val = v[i].1.clone();
        let ghost prev = out@;
        out.push((k, val));
        proof {
            let sub = v@.subrange(0, i + 1);
            assert(sub.subrange(0, i as int) =~= v@.subrange(0, i as int));
            assert forall|j: int| 0 <= j < i + 1 implies #[trigger] pairs_view(out@)[j] == pairs_view(sub)[j] by {
                if j < i {
                    assert(out@[j] == prev[j]);
                    assert(pairs_view(prev)[j] == pairs_view(v@.subrange(0, i as int))[j]);
                }
            }
            assert(pairs_view(out@) =~= pairs_view(sub));
        }
        i = i + 1;
    }
    assert(v@.subrange(0, v@.len() as int) =~= v@);
    out
}

impl StepInfo {
    /// A copy of the step.
    pub fn copy(&self) -> (r: StepInfo)
        ensures
            r@ == self@,
            r.started_at == self.started_at,
            r.completed_at == self.completed_at,
    {
        StepInfo {
            number: self.number,
            name: self.name.clone(),
            status: self.status,
            additional_info: copy_pairs(self.additional_info.as_slice()),
            started_at: self.started_at,
            completed_at: self.completed_at,
        }
    }

    /// A step started now, not yet completed.
    pub fn new(number: u32, name: String, status: StepStatus, additional_info: Vec<(String, String)>) -> (r: StepInfo)
        ensures
            r@.number == number,
            r@.name == name@,
            r@.status == status,
            r@.info == pairs_view(additional_info@),
            r.started_at.in_range(),
            r@.completed_at is None,
    {
        StepInfo::new_at(number, name, status, additional_info, current_time())
    }

    /// A step started at `at`, not yet completed.
    pub fn new_at(
        number: u32,
        name: String,
        status: StepStatus,
        additional_info: Vec<(String, String)>,
        at: Timestamp,
    ) -> (r: StepInfo)
        ensures
            r@ == (StepView {
                number,
                name: name@,
                status,
                info: pairs_view(additional_info@),
                started_at: at.millis as int,
                completed_at: None,
            }),
            r.started_at == at,
    {
        StepInfo { number, name, status, additional_info, started_at: at, completed_at: None }
    }

    /// Stamps the step as completed now.
    pub fn mark_completed(&mut self)
        ensures
            final(self)@.completed_at is Some,
            final(self).completed_at->0.in_range(),
            final(self)@ == (StepView { completed_at: final(self)@.completed_at, ..old(self)@ }),
    {
        self.mark_completed_at(current_time());
    }

    /// Stamps the step as completed at `at`.
    pub fn mark_completed_at(&mut self, at: Timestamp)
        ensures
            final(self)@ == (StepView { completed_at: Some(at.millis as int), ..old(self)@ }),
            final(self).started_at == old(self).started_at,
    {
        self.completed_at = Some(at);
    }

    /// Milliseconds from start to completion, once completed.
    pub fn duration(&self) -> (r: Option<i128>)
        ensures
            r is Some <==> elapsed_of(self@) is Some,
            r is Some ==> r->0 as int == elapsed_of(self@)->0,
    {
        match self.completed_at {
            Some(c) => Some(c.millis as i128 - self.started_at.millis as i128),
            None => None,
        }
    }

    /// The elapsed time as text; empty while not completed.
    pub fn format_duration(&self) -> (r: String)
        ensures
            r@ == step_duration_text(elapsed_of(self@)),
    {
        let mut out = String::new();
        match self.duration() {
            None => {},
            Some(ms) => {
                out.append("(+");
                if ms < 1000 {
                    push_signed_decimal(&mut out, ms);
                    out.append("ms)");
                } else {
                    let whole: u128 = (ms / 1000) as u128;
                    let rest: u128 = (ms % 1000) as u128;
                    push_decimal(&mut out, whole);
                    if rest == 0 {
                        out.append("s)");
                    } else {
                        out.append(".");
                        push_three_digits(&mut out, rest);
                        out.append("s)");
                    }
                }
            },
        }
        assert(out@ =~= step_duration_text(elapsed_of(self@)));
        out
    }

    /// The one-line form of the step.
    pub fn format_for_embed(&self) -> (r: String)
        ensures
            r@ == step_line(self@),
    {
        let mut line = String::new();
        line.append(self.status.emoji());
        line.append(" ");
        push_decimal(&mut line, self.number as u128);
        line.append(". ");
        line.append(self.name.as_str());
        let dur = self.format_duration();
        if dur.unicode_len() > 0 {
            line.append(" ");
            line.append(dur.as_str());
        }
        let n = self.additional_info.len();
        if n > 0 {
            line.append(" - ");
            let ghost before = line@;
            let ghost p = self@.info;
            let mut i: usize = 0;
            while i < n
                invariant
                    n == self.additional_info@.len(),
                    p == pairs_view(self.additional_info@),
                    i <= n,
                    line@ == before + pairs_text(p.subrange(0, i as int)),
                decreases n - i,
            {
                if i > 0 {
                    line.append(", ");
                }
                line.append(self.additional_info[i].0.as_str());
                line.append(":");
                line.append(self.additional_info[i].1.as_str());
                proof {
                    let q = p.subrange(0, i + 1);
                    assert(q.drop_last() =~= p.subrange(0, i as int));
                }
                i = i + 1;
            }
            assert(p.subrange(0, n as int) =~= p);
        }
        assert(line@ =~= step_line(self@));
        line
    }
}

} // verus!
