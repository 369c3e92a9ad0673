use vstd::prelude::*;
use crate::models::{DiscordEmbed, DiscordField, DiscordFooter, StepInfo, StepStatus, StepView, fields_view};
use crate::text::{decimal, push_decimal};
use crate::time::{Timestamp, current_time, format_utc, utc_text};

verus! {

pub const RED: u32 = 0xff0000;
pub const GREEN: u32 = 0x00ff00;
pub const YELLOW: u32 = 0xffff00;

/// The steps as plain values.
pub open spec fn steps_view(steps: Seq<StepInfo>) -> Seq<StepView> {
    steps.map_values(|s: StepInfo| s@)
}

/// How many of `steps` have `status`.
pub open spec fn count_status(steps: Seq<StepView>, status: StepStatus) -> nat
    decreases steps.len(),
{
    if steps.len() == 0 {
        0
    } else {
        count_status(steps.drop_last(), status) + if steps.last().status == status { 1nat } else { 0nat }
    }
}

/// The overall state: any failure first, then all steps done, else running.
pub enum Overall {
    Failed,
    Completed,
    InProgress,
}

pub open spec fn overall(failed: nat, completed: nat, total: nat) -> Overall {
    if failed > 0 {
        Overall::Failed
    } else if completed == total {
        Overall::Completed
    } else {
        Overall::InProgress
    }
}

pub open spec fn overall_color(o: Overall) -> u32 {
    match o {
        Overall::Failed => RED,
        Overall::Completed => GREEN,
        Overall::InProgress => YELLOW,
    }
}

pub open spec fn overall_emoji(o: Overall) -> Seq<char> {
    match o {
        Overall::Failed => "❌"@,
        Overall::Completed => "✅"@,
        Overall::InProgress => "🔄"@,
    }
}

pub open spec fn overall_text(o: Overall) -> Seq<char> {
    match o {
        Overall::Failed => "Failed"@,
        Overall::Completed => "Completed"@,
        Overall::InProgress => "In Progress"@,
    }
}

/// Whole percent of `total` that `completed` makes, rounded down; 0 when
/// `total` is 0.
pub open spec fn percent(completed: nat, total: nat) -> nat {
    if total > 0 { (completed * 100) / total } else { 0 }
}

/// Title, description, colour and fields of an embed.
pub open spec fn embed_content(e: DiscordEmbed) -> (Seq<char>, Seq<char>, u32, Seq<(Seq<char>, Seq<char>, bool)>) {
    (e.title@, e.description@, e.color, fields_view(e))
}

pub open spec fn footer_is(e: DiscordEmbed, prefix: Seq<char>, now: Timestamp, now_text: Seq<char>) -> bool {
    &&& e.footer is Some
    &&& e.footer->0.text@ == prefix + now_text
    &&& e.timestamp == now
}

pub open spec fn init_content(
    pr_number: Seq<char>,
    pr_title: Seq<char>,
    author: Seq<char>,
    repository: Seq<char>,
    branch: Seq<char>,
) -> (Seq<char>, Seq<char>, u32, Seq<(Seq<char>, Seq<char>, bool)>) {
    (
        "🚀 Pipeline Started - PR #"@ + pr_number,
        "**"@ + pr_title + "**\n\n**Author:** "@ + author + "\n**Repository:** "@ + repository
            + "\n**Branch:** "@ + branch,
        GREEN,
        seq![("Status"@, "🔄 Initializing..."@, true), ("Progress"@, "0/0 steps completed"@, true)],
    )
}

pub open spec fn step_update_content(
    pr_number: Seq<char>,
    pr_title: Seq<char>,
    steps: Seq<StepView>,
    current_step: u32,
    total_steps: u32,
) -> (Seq<char>, Seq<char>, u32, Seq<(Seq<char>, Seq<char>, bool)>) {
    let completed = count_status(steps, StepStatus::Success);
    let failed = count_status(steps, StepStatus::Failed);
    let o = overall(failed, completed, total_steps as nat);
    (
        overall_emoji(o) + " Pipeline Update - PR #"@ + pr_number,
        "**"@ + pr_title + "**"@,
        overall_color(o),
        seq![
            ("Status"@, overall_emoji(o) + " "@ + overall_text(o), true),
            ("Progress"@, decimal(completed) + "/"@ + decimal(total_steps as nat) + " steps completed ("@
                + decimal(percent(completed, total_steps as nat)) + "%)"@, true),
            ("Current Step"@, "Step "@ + decimal(current_step as nat) + " of "@ + decimal(total_steps as nat), true),
        ],
    )
}

/// An elapsed time given in milliseconds as `{m}m {s}s` from one minute on,
/// else `{s}s`, with whole seconds truncated toward zero and `s` the seconds
/// past the minute (the minutes do not roll over into hours).
pub open spec fn elapsed_text(ms: int) -> Seq<char> {
    let secs = (if ms < 0 { -ms } else { ms }) / 1000;
    if ms >= 0 && secs >= 60 {
        decimal((secs / 60) as nat) + "m "@ + decimal((secs % 60) as nat) + "s"@
    } else if ms < 0 && secs % 60 != 0 {
        "-"@ + decimal((secs % 60) as nat) + "s"@
    } else {
        decimal((secs % 60) as nat) + "s"@
    }
}

pub open spec fn completion_outcome(failed: nat) -> Overall {
    if failed > 0 { Overall::Failed } else { Overall::Completed }
}

pub open spec fn completion_content(
    pr_number: Seq<char>,
    pr_title: Seq<char>,
    steps: Seq<StepView>,
    total_steps: u32,
    elapsed_ms: int,
) -> (Seq<char>, Seq<char>, u32, Seq<(Seq<char>, Seq<char>, bool)>) {
    let completed = count_status(steps, StepStatus::Success);
    let failed = count_status(steps, StepStatus::Failed);
    let o = completion_outcome(failed);
    (
        overall_emoji(o) + " Pipeline "@ + overall_text(o) + " - PR #"@ + pr_number,
        "**"@ + pr_title + "**\n\n**Duration:** "@ + elapsed_text(elapsed_ms) + "\n**Steps:** "@
            + decimal(completed) + "/"@ + decimal(total_steps as nat) + " completed"@,
        overall_color(o),
        seq![
            ("Status"@, overall_emoji(o) + " "@ + overall_text(o), true),
            ("Duration"@, elapsed_text(elapsed_ms), true),
        ],
    )
}

/// The colour of a step-update embed follows a fixed precedence: red when
/// any step failed, whatever the number completed; else green when the
/// completed steps reach the total; else yellow. A completion embed knows no
/// running state: red when any step failed, else green.
pub proof fn lemma_status_color_precedence(
    pr_number: Seq<char>,
    pr_title: Seq<char>,
    steps: Seq<StepView>,
    current_step: u32,
    total_steps: u32,
    elapsed_ms: int,
)
    ensures
        ({
            let completed = count_status(steps, StepStatus::Success);
            let failed = count_status(steps, StepStatus::Failed);
            let update = step_update_content(pr_number, pr_title, steps, current_step, total_steps).2;
            let done = completion_content(pr_number, pr_title, steps, total_steps, elapsed_ms).2;
            &&& failed > 0 ==> update == RED && done == RED
            &&& failed == 0 ==> done == GREEN
            &&& failed == 0 && completed == total_steps ==> update == GREEN
            &&& failed == 0 && completed != total_steps ==> update == YELLOW
        }),
{
}

/// Rendering is repeatable: two step-update embeds rendered from the same
/// pull request, steps, current step and total have the same title,
/// description, colour and fields, whenever each was rendered; the same
/// holds of two init embeds rendered from the same pull request.
pub proof fn lemma_rendering_repeatable(
    e1: DiscordEmbed,
    e2: DiscordEmbed,
    pr_number: Seq<char>,
    pr_title: Seq<char>,
    author: Seq<char>,
    repository: Seq<char>,
    branch: Seq<char>,
    steps: Seq<StepView>,
    current_step: u32,
    total_steps: u32,
)
    ensures
        embed_content(e1) == step_update_content(pr_number, pr_title, steps, current_step, total_steps)
            && embed_content(e2) == step_update_content(pr_number, pr_title, steps, current_step, total_steps)
            ==> e1.title@ == e2.title@ && e1.description@ == e2.description@ && e1.color == e2.color
            && fields_view(e1) == fields_view(e2),
        embed_content(e1) == init_content(pr_number, pr_title, author, repository, branch)
            && embed_content(e2) == init_content(pr_number, pr_title, author, repository, branch)
            ==> e1.title@ == e2.title@ && e1.description@ == e2.description@ && e1.color == e2.color
            && fields_view(e1) == fields_view(e2),
{
}

fn field(name: &str, value: String) -> (r: DiscordField)
    ensures
        r.name@ == name@,
        r.value@ == value@,
        r.inline,
{
    DiscordField { name: String::from_str(name), value, inline: true }
}

fn footer(prefix: &str, now_text: &str) -> (r: Option<DiscordFooter>)
    ensures
        r is Some,
        r->0.text@ == prefix@ + now_text@,
{
    let mut text = String::from_str(prefix);
    text.append(now_text);
    Some(DiscordFooter { text })
}

fn two_fields(a: DiscordField, b: DiscordField) -> (r: Vec<DiscordField>)
    ensures
        r@.map_values(|f: DiscordField| crate::models::field_view(f)) == seq![
            crate::models::field_view(a),
            crate::models::field_view(b),
        ],
{
    let ghost (va, vb) = (crate::models::field_view(a), crate::models::field_view(b));
    let mut v: Vec<DiscordField> = Vec::new();
    v.push(a);
    v.push(b);
    assert(v@.map_values(|f: DiscordField| crate::models::field_view(f)) =~= seq![va, vb]);
    v
}

/// Counts the steps with status `Success` and with status `Failed`.
fn count_outcomes(steps: &[StepInfo]) -> (r: (usize, usize))
    ensures
        r.0 as nat == count_status(steps_view(steps@), StepStatus::Success),
        r.1 as nat == count_status(steps_view(steps@), StepStatus::Failed),
{
    let mut completed: usize = 0;
    let mut failed: usize = 0;
    let mut i: usize = 0;
    while i < steps.len()
        invariant
            i <= steps@.len(),
            completed <= i,
            failed <= i,
            completed as nat == count_status(steps_view(steps@.subrange(0, i as int)), StepStatus::Success),
            failed as nat == count_status(steps_view(steps@.subrange(0, i as int)), StepStatus::Failed),
        decreases steps@.len() - i,
    {
        proof {
            let next = steps_view(steps@.subrange(0, i + 1));
            assert(next.drop_last() =~= steps_view(steps@.subrange(0, i as int)));
            assert(next.last() == steps@[i as int]@);
        }
        if steps[i].status == StepStatus::Success {
            completed = completed + 1;
        } else if steps[i].status == StepStatus::Failed {
            failed = failed + 1;
        }
        i = i + 1;
    }
    assert(steps@.subrange(0, steps@.len() as int) =~= steps@);
    (completed, failed)
}

/// Colour of the pipeline: red on any failure, else green when every step
/// is done, else yellow.
pub fn get_status_color(failed_steps: usize, completed_steps: usize, total_steps: u32) -> (r: u32)
    ensures
        r == overall_color(overall(failed_steps as nat, completed_steps as nat, total_steps as nat)),
{
    if failed_steps > 0 {
        RED
    } else if completed_steps == total_steps as usize {
        GREEN
    } else {
        YELLOW
    }
}

fn status_words(failed: usize, completed: usize, total: u32) -> (r: (&'static str, &'static str))
    ensures
        r.0@ == overall_emoji(overall(failed as nat, completed as nat, total as nat)),
        r.1@ == overall_text(overall(failed as nat, completed as nat, total as nat)),
{
    if failed > 0 {
        ("❌", "Failed")
    } else if completed == total as usize {
        ("✅", "Completed")
    } else {
        ("🔄", "In Progress")
    }
}

/// The embed of a freshly started pipeline, stamped with the current time.
pub fn build_init_embed(pr_number: &str, pr_title: &str, author: &str, repository: &str, branch: &str) -> (r: DiscordEmbed)
    ensures
        embed_content(r) == init_content(pr_number@, pr_title@, author@, repository@, branch@),
        r.timestamp.in_range(),
        footer_is(r, "Started at "@, r.timestamp, utc_text(r.timestamp.millis as int)),
{
    let now = current_time();
    let now_text = format_utc(now);
    build_init_embed_at(pr_number, pr_title, author, repository, branch, now, now_text.as_str())
}

/// The embed of a freshly started pipeline, stamped with `now`, whose text
/// form is `now_text`.
pub fn build_init_embed_at(
    pr_number: &str,
    pr_title: &str,
    author: &str,
    repository: &str,
    branch: &str,
    now: Timestamp,
    now_text: &str,
) -> (r: DiscordEmbed)
    ensures
        embed_content(r) == init_content(pr_number@, pr_title@, author@, repository@, branch@),
        footer_is(r, "Started at "@, now, now_text@),
{
    let mut title = String::from_str("🚀 Pipeline Started - PR #");
    title.append(pr_number);
    let mut description = String::from_str("**");
    description.append(pr_title);
    description.append("**\n\n**Author:** ");
    description.append(author);
    description.append("\n**Repository:** ");
    description.append(repository);
    description.append("\n**Branch:** ");
    description.append(branch);
    let fields = two_fields(
        field("Status", String::from_str("🔄 Initializing...")),
        field("Progress", String::from_str("0/0 steps completed")),
    );
    let r = DiscordEmbed {
        title,
        description,
        color: GREEN,
        fields,
        footer: footer("Started at ", now_text),
        timestamp: now,
    };
    assert(embed_content(r) =~~= init_content(pr_number@, pr_title@, author@, repository@, branch@));
    r
}

/// The embed of a pipeline in progress, stamped with the current time.
pub fn build_step_update_embed(
    pr_number: &str,
    pr_title: &str,
    steps: &[StepInfo],
    current_step: u32,
    total_steps: u32,
) -> (r: DiscordEmbed)
    ensures
        embed_content(r) == step_update_content(pr_number@, pr_title@, steps_view(steps@), current_step, total_steps),
        r.timestamp.in_range(),
        footer_is(r, "Updated at "@, r.timestamp, utc_text(r.timestamp.millis as int)),
{
    let now = current_time();
    let now_text = format_utc(now);
    build_step_update_embed_at(pr_number, pr_title, steps, current_step, total_steps, now, now_text.as_str())
}

/// The embed of a pipeline in progress, stamped with `now`, whose text form
/// is `now_text`.
pub fn build_step_update_embed_at(
    pr_number: &str,
    pr_title: &str,
    steps: &[StepInfo],
    current_step: u32,
    total_steps: u32,
    now: Timestamp,
    now_text: &str,
) -> (r: DiscordEmbed)
    ensures
        embed_content(r) == step_update_content(pr_number@, pr_title@, steps_view(steps@), current_step, total_steps),
        footer_is(r, "Updated at "@, now, now_text@),
{
    let (completed, failed) = count_outcomes(steps);
    let percent_done: u128 = if total_steps > 0 {
        (completed as u128 * 100) / total_steps as u128
    } else {
        0
    };
    let (emoji, status_text) = status_words(failed, completed, total_steps);

    let mut title = String::from_str(emoji);
    title.append(" Pipeline Update - PR #");
    title.append(pr_number);
    let mut description = String::from_str("**");
    description.append(pr_title);
    description.append("**");

    let mut status_value = String::from_str(emoji);
    status_value.append(" ");
    status_value.append(status_text);
    let mut progress = String::new();
    push_decimal(&mut progress, completed as u128);
    progress.append("/");
    push_decimal(&mut progress, total_steps as u128);
    progress.append(" steps completed (");
    push_decimal(&mut progress, percent_done);
    progress.append("%)");
    let mut current = String::from_str("Step ");
    push_decimal(&mut current, current_step as u128);
    current.append(" of ");
    push_decimal(&mut current, total_steps as u128);

    let f0 = field("Status", status_value);
    let f1 = field("Progress", progress);
    let f2 = field("Current Step", current);
    let ghost views = seq![
        crate::models::field_view(f0),
        crate::models::field_view(f1),
        crate::models::field_view(f2),
    ];
    let mut fields: Vec<DiscordField> = Vec::new();
    fields.push(f0);
    fields.push(f1);
    fields.push(f2);
    assert(fields@.map_values(|f: DiscordField| crate::models::field_view(f)) =~= views);

    let r = DiscordEmbed {
        title,
        description,
        color: get_status_color(failed, completed, total_steps),
        fields,
        footer: footer("Updated at ", now_text),
        timestamp: now,
    };
    assert(embed_content(r) =~~= step_update_content(pr_number@, pr_title@, steps_view(steps@), current_step, total_steps));
    r
}

/// Appends the text of an elapsed time of `ms` milliseconds.
fn push_elapsed(out: &mut String, ms: i128)
    ensures
        final(out)@ == old(out)@ + elapsed_text(ms as int),
{
    let magnitude: u128 = if ms < 0 { ((-(ms + 1)) as u128) + 1 } else { ms as u128 };
    let secs: u128 = magnitude / 1000;
    if ms >= 0 && secs >= 60 {
        push_decimal(out, secs / 60);
        out.append("m ");
        push_decimal(out, secs % 60);
        out.append("s");
    } else if ms < 0 && secs % 60 != 0 {
        out.append("-");
        push_decimal(out, secs % 60);
        out.append("s");
    } else {
        push_decimal(out, secs % 60);
        out.append("s");
    }
    assert(final(out)@ =~= old(out)@ + elapsed_text(ms as int));
}

/// The elapsed time of a pipeline as text (see `elapsed_text`).
pub fn format_duration(ms: i128) -> (r: String)
    ensures
        r@ == elapsed_text(ms as int),
{
    let mut out = String::new();
    push_elapsed(&mut out, ms);
    assert(out@ =~= elapsed_text(ms as int));
    out
}

/// The summary embed of a finished pipeline started at `start_time`,
/// stamped with the current time.
pub fn build_completion_embed(
    pr_number: &str,
    pr_title: &str,
    steps: &[StepInfo],
    total_steps: u32,
    start_time: Timestamp,
) -> (r: DiscordEmbed)
    ensures
        embed_content(r) == completion_content(
            pr_number@,
            pr_title@,
            steps_view(steps@),
            total_steps,
            r.timestamp.millis - start_time.millis,
        ),
        r.timestamp.in_range(),
        footer_is(r, "Completed at "@, r.timestamp, utc_text(r.timestamp.millis as int)),
{
    let now = current_time();
    let now_text = format_utc(now);
    build_completion_embed_at(pr_number, pr_title, steps, total_steps, start_time, now, now_text.as_str())
}

/// The summary embed of a finished pipeline started at `start_time`,
/// stamped with `now`, whose text form is `now_text`.
pub fn build_completion_embed_at(
    pr_number: &str,
    pr_title: &str,
    steps: &[StepInfo],
    total_steps: u32,
    start_time: Timestamp,
    now: Timestamp,
    now_text: &str,
) -> (r: DiscordEmbed)
    ensures
        embed_content(r) == completion_content(
            pr_number@,
            pr_title@,
            steps_view(steps@),
            total_steps,
            now.millis - start_time.millis,
        ),
        footer_is(r, "Completed at "@, now, now_text@),
{
    let (completed, failed) = count_outcomes(steps);
    let elapsed: i128 = now.millis as i128 - start_time.millis as i128;
    let (emoji, status_text) = if failed > 0 {
        ("❌", "Failed")
    } else {
        ("✅", "Completed")
    };

    let mut title = String::from_str(emoji);
    title.append(" Pipeline ");
    title.append(status_text);
    title.append(" - PR #");
    title.append(pr_number);

    let mut description = String::from_str("**");
    description.append(pr_title);
    description.append("**\n\n**Duration:** ");
    push_elapsed(&mut description, elapsed);
    description.append("\n**Steps:** ");
    push_decimal(&mut description, completed as u128);
    description.append("/");
    push_decimal(&mut description, total_steps as u128);
    description.append(" completed");

    let mut status_value = String::from_str(emoji);
    status_value.append(" ");
    status_value.append(status_text);
    let fields = two_fields(field("Status", status_value), field("Duration", format_duration(elapsed)));

    let r = DiscordEmbed {
        title,
        description,
        color: if failed > 0 { RED } else { GREEN },
        fields,
        footer: footer("Completed at ", now_text),
        timestamp: now,
    };
    assert(embed_content(r) =~~= completion_content(
        pr_number@,
        pr_title@,
        steps_view(steps@),
        total_steps,
        now.millis - start_time.millis,
    ));
    r
}

} // verus!
