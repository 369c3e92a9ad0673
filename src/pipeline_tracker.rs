use vstd::prelude::*;
use vstd::set_lib::{lemma_int_range, lemma_len_subset, set_int_range};
use crate::discord_api::DiscordApi;
use crate::error::TrackerError;
use crate::message_builder::{
    build_completion_embed_at, build_init_embed_at, build_step_update_embed_at, completion_content,
    embed_content, footer_is, init_content, step_update_content, steps_view,
};
use crate::models::{
    copy_pairs, invalid_status_message, is_finished, pairs_view, status_named, DiscordEmbed,
    DiscordMessage, StepInfo, StepStatus, StepView,
};
use crate::storage::{parse_pr_number, pr_number_of, PipelineState};
use crate::text::{decimal, decimal_string, lowercase_of};
use crate::time::{current_time, format_utc, utc_text, Timestamp};
use crate::validation::{is_valid_channel_id, step_check, validate_step_number};

verus! {

/// The pull request that a pipeline runs for.
pub struct PrInfo {
    pub number: String,
    pub title: String,
    pub author: String,
    pub repository: String,
    pub branch: String,
}

/// An edit of the posted message.
pub struct MessagePatch {
    pub message_id: String,
    pub message: DiscordMessage,
}

/// What a step update asks the caller to do: edit the posted message, and
/// store a snapshot.
pub struct StepOutcome {
    pub patch: Option<MessagePatch>,
    pub snapshot: Option<PipelineState>,
}

/// What completion asks the caller to do: edit the posted message, and
/// remove the stored snapshot.
pub struct CompletionOutcome {
    pub patch: Option<MessagePatch>,
    pub clear_snapshot: bool,
}

/// Tracks one pipeline: the pull request, the posted message and the steps.
/// It decides what to send and what to store; the caller does the sending
/// and the storing.
pub struct PipelineTracker {
    pub api: DiscordApi,
    pub message_id: Option<String>,
    pub steps: Vec<StepInfo>,
    pub pr_info: Option<PrInfo>,
    pub pipeline_started_at: Option<Timestamp>,
}

/// No two steps share a number.
pub open spec fn unique_numbers(s: Seq<StepView>) -> bool {
    forall|i: int, j: int|
        0 <= i < s.len() && 0 <= j < s.len() && i != j ==> #[trigger] s[i].number != #[trigger] s[j].number
}

/// Every step number is at least 1.
pub open spec fn numbered_from_one(s: Seq<StepView>) -> bool {
    forall|i: int| 0 <= i < s.len() ==> #[trigger] s[i].number >= 1
}

pub open spec fn has_number(s: Seq<StepView>, number: u32) -> bool {
    exists|i: int| 0 <= i < s.len() && #[trigger] s[i].number == number
}

/// The position of the step numbered `number` (where there is one).
pub open spec fn index_of(s: Seq<StepView>, number: u32) -> int {
    choose|i: int| 0 <= i < s.len() && #[trigger] s[i].number == number
}

/// The steps after a report on step `number`: the step of that number takes
/// the new name, status and details, or is added at the end, started at
/// `now`; a finished status stamps its completion at `now`.
pub open spec fn upserted(
    s: Seq<StepView>,
    number: u32,
    name: Seq<char>,
    status: StepStatus,
    info: Seq<(Seq<char>, Seq<char>)>,
    now: int,
) -> Seq<StepView> {
    if has_number(s, number) {
        let i = index_of(s, number);
        s.update(
            i,
            StepView {
                name,
                status,
                info,
                completed_at: if is_finished(status) { Some(now) } else { s[i].completed_at },
                ..s[i]
            },
        )
    } else {
        s.push(
            StepView {
                number,
                name,
                status,
                info,
                started_at: now,
                completed_at: if is_finished(status) { Some(now) } else { None },
            },
        )
    }
}

pub open spec fn pr_info_is(
    p: PrInfo,
    number: Seq<char>,
    title: Seq<char>,
    author: Seq<char>,
    repository: Seq<char>,
    branch: Seq<char>,
) -> bool {
    &&& p.number@ == number
    &&& p.title@ == title
    &&& p.author@ == author
    &&& p.repository@ == repository
    &&& p.branch@ == branch
}

/// A message with no text and one embed of the given content.
pub open spec fn shows(
    m: DiscordMessage,
    content: (Seq<char>, Seq<char>, u32, Seq<(Seq<char>, Seq<char>, bool)>),
) -> bool {
    &&& m.content is None
    &&& m.embeds@.len() == 1
    &&& embed_content(m.embeds@[0]) == content
}

/// A snapshot of the given message, pull request, steps and start.
pub open spec fn snapshot_of(
    st: PipelineState,
    message_id: Seq<char>,
    pr: PrInfo,
    steps: Seq<StepView>,
    started: Timestamp,
) -> bool {
    &&& st.message_id@ == message_id
    &&& st.pr_number == pr_number_of(pr.number@)
    &&& st.pr_title@ == pr.title@
    &&& st.author@ == pr.author@
    &&& st.repository@ == pr.repository@
    &&& st.branch@ == pr.branch@
    &&& steps_view(st.steps@) == steps
    &&& st.pipeline_started_at == started
}

pub open spec fn id_or_empty(id: Option<String>) -> Seq<char> {
    match id {
        Some(s) => s@,
        None => Seq::empty(),
    }
}

/// What `init` does at `now`.
pub open spec fn init_applied(
    old: PipelineTracker,
    new: PipelineTracker,
    m: DiscordMessage,
    number: Seq<char>,
    title: Seq<char>,
    author: Seq<char>,
    repository: Seq<char>,
    branch: Seq<char>,
    now: Timestamp,
    now_text: Seq<char>,
) -> bool {
    &&& new.pr_info is Some
    &&& pr_info_is(new.pr_info->0, number, title, author, repository, branch)
    &&& new.pipeline_started_at == Some(now)
    &&& new.steps == old.steps
    &&& new.message_id == old.message_id
    &&& new.api == old.api
    &&& shows(m, init_content(number, title, author, repository, branch))
    &&& footer_is(m.embeds@[0], "Started at "@, now, now_text)
}

/// What a valid step report does at `now`.
pub open spec fn step_applied(
    old: PipelineTracker,
    new: PipelineTracker,
    out: StepOutcome,
    number: u32,
    total: u32,
    name: Seq<char>,
    status: StepStatus,
    info: Seq<(Seq<char>, Seq<char>)>,
    now: Timestamp,
    now_text: Seq<char>,
) -> bool {
    let steps = upserted(steps_view(old.steps@), number, name, status, info, now.millis as int);
    &&& steps_view(new.steps@) == steps
    &&& new.pr_info == old.pr_info
    &&& new.message_id == old.message_id
    &&& new.pipeline_started_at == old.pipeline_started_at
    &&& new.api == old.api
    &&& (out.patch is Some <==> old.pr_info is Some && old.message_id is Some)
    &&& out.patch is Some ==> {
        let p = out.patch->0;
        let pr = old.pr_info->0;
        &&& p.message_id@ == old.message_id->0@
        &&& shows(p.message, step_update_content(pr.number@, pr.title@, steps, number, total))
        &&& footer_is(p.message.embeds@[0], "Updated at "@, now, now_text)
    }
    &&& (out.snapshot is Some <==> old.pr_info is Some)
    &&& out.snapshot is Some ==> snapshot_of(
        out.snapshot->0,
        id_or_empty(old.message_id),
        old.pr_info->0,
        steps,
        match old.pipeline_started_at {
            Some(t) => t,
            None => now,
        },
    )
}

/// What `complete` asks for at `now`.
pub open spec fn completion_applied(
    t: PipelineTracker,
    out: CompletionOutcome,
    now: Timestamp,
    now_text: Seq<char>,
) -> bool {
    &&& (out.clear_snapshot <==> t.pr_info is Some && t.pipeline_started_at is Some)
    &&& (out.patch is Some <==> t.pr_info is Some && t.pipeline_started_at is Some && t.message_id is Some)
    &&& out.patch is Some ==> {
        let p = out.patch->0;
        let pr = t.pr_info->0;
        &&& p.message_id@ == t.message_id->0@
        &&& shows(
            p.message,
            completion_content(
                pr.number@,
                pr.title@,
                steps_view(t.steps@),
                t.steps@.len() as u32,
                now.millis - t.pipeline_started_at->0.millis,
            ),
        )
        &&& footer_is(p.message.embeds@[0], "Completed at "@, now, now_text)
    }
}

/// Distinct step numbers from 1 on are at most `u32::MAX` many.
proof fn lemma_step_count_bounded(s: Seq<StepView>)
    requires
        unique_numbers(s),
        numbered_from_one(s),
    ensures
        s.len() <= u32::MAX,
{
    let nums = s.map_values(|v: StepView| v.number as int);
    assert forall|i: int, j: int| 0 <= i < nums.len() && 0 <= j < nums.len() && i != j implies nums[i] != nums[j] by {
        assert(s[i].number != s[j].number);
    }
    nums.unique_seq_to_set();
    let range = set_int_range(1, u32::MAX + 1);
    lemma_int_range(1, u32::MAX + 1);
    assert forall|x: int| nums.to_set().contains(x) implies range.contains(x) by {
        let i = choose|i: int| 0 <= i < nums.len() && nums[i] == x;
        assert(s[i].number >= 1);
    }
    lemma_len_subset(nums.to_set(), range);
}

fn copy_steps(v: &Vec<StepInfo>) -> (r: Vec<StepInfo>)
    ensures
        steps_view(r@) == steps_view(v@),
{
    let mut out: Vec<StepInfo> = Vec::new();
    let mut i: usize = 0;
    while i < v.len()
        invariant
            i <= v@.len(),
            out@.len() == i,
            steps_view(out@) == steps_view(v@.subrange(0, i as int)),
        decreases v@.len() - i,
    {
        let s = v[i].copy();
        let ghost prev = out@;
        out.push(s);
        proof {
            let sub = v@.subrange(0, i + 1);
            assert forall|j: int| 0 <= j < i + 1 implies #[trigger] steps_view(out@)[j] == steps_view(sub)[j] by {
                if j < i {
                    assert(out@[j] == prev[j]);
                    assert(steps_view(prev)[j] == steps_view(v@.subrange(0, i as int))[j]);
                }
            }
            assert(steps_view(out@) =~= steps_view(sub));
        }
        i = i + 1;
    }
    assert(v@.subrange(0, v@.len() as int) =~= v@);
    out
}

fn one_embed(e: DiscordEmbed) -> (r: DiscordMessage)
    ensures
        r.content is None,
        r.embeds@ == seq![e],
{
    let mut embeds: Vec<DiscordEmbed> = Vec::new();
    embeds.push(e);
    assert(embeds@ =~= seq![e]);
    DiscordMessage { content: None, embeds }
}

fn snapshot(message_id: String, pr: &PrInfo, steps: &Vec<StepInfo>, started: Timestamp) -> (r: PipelineState)
    ensures
        snapshot_of(r, message_id@, *pr, steps_view(steps@), started),
{
    PipelineState {
        message_id,
        pr_number: parse_pr_number(pr.number.as_str()),
        pr_title: pr.title.clone(),
        author: pr.author.clone(),
        repository: pr.repository.clone(),
        branch: pr.branch.clone(),
        steps: copy_steps(steps),
        pipeline_started_at: started,
    }
}

fn steps_well_numbered(steps: &Vec<StepInfo>) -> (r: bool)
    ensures
        r == (unique_numbers(steps_view(steps@)) && numbered_from_one(steps_view(steps@))),
{
    let ghost v = steps_view(steps@);
    let n = steps.len();
    let mut i: usize = 0;
    while i < n
        invariant
            n == steps@.len(),
            v == steps_view(steps@),
            i <= n,
            forall|a: int, b: int| 0 <= a < i && 0 <= b < i && a != b ==> #[trigger] v[a].number != #[trigger] v[b].number,
            forall|a: int| 0 <= a < i ==> #[trigger] v[a].number >= 1,
        decreases n - i,
    {
        if steps[i].number == 0 {
            assert(v[i as int].number == 0);
            return false;
        }
        let mut j: usize = 0;
        while j < i
            invariant
                n == steps@.len(),
                v == steps_view(steps@),
                j <= i < n,
                forall|b: int| 0 <= b < j ==> #[trigger] v[b].number != v[i as int].number,
            decreases i - j,
        {
            if steps[j].number == steps[i].number {
                assert(v[j as int].number == v[i as int].number);
                return false;
            }
            j = j + 1;
        }
        i = i + 1;
    }
    true
}

impl PipelineTracker {
    /// The tracker's invariant: step numbers are distinct and at least 1.
    pub open spec fn wf(&self) -> bool {
        &&& unique_numbers(steps_view(self.steps@))
        &&& numbered_from_one(steps_view(self.steps@))
    }

    /// A tracker for the given credentials, with nothing tracked yet.
    pub fn new(bot_token: &str, channel_id: &str) -> (r: Result<PipelineTracker, TrackerError>)
        ensures
            bot_token@.len() == 0 ==> r == Err::<PipelineTracker, TrackerError>(TrackerError::InvalidBotToken),
            bot_token@.len() > 0 && !is_valid_channel_id(channel_id@) ==> r is Err && r->Err_0 is InvalidChannelId
                && r->Err_0->InvalidChannelId_0@ == channel_id@,
            r is Ok <==> bot_token@.len() > 0 && is_valid_channel_id(channel_id@),
            r is Ok ==> {
                let t = r->Ok_0;
                &&& t.wf()
                &&& t.api.bot_token@ == bot_token@
                &&& t.api.channel_id@ == channel_id@
                &&& t.message_id is None
                &&& t.steps@.len() == 0
                &&& t.pr_info is None
                &&& t.pipeline_started_at is None
            },
    {
        match DiscordApi::new(bot_token, channel_id) {
            Err(e) => Err(e),
            Ok(api) => {
                let t = PipelineTracker {
                    api,
                    message_id: None,
                    steps: Vec::new(),
                    pr_info: None,
                    pipeline_started_at: None,
                };
                assert(steps_view(t.steps@) =~= Seq::<StepView>::empty());
                Ok(t)
            },
        }
    }

    /// Takes up a pipeline from a stored snapshot: its message, pull request,
    /// start and steps. Refused (returns `false`, nothing changed) when the
    /// snapshot's step numbers repeat or include 0.
    pub fn resume(&mut self, state: &PipelineState) -> (r: bool)
        requires
            old(self).wf(),
        ensures
            final(self).wf(),
            r == (unique_numbers(steps_view(state.steps@)) && numbered_from_one(steps_view(state.steps@))),
            !r ==> *final(self) == *old(self),
            r ==> {
                &&& final(self).api == old(self).api
                &&& steps_view(final(self).steps@) == steps_view(state.steps@)
                &&& final(self).pipeline_started_at == Some(state.pipeline_started_at)
                &&& final(self).pr_info is Some
                &&& pr_info_is(
                    final(self).pr_info->0,
                    decimal(state.pr_number as nat),
                    state.pr_title@,
                    state.author@,
                    state.repository@,
                    state.branch@,
                )
                &&& (final(self).message_id is Some <==> state.message_id@.len() > 0)
                &&& final(self).message_id is Some ==> final(self).message_id->0@ == state.message_id@
            },
    {
        if !steps_well_numbered(&state.steps) {
            return false;
        }
        self.steps = copy_steps(&state.steps);
        self.pr_info = Some(PrInfo {
            number: decimal_string(state.pr_number as u128),
            title: state.pr_title.clone(),
            author: state.author.clone(),
            repository: state.repository.clone(),
            branch: state.branch.clone(),
        });
        self.pipeline_started_at = Some(state.pipeline_started_at);
        self.message_id = if state.message_id.unicode_len() > 0 {
            Some(state.message_id.clone())
        } else {
            None
        };
        true
    }

    /// Starts tracking a pull request now; returns the message to post.
    pub fn init_pipeline(
        &mut self,
        pr_number: &str,
        pr_title: &str,
        author: &str,
        repository: &str,
        branch: &str,
    ) -> (r: DiscordMessage)
        requires
            old(self).wf(),
        ensures
            final(self).wf(),
            exists|now: Timestamp|
                now.in_range() && #[trigger] init_applied(
                    *old(self),
                    *final(self),
                    r,
                    pr_number@,
                    pr_title@,
                    author@,
                    repository@,
                    branch@,
                    now,
                    utc_text(now.millis as int),
                ),
    {
        let now = current_time();
        let now_text = format_utc(now);
        let r = self.init_pipeline_at(pr_number, pr_title, author, repository, branch, now, now_text.as_str());
        assert(init_applied(
            *old(self),
            *self,
            r,
            pr_number@,
            pr_title@,
            author@,
            repository@,
            branch@,
            now,
            utc_text(now.millis as int),
        ));
        r
    }

    /// Starts tracking a pull request at `now`, whose text form is
    /// `now_text`; returns the message to post.
    pub fn init_pipeline_at(
        &mut self,
        pr_number: &str,
        pr_title: &str,
        author: &str,
        repository: &str,
        branch: &str,
        now: Timestamp,
        now_text: &str,
    ) -> (r: DiscordMessage)
        requires
            old(self).wf(),
        ensures
            final(self).wf(),
            init_applied(*old(self), *final(self), r, pr_number@, pr_title@, author@, repository@, branch@, now, now_text@),
    {
        self.pr_info = Some(PrInfo {
            number: String::from_str(pr_number),
            title: String::from_str(pr_title),
            author: String::from_str(author),
            repository: String::from_str(repository),
            branch: String::from_str(branch),
        });
        self.pipeline_started_at = Some(now);
        let embed = build_init_embed_at(pr_number, pr_title, author, repository, branch, now, now_text);
        one_embed(embed)
    }

    /// Records the identifier of the posted message; returns the snapshot to
    /// store, once a pull request is tracked.
    pub fn record_message_id(&mut self, message_id: String) -> (r: Option<PipelineState>)
        requires
            old(self).wf(),
        ensures
            final(self).wf(),
            final(self).message_id is Some,
            final(self).message_id->0@ == message_id@,
            final(self).steps == old(self).steps,
            final(self).pr_info == old(self).pr_info,
            final(self).pipeline_started_at == old(self).pipeline_started_at,
            final(self).api == old(self).api,
            r is Some <==> old(self).pr_info is Some && old(self).pipeline_started_at is Some,
            r is Some ==> snapshot_of(
                r->0,
                message_id@,
                old(self).pr_info->0,
                steps_view(old(self).steps@),
                old(self).pipeline_started_at->0,
            ),
    {
        let saved = message_id.clone();
        self.message_id = Some(message_id);
        match (&self.pr_info, self.pipeline_started_at) {
            (Some(pr), Some(started)) => Some(snapshot(saved, pr, &self.steps, started)),
            _ => None,
        }
    }

    /// Reports on a step at `now`, whose text form is `now_text`: checks the
    /// numbers, updates the step list, and returns the edit to make and the
    /// snapshot to store.
    pub fn apply_step(
        &mut self,
        step_number: u32,
        total_steps: u32,
        step_name: &str,
        status: StepStatus,
        additional_info: &[(String, String)],
        now: Timestamp,
        now_text: &str,
    ) -> (r: Result<StepOutcome, TrackerError>)
        requires
            old(self).wf(),
        ensures
            final(self).wf(),
            step_check(step_number, total_steps) is Err ==> r == Err::<StepOutcome, TrackerError>(
                step_check(step_number, total_steps)->Err_0,
            ) && *final(self) == *old(self),
            step_check(step_number, total_steps) is Ok ==> r is Ok && step_applied(
                *old(self),
                *final(self),
                r->Ok_0,
                step_number,
                total_steps,
                step_name@,
                status,
                pairs_view(additional_info@),
                now,
                now_text@,
            ),
    {
        match validate_step_number(step_number, total_steps) {
            Err(e) => { return Err(e); },
            Ok(()) => {},
        }
        let ghost old_steps = steps_view(self.steps@);
        let ghost new_steps = upserted(old_steps, step_number, step_name@, status, pairs_view(additional_info@), now.millis as int);

        let mut i: usize = 0;
        while i < self.steps.len() && self.steps[i].number != step_number
            invariant
                i <= self.steps@.len(),
                old_steps == steps_view(self.steps@),
                forall|j: int| 0 <= j < i ==> #[trigger] old_steps[j].number != step_number,
            decreases self.steps@.len() - i,
        {
            i = i + 1;
        }
        let mut step = if i < self.steps.len() {
            let prev = &self.steps[i];
            StepInfo {
                number: prev.number,
                name: String::from_str(step_name),
                status,
                additional_info: copy_pairs(additional_info),
                started_at: prev.started_at,
                completed_at: prev.completed_at,
            }
        } else {
            StepInfo::new_at(step_number, String::from_str(step_name), status, copy_pairs(additional_info), now)
        };
        if status == StepStatus::Success || status == StepStatus::Failed {
            step.mark_completed_at(now);
        }
        if i < self.steps.len() {
            proof {
                assert(old_steps[i as int].number == step_number);
                assert(has_number(old_steps, step_number));
                let k = index_of(old_steps, step_number);
                assert(k == i);
            }
            self.steps.set(i, step);
            proof {
                assert(steps_view(self.steps@) =~= new_steps);
            }
        } else {
            proof {
                assert(!has_number(old_steps, step_number));
            }
            self.steps.push(step);
            proof {
                assert(steps_view(self.steps@) =~= new_steps);
            }
        }

        let patch = match (&self.pr_info, &self.message_id) {
            (Some(pr), Some(id)) => {
                let embed = build_step_update_embed_at(
                    pr.number.as_str(),
                    pr.title.as_str(),
                    self.steps.as_slice(),
                    step_number,
                    total_steps,
                    now,
                    now_text,
                );
                Some(MessagePatch { message_id: id.clone(), message: one_embed(embed) })
            },
            _ => None,
        };
        let snapshot = match &self.pr_info {
            Some(pr) => {
                let id = match &self.message_id {
                    Some(id) => id.clone(),
                    None => String::new(),
                };
                let started = match self.pipeline_started_at {
                    Some(t) => t,
                    None => now,
                };
                Some(snapshot(id, pr, &self.steps, started))
            },
            None => None,
        };
        Ok(StepOutcome { patch, snapshot })
    }

    /// Reports on a step now: checks the numbers, then reads the status
    /// word (`success`, `pending` or `failed`, in any letter case), updates
    /// the step list, and returns the edit to make and the snapshot to store.
    pub fn update_step(
        &mut self,
        step_number: u32,
        total_steps: u32,
        step_name: &str,
        status: &str,
        additional_info: &[(String, String)],
    ) -> (r: Result<StepOutcome, TrackerError>)
        requires
            old(self).wf(),
        ensures
            final(self).wf(),
            step_check(step_number, total_steps) is Err ==> r == Err::<StepOutcome, TrackerError>(
                step_check(step_number, total_steps)->Err_0,
            ) && *final(self) == *old(self),
            step_check(step_number, total_steps) is Ok && status_named(lowercase_of(status@)) is None ==> r is Err
                && r->Err_0 is InvalidStatus && r->Err_0->InvalidStatus_0@ == invalid_status_message(status@)
                && *final(self) == *old(self),
            step_check(step_number, total_steps) is Ok && status_named(lowercase_of(status@)) is Some ==> r is Ok
                && exists|now: Timestamp|
                now.in_range() && #[trigger] step_applied(
                    *old(self),
                    *final(self),
                    r->Ok_0,
                    step_number,
                    total_steps,
                    step_name@,
                    status_named(lowercase_of(status@))->0,
                    pairs_view(additional_info@),
                    now,
                    utc_text(now.millis as int),
                ),
    {
        match validate_step_number(step_number, total_steps) {
            Err(e) => { return Err(e); },
            Ok(()) => {},
        }
        let st = match StepStatus::from_str(status) {
            Err(msg) => { return Err(TrackerError::InvalidStatus(msg)); },
            Ok(st) => st,
        };
        let now = current_time();
        let now_text = format_utc(now);
        let r = self.apply_step(step_number, total_steps, step_name, st, additional_info, now, now_text.as_str());
        assert(step_applied(
            *old(self),
            *self,
            r->Ok_0,
            step_number,
            total_steps,
            step_name@,
            st,
            pairs_view(additional_info@),
            now,
            utc_text(now.millis as int),
        ));
        r
    }

    /// Completion at `now`, whose text form is `now_text`: the closing edit
    /// of the posted message (none when no pull request or message is
    /// tracked), and whether to remove the stored snapshot (whenever a pull
    /// request and its start are tracked).
    pub fn complete_pipeline_at(&self, now: Timestamp, now_text: &str) -> (r: CompletionOutcome)
        requires
            self.wf(),
        ensures
            completion_applied(*self, r, now, now_text@),
    {
        match (&self.pr_info, self.pipeline_started_at, &self.message_id) {
            (Some(pr), Some(started), Some(id)) => {
                proof {
                    lemma_step_count_bounded(steps_view(self.steps@));
                }
                let total_steps = self.steps.len() as u32;
                let embed = build_completion_embed_at(
                    pr.number.as_str(),
                    pr.title.as_str(),
                    self.steps.as_slice(),
                    total_steps,
                    started,
                    now,
                    now_text,
                );
                CompletionOutcome {
                    patch: Some(MessagePatch { message_id: id.clone(), message: one_embed(embed) }),
                    clear_snapshot: true,
                }
            },
            (Some(_), Some(_), None) => CompletionOutcome { patch: None, clear_snapshot: true },
            _ => CompletionOutcome { patch: None, clear_snapshot: false },
        }
    }

    /// Completion now: the closing edit of the posted message (none when no
    /// pull request or message is tracked), and whether to remove the stored
    /// snapshot (whenever a pull request and its start are tracked).
    pub fn complete_pipeline(&self) -> (r: CompletionOutcome)
        requires
            self.wf(),
        ensures
            exists|now: Timestamp| now.in_range() && #[trigger] completion_applied(*self, r, now, utc_text(now.millis as int)),
    {
        let now = current_time();
        let now_text = format_utc(now);
        let r = self.complete_pipeline_at(now, now_text.as_str());
        assert(completion_applied(*self, r, now, utc_text(now.millis as int)));
        r
    }
}

} // verus!
