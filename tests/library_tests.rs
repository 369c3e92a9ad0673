use chrono::DateTime;
use discord_tracker_action::error::TrackerError;
use discord_tracker_action::message_builder::{
    build_completion_embed_at, build_init_embed, build_init_embed_at, build_step_update_embed_at,
    format_duration, get_status_color,
};
use discord_tracker_action::models::{StepInfo, StepStatus};
use discord_tracker_action::pipeline_tracker::PipelineTracker;
use discord_tracker_action::storage::{parse_pr_number, MessageStorage, PipelineState};
use discord_tracker_action::text::decimal_string;
use discord_tracker_action::time::Timestamp;

fn at(ms: i64) -> Timestamp {
    Timestamp::from_millis(ms)
}

fn step_between(number: u32, status: StepStatus, start: i64, end: Option<i64>) -> StepInfo {
    let mut s = StepInfo::new_at(number, format!("Step {}", number), status, vec![], at(start));
    if let Some(e) = end {
        s.mark_completed_at(at(e));
    }
    s
}

#[test]
fn init_embed_exact_text() {
    let e = build_init_embed_at("42", "Add feature", "alice", "org/repo", "feature-x", at(0), "1970-01-01 00:00:00 UTC");
    assert_eq!(e.title, "🚀 Pipeline Started - PR #42");
    assert_eq!(
        e.description,
        "**Add feature**\n\n**Author:** alice\n**Repository:** org/repo\n**Branch:** feature-x"
    );
    assert_eq!(e.color, 0x00ff00);
    assert_eq!(e.fields[0].value, "🔄 Initializing...");
    assert_eq!(e.fields[1].value, "0/0 steps completed");
    assert!(e.fields[0].inline && e.fields[1].inline);
    assert_eq!(e.footer.unwrap().text, "Started at 1970-01-01 00:00:00 UTC");
    assert_eq!(e.timestamp, at(0));
}

#[test]
fn init_embed_footer_is_formatted_time() {
    let e = build_init_embed("1", "t", "a", "r", "b");
    let expected = DateTime::from_timestamp_millis(e.timestamp.millis)
        .unwrap()
        .format("%Y-%m-%d %H:%M:%S UTC")
        .to_string();
    let footer = e.footer.unwrap().text;
    assert_eq!(footer, format!("Started at {}", expected));
    assert!(footer.ends_with(" UTC"));
    assert!(!footer.contains(&e.timestamp.millis.to_string()));
    assert!(e.timestamp.millis > 1_500_000_000_000);
}

#[test]
fn step_update_embed_in_progress() {
    let steps = vec![
        step_between(1, StepStatus::Success, 0, Some(10)),
        step_between(2, StepStatus::Pending, 0, None),
    ];
    let e = build_step_update_embed_at("123", "Test PR", &steps, 2, 3, at(5), "now");
    assert_eq!(e.title, "🔄 Pipeline Update - PR #123");
    assert_eq!(e.description, "**Test PR**");
    assert_eq!(e.color, 0xffff00);
    assert_eq!(e.fields[0].value, "🔄 In Progress");
    assert_eq!(e.fields[1].value, "1/3 steps completed (33%)");
    assert_eq!(e.fields[2].value, "Step 2 of 3");
    assert_eq!(e.footer.unwrap().text, "Updated at now");
}

#[test]
fn step_update_percent_rounds_down_exactly() {
    let mut steps = Vec::new();
    for n in 1..=29u32 {
        steps.push(step_between(n, StepStatus::Success, 0, Some(1)));
    }
    let e = build_step_update_embed_at("1", "t", &steps, 29, 100, at(0), "x");
    assert_eq!(e.fields[1].value, "29/100 steps completed (29%)");
    let e0 = build_step_update_embed_at("1", "t", &[], 1, 0, at(0), "x");
    assert_eq!(e0.fields[1].value, "0/0 steps completed (0%)");
    assert_eq!(e0.fields[0].value, "✅ Completed");
}

#[test]
fn status_color_precedence() {
    assert_eq!(get_status_color(1, 5, 5), 0xff0000);
    assert_eq!(get_status_color(1, 0, 5), 0xff0000);
    assert_eq!(get_status_color(0, 5, 5), 0x00ff00);
    assert_eq!(get_status_color(0, 4, 5), 0xffff00);
    let steps = vec![
        step_between(1, StepStatus::Success, 0, Some(1)),
        step_between(2, StepStatus::Failed, 0, Some(1)),
    ];
    let e = build_step_update_embed_at("1", "t", &steps, 2, 2, at(0), "x");
    assert_eq!(e.color, 0xff0000);
    assert_eq!(e.fields[0].value, "❌ Failed");
    assert_eq!(e.title, "❌ Pipeline Update - PR #1");
}

#[test]
fn rendering_is_repeatable() {
    let steps = vec![step_between(1, StepStatus::Success, 0, Some(1))];
    let a = build_step_update_embed_at("9", "T", &steps, 1, 2, at(0), "first");
    let b = build_step_update_embed_at("9", "T", &steps, 1, 2, at(99_000), "second");
    assert_eq!(a.title, b.title);
    assert_eq!(a.description, b.description);
    assert_eq!(a.color, b.color);
    assert_eq!(a.fields.len(), b.fields.len());
    for (x, y) in a.fields.iter().zip(b.fields.iter()) {
        assert_eq!(x.name, y.name);
        assert_eq!(x.value, y.value);
        assert_eq!(x.inline, y.inline);
    }
}

#[test]
fn completion_embed_exact_text() {
    let steps = vec![
        step_between(1, StepStatus::Success, 0, Some(1)),
        step_between(2, StepStatus::Failed, 0, Some(1)),
    ];
    let e = build_completion_embed_at("42", "Add feature", &steps, 2, at(1_000), at(126_000), "end");
    assert_eq!(e.title, "❌ Pipeline Failed - PR #42");
    assert_eq!(e.description, "**Add feature**\n\n**Duration:** 2m 5s\n**Steps:** 1/2 completed");
    assert_eq!(e.color, 0xff0000);
    assert_eq!(e.fields[0].value, "❌ Failed");
    assert_eq!(e.fields[1].name, "Duration");
    assert_eq!(e.fields[1].value, "2m 5s");
    assert_eq!(e.footer.unwrap().text, "Completed at end");

    let ok = vec![step_between(1, StepStatus::Success, 0, Some(1))];
    let e2 = build_completion_embed_at("7", "T", &ok, 1, at(0), at(59_999), "end");
    assert_eq!(e2.title, "✅ Pipeline Completed - PR #7");
    assert_eq!(e2.color, 0x00ff00);
    assert_eq!(e2.fields[1].value, "59s");

    let partial = vec![
        step_between(1, StepStatus::Success, 0, Some(1)),
        step_between(2, StepStatus::Pending, 0, None),
    ];
    let e3 = build_completion_embed_at("7", "T", &partial, 3, at(0), at(1_000), "end");
    assert_eq!(e3.title, "✅ Pipeline Completed - PR #7");
    assert_eq!(e3.color, 0x00ff00);
    assert_eq!(e3.description, "**T**\n\n**Duration:** 1s\n**Steps:** 1/3 completed");
}

#[test]
fn pipeline_duration_text() {
    assert_eq!(format_duration(0), "0s");
    assert_eq!(format_duration(999), "0s");
    assert_eq!(format_duration(59_999), "59s");
    assert_eq!(format_duration(60_000), "1m 0s");
    assert_eq!(format_duration(125_000), "2m 5s");
    assert_eq!(format_duration(3_725_000), "62m 5s");
    assert_eq!(format_duration(-61_500), "-1s");
    assert_eq!(format_duration(-60_000), "0s");
}

#[test]
fn step_duration_and_line() {
    assert_eq!(step_between(1, StepStatus::Pending, 0, None).format_duration(), "");
    assert_eq!(step_between(1, StepStatus::Success, 0, Some(500)).format_duration(), "(+500ms)");
    assert_eq!(step_between(1, StepStatus::Success, 0, Some(2_000)).format_duration(), "(+2s)");
    assert_eq!(step_between(1, StepStatus::Success, 0, Some(1_050)).format_duration(), "(+1.050s)");
    assert_eq!(step_between(1, StepStatus::Success, 0, Some(61_007)).format_duration(), "(+61.007s)");
    assert_eq!(step_between(1, StepStatus::Success, 100, Some(40)).format_duration(), "(+-60ms)");
    assert_eq!(step_between(1, StepStatus::Success, 0, Some(1_500)).duration(), Some(1_500));

    let mut s = StepInfo::new_at(
        3,
        "Build".to_string(),
        StepStatus::Success,
        vec![("a".to_string(), "1".to_string()), ("b".to_string(), "2".to_string())],
        at(0),
    );
    s.mark_completed_at(at(1_500));
    assert_eq!(s.format_for_embed(), "✅ 3. Build (+1.500s) - a:1, b:2");
    let p = StepInfo::new_at(4, "Lint".to_string(), StepStatus::Pending, vec![], at(0));
    assert_eq!(p.format_for_embed(), "⏳ 4. Lint");
    let q = StepInfo::new_at(5, "Deploy".to_string(), StepStatus::Pending, vec![("env".to_string(), "prod".to_string())], at(0));
    assert_eq!(q.format_for_embed(), "⏳ 5. Deploy - env:prod");
}

#[test]
fn step_status_words() {
    assert_eq!(StepStatus::from_str("SUCCESS"), Ok(StepStatus::Success));
    assert_eq!(StepStatus::from_str("Failed"), Ok(StepStatus::Failed));
    assert_eq!(StepStatus::from_str("pending"), Ok(StepStatus::Pending));
    assert_eq!(
        StepStatus::from_str("done"),
        Err("Invalid status: done. Must be one of: success, pending, failed".to_string())
    );
    assert_eq!(StepStatus::from_lowercase("X", "failed"), Ok(StepStatus::Failed));
    assert!(StepStatus::from_lowercase("SUCCESS", "SUCCESS").is_err());
    assert_eq!(StepStatus::Success.emoji(), "✅");
    assert_eq!(StepStatus::Pending.emoji(), "⏳");
    assert_eq!(StepStatus::Failed.emoji(), "❌");
    assert_eq!(StepStatus::Success.color(), 0x57F287);
    assert_eq!(StepStatus::Pending.color(), 0xFEE75C);
    assert_eq!(StepStatus::Failed.color(), 0xED4245);
    assert_eq!(StepStatus::Pending.label(), "pending");
}

#[test]
fn step_started_now() {
    let s = StepInfo::new(1, "a".to_string(), StepStatus::Pending, vec![]);
    assert!(s.started_at.millis > 1_500_000_000_000);
    assert!(s.completed_at.is_none());
    let mut c = s.clone();
    c.mark_completed();
    assert!(c.completed_at.unwrap().millis >= s.started_at.millis);
}

#[test]
fn numbers_as_text() {
    assert_eq!(decimal_string(0), "0");
    assert_eq!(decimal_string(1_234_567), "1234567");
    assert_eq!(parse_pr_number("42"), 42);
    assert_eq!(parse_pr_number("+7"), 7);
    assert_eq!(parse_pr_number("4294967295"), 4_294_967_295);
    assert_eq!(parse_pr_number("4294967296"), 0);
    assert_eq!(parse_pr_number("abc"), 0);
    assert_eq!(parse_pr_number(""), 0);
    assert_eq!(parse_pr_number("+"), 0);
    assert_eq!(parse_pr_number("-1"), 0);
    assert_eq!(parse_pr_number("12a"), 0);
}

#[test]
fn storage_path_and_placeholder_state() {
    assert_eq!(MessageStorage::new("/work").get_file_path(), "/work/.discord-pipeline-state");
    assert_eq!(MessageStorage::new("/work/").get_file_path(), "/work/.discord-pipeline-state");
    let st = PipelineState::for_message_id(None, "m9", at(5));
    assert_eq!(st.message_id, "m9");
    assert_eq!(st.pr_number, 0);
    assert_eq!(st.pr_title, "Unknown");
    assert_eq!(st.branch, "Unknown");
    assert!(st.steps.is_empty());
    assert_eq!(st.pipeline_started_at, at(5));
    let again = PipelineState::for_message_id(Some(st), "m10", at(7));
    assert_eq!(again.message_id, "m10");
    assert_eq!(again.pipeline_started_at, at(5));
}

#[test]
fn end_to_end_pipeline() {
    let mut t = PipelineTracker::new("token", "42").unwrap();
    let msg = t.init_pipeline("42", "Add feature", "alice", "org/repo", "feature-x");
    assert!(msg.content.is_none());
    assert_eq!(msg.embeds.len(), 1);
    assert_eq!(msg.embeds[0].title, "🚀 Pipeline Started - PR #42");

    let snap = t.record_message_id("m1".to_string()).unwrap();
    assert_eq!(snap.message_id, "m1");
    assert_eq!(snap.pr_number, 42);
    assert_eq!(snap.pr_title, "Add feature");
    assert!(snap.steps.is_empty());

    let out = t.update_step(1, 2, "Build", "success", &[]).unwrap();
    assert_eq!(t.steps.len(), 1);
    assert_eq!(t.steps[0].number, 1);
    assert_eq!(t.steps[0].status, StepStatus::Success);
    assert!(t.steps[0].completed_at.is_some());
    let patch = out.patch.unwrap();
    assert_eq!(patch.message_id, "m1");
    assert_eq!(patch.message.embeds[0].fields[1].value, "1/2 steps completed (50%)");
    assert_eq!(out.snapshot.unwrap().steps.len(), 1);

    let info = vec![("error".to_string(), "timeout".to_string())];
    let out2 = t.update_step(2, 2, "Test", "failed", &info).unwrap();
    assert_eq!(out2.patch.unwrap().message.embeds[0].fields[0].value, "❌ Failed");
    assert_eq!(t.steps[1].additional_info, info);

    let closing = t.complete_pipeline();
    assert!(closing.clear_snapshot);
    let done = closing.patch.unwrap();
    assert_eq!(done.message_id, "m1");
    let e = &done.message.embeds[0];
    assert_eq!(e.title, "❌ Pipeline Failed - PR #42");
    assert_eq!(e.fields[0].value, "❌ Failed");
    assert!(e.description.contains("**Steps:** 1/2 completed"));
}

#[test]
fn step_update_replaces_by_number() {
    let mut t = PipelineTracker::new("token", "42").unwrap();
    t.init_pipeline_at("5", "T", "a", "r", "b", at(0), "t0");
    t.record_message_id("m".to_string());
    t.apply_step(1, 3, "Build", StepStatus::Success, &[], at(1_000), "t1").unwrap();
    let out = t.apply_step(1, 3, "Build again", StepStatus::Pending, &[], at(2_000), "t2").unwrap();
    assert_eq!(t.steps.len(), 1);
    assert_eq!(t.steps[0].name, "Build again");
    assert_eq!(t.steps[0].status, StepStatus::Pending);
    assert_eq!(t.steps[0].started_at, at(1_000));
    assert_eq!(t.steps[0].completed_at, Some(at(1_000)));
    let e = &out.patch.unwrap().message.embeds[0];
    assert_eq!(e.fields[1].value, "0/3 steps completed (0%)");
    assert_eq!(e.fields[2].value, "Step 1 of 3");
    assert_eq!(e.footer.as_ref().unwrap().text, "Updated at t2");
    let snap = out.snapshot.unwrap();
    assert_eq!(snap.pipeline_started_at, at(0));
    assert_eq!(snap.pr_number, 5);
}

#[test]
fn step_update_errors_leave_state() {
    let mut t = PipelineTracker::new("token", "42").unwrap();
    assert_eq!(t.update_step(0, 2, "a", "success", &[]).err(), Some(TrackerError::InvalidStepNumber(0)));
    assert_eq!(t.update_step(1, 0, "a", "success", &[]).err(), Some(TrackerError::InvalidTotalSteps(0)));
    assert_eq!(
        t.update_step(3, 2, "a", "success", &[]).err(),
        Some(TrackerError::StepNumberExceedsTotal(3, 2))
    );
    assert_eq!(
        t.update_step(0, 2, "a", "nope", &[]).err(),
        Some(TrackerError::InvalidStepNumber(0))
    );
    assert_eq!(
        t.update_step(1, 2, "a", "nope", &[]).err(),
        Some(TrackerError::InvalidStatus(
            "Invalid status: nope. Must be one of: success, pending, failed".to_string()
        ))
    );
    assert!(t.steps.is_empty());
}

#[test]
fn tracker_without_init_sends_nothing() {
    let mut t = PipelineTracker::new("token", "42").unwrap();
    let out = t.update_step(1, 1, "a", "SUCCESS", &[]).unwrap();
    assert!(out.patch.is_none());
    assert!(out.snapshot.is_none());
    assert_eq!(t.steps.len(), 1);
    let closing = t.complete_pipeline();
    assert!(closing.patch.is_none());
    assert!(!closing.clear_snapshot);
    assert!(t.record_message_id("m".to_string()).is_none());
}

#[test]
fn tracker_resumes_from_snapshot() {
    let mut first = PipelineTracker::new("token", "42").unwrap();
    first.init_pipeline_at("17", "T", "a", "r", "b", at(0), "t0");
    first.record_message_id("m".to_string());
    let snap = first.apply_step(1, 2, "Build", StepStatus::Success, &[], at(10), "t").unwrap().snapshot.unwrap();

    let mut second = PipelineTracker::new("token", "42").unwrap();
    assert!(second.resume(&snap));
    assert_eq!(second.message_id.as_deref(), Some("m"));
    assert_eq!(second.pr_info.as_ref().unwrap().number, "17");
    let out = second.apply_step(2, 2, "Test", StepStatus::Success, &[], at(20), "t").unwrap();
    assert_eq!(out.patch.unwrap().message.embeds[0].fields[1].value, "2/2 steps completed (100%)");
    let done = second.complete_pipeline_at(at(65_000), "t").patch.unwrap();
    assert_eq!(done.message.embeds[0].fields[1].value, "1m 5s");

    let mut no_message = PipelineTracker::new("token", "42").unwrap();
    no_message.init_pipeline_at("17", "T", "a", "r", "b", at(0), "t0");
    let closing = no_message.complete_pipeline_at(at(1_000), "t");
    assert!(closing.patch.is_none());
    assert!(closing.clear_snapshot);

    let mut bad = PipelineState::for_message_id(None, "m", at(0));
    bad.steps.push(StepInfo::new_at(1, "a".to_string(), StepStatus::Pending, vec![], at(0)));
    bad.steps.push(StepInfo::new_at(1, "b".to_string(), StepStatus::Pending, vec![], at(0)));
    let mut third = PipelineTracker::new("token", "42").unwrap();
    assert!(!third.resume(&bad));
    assert!(third.pr_info.is_none());
}
