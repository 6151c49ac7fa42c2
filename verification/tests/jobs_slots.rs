use jobdash::job::{CommandSpec, JobError, SlotId};
use jobdash::model::Model;

fn cmd(program: &str, args: &[&str]) -> CommandSpec {
    CommandSpec {
        program: program.chars().collect(),
        args: args.iter().map(|a| a.chars().collect()).collect(),
    }
}

#[test]
fn long_command_titles_are_truncated_with_ellipsis() {
    let mut m = Model::new();
    m.start_job(SlotId::First, &cmd("cargo", &["run", "--release"])).unwrap();
    let title: String = m.job1.title.iter().collect();
    assert_eq!(title, "cargo r...");
}

#[test]
fn short_command_titles_stay_whole() {
    let mut m = Model::new();
    m.start_job(SlotId::Second, &cmd("ls", &["-l"])).unwrap();
    let title: String = m.job2.title.iter().collect();
    assert_eq!(title, "ls -l");
}

#[test]
fn starting_installs_a_fresh_empty_buffer() {
    let mut m = Model::new();
    m.start_job(SlotId::First, &cmd("server", &[])).unwrap();
    let b = m.job1.buffer.as_ref().expect("running slot has a buffer");
    assert_eq!(b.len(), 0);
}

#[test]
fn start_on_an_occupied_slot_reports_and_leaves_the_job_untouched() {
    let mut m = Model::new();
    m.start_job(SlotId::First, &cmd("server", &[])).unwrap();
    m.append_log(SlotId::First, "ready".to_string());
    let r = m.start_job(SlotId::First, &cmd("other", &["arg"]));
    assert_eq!(r, Err(JobError::AlreadyRunning));
    let title: String = m.job1.title.iter().collect();
    assert_eq!(title, "server");
    let lines = m.job1.buffer.as_ref().unwrap().snapshot();
    assert_eq!(lines, vec!["ready".to_string()]);
}

#[test]
fn the_two_slots_run_independently() {
    let mut m = Model::new();
    m.start_job(SlotId::First, &cmd("one", &[])).unwrap();
    m.start_job(SlotId::Second, &cmd("two", &[])).unwrap();
    m.append_log(SlotId::First, "a".to_string());
    m.append_log(SlotId::Second, "b".to_string());
    m.append_log(SlotId::Second, "c".to_string());
    assert_eq!(m.job1.buffer.as_ref().unwrap().snapshot(), vec!["a".to_string()]);
    assert_eq!(
        m.job2.buffer.as_ref().unwrap().snapshot(),
        vec!["b".to_string(), "c".to_string()]
    );
}

#[test]
fn output_for_an_idle_slot_is_dropped() {
    let mut m = Model::new();
    m.append_log(SlotId::First, "stray".to_string());
    assert!(m.job1.buffer.is_none());
    assert!(m.job2.buffer.is_none());
}

#[test]
fn already_running_error_has_its_message() {
    assert_eq!(JobError::AlreadyRunning.text(), "Job is already running.");
}

#[test]
fn a_command_without_args_titles_as_its_program() {
    let mut m = Model::new();
    m.start_job(SlotId::First, &cmd("1234567890", &[])).unwrap();
    let title: String = m.job1.title.iter().collect();
    assert_eq!(title, "1234567890");
}

#[test]
fn an_eleven_character_command_is_cut_to_seven_plus_ellipsis() {
    let mut m = Model::new();
    m.start_job(SlotId::First, &cmd("12345678901", &[])).unwrap();
    let title: String = m.job1.title.iter().collect();
    assert_eq!(title, "1234567...");
}
