use biased_work_queue::{work_stage_1, work_stage_2};

#[test]
fn work_stages_run_to_completion() {
    work_stage_1(4);
    work_stage_2();
}
