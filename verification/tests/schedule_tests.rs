use llmrs::schedule::{generation_logits_range, step_plan, val_num_batches, StepPlan};

#[test]
fn validation_batches_are_capped() {
    assert_eq!(val_num_batches(100_000, 4, 1024, 20), 20);
    assert_eq!(val_num_batches(10_000, 4, 1024, 20), 2);
    assert_eq!(val_num_batches(100, 4, 1024, 20), 0);
}

#[test]
fn first_step_evaluates_and_trains() {
    assert_eq!(step_plan(0, 10, 20, 20), StepPlan { evaluate: true, sample: false, train: true });
}

#[test]
fn last_step_evaluates_samples_and_stops() {
    assert_eq!(step_plan(10, 10, 20, 20), StepPlan { evaluate: true, sample: true, train: false });
}

#[test]
fn periodic_steps() {
    assert_eq!(step_plan(20, 100, 20, 30), StepPlan { evaluate: true, sample: false, train: true });
    assert_eq!(step_plan(30, 100, 20, 30), StepPlan { evaluate: false, sample: true, train: true });
    assert_eq!(step_plan(7, 100, 20, 30), StepPlan { evaluate: false, sample: false, train: true });
}

#[test]
fn step_zero_needs_no_sample_period() {
    assert_eq!(step_plan(0, 5, 1, 0), StepPlan { evaluate: true, sample: false, train: true });
}

#[test]
fn generation_reads_previous_row() {
    assert_eq!(generation_logits_range(1, 50304, 50257), (0, 50257));
    assert_eq!(generation_logits_range(3, 50304, 50257), (100608, 100608 + 50257));
}
