use ddc_brightness::reader::{ReadAction, ReadPhase, ReadTask, DEFAULT_BRIGHTNESS};
use ddc_brightness::registry::DisplayRef;
use ddc_brightness::vcp::DDCA_Non_Table_Vcp_Value;

#[test]
fn failed_open_returns_the_default_without_further_calls() {
    let mut task = ReadTask::new(DisplayRef { id: 7 });
    let action = task.on_open_result(-3, false);
    assert_eq!(action, ReadAction::Finish);
    assert_eq!(task.phase, ReadPhase::Done { value: DEFAULT_BRIGHTNESS });
    assert_eq!(task.phase, ReadPhase::Done { value: 50 });
}

#[test]
fn open_without_a_valid_handle_returns_the_default() {
    let mut task = ReadTask::new(DisplayRef { id: 7 });
    let action = task.on_open_result(0, false);
    assert_eq!(action, ReadAction::Finish);
    assert_eq!(task.phase, ReadPhase::Done { value: 50 });
}

#[test]
fn successful_query_returns_the_decoded_current_value() {
    let mut task = ReadTask::new(DisplayRef { id: 7 });
    assert_eq!(task.on_open_result(0, true), ReadAction::QueryBrightness);
    let value = DDCA_Non_Table_Vcp_Value { sh: 0, sl: 73, mh: 0, ml: 100 };
    assert_eq!(task.on_query_result(0, &value), ReadAction::CloseDisplay);
    assert_eq!(task.on_close_result(0), 73);
    assert_eq!(task.phase, ReadPhase::Done { value: 73 });
}

#[test]
fn oversized_decoded_value_saturates_at_255() {
    let mut task = ReadTask::new(DisplayRef { id: 7 });
    task.on_open_result(0, true);
    let value = DDCA_Non_Table_Vcp_Value { sh: 1, sl: 44, mh: 3, ml: 232 };
    task.on_query_result(0, &value);
    assert_eq!(task.on_close_result(0), 255);
}

#[test]
fn failed_query_falls_back_to_the_default_but_still_closes() {
    let mut task = ReadTask::new(DisplayRef { id: 7 });
    task.on_open_result(0, true);
    let zeroed = DDCA_Non_Table_Vcp_Value { sh: 0, sl: 0, mh: 0, ml: 0 };
    let action = task.on_query_result(-110, &zeroed);
    assert_eq!(action, ReadAction::CloseDisplay);
    assert_eq!(task.on_close_result(0), DEFAULT_BRIGHTNESS);
}

#[test]
fn failing_close_does_not_change_the_read_value() {
    let mut task = ReadTask::new(DisplayRef { id: 7 });
    task.on_open_result(0, true);
    let value = DDCA_Non_Table_Vcp_Value { sh: 0, sl: 90, mh: 0, ml: 100 };
    task.on_query_result(0, &value);
    assert_eq!(task.on_close_result(-7), 90);
}
