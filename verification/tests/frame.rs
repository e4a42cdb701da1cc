use opendyslexic::app::TemplateApp;
use opendyslexic::events::{UiAction, UiEvent};

#[test]
fn a_click_raises_the_value_by_one_unit() {
    let mut s = TemplateApp::default();
    let action = s.handle_event(&UiEvent::IncrementClicked);
    assert_eq!(action, UiAction::Continue);
    assert_eq!(s.value(), 4000);
}

#[test]
fn a_drag_clamps_to_the_slider_range() {
    let mut s = TemplateApp::default();
    s.handle_event(&UiEvent::SliderSet(15000));
    assert_eq!(s.value(), 10000);
    s.handle_event(&UiEvent::SliderSet(-1));
    assert_eq!(s.value(), 0);
    s.handle_event(&UiEvent::SliderSet(2500));
    assert_eq!(s.value(), 2500);
}

#[test]
fn an_edit_replaces_the_label_and_keeps_the_value() {
    let mut s = TemplateApp::default();
    s.handle_event(&UiEvent::LabelEdited(String::from("typed text")));
    assert_eq!(s.label().as_str(), "typed text");
    assert_eq!(s.value(), 3000);
}

#[test]
fn quit_asks_to_stop_and_leaves_the_state_alone() {
    let mut s = TemplateApp::default();
    let action = s.handle_event(&UiEvent::QuitClicked);
    assert_eq!(action, UiAction::Quit);
    assert_eq!(s.label().as_str(), "OpenDyslexic");
    assert_eq!(s.value(), 3000);
}

#[test]
fn a_frame_applies_its_events_in_order() {
    let mut s = TemplateApp::default();
    let events = vec![
        UiEvent::LabelEdited(String::from("hi")),
        UiEvent::SliderSet(9999),
        UiEvent::IncrementClicked,
        UiEvent::IncrementClicked,
    ];
    let action = s.render_frame(&events);
    assert_eq!(action, UiAction::Continue);
    assert_eq!(s.label().as_str(), "hi");
    assert_eq!(s.value(), 11999);
}

#[test]
fn a_frame_with_a_quit_click_reports_it() {
    let mut s = TemplateApp::default();
    let events = vec![UiEvent::IncrementClicked, UiEvent::QuitClicked];
    let action = s.render_frame(&events);
    assert_eq!(action, UiAction::Quit);
    assert_eq!(s.value(), 4000);
}

#[test]
fn an_empty_frame_changes_nothing() {
    let mut s = TemplateApp::default();
    let action = s.render_frame(&Vec::new());
    assert_eq!(action, UiAction::Continue);
    assert_eq!(s.label().as_str(), "OpenDyslexic");
    assert_eq!(s.value(), 3000);
}

#[test]
fn later_events_of_a_frame_see_earlier_ones() {
    let mut s = TemplateApp::default();
    let events = vec![
        UiEvent::SliderSet(10000),
        UiEvent::IncrementClicked,
        UiEvent::LabelEdited(String::from("first")),
        UiEvent::LabelEdited(String::from("second")),
    ];
    s.render_frame(&events);
    assert_eq!(s.value(), 11000);
    assert_eq!(s.label().as_str(), "second");
}
