use opendyslexic::app::TemplateApp;

#[test]
fn persisted_bytes_hold_the_label_under_its_key() {
    let s = TemplateApp::default();
    assert_eq!(s.persist(), b"label:OpenDyslexic".to_vec());
}

#[test]
fn persist_then_reload_keeps_label_and_resets_value() {
    let mut s = TemplateApp::default();
    s.set_label(String::from("X"));
    s.set_value(7000);
    let bytes = s.persist();
    let t = TemplateApp::new(Some(&bytes));
    assert_eq!(t.label().as_str(), "X");
    assert_eq!(t.value(), 3000);
}

#[test]
fn round_trip_keeps_an_empty_label() {
    let mut s = TemplateApp::default();
    s.set_label(String::new());
    let t = TemplateApp::decode(&s.persist());
    assert_eq!(t.label().as_str(), "");
    assert_eq!(t.value(), 3000);
}

#[test]
fn round_trip_keeps_a_label_beyond_ascii() {
    let mut s = TemplateApp::default();
    s.set_label(String::from("Füße 🦀"));
    let t = TemplateApp::decode(&s.persist());
    assert_eq!(t.label().as_str(), "Füße 🦀");
}

#[test]
fn absent_storage_yields_the_default_state() {
    let s = TemplateApp::new(None);
    assert_eq!(s.label().as_str(), "OpenDyslexic");
    assert_eq!(s.value(), 3000);
}

#[test]
fn empty_bytes_yield_the_default_state() {
    let s = TemplateApp::decode(&Vec::new());
    assert_eq!(s.label().as_str(), "OpenDyslexic");
    assert_eq!(s.value(), 3000);
}

#[test]
fn bytes_without_the_key_yield_the_default_state() {
    let s = TemplateApp::decode(&b"garbage".to_vec());
    assert_eq!(s.label().as_str(), "OpenDyslexic");
    assert_eq!(s.value(), 3000);
    let t = TemplateApp::decode(&b"Label:X".to_vec());
    assert_eq!(t.label().as_str(), "OpenDyslexic");
}

#[test]
fn ill_formed_text_after_the_key_yields_the_default_state() {
    let mut bytes = b"label:".to_vec();
    bytes.push(0xff);
    bytes.push(0xfe);
    let s = TemplateApp::decode(&bytes);
    assert_eq!(s.label().as_str(), "OpenDyslexic");
    assert_eq!(s.value(), 3000);
}

#[test]
fn the_key_alone_yields_an_empty_label() {
    let s = TemplateApp::decode(&b"label:".to_vec());
    assert_eq!(s.label().as_str(), "");
    assert_eq!(s.value(), 3000);
}

#[test]
fn reload_decodes_stored_text_rather_than_echoing_bytes() {
    let s = TemplateApp::decode(&b"label:hi there".to_vec());
    assert_eq!(s.label().as_str(), "hi there");
}
