use sapin::cmd::CONFIG_RELOADED_EVENT;
use sapin::config::{AppConfig, ConfigData};
use sapin::menu::MenuItemId;
use sapin::reload::{reload, LoadEffect};
use sapin::shape::{Dot, Shape, ShapeSize};
use sapin::watch::{WatchEvent, WatchReaction, WatchState};

fn dot_doc() -> ConfigData {
    ConfigData {
        crosshair: None,
        dot: Some(Dot { radius: 4 }),
        twix: None,
        color: Some("red".to_string()),
        alpha_bits: None,
        debug: None,
        position: None,
        protected: None,
    }
}

#[test]
fn reload_notifies_once_with_the_stored_value() {
    let mut slot = AppConfig::default();
    let effects = reload(Some(dot_doc()), &mut slot);
    assert_eq!(slot.shape, Shape::Dot(Dot { radius: 4 }));
    assert_eq!(slot.size, ShapeSize::new(8, 8));
    assert_eq!(slot.color, "red");
    assert_eq!(effects.len(), 2);
    let notified: Vec<&AppConfig> = effects
        .iter()
        .filter_map(|e| match e {
            LoadEffect::Notify(c) => Some(c),
            LoadEffect::SetupWindow(_) => None,
        })
        .collect();
    assert_eq!(notified.len(), 1);
    assert_eq!(notified[0].shape, slot.shape);
    assert_eq!(notified[0].color, slot.color);
    assert!(matches!(&effects[0], LoadEffect::SetupWindow(c) if c.size == slot.size));
    assert_eq!(CONFIG_RELOADED_EVENT, "config-reloaded");
}

#[test]
fn reload_without_document_restores_default() {
    let mut slot = AppConfig::resolve(Some(dot_doc()));
    let effects = reload(None, &mut slot);
    assert_eq!(slot.size, ShapeSize::square(22));
    assert_eq!(slot.color, "green");
    assert!(matches!(&effects[1], LoadEffect::Notify(c) if c.color == "green"));
}

#[test]
fn startup_load_does_not_notify() {
    let (config, effects) = AppConfig::load(None, false);
    assert_eq!(config.size, ShapeSize::square(22));
    assert_eq!(effects.len(), 1);
    assert!(matches!(&effects[0], LoadEffect::SetupWindow(_)));
    let (_, effects) = AppConfig::load(None, true);
    assert_eq!(effects.len(), 2);
}

#[test]
fn missing_file_is_never_watched() {
    let state = WatchState::start(false);
    assert_eq!(state, WatchState::Skipped);
    assert!(!state.should_register());
    // the file appearing later changes nothing
    let state = state.registered(true);
    assert_eq!(state, WatchState::Skipped);
    assert_eq!(state.on_event(WatchEvent::Changed), WatchReaction::Ignore);
    assert_eq!(state.on_event(WatchEvent::Error), WatchReaction::Ignore);
}

#[test]
fn existing_file_is_watched_and_reloads() {
    let state = WatchState::start(true);
    assert!(state.should_register());
    let state = state.registered(true);
    assert_eq!(state, WatchState::Watching);
    assert_eq!(state.on_event(WatchEvent::Changed), WatchReaction::Reload);
    assert_eq!(state.on_event(WatchEvent::Error), WatchReaction::LogError);
}

#[test]
fn failed_registration_is_not_retried() {
    let state = WatchState::start(true).registered(false);
    assert_eq!(state, WatchState::Failed);
    assert!(!state.should_register());
    assert_eq!(state.registered(true), WatchState::Failed);
    assert_eq!(state.on_event(WatchEvent::Changed), WatchReaction::Ignore);
}

#[test]
fn menu_ids_round_trip() {
    for item in [MenuItemId::ShowHide, MenuItemId::Config, MenuItemId::Reload, MenuItemId::Quit] {
        assert_eq!(MenuItemId::from_id(&item.id().to_string()), Some(item));
    }
    assert_eq!(MenuItemId::ShowHide.id(), "ShowHide");
    assert_eq!(MenuItemId::ShowHide.label(), "Show/Hide");
    assert_eq!(MenuItemId::Quit.label(), "Quit");
    assert_eq!(MenuItemId::from_id(&"Other".to_string()), None);
}
