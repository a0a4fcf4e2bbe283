use godot_core::{Export, Misuse, OnReady, Property, PropertyHintInfo};

type Init = fn() -> i32;

fn eleven() -> i32 {
    11
}

struct Health {
    points: i64,
}

impl Property for Health {
    type Intermediate = i64;

    fn get_property(&self) -> i64 {
        self.points
    }

    fn set_property(&mut self, value: i64) {
        self.points = value;
    }

    fn property_hint() -> PropertyHintInfo {
        PropertyHintInfo { hint: 1, hint_string: String::from("0,100") }
    }
}

impl Export for Health {
    fn default_export_info() -> PropertyHintInfo {
        PropertyHintInfo { hint: 2, hint_string: String::from("0,100,1") }
    }
}

#[test]
fn auto_container_yields_the_initializer_result() {
    let mut c = OnReady::new(|| 11);
    assert_eq!(c.trigger_misuse(), None);
    c.init_auto();
    assert_eq!(*c.deref(), 11);
}

#[test]
fn auto_container_runs_the_initializer_once_and_only_when_triggered() {
    let calls = std::rc::Rc::new(std::cell::Cell::new(0));
    let seen = calls.clone();
    let mut c = OnReady::new(move || {
        seen.set(seen.get() + 1);
        String::from("ready")
    });
    assert_eq!(calls.get(), 0);
    assert_eq!(c.access_misuse(), Some(Misuse::AutoUninitialized));
    assert_eq!(calls.get(), 0);
    c.init_auto();
    assert_eq!(calls.get(), 1);
    assert_eq!(c.deref().as_str(), "ready");
    assert_eq!(c.deref().as_str(), "ready");
    assert_eq!(calls.get(), 1);
}

#[test]
fn second_trigger_is_reported() {
    let mut c = OnReady::new(eleven);
    c.init_auto();
    assert_eq!(c.trigger_misuse(), Some(Misuse::DoubleTrigger));
    assert_eq!(*c.deref(), 11);
}

#[test]
fn manual_container_is_empty_until_init() {
    let mut m = OnReady::<i32, Init>::manual();
    assert_eq!(m.access_misuse(), Some(Misuse::ManualUninitialized));
    assert_eq!(m.init_misuse(), None);
    m.init(22);
    assert_eq!(m.access_misuse(), None);
    assert_eq!(*m.deref(), 22);
}

#[test]
fn second_init_is_reported() {
    let mut m = OnReady::<i32, Init>::manual();
    m.init(22);
    assert_eq!(m.init_misuse(), Some(Misuse::DoubleInit));
    assert_eq!(*m.deref(), 22);
}

#[test]
fn init_on_auto_container_is_reported_before_the_initializer_runs() {
    let calls = std::rc::Rc::new(std::cell::Cell::new(0));
    let seen = calls.clone();
    let mut c = OnReady::new(move || {
        seen.set(seen.get() + 1);
        5
    });
    assert_eq!(c.init_misuse(), Some(Misuse::ManualInitOnAuto));
    assert_eq!(calls.get(), 0);
    c.init_auto();
    assert_eq!(calls.get(), 1);
    assert_eq!(*c.deref(), 5);
}

#[test]
fn trigger_skips_a_manual_container() {
    let mut m = OnReady::<i32, Init>::manual();
    assert_eq!(m.trigger_misuse(), None);
    m.init_auto();
    assert_eq!(m.access_misuse(), Some(Misuse::ManualUninitialized));
    assert_eq!(m.init_misuse(), None);
    m.init(7);
    assert_eq!(*m.deref(), 7);
}

#[test]
fn scenario_auto_then_mutate() {
    let mut c = OnReady::new(|| 11);
    assert_eq!(c.access_misuse(), Some(Misuse::AutoUninitialized));
    c.init_auto();
    assert_eq!(c.access_misuse(), None);
    assert_eq!(*c.deref(), 11);
    *c.deref_mut() = 12;
    assert_eq!(*c.deref(), 12);
}

#[test]
fn scenario_manual_init_then_second_init() {
    let mut m = OnReady::<i32, Init>::manual();
    m.init(22);
    assert_eq!(*m.deref(), 22);
    assert_eq!(m.init_misuse(), Some(Misuse::DoubleInit));
    assert_eq!(m.init_misuse().map(Misuse::message), Some("already initialized; did you call init() more than once?"));
}

#[test]
fn misuse_messages_tell_the_modes_apart() {
    assert_eq!(Misuse::DoubleInit.message(), "already initialized; did you call init() more than once?");
    assert_eq!(Misuse::ManualInitOnAuto.message(), "cannot call init() on auto-initialized OnReady objects");
    assert_eq!(Misuse::ManualUninitialized.message(), "OnReady manual value uninitialized, did you call init()?");
    assert_eq!(
        Misuse::AutoUninitialized.message(),
        "OnReady automatic value uninitialized, is only available in ready()"
    );
    assert_eq!(Misuse::DoubleTrigger.message(), "OnReady object already initialized");
    assert_ne!(Misuse::ManualUninitialized.message(), Misuse::AutoUninitialized.message());
}

#[test]
fn property_access_passes_through_to_the_value() {
    let mut m = OnReady::<Health, fn() -> Health>::manual();
    m.init(Health { points: 40 });
    assert_eq!(m.get_property(), m.deref().get_property());
    assert_eq!(m.get_property(), 40);
    m.set_property(55);
    assert_eq!(m.get_property(), 55);
    assert_eq!(m.deref().points, 55);
}

#[test]
fn property_hint_is_that_of_the_value_type() {
    let direct = Health::property_hint();
    let through = OnReady::<Health, fn() -> Health>::property_hint();
    assert_eq!(through.hint, direct.hint);
    assert_eq!(through.hint_string, direct.hint_string);
    assert_eq!(through.hint, 1);
    assert_eq!(through.hint_string, "0,100");
}

#[test]
fn property_access_before_init_is_reported() {
    let m = OnReady::<Health, fn() -> Health>::manual();
    assert_eq!(m.access_misuse(), Some(Misuse::ManualUninitialized));
    let c = OnReady::new(|| Health { points: 1 });
    assert_eq!(c.access_misuse(), Some(Misuse::AutoUninitialized));
}

#[test]
fn export_info_is_that_of_the_value_type() {
    let direct = Health::default_export_info();
    let through = OnReady::<Health, fn() -> Health>::default_export_info();
    assert_eq!(through.hint, direct.hint);
    assert_eq!(through.hint_string, direct.hint_string);
    assert_eq!(through.hint, 2);
    assert_eq!(through.hint_string, "0,100,1");
}
