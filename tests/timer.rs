use pushrod::callbacks::CallbackEvent;
use pushrod::point::{Point, Size};
use pushrod::timer_widget::TimerWidget;
use pushrod::widget::Widget;

const FIRED: Option<CallbackEvent> = Some(CallbackEvent::TimerTriggered { widget_id: 0 });

#[test]
fn timer_fires_only_past_timeout_and_restarts() {
    let mut t = TimerWidget::new_at(1000);
    t.set_timeout(50);
    t.tick_at(1030);
    assert_eq!(t.inject_event(), None);
    t.tick_at(1060);
    assert_eq!(t.inject_event(), FIRED);
    // the period restarted at 1060
    t.tick_at(1100);
    assert_eq!(t.inject_event(), None);
    t.tick_at(1111);
    assert_eq!(t.inject_event(), FIRED);
}

#[test]
fn timer_does_not_fire_at_exactly_the_timeout() {
    let mut t = TimerWidget::new_at(1000);
    t.set_timeout(50);
    t.tick_at(1050);
    assert_eq!(t.inject_event(), None);
    t.tick_at(1051);
    assert_eq!(t.inject_event(), FIRED);
}

#[test]
fn injected_event_is_handed_out_once() {
    let mut t = TimerWidget::new_at(0);
    t.set_timeout(10);
    t.tick_at(20);
    assert_eq!(t.inject_event(), FIRED);
    assert_eq!(t.inject_event(), None);
}

#[test]
fn disabled_timer_ignores_ticks_and_reenable_restarts() {
    let mut t = TimerWidget::new_at(100);
    t.set_enabled_at(false, 100);
    for now in [200u64, 300, 10_000] {
        t.tick_at(now);
        assert_eq!(t.inject_event(), None);
    }
    t.set_enabled_at(true, 20_000);
    t.tick_at(20_000);
    assert_eq!(t.inject_event(), None);
    t.tick_at(20_001);
    assert_eq!(t.inject_event(), FIRED);
}

#[test]
fn lowering_timeout_fires_on_next_tick() {
    let mut t = TimerWidget::new_at(0);
    t.set_timeout(1000);
    t.tick_at(300);
    assert_eq!(t.inject_event(), None);
    t.set_timeout(100);
    t.tick_at(301);
    assert_eq!(t.inject_event(), FIRED);
}

#[test]
fn zero_timeout_fires_every_tick_that_moves_the_clock() {
    let mut t = TimerWidget::new_at(500);
    t.tick_at(500);
    assert_eq!(t.inject_event(), None);
    t.tick_at(501);
    assert_eq!(t.inject_event(), FIRED);
    t.tick_at(502);
    assert_eq!(t.inject_event(), FIRED);
}

#[test]
fn clock_going_backwards_counts_as_no_time() {
    let mut t = TimerWidget::new_at(5000);
    t.set_timeout(10);
    t.tick_at(10);
    assert_eq!(t.inject_event(), None);
}

#[test]
fn timer_geometry_is_zero_in_every_state() {
    let mut t = TimerWidget::new();
    assert_eq!(t.get_origin(), Point { x: 0, y: 0 });
    assert_eq!(t.get_size(), Size { w: 0, h: 0 });
    t.set_enabled(false);
    t.set_timeout(77);
    assert_eq!(t.get_origin(), Point { x: 0, y: 0 });
    assert_eq!(t.get_size(), Size { w: 0, h: 0 });
    assert!(t.is_invalidated());
    assert!(t.injects_events());
}

#[test]
fn disabled_timer_draw_injects_nothing() {
    let mut t = TimerWidget::new();
    t.set_enabled(false);
    t.draw();
    t.draw();
    assert_eq!(t.inject_event(), None);
}

#[test]
fn draw_ticks_the_timer_on_the_clock() {
    let mut t = TimerWidget::new_at(0);
    t.set_timeout(10);
    t.draw();
    assert_eq!(t.inject_event(), FIRED);
}
