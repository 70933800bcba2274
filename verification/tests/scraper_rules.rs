use shredder::keys::{random_key, Key, RANDOM_KEY_COUNT};
use shredder::resource::Resource;
use shredder::scraper::{
    Scraper, ShredEvent, LAST_SHRED_TICKS, MAX_STAT, MAX_TIME, MIN_TIME, TARGET_PRESS,
};

fn with_stats(lubrication: i8, sharpening: i8, energy: i8) -> Scraper {
    let mut s = Scraper::new();
    s.lubrication = lubrication;
    s.sharpening = sharpening;
    s.energy = energy;
    s
}

#[test]
fn random_key_picks_each_key_in_order() {
    let expected = [
        ("A", Key::A),
        ("X", Key::X),
        ("K", Key::K),
        ("Q", Key::Q),
        ("P", Key::P),
        ("T", Key::T),
        ("L", Key::L),
        ("O", Key::O),
        ("H", Key::H),
        ("M", Key::M),
    ];
    assert_eq!(RANDOM_KEY_COUNT, 10);
    for (i, e) in expected.iter().enumerate() {
        assert_eq!(random_key(i), *e);
        assert_eq!(e.1.label(), e.0);
    }
}

#[test]
fn new_scraper_is_full_and_idle() {
    let s = Scraper::new();
    assert_eq!(s.lubrication, MAX_STAT);
    assert_eq!(s.sharpening, MAX_STAT);
    assert_eq!(s.energy, MAX_STAT);
    assert!(s.current_ressource_shredded.is_none());
    assert!(s.waiting_key.is_none());
    assert_eq!(s.current_shredding_tick, 0);
    assert_eq!(s.target_shredding_tick, 0);
    assert_eq!(s.current_press, 0);
    assert_eq!(s.tick_press, 0);
    assert!(!s.key_down);
    assert!(!s.shredding_hand);
}

#[test]
fn speed_full_and_empty_stats() {
    assert_eq!(Scraper::new().get_speed(), MIN_TIME);
    assert_eq!(with_stats(0, 0, 0).get_speed(), MAX_TIME);
}

#[test]
fn speed_follows_single_precision_quotient() {
    assert_eq!(with_stats(1, 0, 0).get_speed(), 179);
    assert_eq!(with_stats(1, 1, 0).get_speed(), 89);
    assert_eq!(with_stats(1, 1, 1).get_speed(), 60);
    assert_eq!(with_stats(2, 1, 1).get_speed(), 44);
    assert_eq!(with_stats(2, 2, 1).get_speed(), 36);
    assert_eq!(with_stats(3, 2, 2).get_speed(), 25);
    assert_eq!(with_stats(10, 10, 10).get_speed(), 6);
    assert_eq!(with_stats(60, 60, 60).get_speed(), 1);
    assert_eq!(with_stats(127, 127, 127).get_speed(), 0);
    assert_eq!(with_stats(-1, 0, 0).get_speed(), -179);
    assert_eq!(with_stats(-5, -5, -5).get_speed(), -12);
}

#[test]
fn more_stats_never_slower() {
    let mut prev = with_stats(1, 0, 0).get_speed();
    for sum in 2..=120i8 {
        let t = with_stats(sum, 0, 0).get_speed();
        assert!(t <= prev);
        prev = t;
    }
}

#[test]
fn shred_takes_object_and_sets_target() {
    let mut s = Scraper::new();
    let mut r = Resource::new(1, 3, -1, 2, -1);
    s.shred(&mut r);
    assert!(!r.movable);
    assert!(r.alive);
    assert_eq!(s.current_ressource_shredded, Some(r));
    assert_eq!(s.current_shredding_tick, 0);
    assert_eq!(s.target_shredding_tick, 12);
}

#[test]
fn shred_lasts_target_plus_two_ticks() {
    let mut s = Scraper::new();
    let mut r = Resource::new(1, 3, -1, 2, -1);
    s.shred(&mut r);
    for t in 0..13 {
        assert_eq!(
            s.tick(false, 0),
            ShredEvent::Shredding { stage: 1, resource: 3, target_ticks: 12 }
        );
        assert_eq!(s.current_shredding_tick, t + 1);
    }
    assert_eq!(s.tick(false, 0), ShredEvent::Shredded { stage: 1, resource: 3, jammed: false });
    assert_eq!(s.lubrication, 4);
    assert_eq!(s.sharpening, 7);
    assert_eq!(s.energy, 4);
    assert!(s.current_ressource_shredded.is_none());
    assert_eq!(s.tick(false, 0), ShredEvent::Idle);
}

#[test]
fn empty_stat_jams_with_drawn_key() {
    let mut s = with_stats(0, 5, 5);
    let mut r = Resource::new(2, 7, -1, 0, 1);
    s.shred(&mut r);
    let target = s.target_shredding_tick;
    assert_eq!(target, 18);
    for _ in 0..=target {
        s.tick(false, 4);
    }
    assert_eq!(s.tick(false, 4), ShredEvent::Shredded { stage: 2, resource: 7, jammed: true });
    assert_eq!(s.lubrication, 0);
    assert_eq!(s.energy, 6);
    assert_eq!(s.waiting_key, Some(("P", Key::P)));
}

fn jammed() -> Scraper {
    let mut s = Scraper::new();
    s.waiting_key = Some(random_key(2));
    s
}

#[test]
fn jam_stays_without_presses() {
    let mut s = jammed();
    for _ in 0..500 {
        s.tick(false, 0);
        assert!(s.waiting_key.is_some());
        assert!(s.current_press <= TARGET_PRESS);
    }
}

#[test]
fn six_presses_clear_a_jam() {
    let mut s = jammed();
    for _ in 0..5 {
        s.tick(true, 0);
        assert!(s.waiting_key.is_some());
    }
    s.tick(true, 0);
    assert!(s.waiting_key.is_none());
    assert_eq!(s.current_press, 0);
}

#[test]
fn key_blinks_and_pressure_leaks() {
    let mut s = jammed();
    s.current_press = 4;
    for _ in 0..13 {
        s.tick(false, 0);
    }
    assert_eq!(s.tick_press, 13);
    assert!(!s.key_down);
    assert_eq!(s.current_press, 4);
    s.tick(false, 0);
    assert_eq!(s.tick_press, 0);
    assert!(s.key_down);
    assert_eq!(s.current_press, 3);
}

#[test]
fn last_shred_runs_hand_for_its_ticks() {
    let mut s = Scraper::new();
    s.last_shred();
    assert!(s.shredding_hand);
    assert_eq!(s.target_shredding_tick, LAST_SHRED_TICKS);
    for _ in 0..=LAST_SHRED_TICKS {
        assert_eq!(s.tick(false, 0), ShredEvent::Idle);
        assert!(s.shredding_hand);
    }
    s.tick(false, 0);
    assert!(!s.shredding_hand);
}

#[test]
fn final_hand_runs_182_minus_start_ticks() {
    for c in [0, 5, 90, 181] {
        let mut s = Scraper::new();
        s.current_shredding_tick = c;
        s.last_shred();
        for n in 0..(182 - c) {
            assert!(s.shredding_hand, "start {} after {}", c, n);
            assert_eq!(s.current_shredding_tick, c + n);
            s.tick(n % 3 == 0, (n % 10) as usize);
        }
        assert!(!s.shredding_hand);
        assert_eq!(s.current_shredding_tick, 181);
        for _ in 0..5 {
            s.tick(true, 1);
            assert!(!s.shredding_hand);
            assert_eq!(s.current_shredding_tick, 181);
        }
    }
}

#[test]
fn shred_length_ignores_presses_and_draws() {
    let mut s = Scraper::new();
    let mut r = Resource::new(1, 0, 2, 2, 2);
    s.shred(&mut r);
    let target = s.target_shredding_tick;
    for n in 0..=target {
        assert!(s.current_ressource_shredded.is_some());
        s.tick(n % 2 == 0, (n % 10) as usize);
        assert_eq!(s.current_shredding_tick, n + 1);
    }
    assert!(matches!(s.tick(true, 3), ShredEvent::Shredded { stage: 1, resource: 0, .. }));
}
