use shredder::hud::{clock, highlight, panel, warning_lights, Highlight, Panel};
use shredder::keys::random_key;
use shredder::resource::{stage_resources, Resource, STAGE_COUNT};
use shredder::scraper::{Scraper, ShredEvent};
use shredder::world::{StageChange, World, WorldState};
use shredder::LoadingContext;

#[test]
fn stages_start_with_their_objects() {
    let counts = [1, 14, 14, 20, 10];
    for s in 0..STAGE_COUNT {
        let rs = stage_resources(s);
        assert_eq!(rs.len(), counts[s]);
        for (i, r) in rs.iter().enumerate() {
            assert_eq!(r.id, i);
            assert!(r.alive && r.movable);
        }
    }
    let l1 = stage_resources(1);
    assert_eq!((l1[0].lubrication, l1[0].sharpening, l1[0].energy), (-1, 2, -1));
    assert_eq!((l1[13].lubrication, l1[13].sharpening, l1[13].energy), (-1, -1, 2));
    let l4 = stage_resources(4);
    assert_eq!((l4[3].lubrication, l4[3].sharpening, l4[3].energy), (-1, 3, -1));
}

#[test]
fn new_world_shows_the_email() {
    let w = World::new();
    assert_eq!(w.get_stage(), 0);
    assert_eq!(w.state, WorldState::EMAIL);
    assert_eq!(w.resources.len(), STAGE_COUNT);
    assert_eq!(w.resources[0].len(), 1);
    assert_eq!(w.timer, 0);
    assert_eq!(w.end_tick, 0);
    assert!(w.selected.is_none());
    assert!(!w.transition_running);
    let _ctx = LoadingContext {};
}

#[test]
fn start_button_starts_play_and_music() {
    let mut w = World::new();
    assert!(!w.update_state(false, false));
    assert_eq!(w.state, WorldState::EMAIL);
    assert!(w.update_state(true, false));
    assert_eq!(w.state, WorldState::PLAY);
    assert!(!w.update_state(true, true));
    assert_eq!(w.state, WorldState::PLAY);
}

fn shred_all_of_current(w: &mut World) {
    let ids: Vec<usize> = w.resources[w.get_stage()].iter().map(|r| r.id).collect();
    for id in ids {
        assert!(w.select(id));
        assert!(w.shred_selected());
        loop {
            match w.tick(false, 0) {
                ShredEvent::Shredded { resource, .. } => {
                    assert_eq!(resource, id);
                    break;
                }
                ShredEvent::Shredding { resource, .. } => assert_eq!(resource, id),
                ShredEvent::Idle => panic!("object lost"),
            }
        }
        w.drop_unmovable_selection();
        assert!(w.selected.is_none());
        w.remove_shredded();
        assert!(w.resources[w.get_stage()].iter().all(|r| r.id != id && r.alive));
        while w.scraper.waiting_key.is_some() {
            w.tick(true, 0);
        }
    }
}

#[test]
fn clearing_the_intro_moves_to_stage_one() {
    let mut w = World::new();
    w.update_state(true, false);
    assert_eq!(w.advance_when_cleared(), StageChange::Stay);
    shred_all_of_current(&mut w);
    assert!(w.resources[0].is_empty());
    assert!(w.timer > 0);
    assert_eq!(w.advance_when_cleared(), StageChange::NextStage { act: 0 });
    assert_eq!(w.get_stage(), 1);
    assert!(w.transition_running);
    w.finish_transition();
    assert!(!w.transition_running);
}

#[test]
fn whole_game_plays_through() {
    let mut w = World::new();
    w.update_state(true, false);
    for stage in 0..5 {
        assert_eq!(w.get_stage(), stage);
        shred_all_of_current(&mut w);
        let c = w.advance_when_cleared();
        if stage < 4 {
            assert_eq!(c, StageChange::NextStage { act: stage });
        } else {
            assert_eq!(c, StageChange::Moving);
        }
    }
    assert_eq!(w.state, WorldState::MOVING);
    let timer = w.timer;
    for _ in 0..121 {
        w.tick(false, 0);
        w.update_state(false, false);
    }
    assert_eq!(w.timer, timer);
    assert_eq!(w.end_tick, 121);
    assert_eq!(w.state, WorldState::FINAL);
    w.update_state(false, false);
    assert_eq!(w.state, WorldState::FINAL);
    w.update_state(false, true);
    assert_eq!(w.state, WorldState::END);
    assert!(w.scraper.shredding_hand);
    while w.scraper.shredding_hand {
        w.update_state(false, false);
        assert_eq!(w.state, WorldState::END);
        w.tick(false, 0);
    }
    w.update_state(false, false);
    assert_eq!(w.state, WorldState::BYE);
    w.update_state(true, true);
    assert_eq!(w.advance_when_cleared(), StageChange::Stay);
    assert_eq!(w.state, WorldState::BYE);
}

#[test]
fn clock_only_runs_while_playing() {
    let mut w = World::new();
    w.tick(false, 0);
    assert_eq!(w.timer, 0);
    w.update_state(true, false);
    w.tick(false, 0);
    w.tick(false, 0);
    assert_eq!(w.timer, 2);
    assert_eq!(w.end_tick, 0);
}

#[test]
fn busy_or_jammed_shredder_refuses_objects() {
    let mut w = World::new();
    w.update_state(true, false);
    w.stage = 1;
    assert!(w.select(0));
    assert!(w.shred_selected());
    assert!(w.select(1));
    assert!(!w.shred_selected());
    assert!(w.resources[1][1].movable);

    let mut w = World::new();
    w.stage = 1;
    w.scraper.waiting_key = Some(random_key(0));
    assert!(w.select(0));
    assert!(!w.shred_selected());
    assert!(w.resources[1][0].movable);
}

#[test]
fn only_movable_present_objects_are_grabbed() {
    let mut w = World::new();
    assert!(!w.select(5));
    assert!(w.selected.is_none());
    assert!(w.select(0));
    assert_eq!(w.selected, Some((0, 0)));
    w.release();
    assert!(w.selected.is_none());
    w.select(0);
    assert!(w.shred_selected());
    w.drop_unmovable_selection();
    assert!(w.selected.is_none());
    assert!(!w.select(0));
}

#[test]
fn finished_object_leaves_the_stage() {
    let mut w = World::new();
    w.stage = 2;
    w.select(8);
    assert!(w.shred_selected());
    let mut ev = w.tick(false, 0);
    while let ShredEvent::Shredding { .. } = ev {
        ev = w.tick(false, 0);
    }
    assert_eq!(ev, ShredEvent::Shredded { stage: 2, resource: 8, jammed: false });
    assert!(!w.resources[2][8].alive);
    assert_eq!(w.resources[2].len(), 14);
    w.remove_shredded();
    assert_eq!(w.resources[2].len(), 13);
    assert!(w.resources[2].iter().all(|r| r.id != 8));
    assert_eq!(w.scraper.lubrication, 8);
}

#[test]
fn office_clock() {
    assert_eq!(clock(0), (8, 0));
    assert_eq!(clock(19), (8, 0));
    assert_eq!(clock(20), (8, 1));
    assert_eq!(clock(1199), (8, 59));
    assert_eq!(clock(1200), (9, 0));
    assert_eq!(clock(20 * 60 * 10 + 20 * 5), (18, 5));
}

#[test]
fn hover_ring_colour() {
    assert_eq!(highlight(&Resource::new(0, 0, 1, 1, 1)), Highlight::Energy);
    assert_eq!(highlight(&Resource::new(0, 0, 2, 3, -1)), Highlight::Lubrication);
    assert_eq!(highlight(&Resource::new(0, 0, -1, 3, 0)), Highlight::Sharpening);
    assert_eq!(highlight(&Resource::new(0, 0, 0, 0, 0)), Highlight::Nothing);
}

#[test]
fn warning_lights_and_panel() {
    let mut s = Scraper::new();
    assert_eq!(warning_lights(&s), (false, false, false));
    s.lubrication = 2;
    s.energy = 3;
    s.sharpening = 0;
    assert_eq!(warning_lights(&s), (true, false, true));
    assert_eq!(panel(&s), Panel::Clear);
    s.waiting_key = Some(random_key(1));
    assert_eq!(panel(&s), Panel::JammedKeyUp);
    s.key_down = true;
    assert_eq!(panel(&s), Panel::JammedKeyDown);
}

#[test]
fn held_object_keeps_its_stage_across_a_stage_change() {
    let mut w = World::new();
    w.stage = 1;
    assert!(w.select(2));
    assert_eq!(w.selected, Some((1, 2)));
    w.next_stage();
    assert_eq!(w.get_stage(), 2);
    w.drop_unmovable_selection();
    assert_eq!(w.selected, Some((1, 2)));
    assert!(w.shred_selected());
    assert!(!w.resources[1][2].movable);
    assert!(w.resources[2][2].movable);
    let mut ev = w.tick(false, 0);
    while let ShredEvent::Shredding { stage, resource, .. } = ev {
        assert_eq!((stage, resource), (1, 2));
        ev = w.tick(false, 0);
    }
    assert_eq!(ev, ShredEvent::Shredded { stage: 1, resource: 2, jammed: false });
    assert!(!w.resources[1][2].alive);
    assert!(w.resources[2][2].alive);
}

#[test]
fn stage_number_counts_stage_changes() {
    let mut w = World::new();
    for k in 0..4 {
        assert_eq!(w.get_stage(), k);
        assert_eq!(w.next_stage(), k);
        assert!(w.transition_running);
    }
    assert_eq!(w.get_stage(), 4);
}
