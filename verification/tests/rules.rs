use tower_builder::catalog::{building, BUILDING_COUNT};
use tower_builder::game::{Contact, Game, Landing, StepOutcome};

fn fresh() -> Game {
    Game::new(42)
}

/// Releases the carried slab and lands it with `contact`.
fn place(g: &mut Game, contact: Contact) -> StepOutcome {
    g.drop_block();
    assert!(g.is_falling());
    assert!(g.can_land());
    g.tick(Some(contact))
}

#[test]
fn catalog_starts_small_and_ends_tall() {
    let first = building(0);
    assert_eq!(first.name, "DLF CyberHub");
    assert_eq!(first.category, "Retail");
    assert_eq!(first.floors, 4);
    assert_eq!(first.height_m, 18);
    assert_eq!(first.color.r, 160);
    let last = building(BUILDING_COUNT - 1);
    assert_eq!(last.name, "DLF The Camellias");
    assert_eq!(last.floors, 38);
    assert_eq!(last.height_m, 156);
}

#[test]
fn catalog_ordered_by_floors() {
    for i in 1..BUILDING_COUNT {
        assert!(building(i - 1).floors <= building(i).floors);
    }
}

#[test]
fn catalog_categories_are_known() {
    for i in 0..BUILDING_COUNT {
        let c = building(i).category;
        assert!(c == "Residential" || c == "Commercial" || c == "Retail");
    }
}

#[test]
fn new_game_is_empty() {
    let g = fresh();
    assert_eq!(g.score(), 0);
    assert_eq!(g.combo(), 0);
    assert_eq!(g.floors_placed(), 0);
    assert_eq!(g.floors_total(), 0);
    assert_eq!(g.current(), 0);
    assert_eq!(g.target_floors(), 4);
    assert!(g.is_carrying());
    assert!(!g.is_falling());
    assert!(!g.game_over());
    assert_eq!(g.current_building().name, "DLF CyberHub");
}

#[test]
fn tick_without_a_falling_slab_is_quiet() {
    let mut g = fresh();
    assert_eq!(g.tick(None), StepOutcome::default());
    assert_eq!(g.tick(Some(Contact::Missed)), StepOutcome::default());
    assert_eq!(g.score(), 0);
}

#[test]
fn slab_in_the_air_lands_later() {
    let mut g = fresh();
    g.drop_block();
    assert_eq!(g.tick(None), StepOutcome::default());
    assert!(g.is_falling());
    assert!(!g.is_carrying());
}

#[test]
fn foundation_is_perfect_even_when_it_misses() {
    let mut g = fresh();
    let o = place(&mut g, Contact::Missed);
    assert!(o.placed && o.perfect && !o.game_over && !o.building_done);
    assert_eq!(o.landing, Some(Landing::Foundation));
    assert_eq!(o.gained, 90);
    assert_eq!(g.combo(), 1);
    assert_eq!(g.score(), 90);
    assert_eq!(g.floors_placed(), 1);
    assert!(g.is_carrying());
}

#[test]
fn combo_scoring_and_reset() {
    let mut g = fresh();
    assert_eq!(place(&mut g, Contact::Aligned).gained, 90);
    let o = place(&mut g, Contact::Aligned);
    assert_eq!(o.landing, Some(Landing::Snap));
    assert_eq!(o.gained, 130);
    assert_eq!(g.combo(), 2);
    let o = place(&mut g, Contact::Overlapping);
    assert_eq!(o.landing, Some(Landing::Trim));
    assert!(o.placed && !o.perfect);
    assert_eq!(o.gained, 30);
    assert_eq!(g.combo(), 0);
    assert_eq!(g.score(), 250);
}

#[test]
fn building_completes_on_its_last_floor() {
    let mut g = fresh();
    for _ in 0..3 {
        let o = place(&mut g, Contact::Aligned);
        assert!(!o.building_done);
        assert_eq!(g.current(), 0);
    }
    let o = place(&mut g, Contact::Aligned);
    assert!(o.building_done);
    // 50 + 40 * 4 for the fourth perfect drop, plus the building bonus.
    assert_eq!(o.gained, 210 + 2000);
    assert_eq!(g.current(), 1);
    assert_eq!(g.floors_placed(), 0);
    assert_eq!(g.floors_total(), 4);
    assert_eq!(g.score(), 90 + 130 + 170 + 210 + 2000);
    assert_eq!(g.target_floors(), 5);
}

#[test]
fn catalog_wraps_after_the_last_building() {
    let mut g = fresh();
    let mut done = 0;
    while done < BUILDING_COUNT {
        let o = place(&mut g, Contact::Overlapping);
        if o.building_done {
            done += 1;
        }
    }
    assert_eq!(g.current(), 0);
    let total: u32 = (0..BUILDING_COUNT).map(|i| building(i).floors).sum();
    assert_eq!(g.floors_total(), total);
}

#[test]
fn miss_topples_and_ends_the_run() {
    let mut g = fresh();
    place(&mut g, Contact::Aligned);
    let before = g.score();
    let o = place(&mut g, Contact::Missed);
    assert!(o.game_over && !o.placed);
    assert_eq!(o.landing, Some(Landing::Topple));
    assert_eq!(o.gained, 0);
    assert!(g.game_over());
    assert_eq!(g.score(), before);
    assert_eq!(g.floors_placed(), 1);
    assert!(!g.is_carrying());
}

#[test]
fn game_over_is_final() {
    let mut g = fresh();
    place(&mut g, Contact::Aligned);
    place(&mut g, Contact::Missed);
    g.drop_block();
    assert!(!g.is_falling());
    let o = g.tick(Some(Contact::Aligned));
    assert!(o.game_over && !o.placed);
    assert_eq!(o.gained, 0);
    assert_eq!(g.score(), 90);
}

#[test]
fn second_drop_while_falling_does_nothing() {
    let mut g = fresh();
    g.drop_block();
    g.drop_block();
    assert!(g.is_falling());
    let o = g.tick(Some(Contact::Aligned));
    assert!(o.placed);
    assert!(!g.is_falling());
}

#[test]
fn score_only_grows_by_the_reported_gains() {
    let mut g = fresh();
    let contacts = [
        Contact::Aligned,
        Contact::Overlapping,
        Contact::Aligned,
        Contact::Aligned,
        Contact::Overlapping,
        Contact::Aligned,
    ];
    let mut sum = 0;
    for c in contacts {
        let before = g.score();
        let o = place(&mut g, c);
        assert!(g.score() >= before);
        sum += o.gained;
        assert_eq!(g.score(), sum);
    }
}
