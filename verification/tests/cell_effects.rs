use game_field::cell_feature::{
    BlockFeature, CellStatus, CellType, DamageFeature, ItemFeature, NormalFeature, WallFeature,
};
use game_field::circle::{Circle, Direction};
use game_field::collision_handler::CollisionFrame;
use game_field::constants::Rgb;
use game_field::error_handling::GameOverError;

fn some_cell(t: CellType, exist_item: bool) -> CellStatus {
    CellStatus {
        cell_type: t,
        row: 1,
        column: 2,
        x: 60,
        y: 30,
        width: 30,
        height: 30,
        background_color: Rgb { red: 0, green: 0, blue: 0 },
        exist_item,
    }
}

fn some_circle(stopped: bool) -> Circle {
    Circle { x: 45, y: 45, direction: Direction::East, is_stoped: stopped }
}

#[test]
fn normal_effect_releases_actor() {
    let mut c = some_circle(true);
    let mut s = some_cell(CellType::Normal, false);
    let r = NormalFeature {}.effect(&mut c, &mut s);
    assert_eq!(r, Ok(()));
    assert!(!c.is_stoped);
    assert_eq!(s, some_cell(CellType::Normal, false));
}

#[test]
fn wall_effect_halts_actor_without_signal() {
    let mut c = some_circle(false);
    let mut s = some_cell(CellType::Wall, false);
    let r = WallFeature {}.effect(&mut c, &mut s);
    assert_eq!(r, Ok(()));
    assert!(c.is_stoped);
    assert_eq!((c.x, c.y), (45, 45));
    assert_eq!(s, some_cell(CellType::Wall, false));
}

#[test]
fn damage_effect_is_always_hazard_signal() {
    // whatever the actor's state, the result is the hazard signal
    for stopped in [false, true] {
        let mut c = some_circle(stopped);
        let mut s = some_cell(CellType::Damage, false);
        let r = DamageFeature {}.effect(&mut c, &mut s);
        assert_eq!(r, Err(GameOverError::HitEnemy("hit enemy")));
        assert_eq!(c, some_circle(stopped));
        assert_eq!(s, some_cell(CellType::Damage, false));
    }
}

#[test]
fn block_effect_is_always_hazard_signal() {
    for stopped in [false, true] {
        let mut c = some_circle(stopped);
        let mut s = some_cell(CellType::Block, false);
        let r = BlockFeature {}.effect(&mut c, &mut s);
        assert_eq!(r, Err(GameOverError::HitEnemy("hit enemy")));
        assert_eq!(c, some_circle(stopped));
        assert_eq!(s, some_cell(CellType::Block, false));
    }
}

#[test]
fn item_effect_collects_and_releases() {
    let mut c = some_circle(true);
    let mut s = some_cell(CellType::Item, true);
    let r = ItemFeature {}.effect(&mut c, &mut s);
    assert_eq!(r, Ok(()));
    assert!(!c.is_stoped);
    assert!(!s.exist_item);
}

#[test]
fn item_effect_twice_is_idempotent() {
    let mut c = some_circle(false);
    let mut s = some_cell(CellType::Item, true);
    assert_eq!(ItemFeature {}.effect(&mut c, &mut s), Ok(()));
    let after_first = s;
    // the second application still succeeds and changes nothing
    assert_eq!(ItemFeature {}.effect(&mut c, &mut s), Ok(()));
    assert_eq!(s, after_first);
    assert!(!s.exist_item);
}

#[test]
fn wall_stops_advance_then_clear_resumes() {
    let mut c = some_circle(false);
    let mut s = some_cell(CellType::Wall, false);
    WallFeature {}.effect(&mut c, &mut s).unwrap();
    c.renew();
    // stopped: the advance left the position unchanged
    assert_eq!((c.x, c.y), (45, 45));
    let mut s2 = some_cell(CellType::Normal, false);
    NormalFeature {}.effect(&mut c, &mut s2).unwrap();
    c.renew();
    // released: the advance moved the actor one step east
    assert_eq!((c.x, c.y), (55, 45));
}

#[test]
fn hit_enemy_carries_its_cause() {
    let e = CollisionFrame::hit_enemy();
    assert_eq!(e, GameOverError::HitEnemy("hit enemy"));
    assert_eq!(e.description(), "hit enemy");
    assert_eq!(
        GameOverError::OtherError("out of the frame").description(),
        "out of the frame"
    );
}
