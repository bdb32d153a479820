use air_combat::bullet::{Bullet, BULLET_SPEED};
use air_combat::layers::{on_layer, BULLET_LAYER, ENEMY_LAYER, PLAYER_LAYER};

#[test]
fn layer_bits() {
    assert!(on_layer(0b100, ENEMY_LAYER));
    assert!(!on_layer(0b100, BULLET_LAYER));
    assert!(on_layer(0b1000, BULLET_LAYER));
    assert!(on_layer(0b10000, PLAYER_LAYER));
    assert!(on_layer(0x8000_0000, 31));
    assert!(!on_layer(0x7fff_ffff, 31));
    assert!(on_layer(0b11100, ENEMY_LAYER));
    assert!(!on_layer(0, 0));
}

#[test]
fn bullet_is_spent_on_enemies_only() {
    let b = Bullet::new();
    assert!(b.area_entered(1 << ENEMY_LAYER));
    assert!(b.area_entered((1 << ENEMY_LAYER) | (1 << PLAYER_LAYER)));
    assert!(!b.area_entered(1 << PLAYER_LAYER));
    assert!(!b.area_entered(1 << BULLET_LAYER));
    assert!(!b.area_entered(0));
}

#[test]
fn bullet_speed() {
    assert_eq!(BULLET_SPEED, 400);
}
