use kissagotchi::look::build;
use kissagotchi::look::cat_ears;
use kissagotchi::look::cat_face;
use kissagotchi::look::expression;
use kissagotchi::look::face_text;
use kissagotchi::look::poop_offset;
use kissagotchi::look::Build;
use kissagotchi::look::CatLook;
use kissagotchi::look::Expression;
use kissagotchi::pet::Activity;

fn awake(activity: Activity) -> CatLook {
    CatLook {
        is_sleeping: false,
        activity,
        is_kitten: false,
        is_fat: false,
        paw_up: false,
        is_sad: false,
        is_happy: false,
    }
}

#[test]
fn sleeping_cat_closes_its_eyes() {
    let mut look = awake(Activity::Stretching);
    look.is_sleeping = true;
    look.is_sad = true;
    look.is_happy = true;
    assert_eq!(cat_face(&look), " ( -.-)zZ");
    assert_eq!(cat_ears(&look), "       ");
    look.is_fat = true;
    assert_eq!(cat_face(&look), " ( -___-)zZ");
    look.is_kitten = true;
    assert_eq!(cat_face(&look), "( -.-)zZ");
    assert_eq!(expression(&look), Expression::Asleep);
    assert_eq!(build(&look), Build::Kitten);
}

#[test]
fn stretching_and_grooming_faces() {
    let look = awake(Activity::Stretching);
    assert_eq!(cat_face(&look), " (~_~) ");
    assert_eq!(cat_ears(&look), " \\_  _/");
    let mut kitten = look;
    kitten.is_kitten = true;
    assert_eq!(cat_face(&kitten), "(~_~) ");
    assert_eq!(cat_ears(&kitten), " \\_ _/");
    let mut groom = awake(Activity::Cleaning);
    groom.is_sad = true;
    assert_eq!(cat_face(&groom), " ( o.o) ");
    groom.paw_up = true;
    assert_eq!(cat_face(&groom), " ( o.o)d");
    groom.is_fat = true;
    assert_eq!(cat_face(&groom), " ( o.o )d");
    assert_eq!(cat_ears(&groom), " /\\_/\\ ");
}

#[test]
fn idle_cat_shows_its_mood() {
    let mut look = awake(Activity::Idle);
    assert_eq!(cat_face(&look), " ( o_o) ");
    look.is_happy = true;
    assert_eq!(cat_face(&look), " ( ^_^) ");
    look.is_sad = true;
    assert_eq!(cat_face(&look), " ( T_T) ");
    look.is_fat = true;
    assert_eq!(cat_face(&look), " ( T___T) ");
    look.is_kitten = true;
    assert_eq!(cat_face(&look), "( T_T) ");
    assert_eq!(cat_ears(&look), " /\\/\\ ");
}

#[test]
fn face_table() {
    assert_eq!(face_text(Expression::Happy, Build::Fat), " ( ^___^) ");
    assert_eq!(face_text(Expression::Neutral, Build::Kitten), "( o_o) ");
    assert_eq!(face_text(Expression::Grooming { paw_up: true }, Build::Kitten), "( o.o)d");
    assert_eq!(face_text(Expression::Stretching, Build::Fat), " (~___~) ");
}

#[test]
fn droppings_are_strewn_over_the_patch() {
    assert_eq!(poop_offset(0), (0, 0));
    assert_eq!(poop_offset(1), (53, 29));
    assert_eq!(poop_offset(3), (159, 37));
    assert_eq!(poop_offset(4), (12, 16));
    for i in 0..50 {
        let (x, y) = poop_offset(i);
        assert!(x < 200 && y < 50);
    }
}
