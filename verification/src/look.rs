//! How the pet is drawn: the text art of its ears and face, chosen from
//! what it is doing and how it feels.
use vstd::prelude::*;
use crate::pet::Activity;

verus! {

/// A pet younger than this many seconds is a kitten.
pub const KITTEN_AGE_SECS: u32 = 600;

/// A pet heavier than this many kilograms is fat.
pub const FAT_WEIGHT_KG: u32 = 8;

/// A pet at least this sleepy (in percent) is sad.
pub const SAD_SLEEPINESS: u32 = 90;

/// A pet at most this fed (in percent) is sad.
pub const SAD_HUNGER: u32 = 10;

/// A pet at least this happy (in percent) is happy.
pub const HAPPY_LEVEL: u32 = 80;

/// What the drawing of the pet depends on. The game works these out from
/// the pet's gauges: a kitten is under ten minutes old, a fat cat weighs
/// over 8 kg, a sad one is very sleepy or very hungry, a happy one is at
/// 80% happiness or more, and a grooming cat lifts its paw every other
/// instant.
#[derive(Clone, Copy, Debug, PartialEq, Eq, Structural)]
pub struct CatLook {
    pub is_sleeping: bool,
    pub activity: Activity,
    pub is_kitten: bool,
    pub is_fat: bool,
    pub paw_up: bool,
    pub is_sad: bool,
    pub is_happy: bool,
}

/// The expression on the pet's face, from the most to the least pressing.
#[derive(Clone, Copy, Debug, PartialEq, Eq, Structural)]
pub enum Expression {
    Asleep,
    Stretching,
    Grooming { paw_up: bool },
    Sad,
    Happy,
    Neutral,
}

/// The pet's build as drawn: a kitten is drawn as a kitten whatever it
/// weighs.
#[derive(Clone, Copy, Debug, PartialEq, Eq, Structural)]
pub enum Build {
    Kitten,
    Fat,
    Grown,
}

/// The expression a pet in `look` wears: asleep above all, then what it
/// is doing, then how it feels, sadness before happiness.
pub open spec fn expression_of(look: CatLook) -> Expression {
    if look.is_sleeping {
        Expression::Asleep
    } else if look.activity == Activity::Stretching {
        Expression::Stretching
    } else if look.activity == Activity::Cleaning {
        Expression::Grooming { paw_up: look.paw_up }
    } else if look.is_sad {
        Expression::Sad
    } else if look.is_happy {
        Expression::Happy
    } else {
        Expression::Neutral
    }
}

/// The build a pet in `look` is drawn with.
pub open spec fn build_of(look: CatLook) -> Build {
    if look.is_kitten {
        Build::Kitten
    } else if look.is_fat {
        Build::Fat
    } else {
        Build::Grown
    }
}

/// The text art of a face with `expression` on a cat of `build`.
pub open spec fn face_art(expression: Expression, build: Build) -> Seq<char> {
    match expression {
        Expression::Asleep => match build {
            Build::Kitten => "( -.-)zZ"@,
            Build::Fat => " ( -___-)zZ"@,
            Build::Grown => " ( -.-)zZ"@,
        },
        Expression::Stretching => match build {
            Build::Kitten => "(~_~) "@,
            Build::Fat => " (~___~) "@,
            Build::Grown => " (~_~) "@,
        },
        Expression::Grooming { paw_up } => if paw_up {
            match build {
                Build::Kitten => "( o.o)d"@,
                Build::Fat => " ( o.o )d"@,
                Build::Grown => " ( o.o)d"@,
            }
        } else {
            match build {
                Build::Kitten => "( o.o) "@,
                Build::Fat => " ( o.o ) "@,
                Build::Grown => " ( o.o) "@,
            }
        },
        Expression::Sad => match build {
            Build::Kitten => "( T_T) "@,
            Build::Fat => " ( T___T) "@,
            Build::Grown => " ( T_T) "@,
        },
        Expression::Happy => match build {
            Build::Kitten => "( ^_^) "@,
            Build::Fat => " ( ^___^) "@,
            Build::Grown => " ( ^_^) "@,
        },
        Expression::Neutral => match build {
            Build::Kitten => "( o_o) "@,
            Build::Fat => " ( o___o) "@,
            Build::Grown => " ( o_o) "@,
        },
    }
}

/// The text art of the ears of a pet in `look`: none while it sleeps,
/// flattened while it stretches, pricked up otherwise; a kitten's are
/// closer together.
pub open spec fn ears_art(look: CatLook) -> Seq<char> {
    if look.is_sleeping {
        "       "@
    } else if look.activity == Activity::Stretching {
        if look.is_kitten {
            " \\_ _/"@
        } else {
            " \\_  _/"@
        }
    } else if look.is_kitten {
        " /\\/\\ "@
    } else {
        " /\\_/\\ "@
    }
}

/// The expression a pet in `look` wears.
pub fn expression(look: &CatLook) -> (e: Expression)
    ensures
        e == expression_of(*look),
{
    if look.is_sleeping {
        Expression::Asleep
    } else if look.activity == Activity::Stretching {
        Expression::Stretching
    } else if look.activity == Activity::Cleaning {
        Expression::Grooming { paw_up: look.paw_up }
    } else if look.is_sad {
        Expression::Sad
    } else if look.is_happy {
        Expression::Happy
    } else {
        Expression::Neutral
    }
}

/// The build a pet in `look` is drawn with.
pub fn build(look: &CatLook) -> (b: Build)
    ensures
        b == build_of(*look),
{
    if look.is_kitten {
        Build::Kitten
    } else if look.is_fat {
        Build::Fat
    } else {
        Build::Grown
    }
}

/// The text art of a face with `expression` on a cat of `build`.
pub fn face_text(expression: Expression, build: Build) -> (art: &'static str)
    ensures
        art@ == face_art(expression, build),
{
    match expression {
        Expression::Asleep => match build {
            Build::Kitten => "( -.-)zZ",
            Build::Fat => " ( -___-)zZ",
            Build::Grown => " ( -.-)zZ",
        },
        Expression::Stretching => match build {
            Build::Kitten => "(~_~) ",
            Build::Fat => " (~___~) ",
            Build::Grown => " (~_~) ",
        },
        Expression::Grooming { paw_up } => if paw_up {
            match build {
                Build::Kitten => "( o.o)d",
                Build::Fat => " ( o.o )d",
                Build::Grown => " ( o.o)d",
            }
        } else {
            match build {
                Build::Kitten => "( o.o) ",
                Build::Fat => " ( o.o ) ",
                Build::Grown => " ( o.o) ",
            }
        },
        Expression::Sad => match build {
            Build::Kitten => "( T_T) ",
            Build::Fat => " ( T___T) ",
            Build::Grown => " ( T_T) ",
        },
        Expression::Happy => match build {
            Build::Kitten => "( ^_^) ",
            Build::Fat => " ( ^___^) ",
            Build::Grown => " ( ^_^) ",
        },
        Expression::Neutral => match build {
            Build::Kitten => "( o_o) ",
            Build::Fat => " ( o___o) ",
            Build::Grown => " ( o_o) ",
        },
    }
}

/// The text art of the face of a pet in `look`.
pub fn cat_face(look: &CatLook) -> (art: &'static str)
    ensures
        art@ == face_art(expression_of(*look), build_of(*look)),
{
    let e = expression(look);
    let b = build(look);
    face_text(e, b)
}

/// The text art of the ears of a pet in `look`.
pub fn cat_ears(look: &CatLook) -> (art: &'static str)
    ensures
        art@ == ears_art(*look),
{
    if look.is_sleeping {
        "       "
    } else if look.activity == Activity::Stretching {
        if look.is_kitten {
            " \\_ _/"
        } else {
            " \\_  _/"
        }
    } else if look.is_kitten {
        " /\\/\\ "
    } else {
        " /\\_/\\ "
    }
}

/// A sleeping pet looks asleep whatever else is true of it: its face
/// depends only on its build, and its ears are hidden.
pub proof fn sleeping_look_ignores_mood(look: CatLook, other: CatLook)
    requires
        look.is_sleeping,
        other.is_sleeping,
        build_of(look) == build_of(other),
    ensures
        face_art(expression_of(look), build_of(look)) == face_art(
            expression_of(other),
            build_of(other),
        ),
        ears_art(look) == ears_art(other),
{
}

/// A pet that is busy shows its activity and not its mood: two awake pets
/// doing the same thing, with the same build and paw, wear the same face
/// however sad or happy they are.
pub proof fn activity_outranks_mood(look: CatLook, other: CatLook)
    requires
        !look.is_sleeping,
        !other.is_sleeping,
        look.activity != Activity::Idle,
        look.activity == other.activity,
        look.paw_up == other.paw_up,
        build_of(look) == build_of(other),
    ensures
        face_art(expression_of(look), build_of(look)) == face_art(
            expression_of(other),
            build_of(other),
        ),
{
}

/// The expression follows the pet's state in this order: a sleeping pet
/// looks asleep; an awake one shows what it is busy with (stretching, or
/// grooming with its paw as it is); an idle one looks sad when it is sad,
/// whatever its happiness, happy when it is happy and not sad, and plain
/// otherwise.
pub proof fn expression_follows_state(look: CatLook)
    ensures
        look.is_sleeping ==> expression_of(look) == Expression::Asleep,
        !look.is_sleeping && look.activity == Activity::Stretching ==> expression_of(look)
            == Expression::Stretching,
        !look.is_sleeping && look.activity == Activity::Cleaning ==> expression_of(look)
            == (Expression::Grooming { paw_up: look.paw_up }),
        !look.is_sleeping && look.activity == Activity::Idle && look.is_sad ==> expression_of(look)
            == Expression::Sad,
        !look.is_sleeping && look.activity == Activity::Idle && !look.is_sad && look.is_happy
            ==> expression_of(look) == Expression::Happy,
        !look.is_sleeping && look.activity == Activity::Idle && !look.is_sad && !look.is_happy
            ==> expression_of(look) == Expression::Neutral,
{
}

/// A kitten is drawn as a kitten whatever it weighs; an older pet is drawn
/// fat exactly when it is fat.
pub proof fn build_follows_age_and_weight(look: CatLook)
    ensures
        look.is_kitten ==> build_of(look) == Build::Kitten,
        !look.is_kitten && look.is_fat ==> build_of(look) == Build::Fat,
        !look.is_kitten && !look.is_fat ==> build_of(look) == Build::Grown,
{
}

/// A sleeping pet's ears are hidden (seven blanks) whatever its build; a
/// stretching pet's ears lie flat; otherwise they are pricked up; and a
/// kitten's ears are closer together than a grown cat's, fat or not.
pub proof fn ears_follow_state(look: CatLook)
    ensures
        look.is_sleeping ==> ears_art(look) == "       "@,
        !look.is_sleeping && look.activity == Activity::Stretching && look.is_kitten ==> ears_art(
            look,
        ) == " \\_ _/"@,
        !look.is_sleeping && look.activity == Activity::Stretching && !look.is_kitten ==> ears_art(
            look,
        ) == " \\_  _/"@,
        !look.is_sleeping && look.activity != Activity::Stretching && look.is_kitten ==> ears_art(
            look,
        ) == " /\\/\\ "@,
        !look.is_sleeping && look.activity != Activity::Stretching && !look.is_kitten ==> ears_art(
            look,
        ) == " /\\_/\\ "@,
        ears_art(look) == ears_art(CatLook { is_fat: !look.is_fat, ..look }),
        ears_art(look) == ears_art(CatLook { is_sad: !look.is_sad, is_happy: !look.is_happy, ..look }),
{
}

/// The faces of a grown cat, one for each expression: closed eyes and
/// snores asleep, squinting while stretching, a paw raised or lowered
/// while grooming, tears when sad, smiling eyes when happy, open eyes
/// otherwise.
pub proof fn grown_faces()
    ensures
        face_art(Expression::Asleep, Build::Grown) == " ( -.-)zZ"@,
        face_art(Expression::Stretching, Build::Grown) == " (~_~) "@,
        face_art(Expression::Grooming { paw_up: true }, Build::Grown) == " ( o.o)d"@,
        face_art(Expression::Grooming { paw_up: false }, Build::Grown) == " ( o.o) "@,
        face_art(Expression::Sad, Build::Grown) == " ( T_T) "@,
        face_art(Expression::Happy, Build::Grown) == " ( ^_^) "@,
        face_art(Expression::Neutral, Build::Grown) == " ( o_o) "@,
{
}

/// The faces of a fat cat: the grown cat's, with a wider face.
pub proof fn fat_faces()
    ensures
        face_art(Expression::Asleep, Build::Fat) == " ( -___-)zZ"@,
        face_art(Expression::Stretching, Build::Fat) == " (~___~) "@,
        face_art(Expression::Grooming { paw_up: true }, Build::Fat) == " ( o.o )d"@,
        face_art(Expression::Grooming { paw_up: false }, Build::Fat) == " ( o.o ) "@,
        face_art(Expression::Sad, Build::Fat) == " ( T___T) "@,
        face_art(Expression::Happy, Build::Fat) == " ( ^___^) "@,
        face_art(Expression::Neutral, Build::Fat) == " ( o___o) "@,
{
}

/// A kitten wears the same face as a grown cat with the same expression,
/// drawn without the grown cat's leading blank.
pub proof fn kitten_face_is_grown_face_unpadded(expression: Expression)
    ensures
        face_art(expression, Build::Kitten) == face_art(expression, Build::Grown).drop_first(),
{
    reveal_strlit("( -.-)zZ");
    reveal_strlit(" ( -.-)zZ");
    reveal_strlit("(~_~) ");
    reveal_strlit(" (~_~) ");
    reveal_strlit("( o.o)d");
    reveal_strlit(" ( o.o)d");
    reveal_strlit("( o.o) ");
    reveal_strlit(" ( o.o) ");
    reveal_strlit("( T_T) ");
    reveal_strlit(" ( T_T) ");
    reveal_strlit("( ^_^) ");
    reveal_strlit(" ( ^_^) ");
    reveal_strlit("( o_o) ");
    reveal_strlit(" ( o_o) ");
    match expression {
        Expression::Asleep => {
            assert(face_art(expression, Build::Kitten) =~= face_art(expression, Build::Grown).drop_first());
        },
        Expression::Stretching => {
            assert(face_art(expression, Build::Kitten) =~= face_art(expression, Build::Grown).drop_first());
        },
        Expression::Grooming { paw_up } => {
            assert(face_art(expression, Build::Kitten) =~= face_art(expression, Build::Grown).drop_first());
        },
        Expression::Sad => {
            assert(face_art(expression, Build::Kitten) =~= face_art(expression, Build::Grown).drop_first());
        },
        Expression::Happy => {
            assert(face_art(expression, Build::Kitten) =~= face_art(expression, Build::Grown).drop_first());
        },
        Expression::Neutral => {
            assert(face_art(expression, Build::Kitten) =~= face_art(expression, Build::Grown).drop_first());
        },
    }
}

/// The dropping after the `i`-th lies 53 to the right and 29 lower,
/// wrapping round the 200 by 50 patch, and the first lies in its corner.
pub proof fn poop_spots_step_through_the_patch(i: nat)
    ensures
        poop_spot(0) == (0nat, 0nat),
        poop_spot(i + 1).0 == (poop_spot(i).0 + 53) % 200,
        poop_spot(i + 1).1 == (poop_spot(i).1 + 29) % 50,
        poop_spot(i).0 < 200,
        poop_spot(i).1 < 50,
{
    assert(((i + 1) * 53) % 200 == ((i * 53) % 200 + 53) % 200) by (nonlinear_arith);
    assert(((i + 1) * 29) % 50 == ((i * 29) % 50 + 29) % 50) by (nonlinear_arith);
}

/// Where the `i`-th dropping lies, right of and below the corner of the
/// patch beside the pet: the droppings are strewn over a 200 by 50 patch
/// in a fixed, scattered order.
pub open spec fn poop_spot(i: nat) -> (nat, nat) {
    ((i * 53) % 200, (i * 29) % 50)
}

/// The offset of the `i`-th dropping in its patch.
pub fn poop_offset(i: u32) -> (offset: (u32, u32))
    requires
        i * 53 <= u32::MAX,
    ensures
        offset.0 as nat == poop_spot(i as nat).0,
        offset.1 as nat == poop_spot(i as nat).1,
        offset.0 < 200,
        offset.1 < 50,
{
    ((i * 53) % 200, (i * 29) % 50)
}

} // verus!
