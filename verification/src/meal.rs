//! Meals, meal slots of the day, and the menu that a live activity shows.
use vstd::prelude::*;

use crate::calendar::{date_text, iso_date_text, local_now, LocalClock};
use crate::text::{chars_eq, chars_of};

verus! {

broadcast use vstd::string::group_string_axioms;

/// The meals of one day as stored.
#[derive(Debug, Clone)]
pub struct Meal {
    pub idx: i32,
    pub id: i32,
    pub date: String,
    pub breakfast: String,
    pub lunch: String,
    pub dinner: String,
}

/// The three meals of a day.
#[derive(Debug, Clone, Copy, PartialEq, Eq, Structural)]
pub enum MealType {
    Breakfast,
    Lunch,
    Dinner,
}

/// The name of a meal type.
pub open spec fn meal_type_text(t: MealType) -> Seq<char> {
    match t {
        MealType::Breakfast => "breakfast"@,
        MealType::Lunch => "lunch"@,
        MealType::Dinner => "dinner"@,
    }
}

impl MealType {
    /// The name of the meal type: `breakfast`, `lunch` or `dinner`.
    pub fn as_text(&self) -> (r: String)
        ensures
            r@ == meal_type_text(*self),
    {
        match self {
            MealType::Breakfast => String::from_str("breakfast"),
            MealType::Lunch => String::from_str("lunch"),
            MealType::Dinner => String::from_str("dinner"),
        }
    }
}

/// The meal shown at `hour:minute`, and whether it is the next day's: breakfast
/// until 08:00, lunch until 13:30, dinner until 19:30, and after that the next
/// day's breakfast.
pub open spec fn slot_spec(hour: int, minute: int) -> (MealType, bool) {
    let total = hour * 60 + minute;
    if total <= 480 {
        (MealType::Breakfast, false)
    } else if total <= 810 {
        (MealType::Lunch, false)
    } else if total <= 1170 {
        (MealType::Dinner, false)
    } else {
        (MealType::Breakfast, true)
    }
}

/// The meal shown at a time of day, and whether it is the next day's.
pub fn meal_slot(hour: u32, minute: u32) -> (r: (MealType, bool))
    ensures
        r == slot_spec(hour as int, minute as int),
{
    let total: u64 = (hour as u64) * 60 + (minute as u64);
    if total <= 480 {
        (MealType::Breakfast, false)
    } else if total <= 810 {
        (MealType::Lunch, false)
    } else if total <= 1170 {
        (MealType::Dinner, false)
    } else {
        (MealType::Breakfast, true)
    }
}

/// Every minute of the day falls in exactly one slot, and only the minutes
/// after 19:30 show the next day's meal, which is then breakfast.
pub proof fn law_slot_covers_day(hour: int, minute: int)
    requires
        0 <= hour < 24,
        0 <= minute < 60,
    ensures
        slot_spec(hour, minute).1 <==> hour * 60 + minute > 1170,
        slot_spec(hour, minute).1 ==> slot_spec(hour, minute).0 == MealType::Breakfast,
        slot_spec(hour, minute).0 == MealType::Lunch <==> 480 < hour * 60 + minute <= 810,
        slot_spec(hour, minute).0 == MealType::Dinner <==> 810 < hour * 60 + minute <= 1170,
{
}

/// `r` is the meal type's name and the `YYYY-MM-DD` text of the day whose
/// meal is shown at `now`: the reading's date, or after 19:30 the date 24
/// hours later.
pub open spec fn is_current_for(now: LocalClock, r: (String, String)) -> bool {
    let (t, next) = slot_spec(now.hour as int, now.minute as int);
    &&& r.0@ == meal_type_text(t)
    &&& r.1@ == iso_date_text(if next {
        now.date_after_a_day
    } else {
        now.date
    })
}

/// The meal type and day to show at a given local time.
pub fn current_for(now: LocalClock) -> (r: (String, String))
    requires
        now.valid(),
    ensures
        is_current_for(now, r),
{
    let (t, next) = meal_slot(now.hour, now.minute);
    let name = t.as_text();
    if next {
        (name, date_text(now.date_after_a_day))
    } else {
        (name, date_text(now.date))
    }
}

/// The day shown is the reading's own date up to 19:30 (breakfast until
/// 08:00, lunch until 13:30, dinner until 19:30), and the date 24 hours later
/// only after 19:30, when the meal is breakfast.
pub proof fn law_current_day(now: LocalClock, r: (String, String))
    requires
        now.valid(),
        is_current_for(now, r),
    ensures
        now.hour * 60 + now.minute <= 1170 ==> r.1@ == iso_date_text(now.date),
        now.hour * 60 + now.minute > 1170 ==> r.1@ == iso_date_text(now.date_after_a_day),
        now.hour * 60 + now.minute <= 480 ==> r.0@ == "breakfast"@,
        480 < now.hour * 60 + now.minute <= 810 ==> r.0@ == "lunch"@,
        810 < now.hour * 60 + now.minute <= 1170 ==> r.0@ == "dinner"@,
        now.hour * 60 + now.minute > 1170 ==> r.0@ == "breakfast"@,
{
}

/// Today's meal type and day to show, from the local clock.
pub fn get_current() -> (r: (String, String))
    ensures
        exists|now: LocalClock| now.valid() && is_current_for(now, r),
{
    let now = local_now();
    current_for(now)
}

/// The menu of `meal` for the meal type named `meal_type`; empty when there is
/// no meal or the name is not `breakfast`, `lunch` or `dinner`.
pub open spec fn select_menu_spec(meal: Option<Meal>, meal_type: Seq<char>) -> Seq<char> {
    match meal {
        Some(m) => if meal_type == "breakfast"@ {
            m.breakfast@
        } else if meal_type == "lunch"@ {
            m.lunch@
        } else if meal_type == "dinner"@ {
            m.dinner@
        } else {
            Seq::empty()
        },
        None => Seq::empty(),
    }
}

/// The menu picked for `breakfast`, `lunch` or `dinner` is exactly the text
/// stored for that meal, whatever it holds; any other name, or no meal,
/// gives an empty menu.
pub proof fn law_select_menu_is_stored_text(m: Meal, name: Seq<char>)
    ensures
        select_menu_spec(Some(m), "breakfast"@) == m.breakfast@,
        select_menu_spec(Some(m), "lunch"@) == m.lunch@,
        select_menu_spec(Some(m), "dinner"@) == m.dinner@,
        name != "breakfast"@ && name != "lunch"@ && name != "dinner"@ ==> select_menu_spec(
            Some(m),
            name,
        ).len() == 0,
        select_menu_spec(None, name).len() == 0,
{
    reveal_strlit("breakfast");
    reveal_strlit("lunch");
    reveal_strlit("dinner");
    assert("lunch"@ != "breakfast"@) by {
        assert("lunch"@.len() != "breakfast"@.len());
    }
    assert("dinner"@ != "breakfast"@) by {
        assert("dinner"@.len() != "breakfast"@.len());
    }
    assert("dinner"@ != "lunch"@) by {
        assert("dinner"@[0] != "lunch"@[0]);
    }
}

/// Picks the menu of a meal type.
pub fn select_menu(meal: Option<Meal>, meal_type: &str) -> (r: String)
    ensures
        r@ == select_menu_spec(meal, meal_type@),
{
    match meal {
        Some(m) => {
            let name = chars_of(meal_type);
            if chars_eq(&name, &chars_of("breakfast")) {
                m.breakfast
            } else if chars_eq(&name, &chars_of("lunch")) {
                m.lunch
            } else if chars_eq(&name, &chars_of("dinner")) {
                m.dinner
            } else {
                String::new()
            }
        },
        None => String::new(),
    }
}

/// The first of the meals found for a date, if any.
pub fn first_meal(rows: Vec<Meal>) -> (r: Option<Meal>)
    ensures
        rows.len() == 0 ==> r is None,
        rows.len() > 0 ==> r == Some(rows[0]),
{
    let mut rows = rows;
    if rows.len() == 0 {
        None
    } else {
        Some(rows.remove(0))
    }
}

/// How scraped meals reach the store.
#[derive(Debug, Clone, Copy, PartialEq, Eq, Structural)]
pub enum MealWrite {
    /// No row holds the post yet: add one.
    Insert,
    /// A row holds the post: overwrite it.
    Update,
}

/// A post that no row holds is inserted; one that rows hold is updated.
pub fn meal_write_kind(existing_rows: i32) -> (r: MealWrite)
    ensures
        r == (if existing_rows == 0 {
            MealWrite::Insert
        } else {
            MealWrite::Update
        }),
{
    if existing_rows == 0 {
        MealWrite::Insert
    } else {
        MealWrite::Update
    }
}

} // verus!
