use dimigomeal::calendar::{CalendarDate, LocalClock};
use dimigomeal::meal::{
    current_for, first_meal, get_current, meal_slot, meal_write_kind, select_menu, Meal, MealType,
    MealWrite,
};

fn meal(idx: i32) -> Meal {
    Meal {
        idx,
        id: 100 + idx,
        date: "2024-03-15".to_string(),
        breakfast: "밥".to_string(),
        lunch: "면".to_string(),
        dinner: "빵".to_string(),
    }
}

#[test]
fn slots_follow_the_clock() {
    assert_eq!(meal_slot(0, 0), (MealType::Breakfast, false));
    assert_eq!(meal_slot(8, 0), (MealType::Breakfast, false));
    assert_eq!(meal_slot(8, 1), (MealType::Lunch, false));
    assert_eq!(meal_slot(13, 30), (MealType::Lunch, false));
    assert_eq!(meal_slot(13, 31), (MealType::Dinner, false));
    assert_eq!(meal_slot(19, 30), (MealType::Dinner, false));
    assert_eq!(meal_slot(19, 31), (MealType::Breakfast, true));
    assert_eq!(meal_slot(23, 59), (MealType::Breakfast, true));
}

#[test]
fn meal_type_names() {
    assert_eq!(MealType::Breakfast.as_text(), "breakfast");
    assert_eq!(MealType::Lunch.as_text(), "lunch");
    assert_eq!(MealType::Dinner.as_text(), "dinner");
}

fn clock(date: (i32, u32, u32), hour: u32, minute: u32, later: (i32, u32, u32)) -> LocalClock {
    LocalClock {
        date: CalendarDate { year: date.0, month: date.1, day: date.2 },
        hour,
        minute,
        date_after_a_day: CalendarDate { year: later.0, month: later.1, day: later.2 },
    }
}

#[test]
fn late_evening_shows_the_day_after() {
    let now = clock((2024, 12, 31), 23, 0, (2025, 1, 1));
    assert_eq!(current_for(now), ("breakfast".to_string(), "2025-01-01".to_string()));
    let noon = clock((2024, 2, 29), 12, 0, (2024, 3, 1));
    assert_eq!(current_for(noon), ("lunch".to_string(), "2024-02-29".to_string()));
    let offset_change = clock((2024, 3, 30), 23, 30, (2024, 4, 1));
    assert_eq!(current_for(offset_change), ("breakfast".to_string(), "2024-04-01".to_string()));
}

#[test]
fn current_slot_is_well_formed() {
    let (kind, date) = get_current();
    assert!(["breakfast", "lunch", "dinner"].contains(&kind.as_str()));
    assert_eq!(date.len(), 10);
}

#[test]
fn menu_is_selected_by_meal_type() {
    assert_eq!(select_menu(Some(meal(1)), "breakfast"), "밥");
    assert_eq!(select_menu(Some(meal(1)), "lunch"), "면");
    assert_eq!(select_menu(Some(meal(1)), "dinner"), "빵");
    assert_eq!(select_menu(Some(meal(1)), "snack"), "");
    assert_eq!(select_menu(None, "lunch"), "");
}

#[test]
fn first_meal_of_rows() {
    assert_eq!(first_meal(vec![meal(1), meal(2)]).map(|m| m.idx), Some(1));
    assert!(first_meal(vec![]).is_none());
}

#[test]
fn write_kind_depends_on_existing_rows() {
    assert_eq!(meal_write_kind(0), MealWrite::Insert);
    assert_eq!(meal_write_kind(1), MealWrite::Update);
    assert_eq!(meal_write_kind(3), MealWrite::Update);
}
