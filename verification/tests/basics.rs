use primer::arithmetic::{add_and_multiply, add_numbers};
use primer::lifetimes::choose_longest;
use primer::ownership::{calculate_length, change, takes_and_gives_back};
use primer::person::Person;

#[test]
fn add_numbers_adds() {
    assert_eq!(add_numbers(5, 2), 7);
    assert_eq!(add_numbers(-5, 2), -3);
}

#[test]
fn add_numbers_takes_a_wide_first_operand() {
    assert_eq!(add_numbers(2_147_483_648, -1), i32::MAX);
    assert_eq!(add_numbers(3_000_000_000, -2_000_000_000), 1_000_000_000);
    assert_eq!(add_numbers(i32::MAX as i64, 0), i32::MAX);
    assert_eq!(add_numbers(i32::MIN as i64, 0), i32::MIN);
}

#[test]
fn add_and_multiply_gives_sum_then_product() {
    assert_eq!(add_and_multiply(5, 2), (7, 10));
    assert_eq!(add_and_multiply(-4, 3), (-1, -12));
    assert_eq!(add_and_multiply(0, 0), (0, 0));
}

#[test]
fn takes_and_gives_back_returns_the_string() {
    let s2 = String::from("hello");
    let s3 = takes_and_gives_back(s2);
    assert_eq!(s3, "hello");
    assert_eq!(takes_and_gives_back(String::new()), "");
}

#[test]
fn calculate_length_counts_bytes() {
    let s1 = String::from("hello");
    assert_eq!(calculate_length(&s1), 5);
    assert_eq!(s1, "hello");
    assert_eq!(calculate_length(&String::new()), 0);
    assert_eq!(calculate_length(&String::from("h\u{e9}llo")), 6);
}

#[test]
fn change_appends_world() {
    let mut s = String::from("hello");
    change(&mut s);
    assert_eq!(s, "hello, world");
    change(&mut s);
    assert_eq!(s, "hello, world, world");
    let mut empty = String::new();
    change(&mut empty);
    assert_eq!(empty, ", world");
}

#[test]
fn person_new_keeps_the_fields() {
    let person = Person::new("John", "Doe", 30);
    assert_eq!(person.first_name, "John");
    assert_eq!(person.last_name, "Doe");
    assert_eq!(person.age, 30);
}

#[test]
fn person_full_name_joins_with_one_space() {
    assert_eq!(Person::new("John", "Doe", 30).full_name(), "John Doe");
    assert_eq!(Person::new("", "", 0).full_name(), " ");
    assert_eq!(Person::new("Ana Mar\u{ed}a", "de la O", 255).full_name(), "Ana Mar\u{ed}a de la O");
}

#[test]
fn person_debug_shows_the_fields() {
    let shown = format!("{:?}", Person::new("John", "Doe", 30));
    assert_eq!(shown, "Person { first_name: \"John\", last_name: \"Doe\", age: 30 }");
}

#[test]
fn choose_longest_picks_the_longer() {
    let s1 = String::from("Hello, world!");
    let s2 = "Rust";
    let result = choose_longest(&s1, s2);
    assert_eq!(result.value, "Hello, world!");
    assert_eq!(result.length, 13);
    let swapped = choose_longest(s2, &s1);
    assert_eq!(swapped.value, "Hello, world!");
    assert_eq!(swapped.length, 13);
}

#[test]
fn choose_longest_prefers_the_first_on_a_tie() {
    let result = choose_longest("left", "rght");
    assert_eq!(result.value, "left");
    assert_eq!(result.length, 4);
    let empty = choose_longest("", "");
    assert_eq!(empty.value, "");
    assert_eq!(empty.length, 0);
}

#[test]
fn choose_longest_measures_bytes() {
    let result = choose_longest("abcd", "h\u{e9}\u{e9}");
    assert_eq!(result.value, "h\u{e9}\u{e9}");
    assert_eq!(result.length, 5);
}
