use lang_tour::arith::checked_div;
use lang_tour::arith::divide_by_zero_help;
use lang_tour::maps::basic_hashmap;
use lang_tour::maps::compound_key_hashmap;
use lang_tour::maps::hashmaps;
use lang_tour::maps::StringMap;
use lang_tour::numbers::integer_literals;
use lang_tour::numbers::integer_widths;
use lang_tour::numbers::integers;
use lang_tour::queue::double_queue;
use lang_tour::slices::slices;
use lang_tour::slices::split_words;
use lang_tour::text::strings;
use lang_tour::text::variables;
use lang_tour::tuples::return_multiple_values_with_tuple;
use lang_tour::tuples::swap;
use lang_tour::tuples::tuples;
use lang_tour::types::country_index;
use lang_tour::types::structs;
use lang_tour::types::enums;
use lang_tour::types::Countries;
use lang_tour::types::TupleStruct;

fn chars(s: &str) -> Vec<char> {
    s.chars().collect()
}

#[test]
fn variables_shadowed_pair() {
    let (a, b) = variables();
    assert_eq!(a, "555a");
    assert_eq!(b, 8);
}

#[test]
fn variables_twice_identical() {
    let first = variables();
    let second = variables();
    assert_eq!(first, second);
}

#[test]
fn checked_div_rejects_zero_divisor() {
    assert_eq!(checked_div(1, 0), None);
    assert_eq!(checked_div(0, 0), None);
    assert_eq!(checked_div(u64::MAX, 0), None);
}

#[test]
fn checked_div_quotients() {
    assert_eq!(checked_div(6, 3), Some(2));
    assert_eq!(checked_div(7, 2), Some(3));
    assert_eq!(checked_div(0, 5), Some(0));
    assert_eq!(checked_div(5, 7), Some(0));
}

#[test]
fn deferred_division_by_zero_faults() {
    let (first, second, third) = divide_by_zero_help();
    assert_eq!(first, None);
    assert_eq!(second, None);
    assert_eq!(third, None);
}

#[test]
fn vector_grows_to_expected_contents() {
    let v = lang_tour::vector::vector();
    assert_eq!(v, vec![1, 2, 3, 0, 5, 0, 0, 0, 0, 0, 3]);
}

#[test]
fn double_queue_front_and_back() {
    let q = double_queue();
    let items: Vec<i64> = q.into_iter().collect();
    assert_eq!(items, vec![5, 1, 1, 1]);
}

#[test]
fn strings_built_and_cloned() {
    let (a, converted, copy) = strings();
    assert_eq!(a, "Howdy!");
    assert_eq!(converted, "toast");
    assert_eq!(copy, "toast");
}

#[test]
fn integer_widths_values() {
    assert_eq!(integer_widths(), (0u8, 1u16, 2u32, 3u64, 4u128));
}

#[test]
fn integer_literals_values() {
    assert_eq!(integer_literals(), (255, 2396745, 11111111, 286331153, 65));
}

#[test]
fn integers_combined() {
    let (widths, literals) = integers();
    assert_eq!(widths, integer_widths());
    assert_eq!(literals, integer_literals());
}

#[test]
fn string_map_insert_overwrites() {
    let mut m = StringMap::new();
    assert_eq!(m.len(), 0);
    m.insert("seth".to_owned(), 1);
    assert_eq!(m.len(), 1);
    m.insert("seth".to_owned(), 2);
    assert_eq!(m.len(), 1);
    assert_eq!(m.get(&"seth".to_owned()), Some(2));
}

#[test]
fn string_map_missing_key() {
    let mut m = StringMap::new();
    m.insert("seth".to_owned(), 1);
    assert_eq!(m.get(&"chelsea".to_owned()), None);
    assert_eq!(m.get(&"".to_owned()), None);
}

#[test]
fn basic_hashmap_final_bindings() {
    let m = basic_hashmap();
    assert_eq!(m.len(), 2);
    assert_eq!(m.get(&"seth".to_owned()), Some(2));
    assert_eq!(m.get(&"chelsea".to_owned()), Some(1));
}

#[test]
fn compound_key_single_entry() {
    let m = compound_key_hashmap();
    assert_eq!(m.len(), 1);
    assert_eq!(m[0].0.name, "toast");
    assert_eq!(m[0].0.value, 3);
    assert_eq!(m[0].1, 1);
}

#[test]
fn hashmaps_combined() {
    let (keyed, compound) = hashmaps();
    assert_eq!(keyed.get(&"seth".to_owned()), Some(2));
    assert_eq!(compound.len(), 1);
}

#[test]
fn tuples_demonstration_values() {
    let (by_field, by_pattern, exchanged) = tuples();
    assert_eq!(by_field, (1, 2, 3));
    assert_eq!(by_pattern, (1, 2, 3));
    assert_eq!(exchanged, (2, 1));
}

#[test]
fn swap_exchanges_any_types() {
    assert_eq!(swap(1, 2), (2, 1));
    assert_eq!(swap('x', 7u8), (7u8, 'x'));
    assert_eq!(swap("left".to_owned(), 0i64), (0i64, "left".to_owned()));
}

#[test]
fn multiple_values_via_tuple() {
    assert_eq!(return_multiple_values_with_tuple(), (2, 1));
}

#[test]
fn structs_labels() {
    let (_empty, labelled, defaulted) = structs();
    assert_eq!(labelled.0, "example");
    assert_eq!(defaulted.0, "");
}

#[test]
fn tuple_struct_default_is_empty() {
    let d = TupleStruct::default();
    assert_eq!(d.0, "");
}

#[test]
fn enums_first_variant_is_zero() {
    let (chosen, first_as_integer) = enums();
    assert_eq!(chosen, Countries::Canada);
    assert_eq!(first_as_integer, 0);
}

#[test]
fn country_indices_follow_declaration_order() {
    assert_eq!(country_index(Countries::UnitedStates), 0);
    assert_eq!(country_index(Countries::Canada), 1);
    assert_eq!(country_index(Countries::Mexico), 2);
}

#[test]
fn slices_halves_and_words() {
    let (halves, words) = slices();
    assert_eq!(halves, (32, 32));
    assert_eq!(
        words,
        vec![chars("one"), chars("two"), chars("three"), chars("four")]
    );
}

#[test]
fn split_words_plain_cases() {
    assert_eq!(split_words("a,b", ','), vec![chars("a"), chars("b")]);
    assert_eq!(split_words("abc", ','), vec![chars("abc")]);
    assert_eq!(split_words("", ','), vec![chars("")]);
}

#[test]
fn split_words_empty_pieces() {
    assert_eq!(
        split_words("a,,b", ','),
        vec![chars("a"), chars(""), chars("b")]
    );
    assert_eq!(split_words(",", ','), vec![chars(""), chars("")]);
    assert_eq!(
        split_words(",x,", ','),
        vec![chars(""), chars("x"), chars("")]
    );
}
