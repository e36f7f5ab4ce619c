use quick_translate::pointer::{coordinate, parse_pointer_position};

#[test]
fn shell_answer_gives_coordinates() {
    assert_eq!(parse_pointer_position("(true, '[812, 344, 0]')"), (812, 344));
    assert_eq!(parse_pointer_position("(true, '[-5, 17, 16]')\n"), (-5, 17));
}

#[test]
fn two_fields_are_enough() {
    assert_eq!(parse_pointer_position("[1,2]"), (1, 2));
    assert_eq!(parse_pointer_position("[ 7 , 8 ,9]"), (7, 8));
}

#[test]
fn unreadable_field_counts_as_one_hundred() {
    assert_eq!(parse_pointer_position("(true, '[x, 5, 0]')"), (100, 5));
    assert_eq!(parse_pointer_position("[3,]"), (3, 100));
    assert_eq!(parse_pointer_position("[99999999999, 1]"), (100, 1));
}

#[test]
fn missing_parts_fall_back_to_centre() {
    assert_eq!(parse_pointer_position(""), (500, 400));
    assert_eq!(parse_pointer_position("(false, '')"), (500, 400));
    assert_eq!(parse_pointer_position("[12]"), (500, 400));
    assert_eq!(parse_pointer_position("[1, 2"), (500, 400));
    assert_eq!(parse_pointer_position("1, 2]"), (500, 400));
}

#[test]
fn coordinate_trims_and_parses() {
    assert_eq!(coordinate("  42 "), 42);
    assert_eq!(coordinate("4 2"), 100);
    assert_eq!(coordinate(""), 100);
}
