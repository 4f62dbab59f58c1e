use screencast::{find_output, Output};

fn two_screens() -> Vec<Output> {
    vec![
        Output { x: 0, y: 0, width: 1920, height: 1080 },
        Output { x: 1920, y: 0, width: 1920, height: 1080 },
    ]
}

#[test]
fn selection_at_the_corner_of_the_second_output_finds_it() {
    assert_eq!(find_output(&two_screens(), 1920, 0), Some(1));
}

#[test]
fn selection_inside_an_output_finds_nothing() {
    assert_eq!(find_output(&two_screens(), 5, 5), None);
}

#[test]
fn selection_at_the_origin_finds_the_first_output() {
    assert_eq!(find_output(&two_screens(), 0, 0), Some(0));
}

#[test]
fn of_two_outputs_at_one_place_the_first_wins() {
    let outputs = vec![
        Output { x: 10, y: 20, width: 800, height: 600 },
        Output { x: 0, y: 0, width: 1920, height: 1080 },
        Output { x: 0, y: 0, width: 1280, height: 720 },
    ];
    assert_eq!(find_output(&outputs, 0, 0), Some(1));
}

#[test]
fn no_outputs_no_match() {
    assert_eq!(find_output(&[], 0, 0), None);
}
