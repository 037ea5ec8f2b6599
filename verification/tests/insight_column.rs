use speech_agent_core::agent_view::agent_section_heights;

#[test]
fn answer_field_is_served_first() {
    assert_eq!(agent_section_heights(&vec![3, 5, 2], Some(1), 7), vec![1, 5, 1]);
}

#[test]
fn remaining_rows_go_round_in_order() {
    assert_eq!(agent_section_heights(&vec![3, 5, 2], None, 8), vec![3, 3, 2]);
    assert_eq!(agent_section_heights(&vec![3, 5, 2], None, 20), vec![3, 5, 2]);
}

#[test]
fn only_the_first_fields_get_a_title_row_when_rows_are_short() {
    assert_eq!(agent_section_heights(&vec![3, 5, 2], Some(2), 2), vec![1, 1, 0]);
    assert_eq!(agent_section_heights(&vec![3, 5, 2], None, 0), vec![0, 0, 0]);
}
