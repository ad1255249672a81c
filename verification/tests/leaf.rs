use orchestrate::leaf::{
    async_io_message, decimal_string, goodbye_message, max_u64, parallel_join,
    request_date_message,
};

#[test]
fn join_of_three_and_five_completes_at_five_with_both_results() {
    let joined = parallel_join(3, 5);
    assert_eq!(joined.elapsed, 5);
    assert_eq!(joined.first, String::from("《3》request_date"));
    assert_eq!(joined.second, String::from("《5》request_date"));
}

#[test]
fn join_elapsed_is_the_slower_delay_either_way() {
    assert_eq!(parallel_join(5, 3).elapsed, 5);
    assert_eq!(parallel_join(4, 4).elapsed, 4);
    assert_eq!(parallel_join(0, 20).elapsed, 20);
}

#[test]
fn leaf_message_spells_out_the_delay() {
    assert_eq!(request_date_message(0), String::from("《0》request_date"));
    assert_eq!(request_date_message(8), String::from("《8》request_date"));
    assert_eq!(request_date_message(12), String::from("《12》request_date"));
    assert_eq!(
        request_date_message(18446744073709551615),
        String::from("《18446744073709551615》request_date")
    );
}

#[test]
fn decimal_strings() {
    assert_eq!(decimal_string(0), String::from("0"));
    assert_eq!(decimal_string(9), String::from("9"));
    assert_eq!(decimal_string(10), String::from("10"));
    assert_eq!(decimal_string(305), String::from("305"));
}

#[test]
fn background_messages() {
    assert_eq!(async_io_message(), String::from("Hello, world!"));
    assert_eq!(goodbye_message(), String::from("Goodbye, world!"));
}

#[test]
fn max_of_two_durations() {
    assert_eq!(max_u64(1, 2), 2);
    assert_eq!(max_u64(2, 1), 2);
    assert_eq!(max_u64(7, 7), 7);
}
