use rsp_host_executor::cache::{input_path, try_load_input_from_cache};

#[test]
fn path_of_a_cached_block() {
    assert_eq!(input_path(1, 20526624), "input/1/20526624.bin");
    assert_eq!(input_path(59144, 0), "input/59144/0.bin");
    assert_eq!(
        input_path(u64::MAX, u64::MAX),
        "input/18446744073709551615/18446744073709551615.bin"
    );
}

#[test]
fn paths_do_not_collide() {
    assert_ne!(input_path(1, 11), input_path(11, 1));
    assert_ne!(input_path(10, 1), input_path(1, 10));
    assert_ne!(input_path(0, 0), input_path(0, 10));
}

#[test]
fn loading_from_the_cache() {
    assert_eq!(try_load_input_from_cache::<u8, &str>(None), Ok(None));
    assert_eq!(try_load_input_from_cache::<u8, &str>(Some(Ok(7))), Ok(Some(7)));
    assert_eq!(try_load_input_from_cache::<u8, &str>(Some(Err("torn"))), Err("torn"));
}
