use sdl_safe::SdlError;
use sdl_safe::classify_alloc_failure;

#[test]
fn out_of_memory_is_recognized_from_the_exact_text() {
    let e = classify_alloc_failure("Out of memory".to_string());
    assert_eq!(e, SdlError::OutOfMemory);
}

#[test]
fn any_other_text_stays_a_generic_failure() {
    let e = classify_alloc_failure("out of memory".to_string());
    assert_eq!(e, SdlError::Others { msg: "out of memory".to_string() });
    let e = classify_alloc_failure("No such device".to_string());
    assert_eq!(e, SdlError::Others { msg: "No such device".to_string() });
    let e = classify_alloc_failure(String::new());
    assert_eq!(e, SdlError::Others { msg: String::new() });
}
