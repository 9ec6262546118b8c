use dc_cell::replace_with_dc;
use dc_cell::DcOption;
use dc_cell::DcResultErr;
use dc_cell::DcResultOk;
use dc_cell::DcSlice;

#[test]
fn option_extraction() {
    let present: Option<i32> = Some(5);
    assert_eq!(present.unwrap_dc(), 5);
    let present: Option<&str> = Some("x");
    assert_eq!(present.expect_dc("is present"), "x");
}

#[test]
fn result_ok_extraction() {
    let ok: Result<i32, String> = Ok(5);
    assert_eq!(ok.unwrap_dc_ok(), 5);
    let ok: Result<i32, String> = Ok(6);
    assert_eq!(ok.expect_dc_ok("is ok"), 6);
}

#[test]
fn result_err_extraction() {
    let failed: Result<i32, String> = Err(String::from("broken"));
    assert_eq!(failed.unwrap_dc_err(), "broken");
    let failed: Result<i32, String> = Err(String::from("still broken"));
    assert_eq!(failed.expect_dc_err("is err"), "still broken");
}

#[test]
fn slice_indexing() {
    let values = vec![10i32, 20, 30];
    assert_eq!(*values[..].get_dc(0), 10);
    assert_eq!(*values[..].get_dc(2), 30);
    assert_eq!(*values[..].get_expect_dc(1, "in range"), 20);
}

#[test]
fn replace_in_place() {
    let mut value = 10i32;
    replace_with_dc(&mut value, |v: &i32| v + 1);
    assert_eq!(value, 11);
    let mut text = String::from("ab");
    replace_with_dc(&mut text, |s: &String| format!("{}c", s));
    assert_eq!(text, "abc");
}
