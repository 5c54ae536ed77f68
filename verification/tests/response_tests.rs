use upload_server::response::{
    confirmation, Response, STATUS_BAD_REQUEST, STATUS_OK, STATUS_SERVER_ERROR,
};

#[test]
fn success_answer() {
    let r = Response::uploaded("./a.txt");
    assert_eq!(r.status, 200);
    assert_eq!(r.body, "File uploaded to './a.txt'");
    assert!(r.is_success());
}

#[test]
fn success_answer_without_any_part() {
    let r = Response::uploaded("");
    assert_eq!(r.status, 200);
    assert_eq!(r.body, "File uploaded to ''");
}

#[test]
fn missing_filename_answer() {
    let r = Response::missing_filename();
    assert_eq!(r.status, 400);
    assert_eq!(r.body, "No filename provided");
    assert!(!r.is_success());
}

#[test]
fn server_error_answer() {
    let r = Response::server_error("boundary not found");
    assert_eq!(r.status, 500);
    assert_eq!(r.body, "Server error: boundary not found");
    assert!(!r.is_success());
}

#[test]
fn status_constants() {
    assert_eq!(STATUS_OK, 200);
    assert_eq!(STATUS_BAD_REQUEST, 400);
    assert_eq!(STATUS_SERVER_ERROR, 500);
}

#[test]
fn confirmation_sentence() {
    assert_eq!(confirmation("./x_new.bin"), "File uploaded to './x_new.bin'");
}
