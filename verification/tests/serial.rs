use curriculum_board::cache::ListingCache;
use curriculum_board::error::{
    bad_request, conflict, forbidden, internal_server_error, not_found, unauthorized,
};
use curriculum_board::fingerprint::fingerprint_of;
use curriculum_board::listing::render_listing;
use curriculum_board::model::{NewCourse, UserInfo};
use curriculum_board::store::Store;
use sha3::Digest;

fn course_request(code: &str, name: &str) -> NewCourse {
    NewCourse {
        name: name.to_string(),
        code: code.to_string(),
        code_id: format!("{}.01", code),
        department: "Computer Science".to_string(),
        teachers: "Ada Lovelace".to_string(),
        credit: 3,
        max_student: 120,
        week_hour: 3,
        year: 2023,
        semester: 1,
        campus_name: "Main".to_string(),
    }
}

fn root() -> UserInfo {
    UserInfo { id: 1, is_admin: true }
}

#[test]
fn empty_listing_renders_empty_array() {
    let store = Store::new();
    assert_eq!(render_listing(&store.groups), "[]");
}

#[test]
fn listing_renders_exact_canonical_json() {
    let mut store = Store::new();
    store.add_course(course_request("CS101", "Intro"), root()).unwrap();
    let expected = "[{\"id\":1,\"name\":\"Intro\",\"code\":\"CS101\",\"department\":\"Computer Science\",\"campus_name\":\"Main\",\"course_list\":[{\"id\":1,\"name\":\"Intro\",\"code\":\"CS101\",\"code_id\":\"CS101.01\",\"department\":\"Computer Science\",\"teachers\":\"Ada Lovelace\",\"credit\":3,\"max_student\":120,\"week_hour\":3,\"year\":2023,\"semester\":1,\"campus_name\":\"Main\",\"coursegroup_id\":1}]}]";
    assert_eq!(render_listing(&store.groups), expected);
}

#[test]
fn listing_escapes_text_fields() {
    let mut store = Store::new();
    let mut nc = course_request("CS101", "Say \"hi\"\nnow");
    nc.teachers = "Tab\there \\ backslash \u{1} low".to_string();
    store.add_course(nc, root()).unwrap();
    let payload = render_listing(&store.groups);
    assert!(payload.contains("\"name\":\"Say \\\"hi\\\"\\nnow\""));
    assert!(payload.contains("\"teachers\":\"Tab\\there \\\\ backslash \\u0001 low\""));
    let parsed: serde_json::Value = serde_json::from_str(&payload).unwrap();
    let course = &parsed[0]["course_list"][0];
    assert_eq!(course["name"], "Say \"hi\"\nnow");
    assert_eq!(course["teachers"], "Tab\there \\ backslash \u{1} low");
}

#[test]
fn listing_renders_negative_numbers() {
    let mut store = Store::new();
    let mut nc = course_request("CS101", "Odd");
    nc.credit = -3;
    nc.year = -1;
    store.add_course(nc, root()).unwrap();
    let payload = render_listing(&store.groups);
    assert!(payload.contains("\"credit\":-3"));
    assert!(payload.contains("\"year\":-1"));
    let parsed: serde_json::Value = serde_json::from_str(&payload).unwrap();
    assert_eq!(parsed[0]["course_list"][0]["credit"], -3);
}

#[test]
fn fingerprint_matches_known_sha3_vector() {
    assert_eq!(
        fingerprint_of(""),
        "a7ffc6f8bf1ed76651c14756a061d662f580ff4de43b49fa82d80a4b80f8434a"
    );
}

#[test]
fn fingerprint_agrees_with_direct_digest() {
    let mut store = Store::new();
    store.add_course(course_request("CS101", "Intro"), root()).unwrap();
    let mut cache = ListingCache::new();
    let (payload, fp) = cache.get_listing(&store.groups);
    let digest = sha3::Sha3_256::digest(payload.as_bytes());
    let expected = base16ct::lower::encode_string(&digest);
    assert_eq!(fp, expected);
    assert_eq!(fp.len(), 64);
}

#[test]
fn error_constructors_carry_kind_and_status() {
    assert_eq!(not_found("a".to_string()).status_code(), 404);
    assert_eq!(conflict("b".to_string()).status_code(), 409);
    assert_eq!(unauthorized("c".to_string()).status_code(), 401);
    assert_eq!(bad_request("d".to_string()).status_code(), 400);
    assert_eq!(internal_server_error("e".to_string()).status_code(), 500);
    // insufficient privilege is surfaced as unauthorized in this design
    assert_eq!(forbidden("f".to_string()).status_code(), 401);
    let msg = not_found("missing".to_string()).to_message();
    assert_eq!(msg.message, "missing");
}
