use codec_bench::user::frame_object;
use codec_bench::user::write_outcome;
use codec_bench::user::PASSWORD_END;
use codec_bench::user::PASSWORD_MIN;
use codec_bench::GenerationError;
use codec_bench::User;

fn ada() -> User {
    User {
        firstname: String::from("Ada King"),
        lastname: String::from("Lovelace"),
        email: String::from("ada@example.org"),
        phone_number: String::from("(555) 010-1815 x36"),
        username: String::from("ada_l"),
        password: String::from("An4lyt1cal"),
    }
}

fn awkward() -> User {
    User {
        firstname: String::from("Zo\u{eb} \"Zed\""),
        lastname: String::from("O\\Neil"),
        email: String::from("line\nbreak@example.org"),
        phone_number: String::from("\t1-555"),
        username: String::from("\u{1}\u{1f600}"),
        password: String::from(""),
    }
}

fn field(value: &serde_json::Value, name: &str) -> String {
    String::from(value.get(name).unwrap().as_str().unwrap())
}

#[test]
fn password_range() {
    assert_eq!(PASSWORD_MIN, 8);
    assert_eq!(PASSWORD_END, 16);
}

#[test]
fn to_json_writes_the_fields_in_order() {
    assert_eq!(
        ada().to_json().unwrap(),
        "{\"firstname\":\"Ada King\",\"lastname\":\"Lovelace\",\"email\":\"ada@example.org\",\
         \"phone_number\":\"(555) 010-1815 x36\",\"username\":\"ada_l\",\
         \"password\":\"An4lyt1cal\"}"
    );
}

#[test]
fn to_json_escapes_what_json_asks_for() {
    assert_eq!(
        awkward().to_json().unwrap(),
        "{\"firstname\":\"Zo\u{eb} \\\"Zed\\\"\",\"lastname\":\"O\\\\Neil\",\
         \"email\":\"line\\nbreak@example.org\",\"phone_number\":\"\\t1-555\",\
         \"username\":\"\\u0001\u{1f600}\",\"password\":\"\"}"
    );
}

#[test]
fn to_json_is_read_back_by_a_json_parser() {
    for user in [ada(), awkward()] {
        let json = user.to_json().unwrap();
        let value: serde_json::Value = serde_json::from_str(&json).unwrap();
        assert_eq!(value.as_object().unwrap().len(), 6);
        assert_eq!(field(&value, "firstname"), user.firstname);
        assert_eq!(field(&value, "lastname"), user.lastname);
        assert_eq!(field(&value, "email"), user.email);
        assert_eq!(field(&value, "phone_number"), user.phone_number);
        assert_eq!(field(&value, "username"), user.username);
        assert_eq!(field(&value, "password"), user.password);
    }
}

#[test]
fn to_json_is_what_a_json_writer_gives_for_the_same_object() {
    let user = awkward();
    let json = user.to_json().unwrap();
    let value: serde_json::Value = serde_json::from_str(&json).unwrap();
    let mut names: Vec<String> = Vec::new();
    for (name, _) in value.as_object().unwrap() {
        names.push(name.clone());
    }
    names.sort();
    assert_eq!(names, vec!["email", "firstname", "lastname", "password", "phone_number", "username"]);
    assert_eq!(serde_json::to_string(&value).unwrap().len(), json.len());
}

#[test]
fn to_record_is_the_json_in_utf8() {
    for user in [ada(), awkward()] {
        assert_eq!(user.to_record().unwrap(), user.to_json().unwrap().into_bytes());
    }
}

#[test]
fn to_record_of_a_known_user_has_a_known_length() {
    assert_eq!(ada().to_record().unwrap().len(), 151);
}

#[test]
fn generate_gives_a_password_of_eight_to_fifteen_characters() {
    for _ in 0..500 {
        let user = User::generate();
        let length = user.password.chars().count();
        assert!(8 <= length && length < 16);
    }
}

#[test]
fn generate_fills_every_field() {
    for _ in 0..200 {
        let user = User::generate();
        assert!(!user.firstname.is_empty());
        assert!(!user.lastname.is_empty());
        assert!(user.email.contains("@example."));
        assert!(!user.phone_number.is_empty());
        assert!(!user.username.is_empty());
        assert!(user.to_json().is_ok());
    }
}

#[test]
fn generate_draws_anew_each_time() {
    let mut passwords: Vec<String> = Vec::new();
    for _ in 0..20 {
        passwords.push(User::generate().password);
    }
    passwords.sort();
    passwords.dedup();
    assert!(passwords.len() > 1);
}

#[test]
fn write_outcome_keeps_the_text() {
    assert_eq!(write_outcome(Ok(String::from("\"x\""))), Ok(String::from("\"x\"")));
}

#[test]
fn write_outcome_reports_a_failure_to_serialize() {
    let failure = serde_json::from_str::<serde_json::Value>("{").unwrap_err();
    assert_eq!(write_outcome(Err(failure)), Err(GenerationError::Serialize));
}

#[test]
fn frame_object_puts_each_literal_under_its_name() {
    assert_eq!(
        frame_object("\"a\"", "\"b\"", "\"c\"", "\"d\"", "\"e\"", "\"f\""),
        "{\"firstname\":\"a\",\"lastname\":\"b\",\"email\":\"c\",\"phone_number\":\"d\",\
         \"username\":\"e\",\"password\":\"f\"}"
    );
}

#[test]
fn frame_object_takes_the_literals_as_they_are() {
    assert_eq!(
        frame_object("1", "", "null", "\"\\\"\"", "[]", "x y"),
        "{\"firstname\":1,\"lastname\":,\"email\":null,\"phone_number\":\"\\\"\",\
         \"username\":[],\"password\":x y}"
    );
}

#[test]
fn to_json_succeeds_on_every_string() {
    let user = User {
        firstname: String::new(),
        lastname: String::from("\u{0}\u{7f}\u{ffff}"),
        email: String::from("\u{10ffff}"),
        phone_number: "x".repeat(100_000),
        username: String::from("\"\\/"),
        password: String::from("\u{8}\u{c}\r"),
    };
    let json = user.to_json().unwrap();
    let value: serde_json::Value = serde_json::from_str(&json).unwrap();
    assert_eq!(field(&value, "lastname"), user.lastname);
    assert_eq!(field(&value, "email"), user.email);
    assert_eq!(field(&value, "phone_number"), user.phone_number);
    assert_eq!(field(&value, "username"), user.username);
    assert_eq!(field(&value, "password"), user.password);
    assert_eq!(user.to_record().unwrap(), json.into_bytes());
}

#[test]
fn new_puts_each_string_in_its_field() {
    let user = User::new(
        String::from("a"),
        String::from("b"),
        String::from("c"),
        String::from("d"),
        String::from("e"),
        String::from("f"),
    );
    assert_eq!(user.firstname, "a");
    assert_eq!(user.lastname, "b");
    assert_eq!(user.email, "c");
    assert_eq!(user.phone_number, "d");
    assert_eq!(user.username, "e");
    assert_eq!(user.password, "f");
}

#[test]
fn generate_draws_each_field_from_its_own_source() {
    for _ in 0..200 {
        let user = User::generate();
        assert!(user.email.contains('@'));
        assert!(!user.username.contains('@'));
        assert!(!user.firstname.contains('@'));
        assert!(!user.lastname.contains('@'));
        assert!(user.phone_number.chars().any(|c| c.is_ascii_digit()));
        assert!(user.password.chars().all(|c| c.is_ascii_alphanumeric()));
    }
}

#[test]
fn generate_draws_the_two_names_apart() {
    let mut differ = false;
    for _ in 0..50 {
        let user = User::generate();
        if user.firstname != user.lastname {
            differ = true;
        }
    }
    assert!(differ);
}
